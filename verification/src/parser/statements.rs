//! Statement AST nodes and their parsers.

use vstd::prelude::*;

verus! {

use crate::lexer::{Kind, TokenId, Keyword, Operator, AssignKind, Delimiter};

broadcast use super::parser::lemma_prefix_push, super::parser::lemma_prefix_trans;
use super::error::{ParseError, ExpectedItem, Item, ItemKind, ItemSequence, SyntaxError};
use super::expressions::{ExprKind, TypePathExpr};
use super::model::{
    StmtModel, stmt_view, var_view, stmts_view_from, var_result_view, assign_result_view,
    block_result_view, if_result_view, stmt_result_view, at_least, expected_here_at,
    expected_after_at, expression_step, variable_step, variable_tail_step, assign_step, block_step, if_step,
    statement_step, statements_loop_step, statements_step,
};
use super::parser::Parser;
use super::span::Span;
use super::token_stream::{Token, kind_at};

/// A statement.
#[derive(Debug)]
pub enum StmtKind {
    /// A bare expression
    Expr(ExprKind),
    /// A variable declaration
    Var(VarStmt),
    /// An assignment
    Assign(AssignStmt),
    /// A brace-delimited statement sequence
    Block(BlockStmt),
    /// A conditional
    If(IfStmt),
}

/// Why a statement could not be parsed.  `Eof` is an internal unwinding
/// signal, never surfaced as a user-visible diagnostic.
#[derive(Debug, Clone, Copy, PartialEq, Eq, Structural)]
pub enum ParseStmtError {
    Expr,
    Var,
    Assign,
    Block,
    If,
    Eof,
}

/// Declaration visibility.
#[derive(Debug, Clone, Copy, PartialEq, Eq, Structural)]
pub enum Visibility {
    Private,
    Public,
}

/// Whether a `let` declaration is marked `mut`.
#[derive(Debug, Clone, Copy, PartialEq, Eq, Structural)]
pub enum Mutability {
    Not,
    Mut,
}

/// The declaring keyword of a variable declaration.
#[derive(Debug, Clone, Copy, PartialEq, Eq, Structural)]
pub enum VarKind {
    Const,
    Let,
}

/// `['pub'] ('let' ['mut'] | 'const') ident [':' type] ['=' statement]`.
/// The initializer is a full statement, so nested declarations are accepted
/// syntactically and flagged as a diagnostic rather than rejected.
#[derive(Debug)]
pub struct VarStmt {
    pub span: Span,
    pub vis: Visibility,
    pub kind: VarKind,
    pub mutability: Mutability,
    pub name: TokenId,
    pub type_path: Option<TypePathExpr>,
    pub stmt_start: TokenId,
    pub stmt: Option<Box<StmtKind>>,
}

/// `expression assign-operator statement`.
#[derive(Debug)]
pub struct AssignStmt {
    pub call: Box<ExprKind>,
    pub op: AssignKind,
    pub stmt: Box<StmtKind>,
}

/// `'{' statement* '}'`.
#[derive(Debug)]
pub struct BlockStmt(pub Vec<StmtKind>);

/// `'if' statement block ['else' statement]`.  The condition slot is a full
/// statement by design, not a restricted boolean expression.
#[derive(Debug)]
pub struct IfStmt {
    pub condition: Box<StmtKind>,
    pub block: BlockStmt,
    pub else_stmt: Option<Box<StmtKind>>,
}

/// Structural soundness of a statement against the token stream it was
/// parsed from: every name references an identifier token, and every nested
/// expression and statement is sound in turn.
pub open spec fn stmt_ok(toks: Seq<Kind>, s: StmtKind) -> bool
    decreases s,
{
    match s {
        StmtKind::Expr(e) => super::expressions::expr_ok(toks, e),
        StmtKind::Var(v) => {
            &&& super::token_stream::kind_at(toks, v.name.0 as int) == Kind::Ident
            &&& (match v.stmt {
                Some(inner) => stmt_ok(toks, *inner),
                None => true,
            })
            &&& (match v.type_path {
                Some(tp) => super::token_stream::kind_at(toks, tp.start.0 as int) == Kind::Ident,
                None => true,
            })
        },
        StmtKind::Assign(a) => super::expressions::expr_ok(toks, *a.call) && stmt_ok(
            toks,
            *a.stmt,
        ),
        StmtKind::Block(b) => stmts_ok_from(toks, b.0@, 0),
        StmtKind::If(f) => {
            &&& stmt_ok(toks, *f.condition)
            &&& stmts_ok_from(toks, f.block.0@, 0)
            &&& (match f.else_stmt {
                Some(e) => stmt_ok(toks, *e),
                None => true,
            })
        },
    }
}

/// Structural soundness of every statement of `ss` from index `i` on.
pub open spec fn stmts_ok_from(toks: Seq<Kind>, ss: Seq<StmtKind>, i: int) -> bool
    decreases ss, ss.len() - i,
{
    if 0 <= i < ss.len() {
        stmt_ok(toks, ss[i]) && stmts_ok_from(toks, ss, i + 1)
    } else {
        true
    }
}

/// Each statement of a sound sequence is sound.
pub proof fn lemma_stmts_ok_index(toks: Seq<Kind>, ss: Seq<StmtKind>, j: int)
    requires
        stmts_ok_from(toks, ss, 0),
        0 <= j < ss.len(),
    ensures
        stmt_ok(toks, ss[j]),
{
    lemma_stmts_ok_step(toks, ss, 0, j);
}

proof fn lemma_stmts_ok_step(toks: Seq<Kind>, ss: Seq<StmtKind>, i: int, j: int)
    requires
        stmts_ok_from(toks, ss, i),
        0 <= i <= j < ss.len(),
    ensures
        stmt_ok(toks, ss[j]),
    decreases j - i,
{
    if i < j {
        lemma_stmts_ok_step(toks, ss, i + 1, j);
    }
}

/// A sound sequence stays sound when a sound statement is appended.
pub proof fn lemma_stmts_ok_push(toks: Seq<Kind>, ss: Seq<StmtKind>, x: StmtKind)
    requires
        stmts_ok_from(toks, ss, 0),
        stmt_ok(toks, x),
    ensures
        stmts_ok_from(toks, ss.push(x), 0),
{
    lemma_stmts_ok_push_from(toks, ss, x, 0);
}

proof fn lemma_stmts_ok_push_from(toks: Seq<Kind>, ss: Seq<StmtKind>, x: StmtKind, i: int)
    requires
        stmts_ok_from(toks, ss, i),
        stmt_ok(toks, x),
        0 <= i <= ss.len(),
    ensures
        stmts_ok_from(toks, ss.push(x), i),
    decreases ss.len() - i,
{
    if i < ss.len() {
        assert(ss.push(x)[i] == ss[i]);
        lemma_stmts_ok_push_from(toks, ss, x, i + 1);
    } else {
        assert(ss.push(x)[i] == x);
        assert(stmts_ok_from(toks, ss.push(x), i + 1));
    }
}

/// The diagnostic for an assignment whose right-hand side is missing.
pub fn stmt_after_assign_expected(assign: Token) -> (r: ExpectedItem)
    ensures
        r == (ExpectedItem {
            place: super::error::Place::After,
            expected: ItemSequence::StmtWithReturnValue,
            found: super::error::item_kind_of(assign.kind),
            span: Span { start: assign.id, end: assign.id },
        }),
{
    ExpectedItem::after(ItemSequence::StmtWithReturnValue, Item::from_token(assign))
}

impl Parser {
    /// A variable declaration: exactly [`variable_step`].  A missing `=`
    /// ends the declaration without an initializer; a declaration used as
    /// the initializer is accepted and flagged with one diagnostic.
    #[verifier::rlimit(100)]
    pub fn parse_variable(&mut self) -> (r: Result<VarStmt, ()>)
        requires
            old(self).wf(),
        ensures
            final(self).advances_from(*old(self)),
            r is Ok ==> old(self).cur() < final(self).cur(),
            r matches Ok(var) ==> stmt_ok(old(self).toks(), StmtKind::Var(var)),
            ({
                let (mr, me, merrs) = variable_step(old(self).toks(), old(self).cur());
                &&& var_result_view(r) == mr
                &&& final(self).cur() == me
                &&& final(self).errors@ == old(self).errors@ + merrs
            }),
        decreases self.toks().len() - self.cur(), 15int,
    {
        let ghost toks = self.toks();
        let ghost c0 = self.cur();
        let mut start_opt: Option<TokenId> = None;
        let vis = match self.stream.maybe(Kind::Keyword(Keyword::Pub)) {
            Some(id) => {
                start_opt = Some(id);
                Visibility::Public
            },
            None => Visibility::Private,
        };
        let token = match self.peek() {
            Ok(t) => t,
            Err(_) => {
                proof {
                    assert(self.errors@ =~= self.errors@ + Seq::<ParseError>::empty());
                }
                return Err(());
            },
        };
        self.stream.skip();
        let start = match start_opt {
            Some(s) => s,
            None => token.id,
        };
        let kind = match token.kind {
            Kind::Keyword(Keyword::Const) => VarKind::Const,
            Kind::Keyword(Keyword::Let) => VarKind::Let,
            _ => {
                proof {
                    assert(self.errors@ =~= self.errors@ + Seq::<ParseError>::empty());
                }
                return Err(());
            },
        };
        let mutability = match self.stream.maybe(Kind::Keyword(Keyword::Mut)) {
            Some(_) => Mutability::Mut,
            None => Mutability::Not,
        };
        let ghost m1 = self.cur();
        let name_token = self.stream.first();
        if !matches!(name_token.kind, Kind::Ident) {
            self.push_error(
                ParseError::Expected(
                    ExpectedItem::here(
                        ItemSequence::Single(ItemKind::Ident),
                        Item::from_token(name_token),
                    ),
                ),
            );
            proof {
                assert(self.errors@ =~= old(self).errors@ + seq![
                    expected_here_at(
                        ItemSequence::Single(ItemKind::Ident),
                        super::error::item_kind_of(kind_at(toks, m1)),
                        m1,
                    ),
                ]);
            }
            return Err(());
        }
        let name = name_token.id;
        self.stream.skip();
        let type_path = match self.stream.maybe(Kind::Colon) {
            Some(_) => match self.parse_type_path() {
                Ok(t) => Some(t),
                Err(_) => {
                    return Err(());
                },
            },
            None => None,
        };
        let ghost q = self.cur();
        proof {
            if kind_at(toks, m1 + 1) == Kind::Colon {
                assert(at_least(q, m1 + 2) == q);
            }
            assert(name == super::model::id_at(m1));
            assert(start.0 as int == c0);
        }
        let r = self.variable_tail(start, vis, kind, mutability, name, type_path);
        r
    }

    /// The tail of a variable declaration, after its head up to an optional
    /// type annotation has been consumed: exactly [`variable_tail_step`].
    fn variable_tail(
        &mut self,
        start: TokenId,
        vis: Visibility,
        kind: VarKind,
        mutability: Mutability,
        name: TokenId,
        type_path: Option<TypePathExpr>,
    ) -> (r: Result<VarStmt, ()>)
        requires
            old(self).wf(),
            start.0 as int <= old(self).cur(),
            kind_at(old(self).toks(), name.0 as int) == Kind::Ident,
            type_path matches Some(tp) ==> kind_at(old(self).toks(), tp.start.0 as int)
                == Kind::Ident,
        ensures
            final(self).advances_from(*old(self)),
            r matches Ok(var) ==> stmt_ok(old(self).toks(), StmtKind::Var(var)),
            ({
                let (mr, me, merrs) = variable_tail_step(
                    old(self).toks(),
                    start.0 as int,
                    vis,
                    kind,
                    mutability,
                    name,
                    type_path,
                    old(self).cur(),
                );
                &&& var_result_view(r) == mr
                &&& final(self).cur() == me
                &&& final(self).errors@ == old(self).errors@ + merrs
            }),
        decreases self.toks().len() - self.cur(), 14int,
    {
        let ghost toks = self.toks();
        let ghost q = self.cur();
        let eq_token = self.stream.first();
        match eq_token.kind {
            Kind::Operator(Operator::Assign(AssignKind::Eq)) => {},
            Kind::Operator(Operator::Assign(_)) => {
                // a compound operator where `=` belongs: flag it, then read
                // the initializer as if it were `=`
                self.push_error(
                    ParseError::Expected(
                        ExpectedItem::here(
                            ItemSequence::Single(ItemKind::Assign(Some(AssignKind::Eq))),
                            Item::from_token(eq_token),
                        ),
                    ),
                );
            },
            _ => {
                // no initializer: a complete declaration
                let var = VarStmt {
                    span: Span::new(start, eq_token.id),
                    vis,
                    kind,
                    mutability,
                    name,
                    type_path,
                    stmt_start: eq_token.id,
                    stmt: None,
                };
                proof {
                    assert(self.errors@ =~= self.errors@ + Seq::<ParseError>::empty());
                }
                return Ok(var);
            },
        }
        self.stream.skip();
        let ghost flag = if kind_at(toks, q) == Kind::Operator(
            Operator::Assign(AssignKind::Eq),
        ) {
            Seq::<ParseError>::empty()
        } else {
            seq![
                expected_here_at(
                    ItemSequence::Single(ItemKind::Assign(Some(AssignKind::Eq))),
                    super::error::item_kind_of(kind_at(toks, q)),
                    q,
                ),
            ]
        };
        proof {
            assert(self.errors@ =~= old(self).errors@ + flag);
        }
        let stmt_start = self.stream.current_id();
        let stmt = match self.parse_statement() {
            Ok(s) => s,
            Err(_) => {
                proof {
                    assert(self.errors@ =~= old(self).errors@ + (flag + statement_step(
                        toks,
                        q + 1,
                    ).2));
                }
                return Err(());
            },
        };
        let ghost se = self.cur();
        let end = self.stream.current_id();
        match &stmt {
            StmtKind::Var(var) => {
                let value = ParseError::Syntax(SyntaxError::UnvalidAssignment { span: var.span });
                self.push_error(value);
                proof {
                    assert(stmt_view(stmt) == StmtModel::Var(var_view(*var)));
                }
            },
            StmtKind::Expr(_) => {
                proof {
                    assert(!(stmt_view(stmt) matches StmtModel::Var(_)));
                }
            },
            StmtKind::Assign(_) => {
                proof {
                    assert(!(stmt_view(stmt) matches StmtModel::Var(_)));
                }
            },
            StmtKind::Block(_) => {
                proof {
                    assert(!(stmt_view(stmt) matches StmtModel::Var(_)));
                }
            },
            StmtKind::If(_) => {
                proof {
                    assert(!(stmt_view(stmt) matches StmtModel::Var(_)));
                }
            },
        }
        let ghost nested = match stmt_view(stmt) {
            StmtModel::Var(v2) => seq![
                ParseError::Syntax(SyntaxError::UnvalidAssignment { span: v2.span }),
            ],
            _ => Seq::<ParseError>::empty(),
        };
        let var = VarStmt {
            span: Span::new(start, end),
            vis,
            kind,
            mutability,
            name,
            type_path,
            stmt_start,
            stmt: Some(Box::new(stmt)),
        };
        proof {
            assert(stmt_start == super::model::id_at(q + 1));
            assert(end == super::model::id_at(se));
            assert(self.errors@ =~= old(self).errors@ + (flag + (statement_step(toks, q + 1).2
                + nested)));
        }
        Ok(var)
    }

    /// An assignment: a leading expression, an assignment operator, and a
    /// full statement as the right-hand side.  Exactly [`assign_step`].
    pub fn parse_assign(&mut self) -> (r: Result<AssignStmt, ()>)
        requires
            old(self).wf(),
        ensures
            final(self).advances_from(*old(self)),
            r is Ok ==> old(self).cur() < final(self).cur(),
            super::token_stream::kind_at(old(self).toks(), old(self).cur()) == Kind::Eof ==> r
                is Err,
            r matches Ok(a) ==> stmt_ok(old(self).toks(), StmtKind::Assign(a)),
            ({
                let (mr, me, merrs) = assign_step(old(self).toks(), old(self).cur());
                &&& assign_result_view(r) == mr
                &&& final(self).cur() == me
                &&& final(self).errors@ == old(self).errors@ + merrs
            }),
        decreases self.toks().len() - self.cur(), 15int,
    {
        let ghost toks = self.toks();
        let ghost c0 = self.cur();
        let call = match self.parse_expression() {
            Ok(e) => e,
            Err(_) => {
                return Err(());
            },
        };
        let ghost ee = self.cur();
        proof {
            assert(at_least(ee, c0) == ee);
        }
        let token = match self.peek() {
            Ok(t) => t,
            Err(_) => {
                return Err(());
            },
        };
        let op = match token.kind {
            Kind::Operator(Operator::Assign(kind)) => kind,
            _ => {
                self.push_error(
                    ParseError::Expected(
                        ExpectedItem::here(ItemSequence::Assign, Item::from_token(token)),
                    ),
                );
                proof {
                    assert(self.errors@ =~= old(self).errors@ + (expression_step(toks, c0).2
                        + seq![
                        expected_here_at(
                            ItemSequence::Assign,
                            super::error::item_kind_of(kind_at(toks, ee)),
                            ee,
                        ),
                    ]));
                }
                return Err(());
            },
        };
        let assign = self.stream.next();
        let stmt = match self.parse_statement() {
            Ok(s) => s,
            Err(_) => {
                self.push_error(ParseError::Expected(stmt_after_assign_expected(assign)));
                proof {
                    assert(self.errors@ =~= old(self).errors@ + (expression_step(toks, c0).2
                        + (statement_step(toks, ee + 1).2 + seq![
                        expected_after_at(
                            ItemSequence::StmtWithReturnValue,
                            super::error::item_kind_of(kind_at(toks, ee)),
                            ee,
                        ),
                    ])));
                }
                return Err(());
            },
        };
        let r = Ok(AssignStmt { call: Box::new(call), op, stmt: Box::new(stmt) });
        proof {
            assert(self.errors@ =~= old(self).errors@ + (expression_step(toks, c0).2
                + statement_step(toks, ee + 1).2));
        }
        r
    }

    /// A brace-delimited statement sequence: exactly [`block_step`].
    pub fn parse_block(&mut self) -> (r: Result<BlockStmt, ()>)
        requires
            old(self).wf(),
        ensures
            final(self).advances_from(*old(self)),
            r is Ok ==> old(self).cur() < final(self).cur(),
            r is Ok ==> super::token_stream::kind_at(old(self).toks(), old(self).cur())
                == Kind::OpenDelim(Delimiter::Brace),
            r matches Ok(b) ==> stmt_ok(old(self).toks(), StmtKind::Block(b)),
            super::token_stream::kind_at(old(self).toks(), old(self).cur()) != Kind::OpenDelim(
                Delimiter::Brace,
            ) ==> r is Err && final(self).cur() == old(self).cur() && final(self).errors@ == old(
                self,
            ).errors@,
            ({
                let (mr, me, merrs) = block_step(old(self).toks(), old(self).cur());
                &&& block_result_view(r) == mr
                &&& final(self).cur() == me
                &&& final(self).errors@ == old(self).errors@ + merrs
            }),
        decreases self.toks().len() - self.cur(), 15int,
    {
        let ghost toks = self.toks();
        let ghost c0 = self.cur();
        if self.expect(Kind::OpenDelim(Delimiter::Brace)).is_err() {
            proof {
                assert(self.errors@ =~= self.errors@ + Seq::<ParseError>::empty());
            }
            return Err(());
        }
        let stmts = match self.parse_statements() {
            Ok(s) => s,
            Err(_) => {
                return Err(());
            },
        };
        if self.expect(Kind::CloseDelim(Delimiter::Brace)).is_err() {
            return Err(());
        }
        Ok(BlockStmt(stmts))
    }

    /// A conditional: `'if' statement block ['else' statement]`.  Exactly
    /// [`if_step`].
    pub fn parse_if(&mut self) -> (r: Result<IfStmt, ()>)
        requires
            old(self).wf(),
        ensures
            final(self).advances_from(*old(self)),
            r is Ok ==> old(self).cur() < final(self).cur(),
            r is Ok ==> super::token_stream::kind_at(old(self).toks(), old(self).cur())
                == Kind::Keyword(Keyword::If),
            r matches Ok(f) ==> stmt_ok(old(self).toks(), StmtKind::If(f)),
            super::token_stream::kind_at(old(self).toks(), old(self).cur()) != Kind::Keyword(
                Keyword::If,
            ) ==> r is Err && final(self).cur() == old(self).cur() && final(self).errors@ == old(
                self,
            ).errors@,
            ({
                let (mr, me, merrs) = if_step(old(self).toks(), old(self).cur());
                &&& if_result_view(r) == mr
                &&& final(self).cur() == me
                &&& final(self).errors@ == old(self).errors@ + merrs
            }),
        decreases self.toks().len() - self.cur(), 15int,
    {
        let ghost toks = self.toks();
        let ghost c0 = self.cur();
        if self.expect(Kind::Keyword(Keyword::If)).is_err() {
            proof {
                assert(self.errors@ =~= self.errors@ + Seq::<ParseError>::empty());
            }
            return Err(());
        }
        let condition = match self.parse_statement() {
            Ok(s) => s,
            Err(_) => {
                return Err(());
            },
        };
        let ghost ce = self.cur();
        proof {
            assert(at_least(ce, c0 + 1) == ce);
        }
        let block = match self.parse_block() {
            Ok(b) => b,
            Err(_) => {
                proof {
                    assert(self.errors@ =~= old(self).errors@ + (statement_step(toks, c0 + 1).2
                        + block_step(toks, ce).2));
                }
                return Err(());
            },
        };
        let ghost be = self.cur();
        proof {
            assert(at_least(be, c0 + 1) == be);
        }
        let else_stmt = match self.stream.maybe(Kind::Keyword(Keyword::Else)) {
            Some(_) => match self.parse_statement() {
                Ok(s) => Some(Box::new(s)),
                Err(_) => {
                    proof {
                        assert(self.errors@ =~= old(self).errors@ + (statement_step(
                            toks,
                            c0 + 1,
                        ).2 + (block_step(toks, ce).2 + statement_step(toks, be + 1).2)));
                    }
                    return Err(());
                },
            },
            None => None,
        };
        let r = Ok(IfStmt { condition: Box::new(condition), block, else_stmt });
        proof {
            let tail_errs = if kind_at(toks, be) == Kind::Keyword(Keyword::Else) {
                block_step(toks, ce).2 + statement_step(toks, be + 1).2
            } else {
                block_step(toks, ce).2
            };
            assert(self.errors@ =~= old(self).errors@ + (statement_step(toks, c0 + 1).2
                + tail_errs));
        }
        r
    }

    /// One statement, chosen by lookahead: exactly [`statement_step`] — a
    /// block at `{`, a conditional at `if`, a declaration when `const`,
    /// `let` or `mut` follows an optional `pub`, otherwise an expression,
    /// retried as an assignment from a restored frame exactly when an
    /// assignment operator follows it.
    pub fn parse_statement(&mut self) -> (r: Result<StmtKind, ParseStmtError>)
        requires
            old(self).wf(),
        ensures
            final(self).advances_from(*old(self)),
            r is Ok ==> old(self).cur() < final(self).cur(),
            r matches Ok(s) ==> stmt_ok(old(self).toks(), s),
            ({
                let (mr, me, merrs) = statement_step(old(self).toks(), old(self).cur());
                &&& stmt_result_view(r) == mr
                &&& final(self).cur() == me
                &&& final(self).errors@ == old(self).errors@ + merrs
            }),
        decreases self.toks().len() - self.cur(), 18int,
    {
        let ghost toks = self.toks();
        let ghost c0 = self.cur();
        let token = match self.peek() {
            Ok(t) => t,
            Err(_) => {
                proof {
                    assert(self.errors@ =~= self.errors@ + Seq::<ParseError>::empty());
                }
                return Err(ParseStmtError::Eof);
            },
        };
        if matches!(token.kind, Kind::OpenDelim(Delimiter::Brace)) {
            return match self.parse_block() {
                Ok(block) => Ok(StmtKind::Block(block)),
                Err(_) => Err(ParseStmtError::Block),
            };
        }
        if matches!(token.kind, Kind::Keyword(Keyword::If)) {
            return match self.parse_if() {
                Ok(if_stmt) => Ok(StmtKind::If(if_stmt)),
                Err(_) => Err(ParseStmtError::If),
            };
        }
        let frame = self.frame();
        let _ = self.stream.maybe(Kind::Keyword(Keyword::Pub));
        let peeked = self.peek();
        let ghost mid = self.errors@;
        self.set_frame(frame);
        proof {
            assert(old(self).errors@ =~= mid.subrange(0, old(self).errors@.len() as int));
            assert(self.errors@ =~= old(self).errors@);
        }
        let token = match peeked {
            Ok(t) => t,
            Err(_) => {
                proof {
                    assert(self.errors@ =~= self.errors@ + Seq::<ParseError>::empty());
                }
                return Err(ParseStmtError::Eof);
            },
        };
        if matches!(
            token.kind,
            Kind::Keyword(Keyword::Const) | Kind::Keyword(Keyword::Let) | Kind::Keyword(
                Keyword::Mut,
            )
        ) {
            return match self.parse_variable() {
                Ok(var) => Ok(StmtKind::Var(var)),
                Err(_) => Err(ParseStmtError::Var),
            };
        }
        let frame = self.frame();
        let expr = match self.parse_expression() {
            Ok(e) => e,
            Err(_) => {
                return Err(ParseStmtError::Eof);
            },
        };
        let token = match self.peek() {
            Ok(t) => t,
            Err(_) => {
                return Err(ParseStmtError::Eof);
            },
        };
        if matches!(token.kind, Kind::Operator(Operator::Assign(_))) {
            let ghost mid = self.errors@;
            self.set_frame(frame);
            proof {
                assert(old(self).errors@ =~= mid.subrange(0, old(self).errors@.len() as int));
                assert(self.errors@ =~= old(self).errors@);
            }
            return match self.parse_assign() {
                Ok(assign) => Ok(StmtKind::Assign(assign)),
                Err(_) => Err(ParseStmtError::Assign),
            };
        }
        Ok(StmtKind::Expr(expr))
    }

    /// Statements until one fails: exactly [`statements_step`], never an
    /// error itself.  An assignment or declaration takes a following `;`
    /// when present and ends the sequence at `}`; a plain expression takes a
    /// `;` unless `}` follows; blocks and conditionals need no separator.
    /// A failing statement terminates the sequence: the remaining tokens
    /// are not scanned for a synchronization point, a deliberate scope
    /// limitation rather than silent loss.
    pub fn parse_statements(&mut self) -> (r: Result<Vec<StmtKind>, ()>)
        requires
            old(self).wf(),
        ensures
            final(self).advances_from(*old(self)),
            r is Ok,
            r matches Ok(v) ==> stmts_ok_from(old(self).toks(), v@, 0),
            ({
                let (ms, me, merrs) = statements_step(old(self).toks(), old(self).cur());
                &&& (r matches Ok(v) ==> stmts_view_from(v@, 0) == ms)
                &&& final(self).cur() == me
                &&& final(self).errors@ == old(self).errors@ + merrs
            }),
        decreases self.toks().len() - self.cur(), 20int,
    {
        let mut stmts: Vec<StmtKind> = Vec::new();
        self.statements_tail(&mut stmts);
        Ok(stmts)
    }

    /// The statement loop, collecting into `stmts`: exactly
    /// [`statements_loop_step`] over the statements already collected.
    fn statements_tail(&mut self, stmts: &mut Vec<StmtKind>)
        requires
            old(self).wf(),
        ensures
            final(self).advances_from(*old(self)),
            stmts_ok_from(old(self).toks(), old(stmts)@, 0) ==> stmts_ok_from(
                old(self).toks(),
                final(stmts)@,
                0,
            ),
            ({
                let (ms, me, merrs) = statements_loop_step(
                    old(self).toks(),
                    old(self).cur(),
                    stmts_view_from(old(stmts)@, 0),
                );
                &&& stmts_view_from(final(stmts)@, 0) == ms
                &&& final(self).cur() == me
                &&& final(self).errors@ == old(self).errors@ + merrs
            }),
        decreases self.toks().len() - self.cur(), 19int,
    {
        let ghost toks = self.toks();
        let ghost c0 = self.cur();
        let first = self.stream.first();
        if matches!(first.kind, Kind::Eof) {
            proof {
                assert(self.errors@ =~= self.errors@ + Seq::<ParseError>::empty());
            }
            return ;
        }
        match self.parse_statement() {
            Ok(stmt) => {
                proof {
                    if stmts_ok_from(toks, stmts@, 0) {
                        lemma_stmts_ok_push(toks, stmts@, stmt);
                    }
                    lemma_stmts_view_push(stmts@, stmt);
                }
                let ghost se2 = self.cur();
                proof {
                    assert(at_least(se2, c0 + 1) == se2);
                }
                if matches!(stmt, StmtKind::Assign(_) | StmtKind::Var(_)) {
                    let _ = self.expect(Kind::Semi);
                    let token = self.stream.first();
                    if matches!(token.kind, Kind::CloseDelim(Delimiter::Brace)) {
                        stmts.push(stmt);
                        proof {
                            assert(self.errors@ =~= old(self).errors@ + statement_step(
                                toks,
                                c0,
                            ).2);
                        }
                        return ;
                    }
                    stmts.push(stmt);
                } else if matches!(stmt, StmtKind::Expr(_)) {
                    let token = self.stream.first();
                    if !matches!(token.kind, Kind::CloseDelim(Delimiter::Brace)) {
                        let _ = self.expect(Kind::Semi);
                    }
                    stmts.push(stmt);
                } else {
                    stmts.push(stmt);
                }
                let ghost p1 = self.cur();
                let ghost acc1 = stmts@;
                self.statements_tail(stmts);
                proof {
                    assert(self.errors@ =~= old(self).errors@ + (statement_step(toks, c0).2
                        + statements_loop_step(toks, p1, stmts_view_from(acc1, 0)).2));
                }
            },
            Err(_) => {
                return ;
            },
        }
    }
}

/// Appending to a statement sequence appends its ghost mirror.
proof fn lemma_stmts_view_push(ss: Seq<StmtKind>, x: StmtKind)
    ensures
        stmts_view_from(ss.push(x), 0) =~= stmts_view_from(ss, 0).push(stmt_view(x)),
{
    lemma_stmts_view_push_from(ss, x, 0);
}

proof fn lemma_stmts_view_push_from(ss: Seq<StmtKind>, x: StmtKind, i: int)
    requires
        0 <= i <= ss.len(),
    ensures
        stmts_view_from(ss.push(x), i) =~= stmts_view_from(ss, i).push(stmt_view(x)),
    decreases ss.len() - i,
{
    if i < ss.len() {
        assert(ss.push(x)[i] == ss[i]);
        lemma_stmts_view_push_from(ss, x, i + 1);
        assert(stmts_view_from(ss.push(x), i) =~= seq![stmt_view(ss[i])] + stmts_view_from(
            ss.push(x),
            i + 1,
        ));
    } else {
        assert(ss.push(x)[i] == x);
        assert(stmts_view_from(ss.push(x), i + 1) =~= Seq::<StmtModel>::empty());
        assert(stmts_view_from(ss, i) =~= Seq::<StmtModel>::empty());
    }
}

} // verus!
