//! Expression AST nodes and their parsers.
//!
//! Expressions are parsed by precedence climbing: a chain of levels from
//! loosest (`||`) to tightest (`^`), then unary prefixes, then calls, paths
//! and values.  See [`super::Parser::parse_binary`] for the level loop.

use vstd::prelude::*;

verus! {

use crate::lexer::{Kind, TokenId, Keyword, Operator, BinaryKind, Delimiter};

broadcast use super::parser::lemma_prefix_push, super::parser::lemma_prefix_trans;
use super::error::{ParseError, ExpectedItem, Item, ItemKind, ItemSequence};
use super::model::{
    ExprModel, expr_view, expr_result_view, at_least, expected_here_at, unexpected_at,
    keyword_item_kind, lit_step, type_path_segments_step, type_path_step, path_segments_step,
    path_step, value_step, call_step, unary_prefix_step, unary_step, expression_step,
};
use super::parser::Parser;
use super::span::Span;
use super::token_stream::kind_at;

/// An expression.
#[derive(Debug)]
pub enum ExprKind {
    /// A literal, by token id
    Lit(LitExpr),
    /// A possibly qualified name
    Path(PathExpr),
    /// Prefix operators applied to an expression
    Unary(UnaryExpr),
    /// A binary operator applied to two expressions
    Binary(BinaryExpr),
}

/// An index for expressions stored in a side table.
#[derive(Debug, Clone, Copy, PartialEq, Eq, Structural)]
pub struct ExprId(pub usize);

/// A literal expression: the id of its token.
#[derive(Debug, Clone, Copy, PartialEq, Eq, Structural)]
pub struct LitExpr(pub TokenId);

/// A path: `[::] ident (:: ident)* (. ident)*`.  Module segments and member
/// segments are counted separately; `start` is the leading identifier.
#[derive(Debug, Clone, Copy, PartialEq, Eq, Structural)]
pub struct PathExpr {
    pub start: TokenId,
    pub mod_len: u32,
    pub var_len: u32,
}

impl PathExpr {
    pub fn new(start: TokenId, mod_len: u32, var_len: u32) -> (p: Self)
        ensures
            p == (PathExpr { start, mod_len, var_len }),
    {
        Self { start, mod_len, var_len }
    }
}

/// The module-segment part of a path: `[::] ident (:: ident)*`.
#[derive(Debug, Clone, Copy, PartialEq, Eq, Structural)]
pub struct TypePathExpr {
    pub start: TokenId,
    pub len: u32,
}

impl TypePathExpr {
    pub fn new(start: TokenId, len: u32) -> (p: Self)
        ensures
            p == (TypePathExpr { start, len }),
    {
        Self { start, len }
    }
}

/// A callable expression: for now a bare path.
#[derive(Debug, Clone, Copy, PartialEq, Eq, Structural)]
pub struct CallExpr {
    pub path: PathExpr,
}

impl CallExpr {
    pub fn new(path: PathExpr) -> (c: Self)
        ensures
            c == (CallExpr { path }),
    {
        Self { path }
    }
}

/// Marker for the value production: a parenthesized expression or a
/// literal.
#[derive(Debug, Clone, Copy, PartialEq, Eq, Structural)]
pub struct ValueExpr;

/// Prefix operators applied to an expression, outermost first.
#[derive(Debug)]
pub struct UnaryExpr {
    pub operators: Vec<UnaryKind>,
    pub expr: Box<ExprKind>,
}

impl UnaryExpr {
    pub fn new(operators: Vec<UnaryKind>, expr: Box<ExprKind>) -> (u: Self)
        ensures
            u.operators == operators,
            u.expr == expr,
    {
        Self { operators, expr }
    }
}

/// The unary operators.
#[derive(Debug, Clone, Copy, PartialEq, Eq, Structural)]
pub enum UnaryKind {
    /// `!`
    Not,
    /// `-`
    Minus,
}

/// A binary operator applied to a left and a right operand.
#[derive(Debug)]
pub struct BinaryExpr {
    pub op: BinaryKind,
    pub lhs: Box<ExprKind>,
    pub rhs: Box<ExprKind>,
}

impl BinaryExpr {
    pub fn new(op: BinaryKind, lhs: Box<ExprKind>, rhs: Box<ExprKind>) -> (b: Self)
        ensures
            b.op == op,
            b.lhs == lhs,
            b.rhs == rhs,
    {
        Self { op, lhs, rhs }
    }
}

/// Structural soundness of an expression against the token stream it was
/// parsed from: every literal node references a literal token, every path
/// starts at an identifier, and unary nodes carry at least one operator.
pub open spec fn expr_ok(toks: Seq<Kind>, e: ExprKind) -> bool
    decreases e,
{
    match e {
        ExprKind::Lit(l) => kind_at(toks, l.0.0 as int) matches Kind::Literal(_),
        ExprKind::Path(p) => kind_at(toks, p.start.0 as int) == Kind::Ident,
        ExprKind::Unary(u) => u.operators@.len() > 0 && expr_ok(toks, *u.expr),
        ExprKind::Binary(b) => expr_ok(toks, *b.lhs) && expr_ok(toks, *b.rhs),
    }
}

impl Parser {
    /// A full expression: the loosest precedence level.  The result, the
    /// end position and the diagnostics equal [`expression_step`]'s.
    pub fn parse_expression(&mut self) -> (r: Result<ExprKind, ()>)
        requires
            old(self).wf(),
        ensures
            final(self).advances_from(*old(self)),
            r is Ok ==> old(self).cur() < final(self).cur(),
            kind_at(old(self).toks(), old(self).cur()) == Kind::Eof ==> r is Err,
            r matches Ok(e) ==> expr_ok(old(self).toks(), e),
            ({
                let (mr, me, merrs) = expression_step(old(self).toks(), old(self).cur());
                &&& expr_result_view(r) == mr
                &&& final(self).cur() == me
                &&& final(self).errors@ == old(self).errors@ + merrs
            }),
        decreases self.toks().len() - self.cur(), 14int,
    {
        self.parse_binary(0)
    }

    /// A literal expression: exactly [`lit_step`].
    pub fn parse_lit(&mut self) -> (r: Result<LitExpr, ()>)
        requires
            old(self).wf(),
        ensures
            final(self).advances_from(*old(self)),
            ({
                let (mr, me, merrs) = lit_step(old(self).toks(), old(self).cur());
                &&& r == mr
                &&& final(self).cur() == me
                &&& final(self).errors@ == old(self).errors@ + merrs
            }),
        decreases self.toks().len() - self.cur(), 0int,
    {
        let ghost c0 = self.cur();
        let token = match self.peek() {
            Ok(t) => t,
            Err(_) => {
                proof {
                    assert(self.errors@ =~= self.errors@ + Seq::<ParseError>::empty());
                }
                return Err(());
            },
        };
        if matches!(token.kind, Kind::Literal(_)) {
            let r = Ok(LitExpr(self.stream.next_id()));
            proof {
                assert(self.errors@ =~= self.errors@ + Seq::<ParseError>::empty());
            }
            r
        } else {
            self.push_error(ParseError::Unexpected(Item::from_token(token)));
            proof {
                assert(self.errors@ =~= old(self).errors@ + seq![
                    unexpected_at(kind_at(old(self).toks(), c0), c0),
                ]);
            }
            Err(())
        }
    }

    /// `(:: ident)*` continuations of a module path whose leading identifier
    /// sat at `start`, with `n` segments already counted: exactly
    /// [`type_path_segments_step`].
    fn type_path_segments(&mut self, start: TokenId, n: u32) -> (r: Result<TypePathExpr, ()>)
        requires
            old(self).wf(),
            n as int <= old(self).cur(),
        ensures
            final(self).advances_from(*old(self)),
            ({
                let (mr, me, merrs) = type_path_segments_step(
                    old(self).toks(),
                    start.0 as int,
                    old(self).cur(),
                    n as int,
                );
                &&& r == mr
                &&& final(self).cur() == me
                &&& final(self).errors@ == old(self).errors@ + merrs
            }),
            r matches Ok(tp) ==> tp.start == start,
        decreases self.toks().len() - self.cur(), 0int,
    {
        if self.stream.expect(Kind::PathSep).is_err() {
            let r = Ok(TypePathExpr::new(start, n));
            proof {
                assert(self.errors@ =~= self.errors@ + Seq::<ParseError>::empty());
            }
            return r;
        }
        if self.stream.expect(Kind::Ident).is_err() {
            // the diagnostic is anchored at the leading identifier
            self.push_error(
                ParseError::Expected(
                    ExpectedItem::here(
                        ItemSequence::Single(ItemKind::Ident),
                        Item::new(ItemKind::Ident, Span::dot(start)),
                    ),
                ),
            );
            proof {
                assert(self.errors@ =~= old(self).errors@ + seq![
                    expected_here_at(
                        ItemSequence::Single(ItemKind::Ident),
                        ItemKind::Ident,
                        start.0 as int,
                    ),
                ]);
            }
            return Err(());
        }
        let r = self.type_path_segments(start, n + 1);
        r
    }

    /// The module-segment part of a path: an optional leading `::`, one
    /// required identifier, then any number of `:: ident` — exactly
    /// [`type_path_step`].
    pub fn parse_type_path(&mut self) -> (r: Result<TypePathExpr, ()>)
        requires
            old(self).wf(),
        ensures
            final(self).advances_from(*old(self)),
            r matches Ok(tp) ==> old(self).cur() < final(self).cur() && kind_at(
                old(self).toks(),
                tp.start.0 as int,
            ) == Kind::Ident && old(self).cur() <= tp.start.0 as int <= old(self).cur() + 1,
            kind_at(old(self).toks(), old(self).cur()) == Kind::Eof ==> r is Err,
            ({
                let (mr, me, merrs) = type_path_step(old(self).toks(), old(self).cur());
                &&& r == mr
                &&& final(self).cur() == me
                &&& final(self).errors@ == old(self).errors@ + merrs
            }),
        decreases self.toks().len() - self.cur(), 1int,
    {
        let ghost toks = self.toks();
        let ghost c0 = self.cur();
        let _ = self.stream.maybe(Kind::PathSep);
        let ghost lead = self.cur();
        let token = self.stream.first();
        let start = token.id;
        if !matches!(token.kind, Kind::Ident) {
            self.push_error(
                ParseError::Expected(
                    ExpectedItem::here(
                        ItemSequence::Single(ItemKind::Ident),
                        Item::from_token(token),
                    ),
                ),
            );
            proof {
                assert(self.errors@ =~= old(self).errors@ + seq![
                    expected_here_at(
                        ItemSequence::Single(ItemKind::Ident),
                        super::error::item_kind_of(kind_at(toks, lead)),
                        lead,
                    ),
                ]);
            }
            return Err(());
        }
        self.stream.skip();
        let r = self.type_path_segments(start, 0);
        r
    }

    /// `(. ident)*` member continuations of a path whose module part is
    /// `tp`, with `n` members already counted: exactly
    /// [`path_segments_step`].
    fn path_segments(&mut self, tp: TypePathExpr, n: u32) -> (r: Result<PathExpr, ()>)
        requires
            old(self).wf(),
            n as int <= old(self).cur(),
        ensures
            final(self).advances_from(*old(self)),
            ({
                let (mr, me, merrs) = path_segments_step(
                    old(self).toks(),
                    tp,
                    old(self).cur(),
                    n as int,
                );
                &&& r == mr
                &&& final(self).cur() == me
                &&& final(self).errors@ == old(self).errors@ + merrs
            }),
            r matches Ok(p) ==> p.start == tp.start,
        decreases self.toks().len() - self.cur(), 0int,
    {
        if self.stream.expect(Kind::Dot).is_err() {
            let r = Ok(PathExpr::new(tp.start, tp.len, n));
            proof {
                assert(self.errors@ =~= self.errors@ + Seq::<ParseError>::empty());
            }
            return r;
        }
        let ghost p1 = self.cur();
        let token = self.stream.first();
        if !matches!(token.kind, Kind::Ident) {
            self.push_error(
                ParseError::Expected(
                    ExpectedItem::here(
                        ItemSequence::Single(ItemKind::Ident),
                        Item::from_token(token),
                    ),
                ),
            );
            proof {
                assert(self.errors@ =~= old(self).errors@ + seq![
                    expected_here_at(
                        ItemSequence::Single(ItemKind::Ident),
                        super::error::item_kind_of(kind_at(old(self).toks(), p1)),
                        p1,
                    ),
                ]);
            }
            return Err(());
        }
        self.stream.skip();
        let r = self.path_segments(tp, n + 1);
        r
    }

    /// A full path: module segments, then member segments, counted
    /// separately — exactly [`path_step`].
    pub fn parse_path(&mut self) -> (r: Result<PathExpr, ()>)
        requires
            old(self).wf(),
        ensures
            final(self).advances_from(*old(self)),
            r matches Ok(p) ==> old(self).cur() < final(self).cur() && kind_at(
                old(self).toks(),
                p.start.0 as int,
            ) == Kind::Ident,
            kind_at(old(self).toks(), old(self).cur()) == Kind::Eof ==> r is Err,
            ({
                let (mr, me, merrs) = path_step(old(self).toks(), old(self).cur());
                &&& r == mr
                &&& final(self).cur() == me
                &&& final(self).errors@ == old(self).errors@ + merrs
            }),
        decreases self.toks().len() - self.cur(), 1int + 1int,
    {
        let ghost toks = self.toks();
        let ghost c0 = self.cur();
        let type_path = match self.parse_type_path() {
            Ok(t) => t,
            Err(e) => {
                return Err(e);
            },
        };
        let ghost te = self.cur();
        proof {
            assert(at_least(te, c0 + 1) == te);
        }
        let r = self.path_segments(type_path, 0);
        proof {
            let (mr2, me2, merrs2) = path_segments_step(toks, type_path, te, 0);
            assert(self.errors@ =~= old(self).errors@ + (type_path_step(toks, c0).2 + merrs2));
        }
        r
    }

    /// A call-position expression: first a path; when that fails, the frame
    /// is restored — position and diagnostics alike — and a value is tried
    /// instead.  Exactly [`call_step`].
    pub fn parse_call(&mut self) -> (r: Result<ExprKind, ()>)
        requires
            old(self).wf(),
        ensures
            final(self).advances_from(*old(self)),
            r is Ok ==> old(self).cur() < final(self).cur(),
            kind_at(old(self).toks(), old(self).cur()) == Kind::Eof ==> r is Err,
            r matches Ok(e) ==> expr_ok(old(self).toks(), e),
            ({
                let (mr, me, merrs) = call_step(old(self).toks(), old(self).cur());
                &&& expr_result_view(r) == mr
                &&& final(self).cur() == me
                &&& final(self).errors@ == old(self).errors@ + merrs
            }),
        decreases self.toks().len() - self.cur(), 3int,
    {
        let frame = self.frame();
        match self.parse_path() {
            Ok(path) => {
                let r = Ok(ExprKind::Path(path));
                proof {
                    assert(expr_view(ExprKind::Path(path)) == ExprModel::Path(path));
                }
                r
            },
            Err(_) => {
                let ghost mid = self.errors@;
                self.set_frame(frame);
                proof {
                    assert(old(self).errors@ =~= mid.subrange(0, old(self).errors@.len() as int));
                    assert(self.errors@ =~= old(self).errors@);
                }
                self.parse_value()
            },
        }
    }

    /// A value: a parenthesized expression — a missing `)` records one
    /// diagnostic anchored at the found token and keeps the inner
    /// expression — or a literal.  Exactly [`value_step`].
    pub fn parse_value(&mut self) -> (r: Result<ExprKind, ()>)
        requires
            old(self).wf(),
        ensures
            final(self).advances_from(*old(self)),
            r is Ok ==> old(self).cur() < final(self).cur(),
            r matches Ok(e) ==> expr_ok(old(self).toks(), e),
            ({
                let (mr, me, merrs) = value_step(old(self).toks(), old(self).cur());
                &&& expr_result_view(r) == mr
                &&& final(self).cur() == me
                &&& final(self).errors@ == old(self).errors@ + merrs
            }),
        decreases self.toks().len() - self.cur(), 2int,
    {
        let ghost toks = self.toks();
        let ghost c0 = self.cur();
        let token = self.stream.first();
        match token.kind {
            Kind::OpenDelim(Delimiter::Paren) => {
                self.stream.skip();
                let expr = match self.parse_expression() {
                    Ok(e) => e,
                    Err(e) => {
                        return Err(e);
                    },
                };
                let ghost ee = self.cur();
                let token = self.stream.first();
                if matches!(token.kind, Kind::CloseDelim(Delimiter::Paren)) {
                    self.stream.skip();
                } else {
                    self.push_error(
                        ParseError::Expected(
                            ExpectedItem::here(
                                ItemSequence::Single(ItemKind::CloseDelim(Delimiter::Paren)),
                                Item::from_token(token),
                            ),
                        ),
                    );
                    proof {
                        assert(self.errors@ =~= old(self).errors@ + (expression_step(
                            toks,
                            c0 + 1,
                        ).2 + seq![
                            expected_here_at(
                                ItemSequence::Single(ItemKind::CloseDelim(Delimiter::Paren)),
                                super::error::item_kind_of(kind_at(toks, ee)),
                                ee,
                            ),
                        ]));
                    }
                }
                Ok(expr)
            },
            Kind::Literal(_) => match self.parse_lit() {
                Ok(lit) => {
                    proof {
                        assert(expr_view(ExprKind::Lit(lit)) == ExprModel::Lit(lit));
                    }
                    Ok(ExprKind::Lit(lit))
                },
                Err(e) => Err(e),
            },
            _ => {
                proof {
                    assert(self.errors@ =~= self.errors@ + Seq::<ParseError>::empty());
                }
                Err(())
            },
        }
    }

    /// A unary expression: prefix operators, then a call; with no operators
    /// the call is handed back bare.  Exactly [`unary_step`].
    pub fn parse_unary(&mut self) -> (r: Result<ExprKind, ()>)
        requires
            old(self).wf(),
        ensures
            final(self).advances_from(*old(self)),
            r is Ok ==> old(self).cur() < final(self).cur(),
            kind_at(old(self).toks(), old(self).cur()) == Kind::Eof ==> r is Err,
            r matches Ok(e) ==> expr_ok(old(self).toks(), e),
            ({
                let (mr, me, merrs) = unary_step(old(self).toks(), old(self).cur());
                &&& expr_result_view(r) == mr
                &&& final(self).cur() == me
                &&& final(self).errors@ == old(self).errors@ + merrs
            }),
        decreases self.toks().len() - self.cur(), 4int,
    {
        let ghost toks = self.toks();
        let ghost c0 = self.cur();
        let mut operators: Vec<UnaryKind> = Vec::new();
        match self.unary_prefix(&mut operators) {
            Ok(()) => {},
            Err(e) => {
                return Err(e);
            },
        }
        let ghost ue = self.cur();
        proof {
            assert(at_least(ue, c0) == ue);
        }
        let expr = match self.parse_call() {
            Ok(e) => e,
            Err(e) => {
                proof {
                    assert(self.errors@ =~= old(self).errors@ + (unary_prefix_step(
                        toks,
                        c0,
                        Seq::<UnaryKind>::empty(),
                    ).2 + call_step(toks, ue).2));
                }
                return Err(e);
            },
        };
        proof {
            assert(self.errors@ =~= old(self).errors@ + (unary_prefix_step(
                toks,
                c0,
                Seq::<UnaryKind>::empty(),
            ).2 + call_step(toks, ue).2));
        }
        if operators.len() > 0 {
            let u = UnaryExpr::new(operators, Box::new(expr));
            let r = Ok(ExprKind::Unary(u));
            proof {
                assert(expr_view(ExprKind::Unary(u)) == ExprModel::Unary(
                    u.operators@,
                    Box::new(expr_view(*u.expr)),
                ));
            }
            r
        } else {
            Ok(expr)
        }
    }

    /// Collect prefix operators until something that can start or legally
    /// terminate an operand is seen: exactly [`unary_prefix_step`] over the
    /// operators already in `operators`.
    fn unary_prefix(&mut self, operators: &mut Vec<UnaryKind>) -> (r: Result<(), ()>)
        requires
            old(self).wf(),
        ensures
            final(self).advances_from(*old(self)),
            kind_at(old(self).toks(), old(self).cur()) == Kind::Eof ==> r is Err,
            ({
                let (mr, me, merrs) = unary_prefix_step(
                    old(self).toks(),
                    old(self).cur(),
                    old(operators)@,
                );
                &&& (match mr {
                    Ok(ops) => r == Ok::<(), ()>(()) && final(operators)@ == ops,
                    Err(e) => r == Err::<(), ()>(e),
                })
                &&& final(self).cur() == me
                &&& final(self).errors@ == old(self).errors@ + merrs
            }),
        decreases self.toks().len() - self.cur(), 0int,
    {
        let ghost toks = self.toks();
        let ghost c0 = self.cur();
        let token = self.stream.first();
        match token.kind {
            Kind::Eof => {
                self.push_error(ParseError::Unexpected(Item::from_token(token)));
                proof {
                    assert(self.errors@ =~= old(self).errors@ + seq![
                        unexpected_at(kind_at(toks, c0), c0),
                    ]);
                }
                Err(())
            },
            Kind::Operator(Operator::Not) => {
                operators.push(UnaryKind::Not);
                self.stream.skip();
                let r = self.unary_prefix(operators);
                r
            },
            Kind::Operator(Operator::Binary(BinaryKind::Minus)) => {
                operators.push(UnaryKind::Minus);
                self.stream.skip();
                let r = self.unary_prefix(operators);
                r
            },
            Kind::OpenDelim(Delimiter::Paren) | Kind::OpenDelim(Delimiter::Brace)
                | Kind::CloseDelim(Delimiter::Brace) | Kind::Ident | Kind::Literal(_) => {
                proof {
                    assert(self.errors@ =~= self.errors@ + Seq::<ParseError>::empty());
                }
                Ok(())
            },
            Kind::Keyword(keyword) => {
                let kind = match keyword {
                    Keyword::If | Keyword::While | Keyword::For => {
                        proof {
                            assert(self.errors@ =~= self.errors@ + Seq::<ParseError>::empty());
                        }
                        return Ok(());
                    },
                    Keyword::Pub => ItemKind::Stmt,
                    Keyword::Let => ItemKind::VarStmt,
                    Keyword::Const => ItemKind::VarStmt,
                    Keyword::Mut => ItemKind::VarStmt,
                    Keyword::Else => ItemKind::Stmt,
                    Keyword::In => ItemKind::Keyword(Keyword::In),
                    Keyword::Fn => ItemKind::Fn,
                };
                self.push_error(
                    ParseError::Expected(
                        ExpectedItem::here(
                            ItemSequence::Single(ItemKind::Expr),
                            Item::new(kind, Span::dot(token.id)),
                        ),
                    ),
                );
                proof {
                    assert(self.errors@ =~= old(self).errors@ + seq![
                        expected_here_at(
                            ItemSequence::Single(ItemKind::Expr),
                            keyword_item_kind(keyword),
                            c0,
                        ),
                    ]);
                }
                Ok(())
            },
            _ => {
                self.push_error(
                    ParseError::Expected(
                        ExpectedItem::here(ItemSequence::Unary, Item::from_token(token)),
                    ),
                );
                self.stream.skip();
                let r = self.unary_prefix(operators);
                proof {
                    let (mr2, me2, merrs2) = unary_prefix_step(toks, c0 + 1, old(operators)@);
                    assert(self.errors@ =~= old(self).errors@ + (seq![
                        expected_here_at(
                            ItemSequence::Unary,
                            super::error::item_kind_of(kind_at(toks, c0)),
                            c0,
                        ),
                    ] + merrs2));
                }
                r
            },
        }
    }
}

} // verus!
