//! Specification model of the parser.
//!
//! Each `*_step` function gives, for a token-kind sequence and a start
//! position, the result, the end position and the diagnostics that the
//! corresponding `Parser` method produces — the parser's analogue of the
//! lexer's `lex_step`.  Trees are modelled by [`ExprModel`] and
//! [`StmtModel`], which mirror the executable AST with ghost sequences in
//! place of vectors; [`expr_view`] and [`stmt_view`] map the executable
//! trees onto them, so an exec result is pinned exactly up to vector
//! capacity.

use vstd::prelude::*;

verus! {

use crate::lexer::{Kind, TokenId, Keyword, Operator, BinaryKind, AssignKind, Delimiter};
use super::error::{
    ParseError, ExpectedItem, Item, ItemKind, ItemSequence, SyntaxError, Place, item_kind_of,
};
use super::expressions::{ExprKind, LitExpr, PathExpr, TypePathExpr, UnaryKind};
use super::statements::{
    StmtKind, ParseStmtError, Visibility, Mutability, VarKind, VarStmt, AssignStmt, BlockStmt,
    IfStmt,
};
use super::span::Span;
use super::token_stream::kind_at;
use super::parser::level_operator;

/// The ghost mirror of an expression tree.
pub enum ExprModel {
    Lit(LitExpr),
    Path(PathExpr),
    Unary(Seq<UnaryKind>, Box<ExprModel>),
    Binary(BinaryKind, Box<ExprModel>, Box<ExprModel>),
}

/// The ghost mirror of a statement tree.
pub enum StmtModel {
    Expr(ExprModel),
    Var(VarModel),
    Assign(ExprModel, AssignKind, Box<StmtModel>),
    Block(Seq<StmtModel>),
    If(Box<StmtModel>, Seq<StmtModel>, Option<Box<StmtModel>>),
}

/// The ghost mirror of a variable declaration.
pub struct VarModel {
    pub span: Span,
    pub vis: Visibility,
    pub kind: VarKind,
    pub mutability: Mutability,
    pub name: TokenId,
    pub type_path: Option<TypePathExpr>,
    pub stmt_start: TokenId,
    pub stmt: Option<Box<StmtModel>>,
}

/// The ghost mirror of an expression.
pub open spec fn expr_view(e: ExprKind) -> ExprModel
    decreases e,
{
    match e {
        ExprKind::Lit(l) => ExprModel::Lit(l),
        ExprKind::Path(p) => ExprModel::Path(p),
        ExprKind::Unary(u) => ExprModel::Unary(u.operators@, Box::new(expr_view(*u.expr))),
        ExprKind::Binary(b) => ExprModel::Binary(
            b.op,
            Box::new(expr_view(*b.lhs)),
            Box::new(expr_view(*b.rhs)),
        ),
    }
}

/// The ghost mirror of a statement.
pub open spec fn stmt_view(s: StmtKind) -> StmtModel
    decreases s, 0int,
{
    match s {
        StmtKind::Expr(e) => StmtModel::Expr(expr_view(e)),
        StmtKind::Var(v) => StmtModel::Var(var_view(v)),
        StmtKind::Assign(a) => StmtModel::Assign(
            expr_view(*a.call),
            a.op,
            Box::new(stmt_view(*a.stmt)),
        ),
        StmtKind::Block(b) => StmtModel::Block(stmts_view_from(b.0@, 0)),
        StmtKind::If(f) => StmtModel::If(
            Box::new(stmt_view(*f.condition)),
            stmts_view_from(f.block.0@, 0),
            match f.else_stmt {
                Some(e) => Some(Box::new(stmt_view(*e))),
                None => None,
            },
        ),
    }
}

/// The ghost mirror of a variable declaration.
pub open spec fn var_view(v: VarStmt) -> VarModel
    decreases v, 0int,
{
    VarModel {
        span: v.span,
        vis: v.vis,
        kind: v.kind,
        mutability: v.mutability,
        name: v.name,
        type_path: v.type_path,
        stmt_start: v.stmt_start,
        stmt: match v.stmt {
            Some(inner) => Some(Box::new(stmt_view(*inner))),
            None => None,
        },
    }
}

/// The ghost mirrors of the statements of `ss` from index `i` on.
pub open spec fn stmts_view_from(ss: Seq<StmtKind>, i: int) -> Seq<StmtModel>
    decreases ss, ss.len() - i,
{
    if 0 <= i < ss.len() {
        seq![stmt_view(ss[i])] + stmts_view_from(ss, i + 1)
    } else {
        Seq::<StmtModel>::empty()
    }
}

/// The ghost mirror of an expression parse result.
pub open spec fn expr_result_view(r: Result<ExprKind, ()>) -> Result<ExprModel, ()> {
    match r {
        Ok(e) => Ok(expr_view(e)),
        Err(e) => Err(e),
    }
}

/// The ghost mirror of a statement parse result.
pub open spec fn stmt_result_view(r: Result<StmtKind, ParseStmtError>) -> Result<
    StmtModel,
    ParseStmtError,
> {
    match r {
        Ok(s) => Ok(stmt_view(s)),
        Err(e) => Err(e),
    }
}

/// The ghost mirror of a declaration parse result.
pub open spec fn var_result_view(r: Result<VarStmt, ()>) -> Result<VarModel, ()> {
    match r {
        Ok(v) => Ok(var_view(v)),
        Err(e) => Err(e),
    }
}

/// The ghost mirror of an assignment parse result.
pub open spec fn assign_result_view(r: Result<AssignStmt, ()>) -> Result<
    (ExprModel, AssignKind, StmtModel),
    (),
> {
    match r {
        Ok(a) => Ok((expr_view(*a.call), a.op, stmt_view(*a.stmt))),
        Err(e) => Err(e),
    }
}

/// The ghost mirror of a block parse result.
pub open spec fn block_result_view(r: Result<BlockStmt, ()>) -> Result<Seq<StmtModel>, ()> {
    match r {
        Ok(b) => Ok(stmts_view_from(b.0@, 0)),
        Err(e) => Err(e),
    }
}

/// The ghost mirror of a conditional parse result.
pub open spec fn if_result_view(r: Result<IfStmt, ()>) -> Result<
    (StmtModel, Seq<StmtModel>, Option<StmtModel>),
    (),
> {
    match r {
        Ok(f) => Ok(
            (
                stmt_view(*f.condition),
                stmts_view_from(f.block.0@, 0),
                match f.else_stmt {
                    Some(e) => Some(stmt_view(*e)),
                    None => None,
                },
            ),
        ),
        Err(e) => Err(e),
    }
}

/// Tokens left at position `i`, never negative: the well-founded measure of
/// the recursion below.
pub open spec fn fuel_at(toks: Seq<Kind>, i: int) -> int {
    if i <= toks.len() {
        toks.len() - i
    } else {
        0
    }
}

/// Clamp a computed position to a lower bound; the bound is never reached in
/// fact, it only keeps the recursion below visibly well-founded.
pub open spec fn at_least(j: int, lo: int) -> int {
    if j >= lo {
        j
    } else {
        lo
    }
}

/// The id of the token at position `i`.
pub open spec fn id_at(i: int) -> TokenId {
    TokenId(i as u32)
}

/// An expectation missed at position `i`, where `found` was seen.
pub open spec fn expected_here_at(exp: ItemSequence, found: ItemKind, i: int) -> ParseError {
    ParseError::Expected(
        ExpectedItem {
            place: Place::Here,
            expected: exp,
            found,
            span: Span { start: id_at(i), end: id_at(i) },
        },
    )
}

/// An expectation missed just after the token at position `i`.
pub open spec fn expected_after_at(exp: ItemSequence, found: ItemKind, i: int) -> ParseError {
    ParseError::Expected(
        ExpectedItem {
            place: Place::After,
            expected: exp,
            found,
            span: Span { start: id_at(i), end: id_at(i) },
        },
    )
}

/// A token that cannot begin anything at position `i`.
pub open spec fn unexpected_at(k: Kind, i: int) -> ParseError {
    ParseError::Unexpected(
        Item { kind: item_kind_of(k), span: Span { start: id_at(i), end: id_at(i) } },
    )
}

/// The grammatical category a keyword is reported as when it stands where an
/// expression was needed.
pub open spec fn keyword_item_kind(kw: Keyword) -> ItemKind {
    match kw {
        Keyword::Pub => ItemKind::Stmt,
        Keyword::Let => ItemKind::VarStmt,
        Keyword::Const => ItemKind::VarStmt,
        Keyword::Mut => ItemKind::VarStmt,
        Keyword::Else => ItemKind::Stmt,
        Keyword::In => ItemKind::Keyword(Keyword::In),
        Keyword::Fn => ItemKind::Fn,
        Keyword::If => ItemKind::IfStmt,
        Keyword::While => ItemKind::Stmt,
        Keyword::For => ItemKind::Stmt,
    }
}

/// A literal expression at `i`: succeeds exactly on a literal token; at the
/// end of the stream it fails silently, anywhere else with one diagnostic.
pub open spec fn lit_step(toks: Seq<Kind>, i: int) -> (Result<LitExpr, ()>, int, Seq<ParseError>) {
    let k = kind_at(toks, i);
    if k == Kind::Eof {
        (Err(()), i, seq![])
    } else if k matches Kind::Literal(_) {
        (Ok(LitExpr(id_at(i))), i + 1, seq![])
    } else {
        (Err(()), i, seq![unexpected_at(k, i)])
    }
}

/// `(:: ident)*` continuations of a module path whose leading identifier sat
/// at `start`; `n` segments were already consumed.
pub open spec fn type_path_segments_step(toks: Seq<Kind>, start: int, p: int, n: int) -> (
    Result<TypePathExpr, ()>,
    int,
    Seq<ParseError>,
)
    decreases fuel_at(toks, p), 0int,
{
    if kind_at(toks, p) != Kind::PathSep {
        (Ok(TypePathExpr { start: id_at(start), len: n as u32 }), p, seq![])
    } else if kind_at(toks, p + 1) == Kind::Ident {
        type_path_segments_step(toks, start, p + 2, n + 1)
    } else {
        // the diagnostic is anchored at the leading identifier
        (
            Err(()),
            p + 1,
            seq![expected_here_at(ItemSequence::Single(ItemKind::Ident), ItemKind::Ident, start)],
        )
    }
}

/// A module path at `i`: an optional leading `::`, one required identifier,
/// then any number of `:: ident`.
pub open spec fn type_path_step(toks: Seq<Kind>, i: int) -> (
    Result<TypePathExpr, ()>,
    int,
    Seq<ParseError>,
)
    decreases fuel_at(toks, i), 1int,
{
    let lead = if kind_at(toks, i) == Kind::PathSep {
        i + 1
    } else {
        i
    };
    if kind_at(toks, lead) != Kind::Ident {
        (
            Err(()),
            lead,
            seq![
                expected_here_at(
                    ItemSequence::Single(ItemKind::Ident),
                    item_kind_of(kind_at(toks, lead)),
                    lead,
                ),
            ],
        )
    } else {
        type_path_segments_step(toks, lead, lead + 1, 0)
    }
}

/// `(. ident)*` member continuations of a path whose module part is `tp`.
pub open spec fn path_segments_step(toks: Seq<Kind>, tp: TypePathExpr, p: int, n: int) -> (
    Result<PathExpr, ()>,
    int,
    Seq<ParseError>,
)
    decreases fuel_at(toks, p), 0int,
{
    if kind_at(toks, p) != Kind::Dot {
        (Ok(PathExpr { start: tp.start, mod_len: tp.len, var_len: n as u32 }), p, seq![])
    } else if kind_at(toks, p + 1) == Kind::Ident {
        path_segments_step(toks, tp, p + 2, n + 1)
    } else {
        (
            Err(()),
            p + 1,
            seq![
                expected_here_at(
                    ItemSequence::Single(ItemKind::Ident),
                    item_kind_of(kind_at(toks, p + 1)),
                    p + 1,
                ),
            ],
        )
    }
}

/// A full path at `i`: module segments, then member segments.
pub open spec fn path_step(toks: Seq<Kind>, i: int) -> (Result<PathExpr, ()>, int, Seq<ParseError>)
    decreases fuel_at(toks, i), 2int,
{
    let (tr, te, terrs) = type_path_step(toks, i);
    match tr {
        Err(e) => (Err(e), te, terrs),
        Ok(tp) => {
            let (pr, pe, perrs) = path_segments_step(toks, tp, at_least(te, i + 1), 0);
            (pr, pe, terrs + perrs)
        },
    }
}

/// A value at `i`: a parenthesized expression — a missing `)` records one
/// diagnostic at the found token and keeps the inner expression — or a
/// literal; anything else fails silently.
pub open spec fn value_step(toks: Seq<Kind>, i: int) -> (Result<ExprModel, ()>, int, Seq<ParseError>)
    decreases fuel_at(toks, i), 3int,
{
    let k = kind_at(toks, i);
    if k == Kind::OpenDelim(Delimiter::Paren) {
        let (er, ee, eerrs) = expression_step(toks, i + 1);
        match er {
            Err(e) => (Err(e), ee, eerrs),
            Ok(inner) => {
                let k2 = kind_at(toks, ee);
                if k2 == Kind::CloseDelim(Delimiter::Paren) {
                    (Ok(inner), ee + 1, eerrs)
                } else {
                    (
                        Ok(inner),
                        ee,
                        eerrs + seq![
                            expected_here_at(
                                ItemSequence::Single(ItemKind::CloseDelim(Delimiter::Paren)),
                                item_kind_of(k2),
                                ee,
                            ),
                        ],
                    )
                }
            },
        }
    } else if k matches Kind::Literal(_) {
        (Ok(ExprModel::Lit(LitExpr(id_at(i)))), i + 1, seq![])
    } else {
        (Err(()), i, seq![])
    }
}

/// A call at `i`: first a path; when that fails the attempt is discarded —
/// position and diagnostics restored — and a value is tried instead.
pub open spec fn call_step(toks: Seq<Kind>, i: int) -> (Result<ExprModel, ()>, int, Seq<ParseError>)
    decreases fuel_at(toks, i), 4int,
{
    let (pr, pe, perrs) = path_step(toks, i);
    match pr {
        Ok(p) => (Ok(ExprModel::Path(p)), pe, perrs),
        Err(_) => value_step(toks, i),
    }
}

/// Prefix operators collected at `i` on top of those in `ops`: `!` and `-`
/// accumulate; an operand start or a legal terminator ends the run; any
/// other keyword records one missing-expression diagnostic; an unusable
/// token records one diagnostic and is skipped.
pub open spec fn unary_prefix_step(toks: Seq<Kind>, i: int, ops: Seq<UnaryKind>) -> (
    Result<Seq<UnaryKind>, ()>,
    int,
    Seq<ParseError>,
)
    decreases fuel_at(toks, i), 5int,
{
    let k = kind_at(toks, i);
    match k {
        Kind::Eof => (Err(()), i, seq![unexpected_at(k, i)]),
        Kind::Operator(Operator::Not) => unary_prefix_step(toks, i + 1, ops.push(UnaryKind::Not)),
        Kind::Operator(Operator::Binary(BinaryKind::Minus)) => unary_prefix_step(
            toks,
            i + 1,
            ops.push(UnaryKind::Minus),
        ),
        Kind::OpenDelim(Delimiter::Paren) => (Ok(ops), i, seq![]),
        Kind::OpenDelim(Delimiter::Brace) => (Ok(ops), i, seq![]),
        Kind::CloseDelim(Delimiter::Brace) => (Ok(ops), i, seq![]),
        Kind::Ident => (Ok(ops), i, seq![]),
        Kind::Literal(_) => (Ok(ops), i, seq![]),
        Kind::Keyword(kw) => match kw {
            Keyword::If => (Ok(ops), i, seq![]),
            Keyword::While => (Ok(ops), i, seq![]),
            Keyword::For => (Ok(ops), i, seq![]),
            _ => (
                Ok(ops),
                i,
                seq![
                    expected_here_at(
                        ItemSequence::Single(ItemKind::Expr),
                        keyword_item_kind(kw),
                        i,
                    ),
                ],
            ),
        },
        _ => {
            let (r, e, es) = unary_prefix_step(toks, i + 1, ops);
            (r, e, seq![expected_here_at(ItemSequence::Unary, item_kind_of(k), i)] + es)
        },
    }
}

/// A unary expression at `i`: prefix operators, then a call; with no
/// operators the call is handed back bare.
pub open spec fn unary_step(toks: Seq<Kind>, i: int) -> (Result<ExprModel, ()>, int, Seq<ParseError>)
    decreases fuel_at(toks, i), 6int,
{
    let (ur, ue, uerrs) = unary_prefix_step(toks, i, Seq::<UnaryKind>::empty());
    match ur {
        Err(e) => (Err(e), ue, uerrs),
        Ok(ops) => {
            let (cr, ce, cerrs) = call_step(toks, at_least(ue, i));
            match cr {
                Err(e) => (Err(e), ce, uerrs + cerrs),
                Ok(operand) => (
                    Ok(
                        if ops.len() > 0 {
                            ExprModel::Unary(ops, Box::new(operand))
                        } else {
                            operand
                        },
                    ),
                    ce,
                    uerrs + cerrs,
                ),
            }
        },
    }
}

/// The operator loop of one precedence level, with `node` the tree built so
/// far: while an operator of the level follows, consume it, parse the
/// tighter production and extend the tree to the left; a failed right
/// operand keeps the tree and records one diagnostic, anchored one token
/// past where the operand attempt ended.
pub open spec fn binary_tail_step(toks: Seq<Kind>, p: int, level: u8, node: ExprModel) -> (
    ExprModel,
    int,
    Seq<ParseError>,
)
    decreases fuel_at(toks, p), 7int,
{
    let k = kind_at(toks, p);
    match k {
        Kind::Operator(Operator::Binary(op)) => if level_operator(level, op) {
            let (rr, re, rerrs) = if level >= 8 {
                unary_step(toks, p + 1)
            } else {
                binary_step(toks, p + 1, (level + 1) as u8)
            };
            match rr {
                Ok(rhs) => {
                    let (n2, e2, es2) = binary_tail_step(
                        toks,
                        at_least(re, p + 2),
                        level,
                        ExprModel::Binary(op, Box::new(node), Box::new(rhs)),
                    );
                    (n2, e2, rerrs + es2)
                },
                Err(_) => {
                    let s2 = if kind_at(toks, re) != Kind::Eof {
                        re + 1
                    } else {
                        re
                    };
                    (
                        node,
                        re,
                        rerrs + seq![
                            expected_after_at(
                                ItemSequence::StmtWithReturnValue,
                                item_kind_of(kind_at(toks, s2)),
                                s2,
                            ),
                        ],
                    )
                },
            }
        } else {
            (node, p, seq![])
        },
        _ => (node, p, seq![]),
    }
}

/// One precedence level at `i`: the tighter production, then this level's
/// operator loop.
pub open spec fn binary_step(toks: Seq<Kind>, i: int, level: u8) -> (
    Result<ExprModel, ()>,
    int,
    Seq<ParseError>,
)
    decreases fuel_at(toks, i), (if level < 8 {
        16int - level as int
    } else {
        8int
    }),
{
    let (nr, ne, nerrs) = if level >= 8 {
        unary_step(toks, i)
    } else {
        binary_step(toks, i, (level + 1) as u8)
    };
    match nr {
        Err(e) => (Err(e), ne, nerrs),
        Ok(node) => {
            let (t, te, terrs) = binary_tail_step(toks, at_least(ne, i), level, node);
            (Ok(t), te, nerrs + terrs)
        },
    }
}

/// A full expression at `i`: the loosest precedence level.
pub open spec fn expression_step(toks: Seq<Kind>, i: int) -> (
    Result<ExprModel, ()>,
    int,
    Seq<ParseError>,
)
    decreases fuel_at(toks, i), 17int,
{
    binary_step(toks, i, 0)
}

/// The tail of a variable declaration, after `['pub'] ('let'|'const')
/// ['mut'] ident [':' type]` has been consumed up to `q`: a missing `=` ends
/// the declaration without an initializer; a compound operator where `=`
/// belongs is flagged and read as `=`; a declaration used as the
/// initializer is kept and flagged once.
pub open spec fn variable_tail_step(
    toks: Seq<Kind>,
    start: int,
    vis: Visibility,
    vk: VarKind,
    mt: Mutability,
    name: TokenId,
    tp: Option<TypePathExpr>,
    q: int,
) -> (Result<VarModel, ()>, int, Seq<ParseError>)
    decreases fuel_at(toks, q), 0int,
{
    let kq = kind_at(toks, q);
    match kq {
        Kind::Operator(Operator::Assign(op)) => {
            let flag = if op == AssignKind::Eq {
                Seq::<ParseError>::empty()
            } else {
                seq![
                    expected_here_at(
                        ItemSequence::Single(ItemKind::Assign(Some(AssignKind::Eq))),
                        item_kind_of(kq),
                        q,
                    ),
                ]
            };
            let (sr, se, serrs) = statement_step(toks, q + 1);
            match sr {
                Err(_) => (Err(()), se, flag + serrs),
                Ok(s) => {
                    let nested = match s {
                        StmtModel::Var(v2) => seq![
                            ParseError::Syntax(SyntaxError::UnvalidAssignment { span: v2.span }),
                        ],
                        _ => Seq::<ParseError>::empty(),
                    };
                    (
                        Ok(
                            VarModel {
                                span: Span { start: id_at(start), end: id_at(se) },
                                vis,
                                kind: vk,
                                mutability: mt,
                                name,
                                type_path: tp,
                                stmt_start: id_at(q + 1),
                                stmt: Some(Box::new(s)),
                            },
                        ),
                        se,
                        flag + serrs + nested,
                    )
                },
            }
        },
        _ => (
            Ok(
                VarModel {
                    span: Span { start: id_at(start), end: id_at(q) },
                    vis,
                    kind: vk,
                    mutability: mt,
                    name,
                    type_path: tp,
                    stmt_start: id_at(q),
                    stmt: None,
                },
            ),
            q,
            seq![],
        ),
    }
}

/// A variable declaration at `i`:
/// `['pub'] ('let'|'const') ['mut'] ident [':' type] ['=' statement]`.
pub open spec fn variable_step(toks: Seq<Kind>, i: int) -> (
    Result<VarModel, ()>,
    int,
    Seq<ParseError>,
)
    decreases fuel_at(toks, i), 18int,
{
    let is_pub = kind_at(toks, i) == Kind::Keyword(Keyword::Pub);
    let vis = if is_pub {
        Visibility::Public
    } else {
        Visibility::Private
    };
    let d = if is_pub {
        i + 1
    } else {
        i
    };
    let kd = kind_at(toks, d);
    if kd == Kind::Eof {
        (Err(()), d, seq![])
    } else if kd != Kind::Keyword(Keyword::Const) && kd != Kind::Keyword(Keyword::Let) {
        (Err(()), d + 1, seq![])
    } else {
        let vk = if kd == Kind::Keyword(Keyword::Const) {
            VarKind::Const
        } else {
            VarKind::Let
        };
        let is_mut = kind_at(toks, d + 1) == Kind::Keyword(Keyword::Mut);
        let mt = if is_mut {
            Mutability::Mut
        } else {
            Mutability::Not
        };
        let m = if is_mut {
            d + 1
        } else {
            d
        };
        if kind_at(toks, m + 1) != Kind::Ident {
            (
                Err(()),
                m + 1,
                seq![
                    expected_here_at(
                        ItemSequence::Single(ItemKind::Ident),
                        item_kind_of(kind_at(toks, m + 1)),
                        m + 1,
                    ),
                ],
            )
        } else {
            let name = id_at(m + 1);
            if kind_at(toks, m + 2) == Kind::Colon {
                let (tr, te, terrs) = type_path_step(toks, m + 3);
                match tr {
                    Err(_) => (Err(()), te, terrs),
                    Ok(tp) => {
                        let (vr, ve, verrs) = variable_tail_step(
                            toks,
                            i,
                            vis,
                            vk,
                            mt,
                            name,
                            Some(tp),
                            at_least(te, m + 3),
                        );
                        (vr, ve, terrs + verrs)
                    },
                }
            } else {
                variable_tail_step(toks, i, vis, vk, mt, name, None, m + 2)
            }
        }
    }
}

/// An assignment at `i`: a leading expression, an assignment operator, and a
/// full statement; a missing operator or right-hand side records one
/// diagnostic at the point of definite failure.
pub open spec fn assign_step(toks: Seq<Kind>, i: int) -> (
    Result<(ExprModel, AssignKind, StmtModel)
    , ()>,
    int,
    Seq<ParseError>,
)
    decreases fuel_at(toks, i), 18int,
{
    let (er, ee, eerrs) = expression_step(toks, i);
    match er {
        Err(_) => (Err(()), ee, eerrs),
        Ok(call) => {
            let p = at_least(ee, i);
            let kp = kind_at(toks, p);
            if kp == Kind::Eof {
                (Err(()), p, eerrs)
            } else {
                match kp {
                    Kind::Operator(Operator::Assign(op)) => {
                        let (sr, se, serrs) = statement_step(toks, p + 1);
                        match sr {
                            Ok(s) => (Ok((call, op, s)), se, eerrs + serrs),
                            Err(_) => (
                                Err(()),
                                se,
                                eerrs + serrs + seq![
                                    expected_after_at(
                                        ItemSequence::StmtWithReturnValue,
                                        item_kind_of(kp),
                                        p,
                                    ),
                                ],
                            ),
                        }
                    },
                    _ => (Err(()), p, eerrs + seq![expected_here_at(
                        ItemSequence::Assign,
                        item_kind_of(kp),
                        p,
                    )]),
                }
            }
        },
    }
}

/// A block at `i`: `{`, statements until one fails, `}`.
pub open spec fn block_step(toks: Seq<Kind>, i: int) -> (
    Result<Seq<StmtModel>, ()>,
    int,
    Seq<ParseError>,
)
    decreases fuel_at(toks, i), 19int,
{
    if kind_at(toks, i) != Kind::OpenDelim(Delimiter::Brace) {
        (Err(()), i, seq![])
    } else {
        let (ss, se, serrs) = statements_step(toks, i + 1);
        if kind_at(toks, se) == Kind::CloseDelim(Delimiter::Brace) {
            (Ok(ss), se + 1, serrs)
        } else {
            (Err(()), se, serrs)
        }
    }
}

/// A conditional at `i`: `if`, a full statement as the condition, a block,
/// and an optional `else` statement.
pub open spec fn if_step(toks: Seq<Kind>, i: int) -> (
    Result<(StmtModel, Seq<StmtModel>, Option<StmtModel>), ()>,
    int,
    Seq<ParseError>,
)
    decreases fuel_at(toks, i), 20int,
{
    if kind_at(toks, i) != Kind::Keyword(Keyword::If) {
        (Err(()), i, seq![])
    } else {
        let (cr, ce, cerrs) = statement_step(toks, i + 1);
        match cr {
            Err(_) => (Err(()), ce, cerrs),
            Ok(cond) => {
                let (br, be, berrs) = block_step(toks, at_least(ce, i + 1));
                match br {
                    Err(_) => (Err(()), be, cerrs + berrs),
                    Ok(blk) => {
                        let p = at_least(be, i + 1);
                        if kind_at(toks, p) == Kind::Keyword(Keyword::Else) {
                            let (sr, se, serrs) = statement_step(toks, p + 1);
                            match sr {
                                Ok(els) => (
                                    Ok((cond, blk, Some(els))),
                                    se,
                                    cerrs + berrs + serrs,
                                ),
                                Err(_) => (Err(()), se, cerrs + berrs + serrs),
                            }
                        } else {
                            (Ok((cond, blk, None)), p, cerrs + berrs)
                        }
                    },
                }
            },
        }
    }
}

/// One statement at `i`, chosen by lookahead: a block at `{`, a conditional
/// at `if`, a declaration when `const`, `let` or `mut` follows an optional
/// `pub`, otherwise an expression — retried as an assignment, from the
/// position and diagnostics it started at, exactly when an assignment
/// operator follows it.
pub open spec fn statement_step(toks: Seq<Kind>, i: int) -> (
    Result<StmtModel, ParseStmtError>,
    int,
    Seq<ParseError>,
)
    decreases fuel_at(toks, i), 21int,
{
    let k = kind_at(toks, i);
    if k == Kind::Eof {
        (Err(ParseStmtError::Eof), i, seq![])
    } else if k == Kind::OpenDelim(Delimiter::Brace) {
        let (br, be, berrs) = block_step(toks, i);
        (
            match br {
                Ok(b) => Ok(StmtModel::Block(b)),
                Err(_) => Err(ParseStmtError::Block),
            },
            be,
            berrs,
        )
    } else if k == Kind::Keyword(Keyword::If) {
        let (fr, fe, ferrs) = if_step(toks, i);
        (
            match fr {
                Ok((cond, blk, els)) => Ok(
                    StmtModel::If(
                        Box::new(cond),
                        blk,
                        match els {
                            Some(e) => Some(Box::new(e)),
                            None => None,
                        },
                    ),
                ),
                Err(_) => Err(ParseStmtError::If),
            },
            fe,
            ferrs,
        )
    } else {
        let d = if k == Kind::Keyword(Keyword::Pub) {
            i + 1
        } else {
            i
        };
        let kd = kind_at(toks, d);
        if kd == Kind::Eof {
            (Err(ParseStmtError::Eof), i, seq![])
        } else if kd == Kind::Keyword(Keyword::Const) || kd == Kind::Keyword(Keyword::Let) || kd
            == Kind::Keyword(Keyword::Mut) {
            let (vr, ve, verrs) = variable_step(toks, i);
            (
                match vr {
                    Ok(v) => Ok(StmtModel::Var(v)),
                    Err(_) => Err(ParseStmtError::Var),
                },
                ve,
                verrs,
            )
        } else {
            let (er, ee, eerrs) = expression_step(toks, i);
            match er {
                Err(_) => (Err(ParseStmtError::Eof), ee, eerrs),
                Ok(e) => {
                    let k2 = kind_at(toks, ee);
                    if k2 == Kind::Eof {
                        (Err(ParseStmtError::Eof), ee, eerrs)
                    } else if k2 matches Kind::Operator(Operator::Assign(_)) {
                        let (ar, ae, aerrs) = assign_step(toks, i);
                        (
                            match ar {
                                Ok((call, op, s)) => Ok(
                                    StmtModel::Assign(call, op, Box::new(s)),
                                ),
                                Err(_) => Err(ParseStmtError::Assign),
                            },
                            ae,
                            aerrs,
                        )
                    } else {
                        (Ok(StmtModel::Expr(e)), ee, eerrs)
                    }
                },
            }
        }
    }
}

/// Statements from `p` until one fails, with `acc` already collected: an
/// assignment or declaration takes a following `;` when present and ends the
/// sequence at `}`; a plain expression takes a `;` unless `}` follows;
/// blocks and conditionals need no separator.
pub open spec fn statements_loop_step(toks: Seq<Kind>, p: int, acc: Seq<StmtModel>) -> (
    Seq<StmtModel>,
    int,
    Seq<ParseError>,
)
    decreases fuel_at(toks, p), 22int,
{
    if kind_at(toks, p) == Kind::Eof {
        (acc, p, seq![])
    } else {
    let (sr, se, serrs) = statement_step(toks, p);
    match sr {
        Err(_) => (acc, se, serrs),
        Ok(s) => {
            let se2 = at_least(se, p + 1);
            match s {
                StmtModel::Assign(_, _, _) | StmtModel::Var(_) => {
                    let p1 = if kind_at(toks, se2) == Kind::Semi {
                        se2 + 1
                    } else {
                        se2
                    };
                    if kind_at(toks, p1) == Kind::CloseDelim(Delimiter::Brace) {
                        (acc.push(s), p1, serrs)
                    } else {
                        let (a2, e2, es2) = statements_loop_step(toks, p1, acc.push(s));
                        (a2, e2, serrs + es2)
                    }
                },
                StmtModel::Expr(_) => {
                    let p1 = if kind_at(toks, se2) == Kind::CloseDelim(Delimiter::Brace) {
                        se2
                    } else if kind_at(toks, se2) == Kind::Semi {
                        se2 + 1
                    } else {
                        se2
                    };
                    let (a2, e2, es2) = statements_loop_step(toks, p1, acc.push(s));
                    (a2, e2, serrs + es2)
                },
                _ => {
                    let (a2, e2, es2) = statements_loop_step(toks, se2, acc.push(s));
                    (a2, e2, serrs + es2)
                },
            }
        },
    }
    }
}

/// The statement sequence at `i`: statements until one fails; never an
/// error itself.
pub open spec fn statements_step(toks: Seq<Kind>, i: int) -> (
    Seq<StmtModel>,
    int,
    Seq<ParseError>,
)
    decreases fuel_at(toks, i), 23int,
{
    statements_loop_step(toks, i, Seq::<StmtModel>::empty())
}

} // verus!
