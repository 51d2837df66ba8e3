//! Recursive-descent parser.
//!
//! The parser reads the classified token stream by integer token id, builds
//! the AST by precedence climbing over expressions and explicit rules for
//! statements, and collects positional diagnostics.  Backtracking goes
//! through [`ParserFrame`] snapshots alone: restoring one resets the
//! position and drops the diagnostics of the discarded attempt.

use vstd::prelude::*;

mod declarations;
mod error;
mod expressions;
mod model;
mod parser;
mod span;
mod statements;
mod token_stream;

pub use declarations::{DeclKind, FnDecl};
pub use error::{
    ParseError, ItemSequence, Place, ExpectedItem, SyntaxError, Item, ItemKind, parse_error_span,
    item_sequence_items, item_kind_of, is_lexer_item_kind, item_kind_text, item_kind_display,
    comma_join, expected_list_text, parse_error_text,
};
pub use expressions::{
    ExprKind, ExprId, LitExpr, PathExpr, TypePathExpr, CallExpr, ValueExpr, UnaryExpr, UnaryKind,
    BinaryExpr,
};
pub use model::{
    ExprModel, StmtModel, VarModel, expr_view, stmt_view, var_view, stmts_view_from, at_least,
    fuel_at, expr_result_view, stmt_result_view, var_result_view, assign_result_view,
    block_result_view, if_result_view,
    id_at, expected_here_at, expected_after_at, unexpected_at, keyword_item_kind, lit_step,
    type_path_segments_step, type_path_step, path_segments_step, path_step, value_step, call_step,
    unary_prefix_step, unary_step, binary_tail_step, binary_step, expression_step,
    variable_tail_step, variable_step, assign_step, block_step, if_step, statement_step,
    statements_loop_step, statements_step,
};
pub use parser::{Parser, ParserFrame, level_operator};
pub use span::Span;
pub use statements::{
    StmtKind, ParseStmtError, Visibility, Mutability, VarKind, VarStmt, AssignStmt, BlockStmt,
    IfStmt, stmt_after_assign_expected,
};
pub use token_stream::{TokenStream, Token, kind_at};

verus! {

/// One grammar production: what it parses to and how it fails.
pub trait Parse {
    type Parsed;

    type Error;

    /// Parse this production at the parser's current position.
    fn parse(parser: &mut Parser) -> (r: Result<Self::Parsed, Self::Error>)
        requires
            old(parser).wf(),
        ensures
            final(parser).advances_from(*old(parser)),
    ;
}

impl Parser {
    /// Parse one production.
    pub fn parse<P: Parse>(&mut self) -> (r: Result<P::Parsed, P::Error>)
        requires
            old(self).wf(),
        ensures
            final(self).advances_from(*old(self)),
    {
        P::parse(self)
    }
}

impl Parse for LitExpr {
    type Parsed = LitExpr;

    type Error = ();

    fn parse(parser: &mut Parser) -> (r: Result<LitExpr, ()>) {
        parser.parse_lit()
    }
}

impl Parse for TypePathExpr {
    type Parsed = TypePathExpr;

    type Error = ();

    fn parse(parser: &mut Parser) -> (r: Result<TypePathExpr, ()>) {
        parser.parse_type_path()
    }
}

impl Parse for PathExpr {
    type Parsed = PathExpr;

    type Error = ();

    fn parse(parser: &mut Parser) -> (r: Result<PathExpr, ()>) {
        parser.parse_path()
    }
}

impl Parse for ValueExpr {
    type Parsed = ExprKind;

    type Error = ();

    fn parse(parser: &mut Parser) -> (r: Result<ExprKind, ()>) {
        parser.parse_value()
    }
}

impl Parse for CallExpr {
    type Parsed = ExprKind;

    type Error = ();

    fn parse(parser: &mut Parser) -> (r: Result<ExprKind, ()>) {
        parser.parse_call()
    }
}

impl Parse for UnaryExpr {
    type Parsed = ExprKind;

    type Error = ();

    fn parse(parser: &mut Parser) -> (r: Result<ExprKind, ()>) {
        parser.parse_unary()
    }
}

impl Parse for ExprKind {
    type Parsed = ExprKind;

    type Error = ();

    fn parse(parser: &mut Parser) -> (r: Result<ExprKind, ()>) {
        parser.parse_expression()
    }
}

impl Parse for VarStmt {
    type Parsed = VarStmt;

    type Error = ();

    fn parse(parser: &mut Parser) -> (r: Result<VarStmt, ()>) {
        parser.parse_variable()
    }
}

impl Parse for AssignStmt {
    type Parsed = AssignStmt;

    type Error = ();

    fn parse(parser: &mut Parser) -> (r: Result<AssignStmt, ()>) {
        parser.parse_assign()
    }
}

impl Parse for BlockStmt {
    type Parsed = BlockStmt;

    type Error = ();

    fn parse(parser: &mut Parser) -> (r: Result<BlockStmt, ()>) {
        parser.parse_block()
    }
}

impl Parse for IfStmt {
    type Parsed = IfStmt;

    type Error = ();

    fn parse(parser: &mut Parser) -> (r: Result<IfStmt, ()>) {
        parser.parse_if()
    }
}

impl Parse for StmtKind {
    type Parsed = StmtKind;

    type Error = ParseStmtError;

    fn parse(parser: &mut Parser) -> (r: Result<StmtKind, ParseStmtError>) {
        parser.parse_statement()
    }
}

impl Parse for Vec<StmtKind> {
    type Parsed = Vec<StmtKind>;

    type Error = ();

    fn parse(parser: &mut Parser) -> (r: Result<Vec<StmtKind>, ()>) {
        parser.parse_statements()
    }
}

} // verus!
