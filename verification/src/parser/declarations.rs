//! Top-level declarations: a flat sequence of statements, plus a reserved,
//! intentionally minimal function-declaration form kept for future
//! extension.

use vstd::prelude::*;

verus! {

use crate::lexer::TokenId;
use super::statements::{StmtKind, Visibility};

/// A top-level declaration.
#[derive(Debug)]
pub enum DeclKind {
    Statement(StmtKind),
    Fn(FnDecl),
}

/// The reserved function-declaration surface: a visibility, a name, and a
/// body placeholder.  No behavior is guaranteed for it yet.
#[derive(Debug)]
pub struct FnDecl {
    pub vis: Visibility,
    pub name: TokenId,
    pub inner: Vec<StmtKind>,
}

} // verus!
