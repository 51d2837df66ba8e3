//! Token-id spans: ranges over the token stream rather than over bytes.

use vstd::prelude::*;

verus! {

use crate::lexer::{self, TokenId};

/// A range of token ids `[start, end]`; an external reporter resolves it to
/// a byte span and then to a line and column.
#[derive(Debug, Clone, Copy, PartialEq, Eq, Structural)]
pub struct Span {
    pub start: TokenId,
    pub end: TokenId,
}

impl Span {
    pub fn new(start: TokenId, end: TokenId) -> (s: Span)
        requires
            start.0 <= end.0,
        ensures
            s == (Span { start, end }),
    {
        Self { start, end }
    }

    /// The span that covers one token.
    pub fn dot(id: TokenId) -> (s: Span)
        ensures
            s == (Span { start: id, end: id }),
    {
        Self { start: id, end: id }
    }

    /// Resolve the token-id range to a byte span, given the byte span of
    /// every token in the stream.
    pub fn to_lexer_span(&self, spans: &[lexer::Span]) -> (r: lexer::Span)
        requires
            (self.start.0 as int) < spans@.len(),
            (self.end.0 as int) < spans@.len(),
            spans@[self.start.0 as int].start <= spans@[self.end.0 as int].start,
        ensures
            r.start == spans@[self.start.0 as int].start,
            r.end == spans@[self.end.0 as int].start,
    {
        let start = spans[self.start.as_index()].start;
        let end = spans[self.end.as_index()].start;
        lexer::Span::new(start, end)
    }
}

} // verus!
