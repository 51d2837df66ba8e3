//! Byte spans into the source text.

use vstd::prelude::*;

verus! {

use vstd::utf8::is_char_boundary;
use vstd::string::StringSliceAdditionalSpecFns;
use crate::chars::{seq_utf8_bytes, char_utf8_bytes, lemma_len_le_bytes};
use super::location::{Location, loc_walk};

/// A half-open byte range `[start, end)` into the source text.
#[derive(Debug, Clone, Copy, PartialEq, Eq, Structural)]
pub struct Span {
    pub start: usize,
    pub end: usize,
}

impl Span {
    pub fn new(start: usize, end: usize) -> (s: Span)
        requires
            start <= end,
        ensures
            s == (Span { start, end }),
    {
        Self { start, end }
    }

    /// The empty span at position `end`.
    pub fn eof(end: usize) -> (s: Span)
        ensures
            s == (Span { start: end, end }),
    {
        Self { start: end, end }
    }

    /// The empty span at the start of the text.
    pub fn zero() -> (s: Span)
        ensures
            s == (Span { start: 0usize, end: 0usize }),
    {
        Self { start: 0, end: 0 }
    }
}

impl Span {
    /// Collapse the span to its end; the running window moves past an
    /// emitted token this way.
    pub fn consume(&mut self)
        ensures
            *final(self) == (Span { start: old(self).end, end: old(self).end }),
    {
        self.start = self.end;
    }

    /// The span as a standard byte range.
    pub fn as_range(&self) -> (r: core::ops::Range<usize>)
        ensures
            r.start == self.start,
            r.end == self.end,
    {
        self.start..self.end
    }

    /// The line and column of the span's start inside `source`.
    pub fn location(&self, source: &str) -> (loc: Location)
        requires
            self.end <= seq_utf8_bytes(source@),
            seq_utf8_bytes(source@) + 2 <= u32::MAX,
        ensures
            (loc.line as int, loc.column as int) == loc_walk(source@, 0, self.start as int, 1, 1),
    {
        let ghost s = source@;
        proof {
            lemma_len_le_bytes(s);
        }
        let n = source.unicode_len();
        let mut line: u32 = 1;
        let mut column: u32 = 1;
        let mut byte_pos: usize = 0;
        let mut k: usize = 0;
        while k < n && byte_pos < self.start
            invariant
                k <= n,
                n == s.len(),
                s == source@,
                s.len() <= seq_utf8_bytes(s),
                seq_utf8_bytes(s) + 2 <= u32::MAX,
                line as int <= 1 + k,
                column as int <= 1 + byte_pos,
                byte_pos == crate::chars::byte_at(s, k as int),
                loc_walk(s, 0, self.start as int, 1, 1) == loc_walk(
                    s,
                    k as int,
                    self.start - byte_pos,
                    line as int,
                    column as int,
                ),
            decreases n - k,
        {
            let c = source.get_char(k);
            let w = crate::chars::utf8_len(c);
            proof {
                crate::chars::lemma_byte_at_step(s, k as int);
                crate::chars::lemma_byte_at_mono(s, k as int + 1, s.len() as int);
                crate::chars::lemma_byte_at_end(s);
            }
            if c == '\n' {
                line = line + 1;
                column = 1;
            } else {
                column = column + w;
            }
            byte_pos = byte_pos + w as usize;
            k = k + 1;
        }
        Location::new(line, column)
    }

    /// The text the span covers, when it lies on character boundaries.
    ///
    /// Relies on str::get: `Some` exactly when the range is in bounds and both
    /// ends are character boundaries, and then the bytes between them.
    #[verifier::external_body]
    pub fn get_lexeme<'a>(&self, source: &'a str) -> (r: Option<&'a str>)
        ensures
            (r is Some) == (self.start <= self.end <= source.spec_bytes().len()
                && is_char_boundary(source.spec_bytes(), self.start as int) && is_char_boundary(
                source.spec_bytes(),
                self.end as int,
            )),
            r matches Some(t) ==> t.spec_bytes() == source.spec_bytes().subrange(
                self.start as int,
                self.end as int,
            ),
    {
        source.get(self.start..self.end)
    }

    /// The text the span covers; the span must lie on character boundaries.
    pub fn lexeme<'a>(&self, source: &'a str) -> (t: &'a str)
        requires
            self.start <= self.end <= source.spec_bytes().len(),
            is_char_boundary(source.spec_bytes(), self.start as int),
            is_char_boundary(source.spec_bytes(), self.end as int),
        ensures
            t.spec_bytes() == source.spec_bytes().subrange(self.start as int, self.end as int),
    {
        match self.get_lexeme(source) {
            Some(t) => t,
            None => {
                proof {
                    assert(false);
                }
                ""
            },
        }
    }

    /// Length of the span in bytes.
    pub fn len(&self) -> (n: u32)
        requires
            self.start <= self.end,
            self.end - self.start <= u32::MAX,
        ensures
            n == self.end - self.start,
    {
        #[verifier::truncate]
        ((self.end - self.start) as u32)
    }
}

} // verus!
