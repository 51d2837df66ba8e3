//! Classifying tokenizer.
//!
//! The lexer consumes raw cursor tokens, swallows whitespace and non-doc
//! comments, classifies identifiers against the keyword set, assembles
//! compound punctuation by greedy longest match, absorbs literal suffixes,
//! and keeps exact byte spans: the span window is extended by each raw token
//! and collapses only after a semantic token is emitted, so the bytes of
//! preceding whitespace and comments fold into the next token's span.  All
//! diagnostics are recoverable; lexing always runs to `Eof`.

use vstd::prelude::*;

mod location;
mod model;
mod span;
mod token;

pub use location::{Location, loc_walk};
pub use span::Span;
pub use token::{
    Token, TokenId, Kind, Keyword, Literal, LiteralKind, Operator, BinaryKind, AssignKind,
    Delimiter, keyword_text, binary_kind_text, assign_kind_text, literal_kind_text, operator_text,
    kind_text,
};
pub use model::{
    skip_trivia, classify_ident_text, literal_shape, literal_error, err_at, lex_literal, lex_step,
    lex_tokens_from, lex_errors_from, lex_tokens, lex_errors, lemma_skip_trivia_bounds,
    lemma_skip_trivia_step, lemma_lex_step_bounds, lemma_lex_from_unfold, concat_span_bytes,
    spans_end, lemma_round_trip, is_plain_decimal_literal, lemma_decimal_literal,
    is_decimal_literal_at, lemma_decimal_literal_token,
};

verus! {

use crate::cursor::{self, Cursor};
use crate::chars::{
    byte_at, seq_utf8_bytes, lemma_byte_at_mono, lemma_byte_at_end,
};

/// The classifying tokenizer.  It owns the scanner, the running span window,
/// and the ordered list of diagnostics collected so far.
#[derive(Debug)]
pub struct Lexer {
    pub cursor: Cursor,
    pub errors: Vec<LexerError>,
    pub span: Span,
}

/// A recoverable lexing diagnostic: a kind and the byte span it was
/// recorded at.
#[derive(Debug, Clone, Copy, PartialEq, Eq, Structural)]
pub struct LexerError {
    pub span: Span,
    pub kind: LexerErrorKind,
}

impl LexerError {
    pub fn new(span: Span, kind: LexerErrorKind) -> (e: Self)
        ensures
            e == (LexerError { span, kind }),
    {
        Self { span, kind }
    }
}

/// The lexer's diagnostic taxonomy.  All are recoverable: lexing continues
/// and always terminates with `Eof`.
#[derive(Debug, Clone, Copy, PartialEq, Eq, Structural)]
pub enum LexerErrorKind {
    /// An identifier-like run containing non-ASCII alphanumerics
    InvalidIdent,
    /// A literal suffix that is not a valid identifier
    InvalidSuffix,
    /// A base marker with no digits after it, e.g. `0x`
    EmptyInt,
    /// A string literal with no closing `"`
    UnterminatedStr,
    /// A character literal with no closing `'`
    UnterminatedChar,
}

impl Lexer {
    /// The source text being tokenized.
    pub open spec fn text(&self) -> Seq<char> {
        self.cursor.text()
    }

    /// The scanner sits inside the text, and the span window's end is the
    /// byte offset of the scanner's position.
    pub open spec fn wf(&self) -> bool {
        &&& self.cursor.wf()
        &&& self.span.start <= self.span.end
        &&& self.span.end as nat == byte_at(self.cursor.text(), self.cursor.at())
    }

    /// Build a lexer over `source`, positioned at its start.
    pub fn new(source: &str) -> (l: Lexer)
        requires
            seq_utf8_bytes(source@) <= u32::MAX,
        ensures
            l.wf(),
            l.text() == source@,
            l.cursor.at() == 0,
            l.errors@ == Seq::<LexerError>::empty(),
            l.span == (Span { start: 0usize, end: 0usize }),
    {
        let cursor = Cursor::new(source);
        proof {
            assert(source@.take(0) =~= Seq::<char>::empty());
        }
        Lexer { cursor, errors: Vec::new(), span: Span::zero() }
    }

    /// Tokenize a whole source text: every semantic token in order, `Eof`
    /// excluded, together with every diagnostic in the order recorded.
    #[verifier::rlimit(60)]
    pub fn tokenize(source: &str) -> (r: (Vec<Token>, Vec<LexerError>))
        requires
            seq_utf8_bytes(source@) <= u32::MAX,
        ensures
            r.0@ == lex_tokens(source@),
            r.1@ == lex_errors(source@),
    {
        let ghost s = source@;
        let mut lexer = Lexer::new(source);
        let mut tokens: Vec<Token> = Vec::new();
        proof {
            assert(tokens@ + lex_tokens_from(s, 0) =~= lex_tokens(s));
            assert(lexer.errors@ + lex_errors_from(s, 0) =~= lex_errors(s));
        }
        loop
            invariant
                lexer.wf(),
                s == source@,
                s == lexer.text(),
                0 <= lexer.cursor.at() <= s.len(),
                lexer.span.start == lexer.span.end,
                tokens@ + lex_tokens_from(s, lexer.cursor.at()) == lex_tokens(s),
                lexer.errors@ + lex_errors_from(s, lexer.cursor.at()) == lex_errors(s),
            decreases s.len() - lexer.cursor.at(),
        {
            let ghost at0 = lexer.cursor.at();
            let ghost sb0 = lexer.span.start as int;
            proof {
                lemma_lex_from_unfold(s, at0);
                lemma_lex_step_bounds(s, at0, sb0);
                assert(sb0 == byte_at(s, at0) as int);
            }
            let token = lexer.advance_token();
            proof {
                assert(lex_step(s, at0, sb0) == lex_step(s, at0, byte_at(s, at0) as int));
            }
            if matches!(token.kind, Kind::Eof) {
                proof {
                    assert(tokens@ + Seq::<Token>::empty() =~= tokens@);
                    assert(lexer.errors@ =~= lexer.errors@ + Seq::<LexerError>::empty());
                }
                return (tokens, lexer.errors);
            }
            tokens.push(token);
            proof {
                assert(tokens@ + lex_tokens_from(s, lexer.cursor.at()) =~= lex_tokens(s));
            }
        }
    }
}

impl Lexer {
    /// One semantic token, or the final `Eof`.  The token's span starts where
    /// the previous emitted token's span ended and absorbs any whitespace and
    /// comment bytes crossed on the way; diagnostics found along the way are
    /// appended to the lexer's list.
    #[verifier::rlimit(100)]
    pub fn advance_token(&mut self) -> (t: Token)
        requires
            old(self).wf(),
        ensures
            final(self).wf(),
            final(self).text() == old(self).text(),
            ({
                let s = old(self).text();
                let (k, e, errs) = lex_step(s, old(self).cursor.at(), old(self).span.start as int);
                &&& t.kind == k
                &&& t.span == (Span {
                    start: old(self).span.start,
                    end: byte_at(s, e) as usize,
                })
                &&& final(self).cursor.at() == e
                &&& final(self).errors@ == old(self).errors@ + errs
                &&& final(self).span == (if k == Kind::Eof {
                    t.span
                } else {
                    Span { start: t.span.end, end: t.span.end }
                })
            }),
    {
        let ghost s = self.text();
        let ghost i0 = self.cursor.at();
        let ghost sb = self.span.start as int;
        self.skip_trivia_run();
        let ghost j = self.cursor.at();
        if self.cursor.is_eof() {
            return Token::new(Kind::Eof, self.span);
        }
        let start_pos = self.cursor.pos;
        proof {
            cursor::lemma_scan_token_bounds(s, j);
        }
        let raw = self.next();
        let kind: Kind = match raw.kind {
            cursor::Kind::Docs => Kind::Docs,
            cursor::Kind::Ident => self.classify_ident(start_pos),
            cursor::Kind::InvalidIdent => {
                self.push_error(LexerErrorKind::InvalidIdent);
                // hand the parser a usable identifier anyway
                Kind::Ident
            },
            cursor::Kind::Lit(lk) => self.parse_lit(lk),
            cursor::Kind::Semi => Kind::Semi,
            cursor::Kind::Colon => if self.next_raw_if(cursor::Kind::Colon) {
                Kind::PathSep
            } else {
                Kind::Colon
            },
            cursor::Kind::Comma => Kind::Comma,
            cursor::Kind::Dot => if self.next_raw_if(cursor::Kind::Dot) {
                if self.next_raw_if(cursor::Kind::Dot) {
                    Kind::DotDotDot
                } else if self.next_raw_if(cursor::Kind::Eq) {
                    Kind::DotDotEq
                } else {
                    Kind::DotDot
                }
            } else {
                Kind::Dot
            },
            cursor::Kind::At => Kind::At,
            cursor::Kind::Pound => Kind::Pound,
            cursor::Kind::Tilde => Kind::Tilde,
            cursor::Kind::Question => Kind::Question,
            cursor::Kind::Dollar => Kind::Dollar,
            cursor::Kind::Eq => if self.next_raw_if(cursor::Kind::Eq) {
                Kind::Operator(Operator::Binary(BinaryKind::Eq))
            } else if self.next_raw_if(cursor::Kind::Gt) {
                Kind::FatArrow
            } else {
                Kind::Operator(Operator::Assign(AssignKind::Eq))
            },
            cursor::Kind::Bang => if self.next_raw_if(cursor::Kind::Eq) {
                Kind::Operator(Operator::Binary(BinaryKind::Ne))
            } else {
                Kind::Operator(Operator::Not)
            },
            cursor::Kind::Lt => if self.next_raw_if(cursor::Kind::Eq) {
                Kind::Operator(Operator::Binary(BinaryKind::Le))
            } else if self.next_raw_if(cursor::Kind::Lt) {
                if self.next_raw_if(cursor::Kind::Eq) {
                    Kind::Operator(Operator::Assign(AssignKind::Shl))
                } else {
                    Kind::Operator(Operator::Binary(BinaryKind::Shl))
                }
            } else {
                Kind::Operator(Operator::Binary(BinaryKind::Lt))
            },
            cursor::Kind::Gt => if self.next_raw_if(cursor::Kind::Eq) {
                Kind::Operator(Operator::Binary(BinaryKind::Ge))
            } else if self.next_raw_if(cursor::Kind::Gt) {
                if self.next_raw_if(cursor::Kind::Eq) {
                    Kind::Operator(Operator::Assign(AssignKind::Shr))
                } else {
                    Kind::Operator(Operator::Binary(BinaryKind::Shr))
                }
            } else {
                Kind::Operator(Operator::Binary(BinaryKind::Gt))
            },
            cursor::Kind::And => if self.next_raw_if(cursor::Kind::And) {
                Kind::Operator(Operator::Binary(BinaryKind::And))
            } else if self.next_raw_if(cursor::Kind::Eq) {
                Kind::Operator(Operator::Assign(AssignKind::And))
            } else {
                Kind::Operator(Operator::Binary(BinaryKind::BinAnd))
            },
            cursor::Kind::Or => if self.next_raw_if(cursor::Kind::Or) {
                Kind::Operator(Operator::Binary(BinaryKind::Or))
            } else if self.next_raw_if(cursor::Kind::Eq) {
                Kind::Operator(Operator::Assign(AssignKind::Or))
            } else {
                Kind::Operator(Operator::Binary(BinaryKind::BinOr))
            },
            cursor::Kind::Plus => if self.next_raw_if(cursor::Kind::Eq) {
                Kind::Operator(Operator::Assign(AssignKind::Plus))
            } else {
                Kind::Operator(Operator::Binary(BinaryKind::Plus))
            },
            cursor::Kind::Minus => if self.next_raw_if(cursor::Kind::Gt) {
                Kind::RArrow
            } else if self.next_raw_if(cursor::Kind::Eq) {
                Kind::Operator(Operator::Assign(AssignKind::Minus))
            } else {
                Kind::Operator(Operator::Binary(BinaryKind::Minus))
            },
            cursor::Kind::Star => if self.next_raw_if(cursor::Kind::Eq) {
                Kind::Operator(Operator::Assign(AssignKind::Star))
            } else {
                Kind::Operator(Operator::Binary(BinaryKind::Star))
            },
            cursor::Kind::Slash => if self.next_raw_if(cursor::Kind::Eq) {
                Kind::Operator(Operator::Assign(AssignKind::Slash))
            } else {
                Kind::Operator(Operator::Binary(BinaryKind::Slash))
            },
            cursor::Kind::Caret => if self.next_raw_if(cursor::Kind::Eq) {
                Kind::Operator(Operator::Assign(AssignKind::Caret))
            } else {
                Kind::Operator(Operator::Binary(BinaryKind::Caret))
            },
            cursor::Kind::Percent => if self.next_raw_if(cursor::Kind::Eq) {
                Kind::Operator(Operator::Assign(AssignKind::Percent))
            } else {
                Kind::Operator(Operator::Binary(BinaryKind::Percent))
            },
            cursor::Kind::OpenParen => Kind::OpenDelim(Delimiter::Paren),
            cursor::Kind::CloseParen => Kind::CloseDelim(Delimiter::Paren),
            cursor::Kind::OpenBrace => Kind::OpenDelim(Delimiter::Brace),
            cursor::Kind::CloseBrace => Kind::CloseDelim(Delimiter::Brace),
            cursor::Kind::OpenBracket => Kind::OpenDelim(Delimiter::Bracket),
            cursor::Kind::CloseBracket => Kind::CloseDelim(Delimiter::Bracket),
            cursor::Kind::Unknown => Kind::Unknown,
            cursor::Kind::LineComment
            | cursor::Kind::BlockComment { .. }
            | cursor::Kind::WhiteSpace { .. }
            | cursor::Kind::Eof => {
                proof {
                    assert(false);
                }
                Kind::Unknown
            },
        };
        let token = Token::new(kind, self.span);
        self.span.consume();
        token
    }
}

impl Lexer {
    /// Consume raw tokens while they are whitespace or non-doc comments,
    /// extending the span window over their bytes.
    #[verifier::loop_isolation(false)]
    fn skip_trivia_run(&mut self)
        requires
            old(self).wf(),
        ensures
            final(self).wf(),
            final(self).text() == old(self).text(),
            final(self).errors@ == old(self).errors@,
            final(self).span.start == old(self).span.start,
            final(self).cursor.at() == skip_trivia(old(self).text(), old(self).cursor.at()),
            !cursor::is_trivia(
                cursor::scan_token(final(self).text(), final(self).cursor.at()).0,
            ),
    {
        let ghost s = self.text();
        let ghost i0 = self.cursor.at();
        loop
            invariant
                self.wf(),
                s == self.text(),
                self.errors@ == old(self).errors@,
                self.span.start == old(self).span.start,
                skip_trivia(s, i0) == skip_trivia(s, self.cursor.at()),
                0 <= self.cursor.at() <= s.len(),
            decreases s.len() - self.cursor.at(),
        {
            let ghost at0 = self.cursor.at();
            proof {
                cursor::lemma_scan_token_bounds(s, at0);
            }
            let saved = self.cursor.pos;
            let t = self.cursor.advance_token();
            if t.kind.is_whitespace() {
                proof {
                    lemma_skip_trivia_step(s, at0);
                    lemma_byte_at_mono(s, self.cursor.at(), s.len() as int);
                    lemma_byte_at_end(s);
                }
                self.span.end = self.span.end + (t.len as usize);
            } else {
                self.cursor.pos = saved;
                return ;
            }
        }
    }

    /// Consume one raw token, extending the span window over its bytes.
    fn next(&mut self) -> (t: cursor::Token)
        requires
            old(self).wf(),
        ensures
            final(self).wf(),
            final(self).text() == old(self).text(),
            final(self).errors@ == old(self).errors@,
            final(self).span.start == old(self).span.start,
            t.kind == cursor::scan_token(old(self).text(), old(self).cursor.at()).0,
            final(self).cursor.at() == cursor::scan_token(
                old(self).text(),
                old(self).cursor.at(),
            ).1,
    {
        let ghost s = self.text();
        proof {
            lemma_byte_at_mono(s, self.cursor.at(), s.len() as int);
            lemma_byte_at_end(s);
            cursor::lemma_scan_token_bounds(s, self.cursor.at());
        }
        let t = self.cursor.advance_token();
        proof {
            lemma_byte_at_mono(s, self.cursor.at(), s.len() as int);
        }
        self.span.end = self.span.end + (t.len as usize);
        t
    }

    /// Consume the next raw token when it has exactly the wanted kind; used
    /// for the greedy assembly of compound punctuation.
    fn next_raw_if(&mut self, want: cursor::Kind) -> (r: bool)
        requires
            old(self).wf(),
        ensures
            final(self).wf(),
            final(self).text() == old(self).text(),
            final(self).errors@ == old(self).errors@,
            final(self).span.start == old(self).span.start,
            ({
                let s = old(self).text();
                let (k1, e1) = cursor::scan_token(s, old(self).cursor.at());
                if k1 == want {
                    r && final(self).cursor.at() == e1
                } else {
                    !r && final(self).cursor.at() == old(self).cursor.at() && final(self).span
                        == old(self).span
                }
            }),
    {
        let ghost s = self.text();
        proof {
            lemma_byte_at_mono(s, self.cursor.at(), s.len() as int);
            lemma_byte_at_end(s);
            cursor::lemma_scan_token_bounds(s, self.cursor.at());
        }
        let saved = self.cursor.pos;
        let t = self.cursor.advance_token();
        if kinds_equal(t.kind, want) {
            proof {
                lemma_byte_at_mono(s, self.cursor.at(), s.len() as int);
            }
            self.span.end = self.span.end + (t.len as usize);
            true
        } else {
            self.cursor.pos = saved;
            false
        }
    }

    /// Record a diagnostic over the current span window.
    fn push_error(&mut self, kind: LexerErrorKind)
        requires
            old(self).wf(),
        ensures
            final(self).wf(),
            final(self).cursor == old(self).cursor,
            final(self).span == old(self).span,
            final(self).errors@ == old(self).errors@ + seq![
                LexerError { span: old(self).span, kind },
            ],
    {
        let e = LexerError::new(self.span, kind);
        self.errors.push(e);
    }

    /// Classify the identifier whose characters start at `j` and end at the
    /// current scanner position.
    fn classify_ident(&self, j: usize) -> (k: Kind)
        requires
            self.wf(),
            j <= self.cursor.at(),
        ensures
            k == classify_ident_text(self.text().subrange(j as int, self.cursor.at())),
    {
        let ghost w = self.text().subrange(j as int, self.cursor.at());
        let e = self.cursor.pos;
        let n = e - j;
        let src = &self.cursor.src;
        proof {
            assert(w.len() == n);
        }
        if n == 3 && src[j] == 'p' && src[j + 1] == 'u' && src[j + 2] == 'b' {
            proof {
                assert(w =~= seq!['p', 'u', 'b']);
            }
            Kind::Keyword(Keyword::Pub)
        } else if n == 3 && src[j] == 'l' && src[j + 1] == 'e' && src[j + 2] == 't' {
            proof {
                assert(w =~= seq!['l', 'e', 't']);
            }
            Kind::Keyword(Keyword::Let)
        } else if n == 5 && src[j] == 'c' && src[j + 1] == 'o' && src[j + 2] == 'n' && src[j + 3]
            == 's' && src[j + 4] == 't' {
            proof {
                assert(w =~= seq!['c', 'o', 'n', 's', 't']);
            }
            Kind::Keyword(Keyword::Const)
        } else if n == 3 && src[j] == 'm' && src[j + 1] == 'u' && src[j + 2] == 't' {
            proof {
                assert(w =~= seq!['m', 'u', 't']);
            }
            Kind::Keyword(Keyword::Mut)
        } else if n == 2 && src[j] == 'i' && src[j + 1] == 'f' {
            proof {
                assert(w =~= seq!['i', 'f']);
            }
            Kind::Keyword(Keyword::If)
        } else if n == 4 && src[j] == 'e' && src[j + 1] == 'l' && src[j + 2] == 's' && src[j + 3]
            == 'e' {
            proof {
                assert(w =~= seq!['e', 'l', 's', 'e']);
            }
            Kind::Keyword(Keyword::Else)
        } else if n == 5 && src[j] == 'w' && src[j + 1] == 'h' && src[j + 2] == 'i' && src[j + 3]
            == 'l' && src[j + 4] == 'e' {
            proof {
                assert(w =~= seq!['w', 'h', 'i', 'l', 'e']);
            }
            Kind::Keyword(Keyword::While)
        } else if n == 3 && src[j] == 'f' && src[j + 1] == 'o' && src[j + 2] == 'r' {
            proof {
                assert(w =~= seq!['f', 'o', 'r']);
            }
            Kind::Keyword(Keyword::For)
        } else if n == 2 && src[j] == 'i' && src[j + 1] == 'n' {
            proof {
                assert(w =~= seq!['i', 'n']);
            }
            Kind::Keyword(Keyword::In)
        } else if n == 2 && src[j] == 'f' && src[j + 1] == 'n' {
            proof {
                assert(w =~= seq!['f', 'n']);
            }
            Kind::Keyword(Keyword::Fn)
        } else if n == 4 && src[j] == 't' && src[j + 1] == 'r' && src[j + 2] == 'u' && src[j + 3]
            == 'e' {
            proof {
                assert(w =~= seq!['t', 'r', 'u', 'e']);
            }
            Kind::Literal(Literal::bool())
        } else if n == 5 && src[j] == 'f' && src[j + 1] == 'a' && src[j + 2] == 'l' && src[j + 3]
            == 's' && src[j + 4] == 'e' {
            proof {
                assert(w =~= seq!['f', 'a', 'l', 's', 'e']);
            }
            Kind::Literal(Literal::bool())
        } else {
            Kind::Ident
        }
    }

    /// Interpret a raw literal: record its structural flags as diagnostics
    /// and absorb a directly following identifier-like token as its suffix.
    fn parse_lit(&mut self, lk: cursor::LitKind) -> (k: Kind)
        requires
            old(self).wf(),
        ensures
            final(self).wf(),
            final(self).text() == old(self).text(),
            final(self).span.start == old(self).span.start,
            ({
                let s = old(self).text();
                let (k2, end, errs) = lex_literal(
                    s,
                    old(self).cursor.at(),
                    old(self).span.start as int,
                    lk,
                );
                &&& k == k2
                &&& final(self).cursor.at() == end
                &&& final(self).errors@ == old(self).errors@ + errs
            }),
    {
        let ghost s = self.text();
        let kind = match lk {
            cursor::LitKind::Int { base, empty } => {
                if empty {
                    self.push_error(LexerErrorKind::EmptyInt);
                }
                LiteralKind::Int { base }
            },
            cursor::LitKind::Float { base } => LiteralKind::Float { base },
            cursor::LitKind::Char { terminated } => {
                if !terminated {
                    self.push_error(LexerErrorKind::UnterminatedChar);
                }
                LiteralKind::Char
            },
            cursor::LitKind::Str { terminated } => {
                if !terminated {
                    self.push_error(LexerErrorKind::UnterminatedStr);
                }
                LiteralKind::Str
            },
        };
        proof {
            lemma_byte_at_mono(s, self.cursor.at(), s.len() as int);
            lemma_byte_at_end(s);
            cursor::lemma_scan_token_bounds(s, self.cursor.at());
        }
        let saved = self.cursor.pos;
        let first = self.cursor.advance_token();
        let suffix_len: u32 = match first.kind {
            cursor::Kind::Ident => {
                proof {
                    lemma_byte_at_mono(s, self.cursor.at(), s.len() as int);
                }
                self.span.end = self.span.end + (first.len as usize);
                first.len
            },
            cursor::Kind::InvalidIdent => {
                proof {
                    lemma_byte_at_mono(s, self.cursor.at(), s.len() as int);
                }
                self.span.end = self.span.end + (first.len as usize);
                self.push_error(LexerErrorKind::InvalidSuffix);
                first.len
            },
            _ => {
                self.cursor.pos = saved;
                0
            },
        };
        Kind::Literal(Literal { kind, suffix_len })
    }

    /// The next two raw tokens, leaving the scanner where it was.
    pub fn two(&mut self) -> (r: (cursor::Token, cursor::Token))
        requires
            old(self).wf(),
        ensures
            final(self).text() == old(self).text(),
            final(self).cursor.at() == old(self).cursor.at(),
            final(self).span == old(self).span,
            final(self).errors@ == old(self).errors@,
            final(self).wf(),
            ({
                let s = old(self).text();
                let i = old(self).cursor.at();
                let (k1, e1) = cursor::scan_token(s, i);
                let (k2, e2) = cursor::scan_token(s, e1);
                &&& r.0.kind == k1
                &&& r.0.len as int == byte_at(s, e1) - byte_at(s, i)
                &&& r.1.kind == k2
                &&& r.1.len as int == byte_at(s, e2) - byte_at(s, e1)
            }),
    {
        let ghost s = self.text();
        proof {
            cursor::lemma_scan_token_bounds(s, self.cursor.at());
        }
        let saved = self.cursor.pos;
        let first = self.cursor.advance_token();
        let second = self.cursor.advance_token();
        self.cursor.pos = saved;
        (first, second)
    }
}

/// Structural equality of raw token kinds.
fn kinds_equal(a: cursor::Kind, b: cursor::Kind) -> (r: bool)
    ensures
        r == (a == b),
{
    a == b
}

} // verus!
