//! Specification model of the lexer.
//!
//! `lex_step` gives, for a source text, a start position and the current
//! span-window start byte, the semantic token kind, the end position and the
//! diagnostics that [`super::Lexer::advance_token`] produces.  `lex_tokens`
//! and `lex_errors` give the full output of [`super::Lexer::tokenize`].

use vstd::prelude::*;

verus! {

use vstd::utf8::encode_utf8;
use crate::cursor::{self, scan_token, is_trivia, lemma_scan_token_bounds, scan_dec_end};
use crate::chars::{
    byte_at, seq_utf8_bytes, lemma_seq_utf8_bytes, lemma_byte_at_step, lemma_byte_at_mono,
    lemma_byte_at_end, is_dec_digit_char,
};
use super::span::Span;
use super::token::{Kind, Keyword, Literal, LiteralKind, Operator, BinaryKind, AssignKind,
    Delimiter, Token};
use super::{LexerError, LexerErrorKind};

/// First position at or after `i` whose raw token is not whitespace or a
/// non-doc comment.
pub open spec fn skip_trivia(s: Seq<char>, i: int) -> int
    decreases s.len() - i,
{
    if 0 <= i < s.len() {
        let (k, e) = scan_token(s, i);
        if is_trivia(k) {
            skip_trivia(
                s,
                if i < e <= s.len() {
                    e
                } else {
                    i + 1
                },
            )
        } else {
            i
        }
    } else {
        i
    }
}

/// Keyword and boolean-literal classification of an identifier's text.
pub open spec fn classify_ident_text(w: Seq<char>) -> Kind {
    if w == seq!['p', 'u', 'b'] {
        Kind::Keyword(Keyword::Pub)
    } else if w == seq!['l', 'e', 't'] {
        Kind::Keyword(Keyword::Let)
    } else if w == seq!['c', 'o', 'n', 's', 't'] {
        Kind::Keyword(Keyword::Const)
    } else if w == seq!['m', 'u', 't'] {
        Kind::Keyword(Keyword::Mut)
    } else if w == seq!['i', 'f'] {
        Kind::Keyword(Keyword::If)
    } else if w == seq!['e', 'l', 's', 'e'] {
        Kind::Keyword(Keyword::Else)
    } else if w == seq!['w', 'h', 'i', 'l', 'e'] {
        Kind::Keyword(Keyword::While)
    } else if w == seq!['f', 'o', 'r'] {
        Kind::Keyword(Keyword::For)
    } else if w == seq!['i', 'n'] {
        Kind::Keyword(Keyword::In)
    } else if w == seq!['f', 'n'] {
        Kind::Keyword(Keyword::Fn)
    } else if w == seq!['t', 'r', 'u', 'e'] || w == seq!['f', 'a', 'l', 's', 'e'] {
        Kind::Literal(Literal { kind: LiteralKind::Bool, suffix_len: 0u32 })
    } else {
        Kind::Ident
    }
}

/// The semantic literal shape of a raw literal shape.
pub open spec fn literal_shape(lk: cursor::LitKind) -> LiteralKind {
    match lk {
        cursor::LitKind::Int { base, empty: _ } => LiteralKind::Int { base },
        cursor::LitKind::Float { base } => LiteralKind::Float { base },
        cursor::LitKind::Char { terminated: _ } => LiteralKind::Char,
        cursor::LitKind::Str { terminated: _ } => LiteralKind::Str,
    }
}

/// The diagnostic a raw literal shape carries, if any.
pub open spec fn literal_error(lk: cursor::LitKind) -> Option<LexerErrorKind> {
    match lk {
        cursor::LitKind::Int { base: _, empty } => if empty {
            Some(LexerErrorKind::EmptyInt)
        } else {
            None
        },
        cursor::LitKind::Float { base: _ } => None,
        cursor::LitKind::Char { terminated } => if terminated {
            None
        } else {
            Some(LexerErrorKind::UnterminatedChar)
        },
        cursor::LitKind::Str { terminated } => if terminated {
            None
        } else {
            Some(LexerErrorKind::UnterminatedStr)
        },
    }
}

/// A diagnostic with the byte span it is recorded at.
pub open spec fn err_at(sb: int, eb: int, kind: LexerErrorKind) -> LexerError {
    LexerError { span: Span { start: sb as usize, end: eb as usize }, kind }
}

/// A literal token at `[j, e)`: absorb a directly following identifier-like
/// raw token as the literal's suffix, and collect the diagnostics.
pub open spec fn lex_literal(s: Seq<char>, e: int, sb: int, lk: cursor::LitKind) -> (
    Kind,
    int,
    Seq<LexerError>,
) {
    let lit_errs = match literal_error(lk) {
        Some(k) => seq![err_at(sb, byte_at(s, e) as int, k)],
        None => seq![],
    };
    let (sk, se) = scan_token(s, e);
    if sk == cursor::Kind::Ident {
        (
            Kind::Literal(
                Literal {
                    kind: literal_shape(lk),
                    suffix_len: (byte_at(s, se) - byte_at(s, e)) as u32,
                },
            ),
            se,
            lit_errs,
        )
    } else if sk == cursor::Kind::InvalidIdent {
        (
            Kind::Literal(
                Literal {
                    kind: literal_shape(lk),
                    suffix_len: (byte_at(s, se) - byte_at(s, e)) as u32,
                },
            ),
            se,
            lit_errs + seq![err_at(sb, byte_at(s, se) as int, LexerErrorKind::InvalidSuffix)],
        )
    } else {
        (Kind::Literal(Literal { kind: literal_shape(lk), suffix_len: 0u32 }), e, lit_errs)
    }
}

/// One semantic step of the lexer from position `i`, with `sb` the byte where
/// the current span window starts: the token kind, the end position, and the
/// diagnostics recorded along the way.  Compound punctuation is assembled by
/// greedy longest match over the following raw tokens.
pub open spec fn lex_step(s: Seq<char>, i: int, sb: int) -> (Kind, int, Seq<LexerError>) {
    let j = skip_trivia(s, i);
    if j >= s.len() {
        (Kind::Eof, j, seq![])
    } else {
        let (ck, e) = scan_token(s, j);
        let (k1, e1) = scan_token(s, e);
        match ck {
            cursor::Kind::Docs => (Kind::Docs, e, seq![]),
            cursor::Kind::Ident => (classify_ident_text(s.subrange(j, e)), e, seq![]),
            cursor::Kind::InvalidIdent => (
                Kind::Ident,
                e,
                seq![err_at(sb, byte_at(s, e) as int, LexerErrorKind::InvalidIdent)],
            ),
            cursor::Kind::Lit(lk) => lex_literal(s, e, sb, lk),
            cursor::Kind::Semi => (Kind::Semi, e, seq![]),
            cursor::Kind::Colon => if k1 == cursor::Kind::Colon {
                (Kind::PathSep, e1, seq![])
            } else {
                (Kind::Colon, e, seq![])
            },
            cursor::Kind::Comma => (Kind::Comma, e, seq![]),
            cursor::Kind::Dot => if k1 == cursor::Kind::Dot {
                let (k2, e2) = scan_token(s, e1);
                if k2 == cursor::Kind::Dot {
                    (Kind::DotDotDot, e2, seq![])
                } else if k2 == cursor::Kind::Eq {
                    (Kind::DotDotEq, e2, seq![])
                } else {
                    (Kind::DotDot, e1, seq![])
                }
            } else {
                (Kind::Dot, e, seq![])
            },
            cursor::Kind::At => (Kind::At, e, seq![]),
            cursor::Kind::Pound => (Kind::Pound, e, seq![]),
            cursor::Kind::Tilde => (Kind::Tilde, e, seq![]),
            cursor::Kind::Question => (Kind::Question, e, seq![]),
            cursor::Kind::Dollar => (Kind::Dollar, e, seq![]),
            cursor::Kind::Eq => if k1 == cursor::Kind::Eq {
                (Kind::Operator(Operator::Binary(BinaryKind::Eq)), e1, seq![])
            } else if k1 == cursor::Kind::Gt {
                (Kind::FatArrow, e1, seq![])
            } else {
                (Kind::Operator(Operator::Assign(AssignKind::Eq)), e, seq![])
            },
            cursor::Kind::Bang => if k1 == cursor::Kind::Eq {
                (Kind::Operator(Operator::Binary(BinaryKind::Ne)), e1, seq![])
            } else {
                (Kind::Operator(Operator::Not), e, seq![])
            },
            cursor::Kind::Lt => if k1 == cursor::Kind::Eq {
                (Kind::Operator(Operator::Binary(BinaryKind::Le)), e1, seq![])
            } else if k1 == cursor::Kind::Lt {
                let (k2, e2) = scan_token(s, e1);
                if k2 == cursor::Kind::Eq {
                    (Kind::Operator(Operator::Assign(AssignKind::Shl)), e2, seq![])
                } else {
                    (Kind::Operator(Operator::Binary(BinaryKind::Shl)), e1, seq![])
                }
            } else {
                (Kind::Operator(Operator::Binary(BinaryKind::Lt)), e, seq![])
            },
            cursor::Kind::Gt => if k1 == cursor::Kind::Eq {
                (Kind::Operator(Operator::Binary(BinaryKind::Ge)), e1, seq![])
            } else if k1 == cursor::Kind::Gt {
                let (k2, e2) = scan_token(s, e1);
                if k2 == cursor::Kind::Eq {
                    (Kind::Operator(Operator::Assign(AssignKind::Shr)), e2, seq![])
                } else {
                    (Kind::Operator(Operator::Binary(BinaryKind::Shr)), e1, seq![])
                }
            } else {
                (Kind::Operator(Operator::Binary(BinaryKind::Gt)), e, seq![])
            },
            cursor::Kind::And => if k1 == cursor::Kind::And {
                (Kind::Operator(Operator::Binary(BinaryKind::And)), e1, seq![])
            } else if k1 == cursor::Kind::Eq {
                (Kind::Operator(Operator::Assign(AssignKind::And)), e1, seq![])
            } else {
                (Kind::Operator(Operator::Binary(BinaryKind::BinAnd)), e, seq![])
            },
            cursor::Kind::Or => if k1 == cursor::Kind::Or {
                (Kind::Operator(Operator::Binary(BinaryKind::Or)), e1, seq![])
            } else if k1 == cursor::Kind::Eq {
                (Kind::Operator(Operator::Assign(AssignKind::Or)), e1, seq![])
            } else {
                (Kind::Operator(Operator::Binary(BinaryKind::BinOr)), e, seq![])
            },
            cursor::Kind::Plus => if k1 == cursor::Kind::Eq {
                (Kind::Operator(Operator::Assign(AssignKind::Plus)), e1, seq![])
            } else {
                (Kind::Operator(Operator::Binary(BinaryKind::Plus)), e, seq![])
            },
            cursor::Kind::Minus => if k1 == cursor::Kind::Gt {
                (Kind::RArrow, e1, seq![])
            } else if k1 == cursor::Kind::Eq {
                (Kind::Operator(Operator::Assign(AssignKind::Minus)), e1, seq![])
            } else {
                (Kind::Operator(Operator::Binary(BinaryKind::Minus)), e, seq![])
            },
            cursor::Kind::Star => if k1 == cursor::Kind::Eq {
                (Kind::Operator(Operator::Assign(AssignKind::Star)), e1, seq![])
            } else {
                (Kind::Operator(Operator::Binary(BinaryKind::Star)), e, seq![])
            },
            cursor::Kind::Slash => if k1 == cursor::Kind::Eq {
                (Kind::Operator(Operator::Assign(AssignKind::Slash)), e1, seq![])
            } else {
                (Kind::Operator(Operator::Binary(BinaryKind::Slash)), e, seq![])
            },
            cursor::Kind::Caret => if k1 == cursor::Kind::Eq {
                (Kind::Operator(Operator::Assign(AssignKind::Caret)), e1, seq![])
            } else {
                (Kind::Operator(Operator::Binary(BinaryKind::Caret)), e, seq![])
            },
            cursor::Kind::Percent => if k1 == cursor::Kind::Eq {
                (Kind::Operator(Operator::Assign(AssignKind::Percent)), e1, seq![])
            } else {
                (Kind::Operator(Operator::Binary(BinaryKind::Percent)), e, seq![])
            },
            cursor::Kind::OpenParen => (Kind::OpenDelim(Delimiter::Paren), e, seq![]),
            cursor::Kind::CloseParen => (Kind::CloseDelim(Delimiter::Paren), e, seq![]),
            cursor::Kind::OpenBrace => (Kind::OpenDelim(Delimiter::Brace), e, seq![]),
            cursor::Kind::CloseBrace => (Kind::CloseDelim(Delimiter::Brace), e, seq![]),
            cursor::Kind::OpenBracket => (Kind::OpenDelim(Delimiter::Bracket), e, seq![]),
            cursor::Kind::CloseBracket => (Kind::CloseDelim(Delimiter::Bracket), e, seq![]),
            cursor::Kind::Unknown => (Kind::Unknown, e, seq![]),
            // the positions handed to `lex_step` never start with these
            cursor::Kind::LineComment => (Kind::Unknown, e, seq![]),
            cursor::Kind::BlockComment { terminated: _ } => (Kind::Unknown, e, seq![]),
            cursor::Kind::WhiteSpace { newline: _ } => (Kind::Unknown, e, seq![]),
            cursor::Kind::Eof => (Kind::Eof, e, seq![]),
        }
    }
}

/// All semantic tokens of `s` from position `i` on, `Eof` excluded; the span
/// of each token starts where the previous one ended, so the spans tile the
/// text with neither gap nor overlap.
pub open spec fn lex_tokens_from(s: Seq<char>, i: int) -> Seq<Token>
    decreases s.len() - i,
{
    if 0 <= i < s.len() {
        let (k, e, _) = lex_step(s, i, byte_at(s, i) as int);
        let e2 = if i < e <= s.len() {
            e
        } else {
            i + 1
        };
        if k == Kind::Eof {
            seq![]
        } else {
            seq![
                Token {
                    kind: k,
                    span: Span { start: byte_at(s, i) as usize, end: byte_at(s, e2) as usize },
                },
            ] + lex_tokens_from(s, e2)
        }
    } else {
        seq![]
    }
}

/// All diagnostics of `s` from position `i` on, in the order recorded.
pub open spec fn lex_errors_from(s: Seq<char>, i: int) -> Seq<LexerError>
    decreases s.len() - i,
{
    if 0 <= i < s.len() {
        let (k, e, errs) = lex_step(s, i, byte_at(s, i) as int);
        let e2 = if i < e <= s.len() {
            e
        } else {
            i + 1
        };
        if k == Kind::Eof {
            errs
        } else {
            errs + lex_errors_from(s, e2)
        }
    } else {
        seq![]
    }
}

/// The full token stream of a source text.
pub open spec fn lex_tokens(s: Seq<char>) -> Seq<Token> {
    lex_tokens_from(s, 0)
}

/// The full diagnostic list of a source text.
pub open spec fn lex_errors(s: Seq<char>) -> Seq<LexerError> {
    lex_errors_from(s, 0)
}

/// Bounds for trivia skipping.
pub proof fn lemma_skip_trivia_bounds(s: Seq<char>, i: int)
    requires
        0 <= i <= s.len(),
    ensures
        i <= skip_trivia(s, i) <= s.len(),
    decreases s.len() - i,
{
    if i < s.len() {
        let (k, e) = scan_token(s, i);
        if is_trivia(k) {
            lemma_scan_token_bounds(s, i);
            lemma_skip_trivia_bounds(s, e);
        }
    }
}

/// Skipping trivia walks one raw token at a time.
pub proof fn lemma_skip_trivia_step(s: Seq<char>, i: int)
    requires
        0 <= i < s.len(),
        is_trivia(scan_token(s, i).0),
    ensures
        skip_trivia(s, i) == skip_trivia(s, scan_token(s, i).1),
{
    lemma_scan_token_bounds(s, i);
}

/// Bounds for one semantic step: the end stays inside the text, and any
/// non-`Eof` token consumes at least one character.
pub proof fn lemma_lex_step_bounds(s: Seq<char>, i: int, sb: int)
    requires
        0 <= i <= s.len(),
    ensures
        i <= lex_step(s, i, sb).1 <= s.len(),
        lex_step(s, i, sb).0 != Kind::Eof ==> i < lex_step(s, i, sb).1,
        lex_step(s, i, sb).0 == Kind::Eof ==> lex_step(s, i, sb).1 == skip_trivia(s, i),
{
    lemma_skip_trivia_bounds(s, i);
    let j = skip_trivia(s, i);
    if j < s.len() {
        lemma_scan_token_bounds(s, j);
        let (ck, e) = scan_token(s, j);
        lemma_scan_token_bounds(s, e);
        let (k1, e1) = scan_token(s, e);
        lemma_scan_token_bounds(s, e1);
    }
}

/// Unfolding step for the stream model, with the clamp in the recursion
/// resolved by the bounds above.
pub proof fn lemma_lex_from_unfold(s: Seq<char>, i: int)
    requires
        0 <= i <= s.len(),
    ensures
        ({
            let (k, e, errs) = lex_step(s, i, byte_at(s, i) as int);
            &&& (k == Kind::Eof ==> lex_tokens_from(s, i) == Seq::<Token>::empty()
                && lex_errors_from(s, i) == errs)
            &&& (k != Kind::Eof ==> lex_tokens_from(s, i) == seq![
                Token {
                    kind: k,
                    span: Span { start: byte_at(s, i) as usize, end: byte_at(s, e) as usize },
                },
            ] + lex_tokens_from(s, e) && lex_errors_from(s, i) == errs + lex_errors_from(s, e))
        }),
{
    let (k, e, errs) = lex_step(s, i, byte_at(s, i) as int);
    lemma_lex_step_bounds(s, i, byte_at(s, i) as int);
    if i == s.len() {
        assert(skip_trivia(s, i) == i);
        assert(k == Kind::Eof && errs == Seq::<LexerError>::empty());
        assert(lex_tokens_from(s, i) == Seq::<Token>::empty());
        assert(lex_errors_from(s, i) == Seq::<LexerError>::empty());
    }
}

/// The bytes the token spans select from the encoded source, concatenated in
/// emission order.
pub open spec fn concat_span_bytes(toks: Seq<Token>, bytes: Seq<u8>) -> Seq<u8>
    decreases toks.len(),
{
    if toks.len() == 0 {
        Seq::<u8>::empty()
    } else {
        bytes.subrange(toks[0].span.start as int, toks[0].span.end as int) + concat_span_bytes(
            toks.drop_first(),
            bytes,
        )
    }
}

/// Where the emitted spans end: the last token's span end, or `from` when
/// nothing was emitted.
pub open spec fn spans_end(toks: Seq<Token>, from: int) -> int {
    if toks.len() == 0 {
        from
    } else {
        toks[toks.len() - 1].span.end as int
    }
}

proof fn lemma_round_trip_from(s: Seq<char>, i: int)
    requires
        0 <= i <= s.len(),
        seq_utf8_bytes(s) <= usize::MAX,
    ensures
        ({
            let toks = lex_tokens_from(s, i);
            let bytes = encode_utf8(s);
            let from = byte_at(s, i) as int;
            &&& toks.len() > 0 ==> toks[0].span.start as int == from
            &&& forall|k: int|
                0 < k < toks.len() ==> (#[trigger] toks[k].span.start) == toks[k - 1].span.end
            &&& forall|k: int|
                0 <= k < toks.len() ==> (#[trigger] toks[k].span.start) <= toks[k].span.end
            &&& from <= spans_end(toks, from) <= bytes.len()
            &&& concat_span_bytes(toks, bytes) == bytes.subrange(from, spans_end(toks, from))
        }),
    decreases s.len() - i,
{
    let toks = lex_tokens_from(s, i);
    let bytes = encode_utf8(s);
    let from = byte_at(s, i) as int;
    lemma_seq_utf8_bytes(s);
    lemma_byte_at_mono(s, i, s.len() as int);
    lemma_byte_at_end(s);
    let (k, e, errs) = lex_step(s, i, from);
    lemma_lex_from_unfold(s, i);
    lemma_lex_step_bounds(s, i, from);
    if i == s.len() || k == Kind::Eof {
        assert(toks =~= Seq::<Token>::empty());
        assert(concat_span_bytes(toks, bytes) =~= bytes.subrange(from, from));
    } else {
        lemma_byte_at_mono(s, i, e);
        lemma_byte_at_mono(s, e, s.len() as int);
        lemma_round_trip_from(s, e);
        let head = Token {
            kind: k,
            span: Span { start: byte_at(s, i) as usize, end: byte_at(s, e) as usize },
        };
        let tail = lex_tokens_from(s, e);
        assert(toks == seq![head] + tail);
        assert(toks[0] == head);
        assert(toks.drop_first() =~= tail);
        assert forall|j: int| 0 < j < toks.len() implies (#[trigger] toks[j].span.start)
            == toks[j - 1].span.end by {
            if j == 1 {
                assert(tail.len() > 0 && tail[0].span.start as int == byte_at(s, e) as int);
            } else {
                assert(toks[j] == tail[j - 1] && toks[j - 1] == tail[j - 2]);
            }
        }
        let mid = byte_at(s, e) as int;
        let until = spans_end(toks, from);
        if tail.len() == 0 {
            assert(until == mid);
            assert(concat_span_bytes(tail, bytes) =~= bytes.subrange(mid, mid));
        } else {
            assert(toks[toks.len() - 1] == tail[tail.len() - 1]);
            assert(until == spans_end(tail, mid));
        }
        assert(bytes.subrange(from, mid) + bytes.subrange(mid, until) =~= bytes.subrange(
            from,
            until,
        ));
    }
}

/// Round trip: for any source text, the spans of the emitted tokens tile the
/// UTF-8 encoding of the text from byte 0 with neither gap nor overlap — each
/// span starts where the previous one ended — and concatenating the bytes
/// they select, followed by the trailing bytes the final `Eof` token absorbs,
/// reconstructs the entire text exactly.
pub proof fn lemma_round_trip(s: Seq<char>)
    requires
        seq_utf8_bytes(s) <= usize::MAX,
    ensures
        ({
            let toks = lex_tokens(s);
            let bytes = encode_utf8(s);
            &&& toks.len() > 0 ==> toks[0].span.start == 0
            &&& forall|k: int|
                0 < k < toks.len() ==> (#[trigger] toks[k].span.start) == toks[k - 1].span.end
            &&& forall|k: int|
                0 <= k < toks.len() ==> (#[trigger] toks[k].span.start) <= toks[k].span.end
            &&& 0 <= spans_end(toks, 0) <= bytes.len()
            &&& concat_span_bytes(toks, bytes) + bytes.subrange(spans_end(toks, 0), bytes.len() as int)
                =~= bytes
        }),
{
    assert(s.take(0) =~= Seq::<char>::empty());
    lemma_round_trip_from(s, 0);
    lemma_seq_utf8_bytes(s);
    let toks = lex_tokens(s);
    let bytes = encode_utf8(s);
    assert(concat_span_bytes(toks, bytes) == bytes.subrange(0, spans_end(toks, 0)));
    assert(bytes.subrange(0, spans_end(toks, 0)) + bytes.subrange(
        spans_end(toks, 0),
        bytes.len() as int,
    ) =~= bytes);
}

/// The run of decimal digits and separators from `i` to the end of `s`.
proof fn lemma_dec_run(s: Seq<char>, i: int)
    requires
        0 <= i <= s.len(),
        forall|k: int| i <= k < s.len() ==> is_dec_digit_char(#[trigger] s[k]) || s[k] == '_',
    ensures
        scan_dec_end(s, i) == s.len(),
    decreases s.len() - i,
{
    if i < s.len() {
        lemma_dec_run(s, i + 1);
    }
}

/// Every character of a plain decimal literal is one byte of UTF-8.
proof fn lemma_ascii_run_bytes(s: Seq<char>, i: int)
    requires
        0 <= i <= s.len(),
        forall|k: int| 0 <= k < s.len() ==> (#[trigger] s[k] as u32) < 0x80,
    ensures
        byte_at(s, i) == i,
    decreases i,
{
    if i == 0 {
        assert(s.take(0) =~= Seq::<char>::empty());
    } else {
        lemma_ascii_run_bytes(s, i - 1);
        lemma_byte_at_step(s, i - 1);
    }
}

/// A decimal integer literal with no suffix: a leading digit — with `0`
/// followed only by a digit, never a base marker — then digits and `_`
/// separators.
pub open spec fn is_plain_decimal_literal(s: Seq<char>) -> bool {
    &&& s.len() > 0
    &&& is_dec_digit_char(s[0])
    &&& forall|k: int| 1 <= k < s.len() ==> is_dec_digit_char(#[trigger] s[k]) || s[k] == '_'
    &&& (s[0] == '0' && s.len() > 1 ==> is_dec_digit_char(s[1]))
}

/// Any decimal integer literal with no suffix lexes to exactly one decimal
/// `Int` token, with no diagnostic, whose span length equals the literal's
/// character length.
pub proof fn lemma_decimal_literal(s: Seq<char>)
    requires
        is_plain_decimal_literal(s),
        s.len() <= usize::MAX,
    ensures
        lex_tokens(s) =~= seq![
            Token {
                kind: Kind::Literal(
                    Literal { kind: LiteralKind::Int { base: crate::cursor::Base::Decimal }, suffix_len: 0u32 },
                ),
                span: Span { start: 0usize, end: s.len() as usize },
            },
        ],
        lex_errors(s) =~= Seq::<LexerError>::empty(),
{
    assert forall|k: int| 0 <= k < s.len() implies (#[trigger] s[k] as u32) < 0x80 by {
        if k > 0 {
            assert(is_dec_digit_char(s[k]) || s[k] == '_');
        }
    }
    lemma_ascii_run_bytes(s, s.len() as int);
    assert(s.take(0) =~= Seq::<char>::empty());
    lemma_dec_run(s, 1);
    let c = s[0];
    assert(scan_token(s, 0) == (
        cursor::Kind::Lit(
            cursor::LitKind::Int { base: crate::cursor::Base::Decimal, empty: false },
        ),
        s.len() as int,
    ));
    assert(skip_trivia(s, 0) == 0);
    let (k, e, errs) = lex_step(s, 0, 0);
    assert(e == s.len() as int);
    lemma_byte_at_end(s);
    lemma_lex_from_unfold(s, 0);
    lemma_lex_from_unfold(s, s.len() as int);
    assert(lex_tokens_from(s, s.len() as int) =~= Seq::<Token>::empty());
    assert(lex_errors_from(s, s.len() as int) =~= Seq::<LexerError>::empty());
    assert(errs =~= Seq::<LexerError>::empty());
    assert(lex_errors(s) =~= errs + Seq::<LexerError>::empty());
}

/// The run of decimal digits and separators from `i` up to `e`, where the
/// run visibly stops.
proof fn lemma_dec_run_to(s: Seq<char>, i: int, e: int)
    requires
        0 <= i <= e <= s.len(),
        forall|k: int| i <= k < e ==> is_dec_digit_char(#[trigger] s[k]) || s[k] == '_',
        e < s.len() ==> !is_dec_digit_char(s[e]) && s[e] != '_',
    ensures
        scan_dec_end(s, i) == e,
    decreases e - i,
{
    if i < e {
        lemma_dec_run_to(s, i + 1, e);
    }
}

/// A decimal integer literal standing as a maximal token inside `s`: a
/// digit run over `[j, e)` — with `0` followed only by a digit — whose
/// boundary at `e` neither continues the literal (`.`, a digit, `_`) nor
/// starts a suffix (an identifier or a non-ASCII alphanumeric run).
pub open spec fn is_decimal_literal_at(s: Seq<char>, j: int, e: int) -> bool {
    &&& 0 <= j < e <= s.len()
    &&& is_dec_digit_char(s[j])
    &&& (forall|k: int| j < k < e ==> is_dec_digit_char(#[trigger] s[k]) || s[k] == '_')
    &&& (s[j] == '0' && j + 1 < e ==> is_dec_digit_char(s[j + 1]))
    &&& (e < s.len() ==> {
        let c = s[e];
        &&& !is_dec_digit_char(c)
        &&& c != '_'
        &&& c != '.'
        &&& !crate::chars::is_ident_start_char(c)
        &&& (crate::chars::is_ascii_char(c) || !crate::chars::unicode_alphanumeric(c))
    })
}

/// Any decimal integer literal standing as a maximal token in larger text
/// lexes to one decimal `Int` token with no suffix and no diagnostic: one
/// semantic step from any window whose trivia ends at the literal's start
/// yields exactly that token, ending at the literal's end.
pub proof fn lemma_decimal_literal_token(s: Seq<char>, i: int, sb: int)
    requires
        0 <= i <= s.len(),
        is_decimal_literal_at(s, skip_trivia(s, i), scan_dec_end(s, skip_trivia(s, i))),
    ensures
        ({
            let j = skip_trivia(s, i);
            let e = scan_dec_end(s, j);
            &&& lex_step(s, i, sb).0 == Kind::Literal(
                Literal {
                    kind: LiteralKind::Int { base: crate::cursor::Base::Decimal },
                    suffix_len: 0u32,
                },
            )
            &&& lex_step(s, i, sb).1 == e
            &&& lex_step(s, i, sb).2 =~= Seq::<LexerError>::empty()
        }),
{
    let j = skip_trivia(s, i);
    let e = scan_dec_end(s, j);
    lemma_skip_trivia_bounds(s, i);
    assert(is_dec_digit_char(s[j]));
    assert(scan_dec_end(s, j) == scan_dec_end(s, j + 1)) by {
        lemma_dec_run_to(s, j + 1, e);
        lemma_dec_run_to(s, j, e);
    }
    lemma_dec_run_to(s, j + 1, e);
    let c = s[j];
    if c == '0' {
        if j + 1 < e {
            assert(is_dec_digit_char(s[j + 1]));
        } else {
            assert(e == j + 1);
            assert(scan_dec_end(s, j + 1) == e);
        }
        assert(scan_token(s, j) == (
            cursor::Kind::Lit(
                cursor::LitKind::Int { base: crate::cursor::Base::Decimal, empty: false },
            ),
            e,
        ));
    } else {
        assert(scan_token(s, j) == (
            cursor::Kind::Lit(
                cursor::LitKind::Int { base: crate::cursor::Base::Decimal, empty: false },
            ),
            e,
        ));
    }
    // the boundary neither extends the literal into a float nor starts a
    // suffix, so the literal is taken whole with suffix length zero
    assert(scan_token(s, e).0 != cursor::Kind::Ident && scan_token(s, e).0
        != cursor::Kind::InvalidIdent);
}

} // verus!
