//! Specification model of the character-level scanner.
//!
//! `scan_token` gives, for a source text and a start position, the raw token
//! kind and the end position that [`super::Cursor::advance_token`] produces.
//! Each helper models one maximal run; all positions are character indices.

use vstd::prelude::*;

verus! {

use crate::chars::{
    is_ws_char, is_ident_start_char, is_ident_continue_char, is_dec_digit_char, is_hex_digit_char,
    is_ascii_char, is_ascii_alpha_char, unicode_alphanumeric,
};
use super::token::{Kind, LitKind, Base};

/// The character at position `i`, or `'\0'` outside the text; the value the
/// cursor's lookahead primitives hand back.
pub open spec fn char_at(s: Seq<char>, i: int) -> char {
    if 0 <= i < s.len() {
        s[i]
    } else {
        '\0'
    }
}

/// End of a whitespace run starting at `i`.
pub open spec fn scan_ws_end(s: Seq<char>, i: int) -> int
    decreases s.len() - i,
{
    if i < s.len() && is_ws_char(s[i]) {
        scan_ws_end(s, i + 1)
    } else {
        i
    }
}

/// End of an identifier run starting at `i`.
pub open spec fn scan_ident_end(s: Seq<char>, i: int) -> int
    decreases s.len() - i,
{
    if i < s.len() && is_ident_continue_char(s[i]) {
        scan_ident_end(s, i + 1)
    } else {
        i
    }
}

/// End of a run of Unicode-alphanumeric characters starting at `i`.
pub open spec fn scan_alnum_end(s: Seq<char>, i: int) -> int
    decreases s.len() - i,
{
    if i < s.len() && unicode_alphanumeric(s[i]) {
        scan_alnum_end(s, i + 1)
    } else {
        i
    }
}

/// End of a run of non-ASCII alphanumeric characters starting at `i`.
pub open spec fn scan_unknown_end(s: Seq<char>, i: int) -> int
    decreases s.len() - i,
{
    if i < s.len() && !is_ascii_char(s[i]) && unicode_alphanumeric(s[i]) {
        scan_unknown_end(s, i + 1)
    } else {
        i
    }
}

/// End of a line comment body starting at `i`: everything up to and including
/// the next newline, or to the end of input.
pub open spec fn scan_line_end(s: Seq<char>, i: int) -> int
    decreases s.len() - i,
{
    if i < s.len() {
        if s[i] == '\n' {
            i + 1
        } else {
            scan_line_end(s, i + 1)
        }
    } else {
        i
    }
}

/// End of a block comment body starting at `i`, and whether `*/` was found.
pub open spec fn scan_block(s: Seq<char>, i: int) -> (int, bool)
    decreases s.len() - i,
{
    if i >= s.len() {
        (i, false)
    } else if s[i] == '*' && i + 1 < s.len() && s[i + 1] == '/' {
        (i + 2, true)
    } else {
        scan_block(s, i + 1)
    }
}

/// End of a run of decimal digits and `_` separators starting at `i`.
pub open spec fn scan_dec_end(s: Seq<char>, i: int) -> int
    decreases s.len() - i,
{
    if i < s.len() && (is_dec_digit_char(s[i]) || s[i] == '_') {
        scan_dec_end(s, i + 1)
    } else {
        i
    }
}

/// Whether the decimal run starting at `i` contains at least one real digit.
pub open spec fn dec_seen(s: Seq<char>, i: int) -> bool {
    exists|k: int| i <= k < scan_dec_end(s, i) && is_dec_digit_char(#[trigger] s[k])
}

/// End of a run of hexadecimal digits and `_` separators starting at `i`.
pub open spec fn scan_hex_end(s: Seq<char>, i: int) -> int
    decreases s.len() - i,
{
    if i < s.len() && (is_hex_digit_char(s[i]) || s[i] == '_') {
        scan_hex_end(s, i + 1)
    } else {
        i
    }
}

/// Whether the hexadecimal run starting at `i` contains at least one digit.
pub open spec fn hex_seen(s: Seq<char>, i: int) -> bool {
    exists|k: int| i <= k < scan_hex_end(s, i) && is_hex_digit_char(#[trigger] s[k])
}

/// Body of a character literal, scanning from just after the opening `'`.
/// Ends after a closing `'`, before an unescaped newline, or at end of input;
/// `\` consumes the following character unconditionally.
pub open spec fn scan_char_lit(s: Seq<char>, i: int) -> (int, bool)
    decreases s.len() - i,
{
    if i >= s.len() {
        (i, false)
    } else if s[i] == '\'' {
        (i + 1, true)
    } else if s[i] == '\n' {
        (i, false)
    } else if s[i] == '\\' {
        scan_char_lit(s, if i + 2 <= s.len() { i + 2 } else { s.len() as int })
    } else {
        scan_char_lit(s, i + 1)
    }
}

/// Body of a string literal, scanning from just after the opening `"`.
/// Newlines are permitted; `\` consumes the following character.
pub open spec fn scan_str_lit(s: Seq<char>, i: int) -> (int, bool)
    decreases s.len() - i,
{
    if i >= s.len() {
        (i, false)
    } else if s[i] == '"' {
        (i + 1, true)
    } else if s[i] == '\\' {
        scan_str_lit(s, if i + 2 <= s.len() { i + 2 } else { s.len() as int })
    } else {
        scan_str_lit(s, i + 1)
    }
}

/// After a digit run ending at `e`, a `.` continues into a float only when the
/// character after it is neither another `.` nor an ASCII letter.
pub open spec fn float_follows(s: Seq<char>, e: int) -> bool {
    e < s.len() && s[e] == '.' && !(e + 1 < s.len() && (s[e + 1] == '.' || is_ascii_alpha_char(
        s[e + 1],
    )))
}

/// Shape and end of a numeric literal whose digit run ends at `e`.
pub open spec fn number_token(s: Seq<char>, e: int, base: Base) -> (LitKind, int) {
    if float_follows(s, e) {
        (LitKind::Float { base }, scan_dec_end(s, e + 1))
    } else {
        (LitKind::Int { base, empty: false }, e)
    }
}

/// Kind and end of a literal starting with `0` at position `i`.
pub open spec fn scan_zero_number(s: Seq<char>, i: int) -> (LitKind, int) {
    if i + 1 < s.len() && (s[i + 1] == 'b' || s[i + 1] == 'o' || s[i + 1] == 'x') {
        let base = if s[i + 1] == 'b' {
            Base::Binary
        } else if s[i + 1] == 'o' {
            Base::Octal
        } else {
            Base::Hexadecimal
        };
        let e = scan_hex_end(s, i + 2);
        if hex_seen(s, i + 2) {
            number_token(s, e, base)
        } else {
            (LitKind::Int { base: Base::Decimal, empty: true }, e)
        }
    } else if i + 1 < s.len() && is_dec_digit_char(s[i + 1]) {
        number_token(s, scan_dec_end(s, i + 1), Base::Decimal)
    } else {
        (LitKind::Int { base: Base::Decimal, empty: false }, i + 1)
    }
}

/// The raw token found at position `i` of `s`: its kind and end position.
/// At or past the end of the text the result is a zero-length `Eof`.
pub open spec fn scan_token(s: Seq<char>, i: int) -> (Kind, int) {
    if i >= s.len() {
        (Kind::Eof, i)
    } else {
        let c = s[i];
        if c == '/' {
            if i + 1 < s.len() && s[i + 1] == '/' {
                let kind = if i + 2 < s.len() && s[i + 2] == '/' && !(i + 3 < s.len() && s[i + 3]
                    == '/') {
                    Kind::Docs
                } else {
                    Kind::LineComment
                };
                (kind, scan_line_end(s, i + 2))
            } else if i + 1 < s.len() && s[i + 1] == '*' {
                let (e, terminated) = scan_block(s, i + 2);
                (Kind::BlockComment { terminated }, e)
            } else {
                (Kind::Slash, i + 1)
            }
        } else if is_ws_char(c) {
            let e = scan_ws_end(s, i + 1);
            (Kind::WhiteSpace { newline: exists|k: int| i <= k < e && #[trigger] s[k] == '\n' }, e)
        } else if is_ident_start_char(c) {
            let e = scan_ident_end(s, i + 1);
            if e < s.len() && !is_ascii_char(s[e]) {
                (Kind::InvalidIdent, scan_alnum_end(s, e))
            } else {
                (Kind::Ident, e)
            }
        } else if !is_ascii_char(c) && unicode_alphanumeric(c) {
            (Kind::InvalidIdent, scan_alnum_end(s, i + 1))
        } else if c == '\'' {
            if i + 2 < s.len() && s[i + 2] == '\'' && s[i + 1] != '\\' {
                (Kind::Lit(LitKind::Char { terminated: true }), i + 3)
            } else {
                let (e, terminated) = scan_char_lit(s, i + 1);
                (Kind::Lit(LitKind::Char { terminated }), e)
            }
        } else if c == '"' {
            let (e, terminated) = scan_str_lit(s, i + 1);
            (Kind::Lit(LitKind::Str { terminated }), e)
        } else if c == '0' {
            let (lit, e) = scan_zero_number(s, i);
            (Kind::Lit(lit), e)
        } else if is_dec_digit_char(c) {
            let (lit, e) = number_token(s, scan_dec_end(s, i + 1), Base::Decimal);
            (Kind::Lit(lit), e)
        } else if c == ';' {
            (Kind::Semi, i + 1)
        } else if c == ':' {
            (Kind::Colon, i + 1)
        } else if c == ',' {
            (Kind::Comma, i + 1)
        } else if c == '.' {
            (Kind::Dot, i + 1)
        } else if c == '@' {
            (Kind::At, i + 1)
        } else if c == '#' {
            (Kind::Pound, i + 1)
        } else if c == '~' {
            (Kind::Tilde, i + 1)
        } else if c == '?' {
            (Kind::Question, i + 1)
        } else if c == '$' {
            (Kind::Dollar, i + 1)
        } else if c == '=' {
            (Kind::Eq, i + 1)
        } else if c == '!' {
            (Kind::Bang, i + 1)
        } else if c == '<' {
            (Kind::Lt, i + 1)
        } else if c == '>' {
            (Kind::Gt, i + 1)
        } else if c == '-' {
            (Kind::Minus, i + 1)
        } else if c == '&' {
            (Kind::And, i + 1)
        } else if c == '|' {
            (Kind::Or, i + 1)
        } else if c == '+' {
            (Kind::Plus, i + 1)
        } else if c == '*' {
            (Kind::Star, i + 1)
        } else if c == '^' {
            (Kind::Caret, i + 1)
        } else if c == '%' {
            (Kind::Percent, i + 1)
        } else if c == '(' {
            (Kind::OpenParen, i + 1)
        } else if c == ')' {
            (Kind::CloseParen, i + 1)
        } else if c == '{' {
            (Kind::OpenBrace, i + 1)
        } else if c == '}' {
            (Kind::CloseBrace, i + 1)
        } else if c == '[' {
            (Kind::OpenBracket, i + 1)
        } else if c == ']' {
            (Kind::CloseBracket, i + 1)
        } else {
            (Kind::Unknown, scan_unknown_end(s, i + 1))
        }
    }
}

/// Bounds for the run scanners: a run starting inside the text ends inside it.
pub proof fn lemma_scan_ws_bounds(s: Seq<char>, i: int)
    requires
        0 <= i <= s.len(),
    ensures
        i <= scan_ws_end(s, i) <= s.len(),
    decreases s.len() - i,
{
    if i < s.len() && is_ws_char(s[i]) {
        lemma_scan_ws_bounds(s, i + 1);
    }
}

pub proof fn lemma_scan_ident_bounds(s: Seq<char>, i: int)
    requires
        0 <= i <= s.len(),
    ensures
        i <= scan_ident_end(s, i) <= s.len(),
    decreases s.len() - i,
{
    if i < s.len() && is_ident_continue_char(s[i]) {
        lemma_scan_ident_bounds(s, i + 1);
    }
}

pub proof fn lemma_scan_alnum_bounds(s: Seq<char>, i: int)
    requires
        0 <= i <= s.len(),
    ensures
        i <= scan_alnum_end(s, i) <= s.len(),
    decreases s.len() - i,
{
    if i < s.len() && unicode_alphanumeric(s[i]) {
        lemma_scan_alnum_bounds(s, i + 1);
    }
}

pub proof fn lemma_scan_unknown_bounds(s: Seq<char>, i: int)
    requires
        0 <= i <= s.len(),
    ensures
        i <= scan_unknown_end(s, i) <= s.len(),
    decreases s.len() - i,
{
    if i < s.len() && !is_ascii_char(s[i]) && unicode_alphanumeric(s[i]) {
        lemma_scan_unknown_bounds(s, i + 1);
    }
}

pub proof fn lemma_scan_line_bounds(s: Seq<char>, i: int)
    requires
        0 <= i <= s.len(),
    ensures
        i <= scan_line_end(s, i) <= s.len(),
    decreases s.len() - i,
{
    if i < s.len() && s[i] != '\n' {
        lemma_scan_line_bounds(s, i + 1);
    }
}

pub proof fn lemma_scan_block_bounds(s: Seq<char>, i: int)
    requires
        0 <= i <= s.len(),
    ensures
        i <= scan_block(s, i).0 <= s.len(),
    decreases s.len() - i,
{
    if i < s.len() && !(s[i] == '*' && i + 1 < s.len() && s[i + 1] == '/') {
        lemma_scan_block_bounds(s, i + 1);
    }
}

pub proof fn lemma_scan_dec_bounds(s: Seq<char>, i: int)
    requires
        0 <= i <= s.len(),
    ensures
        i <= scan_dec_end(s, i) <= s.len(),
    decreases s.len() - i,
{
    if i < s.len() && (is_dec_digit_char(s[i]) || s[i] == '_') {
        lemma_scan_dec_bounds(s, i + 1);
    }
}

pub proof fn lemma_scan_hex_bounds(s: Seq<char>, i: int)
    requires
        0 <= i <= s.len(),
    ensures
        i <= scan_hex_end(s, i) <= s.len(),
    decreases s.len() - i,
{
    if i < s.len() && (is_hex_digit_char(s[i]) || s[i] == '_') {
        lemma_scan_hex_bounds(s, i + 1);
    }
}

pub proof fn lemma_scan_char_lit_bounds(s: Seq<char>, i: int)
    requires
        0 <= i <= s.len(),
    ensures
        i <= scan_char_lit(s, i).0 <= s.len(),
    decreases s.len() - i,
{
    if i < s.len() && s[i] != '\'' && s[i] != '\n' {
        if s[i] == '\\' {
            lemma_scan_char_lit_bounds(
                s,
                if i + 2 <= s.len() {
                    i + 2
                } else {
                    s.len() as int
                },
            );
        } else {
            lemma_scan_char_lit_bounds(s, i + 1);
        }
    }
}

pub proof fn lemma_scan_str_lit_bounds(s: Seq<char>, i: int)
    requires
        0 <= i <= s.len(),
    ensures
        i <= scan_str_lit(s, i).0 <= s.len(),
    decreases s.len() - i,
{
    if i < s.len() && s[i] != '"' {
        if s[i] == '\\' {
            lemma_scan_str_lit_bounds(
                s,
                if i + 2 <= s.len() {
                    i + 2
                } else {
                    s.len() as int
                },
            );
        } else {
            lemma_scan_str_lit_bounds(s, i + 1);
        }
    }
}

/// A raw token starting inside the text consumes at least one character and
/// ends inside the text; at the end of the text the scan stays put.
pub proof fn lemma_scan_token_bounds(s: Seq<char>, i: int)
    requires
        0 <= i <= s.len(),
    ensures
        i <= scan_token(s, i).1 <= s.len(),
        i < s.len() ==> i + 1 <= scan_token(s, i).1,
        i >= s.len() ==> scan_token(s, i) == (Kind::Eof, i),
{
    if i < s.len() {
        lemma_scan_ws_bounds(s, i + 1);
        lemma_scan_ident_bounds(s, i + 1);
        lemma_scan_alnum_bounds(s, i + 1);
        lemma_scan_unknown_bounds(s, i + 1);
        lemma_scan_dec_bounds(s, i + 1);
        lemma_scan_char_lit_bounds(s, i + 1);
        lemma_scan_str_lit_bounds(s, i + 1);
        if i + 1 < s.len() {
            lemma_scan_line_bounds(s, i + 2);
            lemma_scan_block_bounds(s, i + 2);
            lemma_scan_hex_bounds(s, i + 2);
            lemma_scan_dec_bounds(s, i + 2);
        }
        let e1 = scan_ident_end(s, i + 1);
        lemma_scan_alnum_bounds(s, e1);
        let ed = scan_dec_end(s, i + 1);
        if float_follows(s, ed) {
            lemma_scan_dec_bounds(s, ed + 1);
        }
        if i + 1 < s.len() {
            let eh = scan_hex_end(s, i + 2);
            if float_follows(s, eh) {
                lemma_scan_dec_bounds(s, eh + 1);
            }
        }
    }
}

} // verus!
