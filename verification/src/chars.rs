//! Character classification and UTF-8 byte accounting.
//!
//! Spans produced by the lexer are byte ranges into the UTF-8 encoding of the
//! source text, while scanning itself walks characters.  This module defines
//! the byte-length model (`char_utf8_bytes`, `seq_utf8_bytes`) and proves it
//! equal to the length of `vstd`'s UTF-8 encoding, together with the character
//! classes the scanner works with.

use vstd::prelude::*;

verus! {

use vstd::utf8::{encode_scalar, encode_utf8, char_is_scalar};

/// Number of bytes in the UTF-8 encoding of one character.
pub open spec fn char_utf8_bytes(c: char) -> nat {
    if (c as u32) < 0x80 {
        1
    } else if (c as u32) < 0x800 {
        2
    } else if (c as u32) < 0x10000 {
        3
    } else {
        4
    }
}

/// Total number of bytes in the UTF-8 encoding of a character sequence.
pub open spec fn seq_utf8_bytes(s: Seq<char>) -> nat
    decreases s.len(),
{
    if s.len() == 0 {
        0
    } else {
        char_utf8_bytes(s[0]) + seq_utf8_bytes(s.drop_first())
    }
}

/// Byte offset just before the character at index `i` of `s`.
pub open spec fn byte_at(s: Seq<char>, i: int) -> nat {
    seq_utf8_bytes(s.take(i))
}

/// `char_utf8_bytes` agrees with the length of the UTF-8 encoding.
pub proof fn lemma_char_utf8_bytes(c: char)
    ensures
        char_utf8_bytes(c) == encode_scalar(c as u32).len(),
{
    char_is_scalar(c);
}

/// `seq_utf8_bytes` agrees with the length of the UTF-8 encoding.
pub proof fn lemma_seq_utf8_bytes(s: Seq<char>)
    ensures
        seq_utf8_bytes(s) == encode_utf8(s).len(),
    decreases s.len(),
{
    if s.len() > 0 {
        lemma_char_utf8_bytes(s[0]);
        lemma_seq_utf8_bytes(s.drop_first());
    }
}

proof fn lemma_seq_utf8_bytes_push(s: Seq<char>, c: char)
    ensures
        seq_utf8_bytes(s.push(c)) == seq_utf8_bytes(s) + char_utf8_bytes(c),
    decreases s.len(),
{
    if s.len() == 0 {
        assert(s.push(c)[0] == c);
        assert(s.push(c).drop_first() =~= Seq::<char>::empty());
        assert(seq_utf8_bytes(s.push(c)) == char_utf8_bytes(c) + seq_utf8_bytes(
            Seq::<char>::empty(),
        ));
    } else {
        assert(s.push(c)[0] == s[0]);
        assert(s.push(c).drop_first() =~= s.drop_first().push(c));
        lemma_seq_utf8_bytes_push(s.drop_first(), c);
        assert(seq_utf8_bytes(s.push(c)) == char_utf8_bytes(s[0]) + seq_utf8_bytes(
            s.drop_first().push(c),
        ));
    }
}

/// Consuming the character at index `i` advances the byte offset by its width.
pub proof fn lemma_byte_at_step(s: Seq<char>, i: int)
    requires
        0 <= i < s.len(),
    ensures
        byte_at(s, i + 1) == byte_at(s, i) + char_utf8_bytes(s[i]),
{
    assert(s.take(i + 1) =~= s.take(i).push(s[i]));
    lemma_seq_utf8_bytes_push(s.take(i), s[i]);
}

/// Byte offsets grow strictly with character positions.
pub proof fn lemma_byte_at_mono(s: Seq<char>, i: int, j: int)
    requires
        0 <= i <= j <= s.len(),
    ensures
        byte_at(s, i) <= byte_at(s, j),
        i < j ==> byte_at(s, i) + (j - i) <= byte_at(s, j),
    decreases j - i,
{
    if i < j {
        lemma_byte_at_step(s, j - 1);
        lemma_byte_at_mono(s, i, j - 1);
    }
}

/// A text never has more characters than bytes.
pub proof fn lemma_len_le_bytes(s: Seq<char>)
    ensures
        s.len() <= seq_utf8_bytes(s),
    decreases s.len(),
{
    if s.len() > 0 {
        lemma_len_le_bytes(s.drop_first());
    }
}

/// The byte offset at the end of the text is its total byte length.
pub proof fn lemma_byte_at_end(s: Seq<char>)
    ensures
        byte_at(s, s.len() as int) == seq_utf8_bytes(s),
{
    assert(s.take(s.len() as int) =~= s);
}

/// Unicode whitespace, the set recognized by the scanner.
pub open spec fn is_ws_char(c: char) -> bool {
    let u = c as u32;
    (0x09 <= u <= 0x0D) || u == 0x20 || u == 0x85 || u == 0xA0 || u == 0x1680 || (0x2000 <= u
        <= 0x200A) || u == 0x2028 || u == 0x2029 || u == 0x202F || u == 0x205F || u == 0x3000
}

/// Identifiers are ASCII-only: a letter or `_` starts one.
pub open spec fn is_ident_start_char(c: char) -> bool {
    let u = c as u32;
    (0x41 <= u <= 0x5A) || (0x61 <= u <= 0x7A) || u == 0x5F
}

/// A letter, digit or `_` continues an identifier.
pub open spec fn is_ident_continue_char(c: char) -> bool {
    is_ident_start_char(c) || is_dec_digit_char(c)
}

pub open spec fn is_ascii_alpha_char(c: char) -> bool {
    let u = c as u32;
    (0x41 <= u <= 0x5A) || (0x61 <= u <= 0x7A)
}

pub open spec fn is_dec_digit_char(c: char) -> bool {
    0x30 <= (c as u32) <= 0x39
}

pub open spec fn is_hex_digit_char(c: char) -> bool {
    let u = c as u32;
    (0x30 <= u <= 0x39) || (0x41 <= u <= 0x46) || (0x61 <= u <= 0x66)
}

pub open spec fn is_ascii_char(c: char) -> bool {
    (c as u32) < 0x80
}

/// Whether a character counts as alphanumeric under the Unicode general
/// categories; the scanner uses it only for non-ASCII runs.
pub uninterp spec fn unicode_alphanumeric(c: char) -> bool;

/// Relies on char::is_alphanumeric: membership in the Unicode `Alphabetic`
/// and `Number` general categories, a function of the character alone.
#[verifier::external_body]
pub(crate) fn char_alphanumeric(c: char) -> (r: bool)
    ensures
        r == unicode_alphanumeric(c),
{
    c.is_alphanumeric()
}

pub(crate) fn utf8_len(c: char) -> (n: u32)
    ensures
        n == char_utf8_bytes(c),
{
    let u = c as u32;
    if u < 0x80 {
        1
    } else if u < 0x800 {
        2
    } else if u < 0x10000 {
        3
    } else {
        4
    }
}

pub(crate) fn is_whitespace_char(c: char) -> (r: bool)
    ensures
        r == is_ws_char(c),
{
    let u = c as u32;
    (0x09 <= u && u <= 0x0D) || u == 0x20 || u == 0x85 || u == 0xA0 || u == 0x1680 || (0x2000 <= u
        && u <= 0x200A) || u == 0x2028 || u == 0x2029 || u == 0x202F || u == 0x205F || u == 0x3000
}

pub(crate) fn is_ident_start(c: char) -> (r: bool)
    ensures
        r == is_ident_start_char(c),
{
    let u = c as u32;
    (0x41 <= u && u <= 0x5A) || (0x61 <= u && u <= 0x7A) || u == 0x5F
}

pub(crate) fn is_ident_continue(c: char) -> (r: bool)
    ensures
        r == is_ident_continue_char(c),
{
    let u = c as u32;
    (0x41 <= u && u <= 0x5A) || (0x61 <= u && u <= 0x7A) || u == 0x5F || (0x30 <= u && u <= 0x39)
}

pub(crate) fn is_ascii_alpha(c: char) -> (r: bool)
    ensures
        r == is_ascii_alpha_char(c),
{
    let u = c as u32;
    (0x41 <= u && u <= 0x5A) || (0x61 <= u && u <= 0x7A)
}

pub(crate) fn is_dec_digit(c: char) -> (r: bool)
    ensures
        r == is_dec_digit_char(c),
{
    let u = c as u32;
    0x30 <= u && u <= 0x39
}

pub(crate) fn is_hex_digit(c: char) -> (r: bool)
    ensures
        r == is_hex_digit_char(c),
{
    let u = c as u32;
    (0x30 <= u && u <= 0x39) || (0x41 <= u && u <= 0x46) || (0x61 <= u && u <= 0x66)
}

pub(crate) fn is_ascii(c: char) -> (r: bool)
    ensures
        r == is_ascii_char(c),
{
    (c as u32) < 0x80
}

} // verus!
