//! Character-level scanner.
//!
//! [`Cursor::advance_token`] consumes at least one character and returns one
//! minimal token; once the input is exhausted it returns a zero-length `Eof`
//! token and keeps doing so.  The cursor never raises errors: failure
//! conditions are structural flags on the token kinds, interpreted by the
//! lexer.  Token lengths are byte lengths of the consumed characters.

use vstd::prelude::*;

mod scan;
mod token;

pub use token::{Token, Kind, LitKind, Base, HasDigits, is_trivia};
pub use scan::{scan_token, char_at, lemma_scan_token_bounds, scan_dec_end, scan_hex_end, dec_seen, hex_seen, number_token, scan_zero_number, float_follows};

verus! {

use vstd::string::StrSliceExecFns;
use crate::chars::{
    char_utf8_bytes, seq_utf8_bytes, byte_at, lemma_byte_at_step, lemma_byte_at_mono,
    lemma_byte_at_end, utf8_len, is_whitespace_char, is_ident_start, is_ident_continue,
    is_dec_digit, is_hex_digit, is_ascii, is_ascii_alpha, char_alphanumeric, is_ws_char,
    is_ident_start_char, is_ident_continue_char, is_dec_digit_char, is_hex_digit_char,
    is_ascii_char, unicode_alphanumeric,
};
use scan::{
    scan_ws_end, scan_ident_end, scan_alnum_end, scan_unknown_end, scan_line_end, scan_block,
    scan_char_lit, scan_str_lit, lemma_scan_ws_bounds, lemma_scan_ident_bounds,
    lemma_scan_alnum_bounds, lemma_scan_unknown_bounds, lemma_scan_line_bounds,
    lemma_scan_block_bounds, lemma_scan_dec_bounds, lemma_scan_hex_bounds,
    lemma_scan_char_lit_bounds, lemma_scan_str_lit_bounds,
};

/// The character handed back in place of one past the end of the input.
pub const EOF: char = '\0';

/// Lightweight scanner over a character sequence.
#[derive(Debug, Clone)]
pub struct Cursor {
    pub src: Vec<char>,
    pub pos: usize,
}

impl Cursor {
    /// The source text being scanned.
    pub open spec fn text(&self) -> Seq<char> {
        self.src@
    }

    /// Current character position.
    pub open spec fn at(&self) -> int {
        self.pos as int
    }

    /// The position is inside the text and all byte offsets fit in `u32`.
    pub open spec fn wf(&self) -> bool {
        self.pos <= self.src.len() && seq_utf8_bytes(self.src@) <= u32::MAX
    }

    /// Build a cursor over `source`, positioned at its start.
    pub fn new(source: &str) -> (c: Cursor)
        requires
            seq_utf8_bytes(source@) <= u32::MAX,
        ensures
            c.wf(),
            c.text() == source@,
            c.at() == 0,
    {
        let n = source.unicode_len();
        let mut src: Vec<char> = Vec::new();
        let mut i: usize = 0;
        while i < n
            invariant
                i <= n,
                n == source@.len(),
                src@ == source@.take(i as int),
            decreases n - i,
        {
            let c = source.get_char(i);
            src.push(c);
            proof {
                assert(source@.take(i as int).push(source@[i as int]) =~= source@.take(
                    i as int + 1,
                ));
            }
            i = i + 1;
        }
        proof {
            assert(source@.take(n as int) =~= source@);
        }
        Cursor { src, pos: 0 }
    }
}

impl Cursor {
    /// One raw token: the kind at the current position, advancing past it.
    pub fn advance_token(&mut self) -> (t: Token)
        requires
            old(self).wf(),
        ensures
            final(self).wf(),
            final(self).text() == old(self).text(),
            t.kind == scan_token(old(self).text(), old(self).at()).0,
            final(self).at() == scan_token(old(self).text(), old(self).at()).1,
            t.len as int == byte_at(final(self).text(), final(self).at()) - byte_at(
                old(self).text(),
                old(self).at(),
            ),
    {
        let start = self.pos;
        let kind = self.match_kind();
        proof {
            lemma_scan_token_bounds(old(self).text(), old(self).at());
        }
        let len = self.byte_len_from(start);
        Token::new(kind, len)
    }

    /// Byte length of the characters consumed since position `from`.
    fn byte_len_from(&self, from: usize) -> (n: u32)
        requires
            self.wf(),
            from <= self.pos,
        ensures
            n as int == byte_at(self.text(), self.at()) - byte_at(self.text(), from as int),
    {
        let ghost s = self.text();
        let mut n: u32 = 0;
        let mut k = from;
        proof {
            lemma_byte_at_mono(s, from as int, from as int);
        }
        while k < self.pos
            invariant
                from <= k <= self.pos <= self.src.len(),
                seq_utf8_bytes(s) <= u32::MAX,
                s == self.text(),
                n as int == byte_at(s, k as int) - byte_at(s, from as int),
            decreases self.pos - k,
        {
            proof {
                lemma_byte_at_step(s, k as int);
                lemma_byte_at_mono(s, k as int + 1, s.len() as int);
                lemma_byte_at_end(s);
                lemma_byte_at_mono(s, from as int, k as int);
            }
            n = n + utf8_len(self.src[k]);
            k = k + 1;
        }
        n
    }

    /// Classify and consume the raw token at the current position.
    fn match_kind(&mut self) -> (k: Kind)
        requires
            old(self).wf(),
        ensures
            final(self).wf(),
            final(self).text() == old(self).text(),
            k == scan_token(old(self).text(), old(self).at()).0,
            final(self).at() == scan_token(old(self).text(), old(self).at()).1,
    {
        let ghost s = self.text();
        let ghost i = self.at();
        if self.pos >= self.src.len() {
            return Kind::Eof;
        }
        let c = self.src[self.pos];
        self.pos = self.pos + 1;
        if c == '/' {
            if self.first() == '/' {
                self.skip();
                self.line_comment()
            } else if self.first() == '*' {
                self.skip();
                self.block_comment()
            } else {
                Kind::Slash
            }
        } else if is_whitespace_char(c) {
            let k = self.whitespace(c);
            proof {
                lemma_scan_ws_bounds(s, i + 1);
                let e = scan_ws_end(s, i + 1);
                if c == '\n' {
                    assert(i <= i < e && s[i] == '\n');
                }
                if exists|j: int| i <= j < e && #[trigger] s[j] == '\n' {
                    let j = choose|j: int| i <= j < e && #[trigger] s[j] == '\n';
                    if j != i {
                        assert(i + 1 <= j < e && s[j] == '\n');
                    }
                }
            }
            k
        } else if is_ident_start(c) {
            self.ident()
        } else if !is_ascii(c) && char_alphanumeric(c) {
            self.invalid_ident()
        } else if c == '\'' {
            Kind::Lit(self.char_lit())
        } else if c == '"' {
            Kind::Lit(self.str_lit())
        } else if c == '0' {
            let lit = match self.parse_base() {
                Ok(base) => self.parse_number(base),
                Err(JustZero) => LitKind::Int { base: Base::Decimal, empty: false },
            };
            Kind::Lit(lit)
        } else if is_dec_digit(c) {
            Kind::Lit(self.parse_decimal_number())
        } else if c == ';' {
            Kind::Semi
        } else if c == ':' {
            Kind::Colon
        } else if c == ',' {
            Kind::Comma
        } else if c == '.' {
            Kind::Dot
        } else if c == '@' {
            Kind::At
        } else if c == '#' {
            Kind::Pound
        } else if c == '~' {
            Kind::Tilde
        } else if c == '?' {
            Kind::Question
        } else if c == '$' {
            Kind::Dollar
        } else if c == '=' {
            Kind::Eq
        } else if c == '!' {
            Kind::Bang
        } else if c == '<' {
            Kind::Lt
        } else if c == '>' {
            Kind::Gt
        } else if c == '-' {
            Kind::Minus
        } else if c == '&' {
            Kind::And
        } else if c == '|' {
            Kind::Or
        } else if c == '+' {
            Kind::Plus
        } else if c == '*' {
            Kind::Star
        } else if c == '^' {
            Kind::Caret
        } else if c == '%' {
            Kind::Percent
        } else if c == '(' {
            Kind::OpenParen
        } else if c == ')' {
            Kind::CloseParen
        } else if c == '{' {
            Kind::OpenBrace
        } else if c == '}' {
            Kind::CloseBrace
        } else if c == '[' {
            Kind::OpenBracket
        } else if c == ']' {
            Kind::CloseBracket
        } else {
            self.unknown()
        }
    }
}

impl Cursor {
    /// Rest of a line comment; the leading `//` is already consumed.
    fn line_comment(&mut self) -> (k: Kind)
        requires
            old(self).wf(),
        ensures
            final(self).wf(),
            final(self).text() == old(self).text(),
            ({
                let s = final(self).text();
                let i = old(self).at();
                &&& k == (if i < s.len() && s[i] == '/' && !(i + 1 < s.len() && s[i + 1] == '/') {
                    Kind::Docs
                } else {
                    Kind::LineComment
                })
                &&& final(self).at() == scan_line_end(s, i)
            }),
    {
        let ghost s = self.text();
        let ghost i = self.at();
        // `/// docs`, but `//// text` is an ordinary comment
        let kind = if self.first() == '/' && self.second() != '/' {
            Kind::Docs
        } else {
            Kind::LineComment
        };
        while !(self.pos >= self.src.len() || self.src[self.pos] == '\n')
            invariant
                self.wf(),
                s == self.text(),
                i <= self.at() <= s.len(),
                scan_line_end(s, i) == scan_line_end(s, self.at()),
            decreases s.len() - self.at(),
        {
            self.pos = self.pos + 1;
        }
        // consume the newline itself
        if self.pos < self.src.len() {
            self.pos = self.pos + 1;
        }
        kind
    }

    /// Rest of a block comment; the leading `/*` is already consumed.
    #[verifier::loop_isolation(false)]
    fn block_comment(&mut self) -> (k: Kind)
        requires
            old(self).wf(),
        ensures
            final(self).wf(),
            final(self).text() == old(self).text(),
            k == (Kind::BlockComment {
                terminated: scan_block(old(self).text(), old(self).at()).1,
            }),
            final(self).at() == scan_block(old(self).text(), old(self).at()).0,
    {
        let ghost s = self.text();
        let ghost i = self.at();
        loop
            invariant
                self.wf(),
                s == self.text(),
                i <= self.at() <= s.len(),
                scan_block(s, i) == scan_block(s, self.at()),
            decreases s.len() - self.at(),
        {
            if self.pos >= self.src.len() {
                return Kind::BlockComment { terminated: false };
            }
            if self.src[self.pos] == '*' && self.second() == '/' {
                self.pos = self.pos + 1;
                self.pos = self.pos + 1;
                return Kind::BlockComment { terminated: true };
            }
            self.pos = self.pos + 1;
        }
    }

    /// Rest of a whitespace run; `first` is the already-consumed character.
    fn whitespace(&mut self, first: char) -> (k: Kind)
        requires
            old(self).wf(),
        ensures
            final(self).wf(),
            final(self).text() == old(self).text(),
            final(self).at() == scan_ws_end(old(self).text(), old(self).at()),
            k == (Kind::WhiteSpace {
                newline: first == '\n' || exists|j: int|
                    old(self).at() <= j < final(self).at() && #[trigger] old(self).text()[j] == '\n',
            }),
    {
        let ghost s = self.text();
        let ghost i = self.at();
        let mut newline = first == '\n';
        while !(self.pos >= self.src.len() || !is_whitespace_char(self.src[self.pos]))
            invariant
                self.wf(),
                s == self.text(),
                i <= self.at() <= s.len(),
                scan_ws_end(s, i) == scan_ws_end(s, self.at()),
                newline == (first == '\n' || exists|j: int|
                    i <= j < self.at() && #[trigger] s[j] == '\n'),
            decreases s.len() - self.at(),
        {
            if self.src[self.pos] == '\n' {
                newline = true;
            }
            self.pos = self.pos + 1;
        }
        Kind::WhiteSpace { newline }
    }
}

impl Cursor {
    /// Rest of an identifier; the starting character is already consumed.
    /// A non-ASCII character right after the run turns it invalid.
    fn ident(&mut self) -> (k: Kind)
        requires
            old(self).wf(),
        ensures
            final(self).wf(),
            final(self).text() == old(self).text(),
            ({
                let s = final(self).text();
                let e = scan_ident_end(s, old(self).at());
                if e < s.len() && !is_ascii_char(s[e]) {
                    k == Kind::InvalidIdent && final(self).at() == scan_alnum_end(s, e)
                } else {
                    k == Kind::Ident && final(self).at() == e
                }
            }),
    {
        let ghost s = self.text();
        let ghost i = self.at();
        while !(self.pos >= self.src.len() || !is_ident_continue(self.src[self.pos]))
            invariant
                self.wf(),
                s == self.text(),
                i <= self.at() <= s.len(),
                scan_ident_end(s, i) == scan_ident_end(s, self.at()),
            decreases s.len() - self.at(),
        {
            self.pos = self.pos + 1;
        }
        if self.pos < self.src.len() && !is_ascii(self.src[self.pos]) {
            return self.invalid_ident();
        }
        Kind::Ident
    }

    /// Rest of an identifier-like run with non-ASCII alphanumerics.
    #[verifier::loop_isolation(false)]
    fn invalid_ident(&mut self) -> (k: Kind)
        requires
            old(self).wf(),
        ensures
            final(self).wf(),
            final(self).text() == old(self).text(),
            k == Kind::InvalidIdent,
            final(self).at() == scan_alnum_end(old(self).text(), old(self).at()),
    {
        let ghost s = self.text();
        let ghost i = self.at();
        loop
            invariant
                self.wf(),
                s == self.text(),
                i <= self.at() <= s.len(),
                scan_alnum_end(s, i) == scan_alnum_end(s, self.at()),
            decreases s.len() - self.at(),
        {
            if self.pos >= self.src.len() {
                return Kind::InvalidIdent;
            }
            if !char_alphanumeric(self.src[self.pos]) {
                return Kind::InvalidIdent;
            }
            self.pos = self.pos + 1;
        }
    }

    /// A run after an unrecognized character.
    #[verifier::loop_isolation(false)]
    fn unknown(&mut self) -> (k: Kind)
        requires
            old(self).wf(),
        ensures
            final(self).wf(),
            final(self).text() == old(self).text(),
            k == Kind::Unknown,
            final(self).at() == scan_unknown_end(old(self).text(), old(self).at()),
    {
        let ghost s = self.text();
        let ghost i = self.at();
        loop
            invariant
                self.wf(),
                s == self.text(),
                i <= self.at() <= s.len(),
                scan_unknown_end(s, i) == scan_unknown_end(s, self.at()),
            decreases s.len() - self.at(),
        {
            if self.pos >= self.src.len() {
                return Kind::Unknown;
            }
            let c = self.src[self.pos];
            if is_ascii(c) {
                return Kind::Unknown;
            }
            if !char_alphanumeric(c) {
                return Kind::Unknown;
            }
            self.pos = self.pos + 1;
        }
    }
}

/// Marker for a `0` that starts no longer literal.
struct JustZero;

impl Cursor {
    /// Base selected by the character after a leading `0`.
    #[verifier::loop_isolation(false)]
    fn parse_base(&mut self) -> (r: Result<Base, JustZero>)
        requires
            old(self).wf(),
        ensures
            final(self).wf(),
            final(self).text() == old(self).text(),
            ({
                let s = final(self).text();
                let i = old(self).at();
                if i < s.len() && (s[i] == 'b' || s[i] == 'o' || s[i] == 'x') {
                    &&& final(self).at() == i + 1
                    &&& r matches Ok(b) && b == (if s[i] == 'b' {
                        Base::Binary
                    } else if s[i] == 'o' {
                        Base::Octal
                    } else {
                        Base::Hexadecimal
                    })
                } else if i < s.len() && is_dec_digit_char(s[i]) {
                    final(self).at() == i && (r matches Ok(b) && b == Base::Decimal)
                } else {
                    final(self).at() == i && (r matches Err(_))
                }
            }),
    {
        let c = self.first();
        let base = if c == 'b' {
            Base::Binary
        } else if c == 'o' {
            Base::Octal
        } else if c == 'x' {
            Base::Hexadecimal
        } else if is_dec_digit(c) {
            // the number simply continues in decimal
            return Ok(Base::Decimal);
        } else {
            return Err(JustZero);
        };
        self.skip();
        Ok(base)
    }

    /// Digits of a literal whose base marker (if any) is consumed.
    fn parse_number(&mut self, base: Base) -> (k: LitKind)
        requires
            old(self).wf(),
        ensures
            final(self).wf(),
            final(self).text() == old(self).text(),
            ({
                let s = final(self).text();
                let i = old(self).at();
                if base == Base::Decimal {
                    (k, final(self).at()) == number_token(s, scan_dec_end(s, i), Base::Decimal)
                } else if hex_seen(s, i) {
                    (k, final(self).at()) == number_token(s, scan_hex_end(s, i), base)
                } else {
                    k == (LitKind::Int { base: Base::Decimal, empty: true }) && final(self).at()
                        == scan_hex_end(s, i)
                }
            }),
    {
        if matches!(base, Base::Decimal) {
            self.skip_decimal();
        } else {
            if matches!(self.skip_hex(), HasDigits::No) {
                return LitKind::empty_int();
            }
        }
        self.parse_maybe_float(base)
    }

    /// A literal that starts with a nonzero decimal digit.
    fn parse_decimal_number(&mut self) -> (k: LitKind)
        requires
            old(self).wf(),
        ensures
            final(self).wf(),
            final(self).text() == old(self).text(),
            (k, final(self).at()) == number_token(
                final(self).text(),
                scan_dec_end(final(self).text(), old(self).at()),
                Base::Decimal,
            ),
    {
        self.skip_decimal();
        self.parse_maybe_float(Base::Decimal)
    }

    /// A `.` continues into a float only when what follows is neither another
    /// `.` nor an ASCII letter; this keeps `1..2` and `1.add` integral.
    fn parse_maybe_float(&mut self, base: Base) -> (k: LitKind)
        requires
            old(self).wf(),
        ensures
            final(self).wf(),
            final(self).text() == old(self).text(),
            (k, final(self).at()) == number_token(final(self).text(), old(self).at(), base),
    {
        let (first, second) = self.two();
        if first == '.' && second != '.' && !is_ascii_alpha(second) {
            self.skip();
            self.skip_decimal();
            LitKind::Float { base }
        } else {
            LitKind::Int { base, empty: false }
        }
    }

    /// Consume decimal digits and `_` separators.
    #[verifier::loop_isolation(false)]
    fn skip_decimal(&mut self) -> (h: HasDigits)
        requires
            old(self).wf(),
        ensures
            final(self).wf(),
            final(self).text() == old(self).text(),
            final(self).at() == scan_dec_end(old(self).text(), old(self).at()),
            h == (if dec_seen(old(self).text(), old(self).at()) {
                HasDigits::Yes
            } else {
                HasDigits::No
            }),
    {
        let ghost s = self.text();
        let ghost i = self.at();
        let mut has_digits = HasDigits::No;
        loop
            invariant
                self.wf(),
                s == self.text(),
                i <= self.at() <= s.len(),
                scan_dec_end(s, i) == scan_dec_end(s, self.at()),
                has_digits == (if exists|j: int|
                    i <= j < self.at() && is_dec_digit_char(#[trigger] s[j]) {
                    HasDigits::Yes
                } else {
                    HasDigits::No
                }),
            decreases s.len() - self.at(),
        {
            if self.pos >= self.src.len() {
                return has_digits;
            }
            let c = self.src[self.pos];
            if is_dec_digit(c) {
                has_digits = HasDigits::Yes;
            } else if !(c == '_') {
                return has_digits;
            }
            self.pos = self.pos + 1;
        }
    }

    /// Consume hexadecimal digits and `_` separators.
    #[verifier::loop_isolation(false)]
    fn skip_hex(&mut self) -> (h: HasDigits)
        requires
            old(self).wf(),
        ensures
            final(self).wf(),
            final(self).text() == old(self).text(),
            final(self).at() == scan_hex_end(old(self).text(), old(self).at()),
            h == (if hex_seen(old(self).text(), old(self).at()) {
                HasDigits::Yes
            } else {
                HasDigits::No
            }),
    {
        let ghost s = self.text();
        let ghost i = self.at();
        let mut has_digits = HasDigits::No;
        loop
            invariant
                self.wf(),
                s == self.text(),
                i <= self.at() <= s.len(),
                scan_hex_end(s, i) == scan_hex_end(s, self.at()),
                has_digits == (if exists|j: int|
                    i <= j < self.at() && is_hex_digit_char(#[trigger] s[j]) {
                    HasDigits::Yes
                } else {
                    HasDigits::No
                }),
            decreases s.len() - self.at(),
        {
            if self.pos >= self.src.len() {
                return has_digits;
            }
            let c = self.src[self.pos];
            if is_hex_digit(c) {
                has_digits = HasDigits::Yes;
            } else if !(c == '_') {
                return has_digits;
            }
            self.pos = self.pos + 1;
        }
    }
}

impl Cursor {
    /// Body of a character literal; the opening `'` is already consumed.
    #[verifier::loop_isolation(false)]
    fn char_lit(&mut self) -> (k: LitKind)
        requires
            old(self).wf(),
        ensures
            final(self).wf(),
            final(self).text() == old(self).text(),
            ({
                let s = final(self).text();
                let i = old(self).at();
                if i + 1 < s.len() && s[i + 1] == '\'' && s[i] != '\\' {
                    k == (LitKind::Char { terminated: true }) && final(self).at() == i + 2
                } else {
                    k == (LitKind::Char { terminated: scan_char_lit(s, i).1 }) && final(self).at()
                        == scan_char_lit(s, i).0
                }
            }),
    {
        let ghost s = self.text();
        let ghost i = self.at();
        if self.second() == '\'' && !(self.first() == '\\') {
            // fast path: a single character directly before the closing quote
            self.skip();
            self.skip();
            return LitKind::Char { terminated: true };
        }
        loop
            invariant
                self.wf(),
                s == self.text(),
                i <= self.at() <= s.len(),
                scan_char_lit(s, i) == scan_char_lit(s, self.at()),
            decreases s.len() - self.at(),
        {
            if self.pos >= self.src.len() {
                return LitKind::Char { terminated: false };
            }
            let c = self.src[self.pos];
            if c == '\'' {
                self.pos = self.pos + 1;
                return LitKind::Char { terminated: true };
            }
            if c == '\n' {
                // an unescaped newline ends the literal unterminated
                return LitKind::Char { terminated: false };
            }
            if c == '\\' {
                // an escape consumes the following character unconditionally
                self.pos = self.pos + 1;
                if self.pos < self.src.len() {
                    self.pos = self.pos + 1;
                }
            } else {
                self.pos = self.pos + 1;
            }
        }
    }

    /// Body of a string literal; the opening `"` is already consumed.
    /// Unlike character literals, embedded newlines are permitted.
    #[verifier::loop_isolation(false)]
    fn str_lit(&mut self) -> (k: LitKind)
        requires
            old(self).wf(),
        ensures
            final(self).wf(),
            final(self).text() == old(self).text(),
            k == (LitKind::Str { terminated: scan_str_lit(old(self).text(), old(self).at()).1 }),
            final(self).at() == scan_str_lit(old(self).text(), old(self).at()).0,
    {
        let ghost s = self.text();
        let ghost i = self.at();
        loop
            invariant
                self.wf(),
                s == self.text(),
                i <= self.at() <= s.len(),
                scan_str_lit(s, i) == scan_str_lit(s, self.at()),
            decreases s.len() - self.at(),
        {
            if self.pos >= self.src.len() {
                return LitKind::Str { terminated: false };
            }
            let c = self.src[self.pos];
            if c == '"' {
                self.pos = self.pos + 1;
                return LitKind::Str { terminated: true };
            }
            if c == '\\' {
                self.pos = self.pos + 1;
                if self.pos < self.src.len() {
                    self.pos = self.pos + 1;
                }
            } else {
                self.pos = self.pos + 1;
            }
        }
    }
}

impl Cursor {
    /// Skip characters while `predicate` holds of them, stopping at the
    /// first character it rejects or at the end of the input.
    #[verifier::loop_isolation(false)]
    pub fn skip_while<F: Fn(char) -> bool>(&mut self, predicate: F)
        requires
            old(self).wf(),
            forall|c: char| #[trigger] predicate.requires((c,)),
        ensures
            final(self).wf(),
            final(self).text() == old(self).text(),
            old(self).at() <= final(self).at() <= final(self).text().len(),
            forall|j: int|
                old(self).at() <= j < final(self).at() ==> predicate.ensures(
                    (final(self).text()[j],),
                    true,
                ),
            final(self).at() < final(self).text().len() ==> predicate.ensures(
                (final(self).text()[final(self).at()],),
                false,
            ),
    {
        let ghost s = self.text();
        loop
            invariant
                self.wf(),
                s == self.text(),
                old(self).at() <= self.at() <= s.len(),
                forall|j: int|
                    old(self).at() <= j < self.at() ==> predicate.ensures((s[j],), true),
            decreases s.len() - self.at(),
        {
            if self.pos >= self.src.len() {
                return ;
            }
            let c = self.src[self.pos];
            if !predicate(c) {
                return ;
            }
            self.pos = self.pos + 1;
        }
    }

    /// Whether the input is exhausted.
    pub fn is_eof(&self) -> (r: bool)
        ensures
            r == (self.at() >= self.text().len()),
    {
        self.pos >= self.src.len()
    }

    /// The character at the current position, advancing past it.
    pub fn next(&mut self) -> (r: Option<char>)
        requires
            old(self).wf(),
        ensures
            final(self).wf(),
            final(self).text() == old(self).text(),
            if old(self).at() < old(self).text().len() {
                r == Some(old(self).text()[old(self).at()]) && final(self).at() == old(self).at() + 1
            } else {
                r == Option::<char>::None && final(self).at() == old(self).at()
            },
    {
        if self.pos < self.src.len() {
            let c = self.src[self.pos];
            self.pos = self.pos + 1;
            Some(c)
        } else {
            None
        }
    }

    /// The character at the current position, without advancing.
    pub fn peek(&self) -> (r: Option<char>)
        requires
            self.wf(),
        ensures
            if self.at() < self.text().len() {
                r == Some(self.text()[self.at()])
            } else {
                r == Option::<char>::None
            },
    {
        if self.pos < self.src.len() {
            Some(self.src[self.pos])
        } else {
            None
        }
    }

    /// Skip the current character.
    pub fn skip(&mut self)
        requires
            old(self).wf(),
        ensures
            final(self).wf(),
            final(self).text() == old(self).text(),
            final(self).at() == (if old(self).at() < old(self).text().len() {
                old(self).at() + 1
            } else {
                old(self).at()
            }),
    {
        let _ = self.next();
    }

    /// Skip up to `count` characters.
    pub fn skip_by(&mut self, count: usize)
        requires
            old(self).wf(),
        ensures
            final(self).wf(),
            final(self).text() == old(self).text(),
            final(self).at() == (if old(self).at() + count <= final(self).text().len() {
                old(self).at() + count
            } else {
                final(self).text().len() as int
            }),
    {
        let mut k: usize = 0;
        while k < count
            invariant
                self.wf(),
                k <= count,
                self.text() == old(self).text(),
                self.at() == (if old(self).at() + k <= self.text().len() {
                    old(self).at() + k
                } else {
                    self.text().len() as int
                }),
            decreases count - k,
        {
            self.skip();
            k = k + 1;
        }
    }

    /// Like [`Cursor::next`], handing back [`EOF`] at the end of the input.
    pub fn advance(&mut self) -> (r: char)
        requires
            old(self).wf(),
        ensures
            final(self).wf(),
            final(self).text() == old(self).text(),
            r == char_at(old(self).text(), old(self).at()),
            final(self).at() == (if old(self).at() < old(self).text().len() {
                old(self).at() + 1
            } else {
                old(self).at()
            }),
    {
        match self.next() {
            Some(c) => c,
            None => EOF,
        }
    }

    /// Like [`Cursor::peek`], handing back [`EOF`] at the end of the input.
    pub fn first(&self) -> (r: char)
        requires
            self.wf(),
        ensures
            r == char_at(self.text(), self.at()),
    {
        match self.peek() {
            Some(c) => c,
            None => EOF,
        }
    }

    /// The character one past the current position, or [`EOF`].
    pub fn second(&self) -> (r: char)
        requires
            self.wf(),
        ensures
            r == char_at(self.text(), self.at() + 1),
    {
        if self.src.len() - self.pos >= 2 {
            self.src[self.pos + 1]
        } else {
            EOF
        }
    }

    /// The next two characters, without advancing; [`EOF`] past the end.
    pub fn two(&self) -> (r: (char, char))
        requires
            self.wf(),
        ensures
            r.0 == char_at(self.text(), self.at()),
            r.1 == char_at(self.text(), self.at() + 1),
    {
        (self.first(), self.second())
    }
}

} // verus!
