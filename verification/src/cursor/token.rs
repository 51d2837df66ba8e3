//! Minimal lexical atoms produced by the character-level scanner.

use vstd::prelude::*;

verus! {

/// One raw token: a structural kind plus its length in bytes.
#[derive(Debug, Clone, Copy, PartialEq, Eq, Structural)]
pub struct Token {
    pub kind: Kind,
    pub len: u32,
}

impl Token {
    pub fn new(kind: Kind, len: u32) -> (t: Self)
        ensures
            t == (Token { kind, len }),
    {
        Self { kind, len }
    }

    pub fn eof() -> (t: Self)
        ensures
            t == (Token { kind: Kind::Eof, len: 0u32 }),
    {
        Self::new(Kind::Eof, 0)
    }
}

/// Raw token kinds: no semantic interpretation, only structure.  Failure
/// conditions are structural flags (`terminated`, `empty`), never errors;
/// the lexer decides their significance.
#[derive(Debug, Clone, Copy, PartialEq, Eq, Structural)]
pub enum Kind {
    /// `/// docs` (but not `//// comment`)
    Docs,
    /// `// comment`, to the end of the line
    LineComment,
    /// `/* block comment */`; `terminated` records whether `*/` was found
    BlockComment { terminated: bool },
    /// A maximal run of whitespace; `newline` records whether it crossed one
    WhiteSpace { newline: bool },
    /// `ident`, `_var123` — ASCII letters, digits and `_` only
    Ident,
    /// An identifier-like run containing non-ASCII alphanumerics
    InvalidIdent,
    /// A literal shape, see [`LitKind`]
    Lit(LitKind),
    /// `;`
    Semi,
    /// `:`
    Colon,
    /// `,`
    Comma,
    /// `.`
    Dot,
    /// `@`
    At,
    /// `#`
    Pound,
    /// `~`
    Tilde,
    /// `?`
    Question,
    /// `$`
    Dollar,
    /// `=`
    Eq,
    /// `!`
    Bang,
    /// `<`
    Lt,
    /// `>`
    Gt,
    /// `&`
    And,
    /// `|`
    Or,
    /// `+`
    Plus,
    /// `-`
    Minus,
    /// `*`
    Star,
    /// `/`
    Slash,
    /// `^`
    Caret,
    /// `%`
    Percent,
    /// `(`
    OpenParen,
    /// `)`
    CloseParen,
    /// `{`
    OpenBrace,
    /// `}`
    CloseBrace,
    /// `[`
    OpenBracket,
    /// `]`
    CloseBracket,
    /// Anything not matched above
    Unknown,
    /// End of input; zero length
    Eof,
}

/// Raw kinds the lexer swallows between semantic tokens.
pub open spec fn is_trivia(k: Kind) -> bool {
    match k {
        Kind::LineComment => true,
        Kind::BlockComment { .. } => true,
        Kind::WhiteSpace { .. } => true,
        _ => false,
    }
}

impl Kind {
    /// Whether this raw token is whitespace or a non-doc comment.
    pub fn is_whitespace(&self) -> (r: bool)
        ensures
            r == is_trivia(*self),
    {
        matches!(self, Self::LineComment | Self::BlockComment { .. } | Self::WhiteSpace { .. })
    }
}

/// Raw literal shapes.
#[derive(Debug, Clone, Copy, PartialEq, Eq, Structural)]
pub enum LitKind {
    /// Integer literal; `empty` marks a base marker with no digits after it
    Int { base: Base, empty: bool },
    /// Float literal
    Float { base: Base },
    /// Character literal; `terminated` records whether the closing `'` was found
    Char { terminated: bool },
    /// String literal; `terminated` records whether the closing `"` was found
    Str { terminated: bool },
}

impl LitKind {
    /// The shape reported for a base marker with no digits, e.g. `0x`.
    pub fn empty_int() -> (k: Self)
        ensures
            k == (LitKind::Int { base: Base::Decimal, empty: true }),
    {
        Self::Int { base: Base::Decimal, empty: true }
    }
}

/// Numeric literal base, selected by a leading `0b`, `0o` or `0x` marker.
#[derive(Debug, Clone, Copy, PartialEq, Eq, PartialOrd, Ord, Structural)]
pub enum Base {
    Binary,
    Octal,
    Decimal,
    Hexadecimal,
}

/// Whether a digit scan saw at least one real digit (separators aside).
#[derive(Debug, Clone, Copy, PartialEq, Eq, Structural)]
pub enum HasDigits {
    Yes,
    No,
}

} // verus!
