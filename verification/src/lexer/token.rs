//! Classified tokens produced by the lexer.

use vstd::prelude::*;

verus! {

use vstd::string::StringExecFns;
use crate::cursor::Base;
use super::span::Span;

/// One semantic token: a classified kind and its byte span in the source.
#[derive(Debug, Clone, Copy, PartialEq, Eq, Structural)]
pub struct Token {
    pub kind: Kind,
    pub span: Span,
}

impl Token {
    pub fn new(kind: Kind, span: Span) -> (t: Self)
        ensures
            t == (Token { kind, span }),
    {
        Self { kind, span }
    }
}

/// A strictly increasing index into the token stream.  Ids are never reused
/// and are valid only for the stream that produced them.
#[derive(Debug, Clone, Copy, PartialEq, Eq, Structural)]
pub struct TokenId(pub u32);

impl TokenId {
    pub fn as_index(&self) -> (i: usize)
        ensures
            i == self.0 as usize,
    {
        self.0 as usize
    }
}

/// Semantic token kinds: punctuation, compound operators, delimiters,
/// keywords, literals, identifiers, and the `Eof` sentinel.
#[derive(Debug, Clone, Copy, PartialEq, Eq, Structural)]
pub enum Kind {
    /// `/// docs`
    Docs,
    /// `~`
    Tilde,
    /// `@`
    At,
    /// `.`
    Dot,
    /// `..`
    DotDot,
    /// `...`
    DotDotDot,
    /// `..=`
    DotDotEq,
    /// `,`
    Comma,
    /// `;`
    Semi,
    /// `:`
    Colon,
    /// `::`
    PathSep,
    /// `->`
    RArrow,
    /// `=>`
    FatArrow,
    /// `#`
    Pound,
    /// `$`
    Dollar,
    /// `?`
    Question,
    Ident,
    Keyword(Keyword),
    Literal(Literal),
    Operator(Operator),
    OpenDelim(Delimiter),
    CloseDelim(Delimiter),
    Unknown,
    /// End of input; a sentinel, not a diagnostic
    Eof,
}

impl Kind {
    /// Whether the kind is plain punctuation or a fixed word, rather than a
    /// carrier of further information.
    pub fn is_simple(&self) -> (r: bool)
        ensures
            r == !(self matches Kind::Docs || self matches Kind::Ident
                || self matches Kind::Literal(_) || self matches Kind::Unknown
                || self matches Kind::Eof),
    {
        !matches!(self, Self::Docs | Self::Ident | Self::Literal { .. } | Self::Unknown | Self::Eof)
    }
}

/// The fixed keyword set.
#[derive(Debug, Clone, Copy, PartialEq, Eq, Structural)]
pub enum Keyword {
    Pub,
    Let,
    Const,
    Mut,
    If,
    Else,
    While,
    For,
    In,
    Fn,
}

/// A literal token: its shape and the byte length of a consumed suffix.
#[derive(Debug, Clone, Copy, PartialEq, Eq, Structural)]
pub struct Literal {
    pub kind: LiteralKind,
    pub suffix_len: u32,
}

impl Literal {
    pub fn new(kind: LiteralKind, suffix_len: u32) -> (l: Self)
        ensures
            l == (Literal { kind, suffix_len }),
    {
        Self { kind, suffix_len }
    }

    /// The shape of `true` and `false`.
    pub fn bool() -> (l: Self)
        ensures
            l == (Literal { kind: LiteralKind::Bool, suffix_len: 0u32 }),
    {
        Self::new(LiteralKind::Bool, 0)
    }
}

/// Literal shapes as the parser sees them.
#[derive(Debug, Clone, Copy, PartialEq, Eq, Structural)]
pub enum LiteralKind {
    Int { base: Base },
    Float { base: Base },
    Bool,
    Char,
    Str,
}

/// Operator tokens: `!`, the binary operators, and the assignment forms.
#[derive(Debug, Clone, Copy, PartialEq, Eq, Structural)]
pub enum Operator {
    /// `!`
    Not,
    /// `-`, `/`, `==`, ...
    Binary(BinaryKind),
    /// `=`, `-=`, `/=`, ...
    Assign(AssignKind),
}

/// Binary operator kinds.
#[derive(Debug, Clone, Copy, PartialEq, Eq, Structural)]
pub enum BinaryKind {
    /// `+`
    Plus,
    /// `-`
    Minus,
    /// `*`
    Star,
    /// `/`
    Slash,
    /// `%`
    Percent,
    /// `^`
    Caret,
    /// `|`
    BinOr,
    /// `&`
    BinAnd,
    /// `<<`
    Shl,
    /// `>>`
    Shr,
    /// `==`
    Eq,
    /// `!=`
    Ne,
    /// `<`
    Lt,
    /// `>`
    Gt,
    /// `<=`
    Le,
    /// `>=`
    Ge,
    /// `||`
    Or,
    /// `&&`
    And,
}

/// Assignment operator kinds: `=` and the compound forms.
#[derive(Debug, Clone, Copy, PartialEq, Eq, Structural)]
pub enum AssignKind {
    /// `=`
    Eq,
    /// `+=`
    Plus,
    /// `-=`
    Minus,
    /// `*=`
    Star,
    /// `/=`
    Slash,
    /// `%=`
    Percent,
    /// `^=`
    Caret,
    /// `|=`
    Or,
    /// `&=`
    And,
    /// `<<=`
    Shl,
    /// `>>=`
    Shr,
}

/// Delimiter pairs.
#[derive(Debug, Clone, Copy, PartialEq, Eq, Structural)]
pub enum Delimiter {
    /// `( ... )`
    Paren,
    /// `{ ... }`
    Brace,
    /// `[ ... ]`
    Bracket,
}

impl Delimiter {
    pub fn as_open(&self) -> (k: Kind)
        ensures
            k == Kind::OpenDelim(*self),
    {
        Kind::OpenDelim(*self)
    }

    pub fn as_close(&self) -> (k: Kind)
        ensures
            k == Kind::CloseDelim(*self),
    {
        Kind::CloseDelim(*self)
    }
}

/// The display text of a keyword.
pub open spec fn keyword_text(k: Keyword) -> Seq<char> {
    match k {
        Keyword::Pub => "pub"@,
        Keyword::Let => "let"@,
        Keyword::Const => "const"@,
        Keyword::Mut => "mut"@,
        Keyword::If => "if"@,
        Keyword::Else => "else"@,
        Keyword::While => "while"@,
        Keyword::For => "for"@,
        Keyword::In => "in"@,
        Keyword::Fn => "fn"@,
    }
}

impl Keyword {
    /// The keyword as text.
    pub fn to_text(&self) -> (t: String)
        ensures
            t@ == keyword_text(*self),
    {
        match self {
            Self::Pub => String::from_str("pub"),
            Self::Let => String::from_str("let"),
            Self::Const => String::from_str("const"),
            Self::Mut => String::from_str("mut"),
            Self::If => String::from_str("if"),
            Self::Else => String::from_str("else"),
            Self::While => String::from_str("while"),
            Self::For => String::from_str("for"),
            Self::In => String::from_str("in"),
            Self::Fn => String::from_str("fn"),
        }
    }
}

/// The display text of a binary operator.
pub open spec fn binary_kind_text(k: BinaryKind) -> Seq<char> {
    match k {
        BinaryKind::Plus => "+"@,
        BinaryKind::Minus => "-"@,
        BinaryKind::Star => "*"@,
        BinaryKind::Slash => "/"@,
        BinaryKind::Percent => "%"@,
        BinaryKind::Caret => "^"@,
        BinaryKind::BinOr => "|"@,
        BinaryKind::BinAnd => "&"@,
        BinaryKind::Shl => "<<"@,
        BinaryKind::Shr => ">>"@,
        BinaryKind::Eq => "=="@,
        BinaryKind::Ne => "!="@,
        BinaryKind::Lt => "<"@,
        BinaryKind::Gt => ">"@,
        BinaryKind::Le => "<="@,
        BinaryKind::Ge => ">="@,
        BinaryKind::Or => "||"@,
        BinaryKind::And => "&&"@,
    }
}

impl BinaryKind {
    /// The operator as text.
    pub fn to_text(&self) -> (t: String)
        ensures
            t@ == binary_kind_text(*self),
    {
        match self {
            Self::Plus => String::from_str("+"),
            Self::Minus => String::from_str("-"),
            Self::Star => String::from_str("*"),
            Self::Slash => String::from_str("/"),
            Self::Percent => String::from_str("%"),
            Self::Caret => String::from_str("^"),
            Self::BinOr => String::from_str("|"),
            Self::BinAnd => String::from_str("&"),
            Self::Shl => String::from_str("<<"),
            Self::Shr => String::from_str(">>"),
            Self::Eq => String::from_str("=="),
            Self::Ne => String::from_str("!="),
            Self::Lt => String::from_str("<"),
            Self::Gt => String::from_str(">"),
            Self::Le => String::from_str("<="),
            Self::Ge => String::from_str(">="),
            Self::Or => String::from_str("||"),
            Self::And => String::from_str("&&"),
        }
    }
}

/// The display text of an assignment operator.
pub open spec fn assign_kind_text(k: AssignKind) -> Seq<char> {
    match k {
        AssignKind::Eq => "="@,
        AssignKind::Plus => "+="@,
        AssignKind::Minus => "-="@,
        AssignKind::Star => "*="@,
        AssignKind::Slash => "/="@,
        AssignKind::Percent => "%="@,
        AssignKind::Caret => "^="@,
        AssignKind::Or => "|="@,
        AssignKind::And => "&="@,
        AssignKind::Shl => "<<="@,
        AssignKind::Shr => ">>="@,
    }
}

impl AssignKind {
    /// The operator as text.
    pub fn to_text(&self) -> (t: String)
        ensures
            t@ == assign_kind_text(*self),
    {
        match self {
            Self::Eq => String::from_str("="),
            Self::Plus => String::from_str("+="),
            Self::Minus => String::from_str("-="),
            Self::Star => String::from_str("*="),
            Self::Slash => String::from_str("/="),
            Self::Percent => String::from_str("%="),
            Self::Caret => String::from_str("^="),
            Self::Or => String::from_str("|="),
            Self::And => String::from_str("&="),
            Self::Shl => String::from_str("<<="),
            Self::Shr => String::from_str(">>="),
        }
    }
}

/// The display text of a literal shape.
pub open spec fn literal_kind_text(k: LiteralKind) -> Seq<char> {
    match k {
        LiteralKind::Int { .. } => "integer"@,
        LiteralKind::Float { .. } => "float"@,
        LiteralKind::Bool => "bool"@,
        LiteralKind::Char => "char"@,
        LiteralKind::Str => "string"@,
    }
}

impl LiteralKind {
    /// The shape's name as text.
    pub fn to_text(&self) -> (t: String)
        ensures
            t@ == literal_kind_text(*self),
    {
        match self {
            Self::Int { .. } => String::from_str("integer"),
            Self::Float { .. } => String::from_str("float"),
            Self::Bool => String::from_str("bool"),
            Self::Char => String::from_str("char"),
            Self::Str => String::from_str("string"),
        }
    }
}

/// The display text of an operator.
pub open spec fn operator_text(o: Operator) -> Seq<char> {
    match o {
        Operator::Not => "!"@,
        Operator::Binary(k) => binary_kind_text(k),
        Operator::Assign(k) => assign_kind_text(k),
    }
}

impl Operator {
    /// The operator as text.
    pub fn to_text(&self) -> (t: String)
        ensures
            t@ == operator_text(*self),
    {
        match self {
            Self::Not => String::from_str("!"),
            Self::Binary(k) => k.to_text(),
            Self::Assign(k) => k.to_text(),
        }
    }
}

/// The display text of a token kind.
pub open spec fn kind_text(k: Kind) -> Seq<char> {
    match k {
        Kind::Docs => "Docs"@,
        Kind::Tilde => "~"@,
        Kind::At => "@"@,
        Kind::Dot => "."@,
        Kind::DotDot => ".."@,
        Kind::DotDotDot => "..."@,
        Kind::DotDotEq => "..="@,
        Kind::Comma => ","@,
        Kind::Semi => ";"@,
        Kind::Colon => ":"@,
        Kind::PathSep => "::"@,
        Kind::RArrow => "->"@,
        Kind::FatArrow => "=>"@,
        Kind::Pound => "#"@,
        Kind::Dollar => "$"@,
        Kind::Question => "?"@,
        Kind::Ident => "Ident"@,
        Kind::Keyword(kw) => keyword_text(kw),
        Kind::Literal(l) => literal_kind_text(l.kind),
        Kind::Operator(o) => operator_text(o),
        Kind::OpenDelim(Delimiter::Paren) => "("@,
        Kind::OpenDelim(Delimiter::Brace) => "{"@,
        Kind::OpenDelim(Delimiter::Bracket) => "["@,
        Kind::CloseDelim(Delimiter::Paren) => ")"@,
        Kind::CloseDelim(Delimiter::Brace) => "}"@,
        Kind::CloseDelim(Delimiter::Bracket) => "]"@,
        Kind::Unknown => "Unknown"@,
        Kind::Eof => "Eof"@,
    }
}

impl Kind {
    /// The kind as text.
    pub fn to_text(&self) -> (t: String)
        ensures
            t@ == kind_text(*self),
    {
        match self {
            Self::Docs => String::from_str("Docs"),
            Self::Tilde => String::from_str("~"),
            Self::At => String::from_str("@"),
            Self::Dot => String::from_str("."),
            Self::DotDot => String::from_str(".."),
            Self::DotDotDot => String::from_str("..."),
            Self::DotDotEq => String::from_str("..="),
            Self::Comma => String::from_str(","),
            Self::Semi => String::from_str(";"),
            Self::Colon => String::from_str(":"),
            Self::PathSep => String::from_str("::"),
            Self::RArrow => String::from_str("->"),
            Self::FatArrow => String::from_str("=>"),
            Self::Pound => String::from_str("#"),
            Self::Dollar => String::from_str("$"),
            Self::Question => String::from_str("?"),
            Self::Ident => String::from_str("Ident"),
            Self::Keyword(kw) => kw.to_text(),
            Self::Literal(l) => l.kind.to_text(),
            Self::Operator(o) => o.to_text(),
            Self::OpenDelim(Delimiter::Paren) => String::from_str("("),
            Self::OpenDelim(Delimiter::Brace) => String::from_str("{"),
            Self::OpenDelim(Delimiter::Bracket) => String::from_str("["),
            Self::CloseDelim(Delimiter::Paren) => String::from_str(")"),
            Self::CloseDelim(Delimiter::Brace) => String::from_str("}"),
            Self::CloseDelim(Delimiter::Bracket) => String::from_str("]"),
            Self::Unknown => String::from_str("Unknown"),
            Self::Eof => String::from_str("Eof"),
        }
    }
}

} // verus!
