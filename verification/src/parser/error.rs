//! Parser diagnostics.
//!
//! Diagnostics are recorded exactly once per definite failure, at the point
//! where no alternative production remains; a discarded alternative never
//! leaves one behind.

use vstd::prelude::*;

verus! {

use vstd::string::StringExecFns;
use crate::lexer::{
    self, Keyword, BinaryKind, AssignKind, Delimiter, keyword_text, binary_kind_text,
    assign_kind_text,
};
use super::span::Span;
use super::token_stream::Token;

/// A parser diagnostic.
#[derive(Debug, Clone, PartialEq, Eq)]
pub enum ParseError {
    /// A structurally suspect but accepted form
    Syntax(SyntaxError),
    /// A specific item was expected and something else was found
    Expected(ExpectedItem),
    /// A token that cannot begin anything at its position
    Unexpected(Item),
}

impl ParseError {
    /// The token-id span the diagnostic points at.
    pub fn span(&self) -> (s: Span)
        ensures
            s == parse_error_span(*self),
    {
        match self {
            Self::Syntax(kind) => match kind {
                SyntaxError::UnvalidAssignment { span } => *span,
            },
            Self::Expected(item) => item.span,
            Self::Unexpected(item) => item.span,
        }
    }
}

/// The token-id span a diagnostic points at.
pub open spec fn parse_error_span(e: ParseError) -> Span {
    match e {
        ParseError::Syntax(SyntaxError::UnvalidAssignment { span }) => span,
        ParseError::Expected(item) => item.span,
        ParseError::Unexpected(item) => item.span,
    }
}

/// What a failed expectation was looking for: one item or a named
/// alternative set.
#[derive(Debug, Clone, PartialEq, Eq)]
pub enum ItemSequence {
    Single(ItemKind),
    /// A unary operator
    Unary,
    /// An assignment operator
    Assign,
    /// A statement that produces a value
    StmtWithReturnValue,
}

/// The items a sequence stands for.
pub open spec fn item_sequence_items(s: ItemSequence) -> Seq<ItemKind> {
    match s {
        ItemSequence::Single(kind) => seq![kind],
        ItemSequence::Unary => seq![ItemKind::Not, ItemKind::Binary(Some(BinaryKind::Minus))],
        ItemSequence::Assign => seq![ItemKind::Assign(None)],
        ItemSequence::StmtWithReturnValue => seq![
            ItemKind::Expr,
            ItemKind::BlockStmt,
            ItemKind::IfStmt,
        ],
    }
}

impl ItemSequence {
    /// The items this sequence stands for.
    pub fn items(&self) -> (r: Vec<ItemKind>)
        ensures
            r@ == item_sequence_items(*self),
    {
        let mut v: Vec<ItemKind> = Vec::new();
        match self {
            Self::Single(kind) => {
                v.push(*kind);
            },
            Self::Unary => {
                v.push(ItemKind::Not);
                v.push(ItemKind::Binary(Some(BinaryKind::Minus)));
            },
            Self::Assign => {
                v.push(ItemKind::Assign(None));
            },
            Self::StmtWithReturnValue => {
                v.push(ItemKind::Expr);
                v.push(ItemKind::BlockStmt);
                v.push(ItemKind::IfStmt);
            },
        }
        proof {
            assert(v@ =~= item_sequence_items(*self));
        }
        v
    }
}

/// Where an expected item was missed, relative to the found token.
#[derive(Debug, Clone, Copy, PartialEq, Eq, Structural)]
pub enum Place {
    Before,
    Here,
    After,
}

/// An expectation that failed: what was expected, what was found, where.
#[derive(Debug, Clone, PartialEq, Eq)]
pub struct ExpectedItem {
    pub place: Place,
    pub expected: ItemSequence,
    pub found: ItemKind,
    pub span: Span,
}

impl ExpectedItem {
    pub fn new(place: Place, expected: ItemSequence, found: Item) -> (r: Self)
        ensures
            r == (ExpectedItem { place, expected, found: found.kind, span: found.span }),
    {
        Self { place, expected, found: found.kind, span: found.span }
    }

    /// An expectation missed at the found token itself.
    pub fn here(expected: ItemSequence, found: Item) -> (r: Self)
        ensures
            r == (ExpectedItem {
                place: Place::Here,
                expected,
                found: found.kind,
                span: found.span,
            }),
    {
        Self::new(Place::Here, expected, found)
    }

    /// An expectation missed just after the found token.
    pub fn after(expected: ItemSequence, found: Item) -> (r: Self)
        ensures
            r == (ExpectedItem {
                place: Place::After,
                expected,
                found: found.kind,
                span: found.span,
            }),
    {
        Self::new(Place::After, expected, found)
    }
}

/// Structurally suspect forms that are accepted and flagged rather than
/// rejected.
#[derive(Debug, Clone, PartialEq, Eq)]
pub enum SyntaxError {
    /// A declaration used as the initializer of another declaration
    UnvalidAssignment { span: Span },
}

/// A found item: its kind and the token-id span it sits at.
#[derive(Debug, Clone, PartialEq, Eq)]
pub struct Item {
    pub kind: ItemKind,
    pub span: Span,
}

impl Item {
    pub fn new(kind: ItemKind, span: Span) -> (r: Self)
        ensures
            r == (Item { kind, span }),
    {
        Self { kind, span }
    }

    /// The item a stream token stands for.
    pub fn from_token(token: Token) -> (r: Self)
        ensures
            r == (Item {
                kind: item_kind_of(token.kind),
                span: Span { start: token.id, end: token.id },
            }),
    {
        Self { kind: ItemKind::from_lexer_kind(token.kind), span: Span::dot(token.id) }
    }

    /// The item a lexer kind stands for, at a given span.
    pub fn from_lexer_kind(kind: lexer::Kind, span: Span) -> (r: Self)
        ensures
            r == (Item { kind: item_kind_of(kind), span }),
    {
        Self { kind: ItemKind::from_lexer_kind(kind), span }
    }
}

/// The kinds diagnostics speak of: every lexer kind, plus the parser's own
/// grammatical categories.
#[derive(Debug, Clone, Copy, PartialEq, Eq)]
pub enum ItemKind {
    /// `/// docs`
    Docs,
    /// `!`
    Not,
    /// `~`
    Tilde,
    /// `@`
    At,
    /// `.`
    Dot,
    /// `..`
    DotDot,
    /// `...`
    DotDotDot,
    /// `..=`
    DotDotEq,
    /// `,`
    Comma,
    /// `;`
    Semi,
    /// `:`
    Colon,
    /// `::`
    PathSep,
    /// `->`
    RArrow,
    /// `=>`
    FatArrow,
    /// `#`
    Pound,
    /// `$`
    Dollar,
    /// `?`
    Question,
    Ident,
    Keyword(Keyword),
    Literal,
    /// A binary operator, or any of them
    Binary(Option<BinaryKind>),
    /// An assignment operator, or any of them
    Assign(Option<AssignKind>),
    OpenDelim(Delimiter),
    CloseDelim(Delimiter),
    Unknown,
    Eof,
    Expr,
    Stmt,
    VarStmt,
    AssignStmt,
    BlockStmt,
    IfStmt,
    Fn,
}

/// The item kind a lexer kind maps to.
pub open spec fn item_kind_of(kind: lexer::Kind) -> ItemKind {
    match kind {
        lexer::Kind::Docs => ItemKind::Docs,
        lexer::Kind::Tilde => ItemKind::Tilde,
        lexer::Kind::At => ItemKind::At,
        lexer::Kind::Dot => ItemKind::Dot,
        lexer::Kind::DotDot => ItemKind::DotDot,
        lexer::Kind::DotDotDot => ItemKind::DotDotDot,
        lexer::Kind::DotDotEq => ItemKind::DotDotEq,
        lexer::Kind::Comma => ItemKind::Comma,
        lexer::Kind::Semi => ItemKind::Semi,
        lexer::Kind::Colon => ItemKind::Colon,
        lexer::Kind::PathSep => ItemKind::PathSep,
        lexer::Kind::RArrow => ItemKind::RArrow,
        lexer::Kind::FatArrow => ItemKind::FatArrow,
        lexer::Kind::Pound => ItemKind::Pound,
        lexer::Kind::Dollar => ItemKind::Dollar,
        lexer::Kind::Question => ItemKind::Question,
        lexer::Kind::Ident => ItemKind::Ident,
        lexer::Kind::Keyword(keyword) => ItemKind::Keyword(keyword),
        lexer::Kind::Literal(_) => ItemKind::Literal,
        lexer::Kind::Operator(lexer::Operator::Not) => ItemKind::Not,
        lexer::Kind::Operator(lexer::Operator::Binary(k)) => ItemKind::Binary(Some(k)),
        lexer::Kind::Operator(lexer::Operator::Assign(k)) => ItemKind::Assign(Some(k)),
        lexer::Kind::OpenDelim(delimiter) => ItemKind::OpenDelim(delimiter),
        lexer::Kind::CloseDelim(delimiter) => ItemKind::CloseDelim(delimiter),
        lexer::Kind::Unknown => ItemKind::Unknown,
        lexer::Kind::Eof => ItemKind::Eof,
    }
}

impl ItemKind {
    /// The item kind a lexer kind maps to.
    pub fn from_lexer_kind(kind: lexer::Kind) -> (r: Self)
        ensures
            r == item_kind_of(kind),
    {
        match kind {
            lexer::Kind::Docs => Self::Docs,
            lexer::Kind::Tilde => Self::Tilde,
            lexer::Kind::At => Self::At,
            lexer::Kind::Dot => Self::Dot,
            lexer::Kind::DotDot => Self::DotDot,
            lexer::Kind::DotDotDot => Self::DotDotDot,
            lexer::Kind::DotDotEq => Self::DotDotEq,
            lexer::Kind::Comma => Self::Comma,
            lexer::Kind::Semi => Self::Semi,
            lexer::Kind::Colon => Self::Colon,
            lexer::Kind::PathSep => Self::PathSep,
            lexer::Kind::RArrow => Self::RArrow,
            lexer::Kind::FatArrow => Self::FatArrow,
            lexer::Kind::Pound => Self::Pound,
            lexer::Kind::Dollar => Self::Dollar,
            lexer::Kind::Question => Self::Question,
            lexer::Kind::Ident => Self::Ident,
            lexer::Kind::Keyword(keyword) => Self::Keyword(keyword),
            lexer::Kind::Literal(_) => Self::Literal,
            lexer::Kind::Operator(lexer::Operator::Not) => Self::Not,
            lexer::Kind::Operator(lexer::Operator::Binary(k)) => Self::Binary(Some(k)),
            lexer::Kind::Operator(lexer::Operator::Assign(k)) => Self::Assign(Some(k)),
            lexer::Kind::OpenDelim(delimiter) => Self::OpenDelim(delimiter),
            lexer::Kind::CloseDelim(delimiter) => Self::CloseDelim(delimiter),
            lexer::Kind::Unknown => Self::Unknown,
            lexer::Kind::Eof => Self::Eof,
        }
    }
}

/// Whether the kind is quoted in messages as a concrete piece of syntax.
pub open spec fn is_lexer_item_kind(k: ItemKind) -> bool {
    match k {
        ItemKind::Docs => false,
        ItemKind::Ident => false,
        ItemKind::Literal => false,
        ItemKind::Binary(None) => false,
        ItemKind::Assign(None) => false,
        ItemKind::Unknown => false,
        ItemKind::Eof => false,
        _ => true,
    }
}

impl ItemKind {
    /// Whether the kind is quoted in messages as a concrete piece of syntax.
    pub fn is_lexer_kind(&self) -> (r: bool)
        ensures
            r == is_lexer_item_kind(*self),
    {
        match self {
            Self::Docs | Self::Ident | Self::Literal | Self::Binary(None) | Self::Assign(None)
                | Self::Unknown | Self::Eof => false,
            _ => true,
        }
    }
}

/// The bare text of an item kind, before any quoting.
pub open spec fn item_kind_text(k: ItemKind) -> Seq<char> {
    match k {
        ItemKind::Docs => "docs"@,
        ItemKind::Not => "!"@,
        ItemKind::Tilde => "~"@,
        ItemKind::At => "@"@,
        ItemKind::Dot => "."@,
        ItemKind::DotDot => ".."@,
        ItemKind::DotDotDot => "..."@,
        ItemKind::DotDotEq => "..="@,
        ItemKind::Comma => ","@,
        ItemKind::Semi => ";"@,
        ItemKind::Colon => ":"@,
        ItemKind::PathSep => "::"@,
        ItemKind::RArrow => "->"@,
        ItemKind::FatArrow => "=>"@,
        ItemKind::Pound => "#"@,
        ItemKind::Dollar => "$"@,
        ItemKind::Question => "?"@,
        ItemKind::Ident => "ident"@,
        ItemKind::Keyword(kw) => keyword_text(kw),
        ItemKind::Literal => "literal"@,
        ItemKind::Binary(Some(k)) => binary_kind_text(k),
        ItemKind::Binary(None) => "binary operator"@,
        ItemKind::Assign(Some(k)) => assign_kind_text(k),
        ItemKind::Assign(None) => "assign operator"@,
        ItemKind::OpenDelim(Delimiter::Paren) => "("@,
        ItemKind::OpenDelim(Delimiter::Brace) => "{"@,
        ItemKind::OpenDelim(Delimiter::Bracket) => "["@,
        ItemKind::CloseDelim(Delimiter::Paren) => ")"@,
        ItemKind::CloseDelim(Delimiter::Brace) => "}"@,
        ItemKind::CloseDelim(Delimiter::Bracket) => "]"@,
        ItemKind::Unknown => "unknown"@,
        ItemKind::Eof => "end of file"@,
        ItemKind::Expr => "expression"@,
        ItemKind::Stmt => "statement"@,
        ItemKind::VarStmt => "variable"@,
        ItemKind::AssignStmt => "assign"@,
        ItemKind::BlockStmt => "block"@,
        ItemKind::IfStmt => "if statement"@,
        ItemKind::Fn => "function"@,
    }
}

/// The quoted display text of an item kind.
pub open spec fn item_kind_display(k: ItemKind) -> Seq<char> {
    if is_lexer_item_kind(k) {
        "`"@ + item_kind_text(k) + "`"@
    } else {
        item_kind_text(k)
    }
}

impl ItemKind {
    fn text(&self) -> (t: String)
        ensures
            t@ == item_kind_text(*self),
    {
        match self {
            Self::Docs => String::from_str("docs"),
            Self::Not => String::from_str("!"),
            Self::Tilde => String::from_str("~"),
            Self::At => String::from_str("@"),
            Self::Dot => String::from_str("."),
            Self::DotDot => String::from_str(".."),
            Self::DotDotDot => String::from_str("..."),
            Self::DotDotEq => String::from_str("..="),
            Self::Comma => String::from_str(","),
            Self::Semi => String::from_str(";"),
            Self::Colon => String::from_str(":"),
            Self::PathSep => String::from_str("::"),
            Self::RArrow => String::from_str("->"),
            Self::FatArrow => String::from_str("=>"),
            Self::Pound => String::from_str("#"),
            Self::Dollar => String::from_str("$"),
            Self::Question => String::from_str("?"),
            Self::Ident => String::from_str("ident"),
            Self::Keyword(kw) => kw.to_text(),
            Self::Literal => String::from_str("literal"),
            Self::Binary(Some(k)) => k.to_text(),
            Self::Binary(None) => String::from_str("binary operator"),
            Self::Assign(Some(k)) => k.to_text(),
            Self::Assign(None) => String::from_str("assign operator"),
            Self::OpenDelim(Delimiter::Paren) => String::from_str("("),
            Self::OpenDelim(Delimiter::Brace) => String::from_str("{"),
            Self::OpenDelim(Delimiter::Bracket) => String::from_str("["),
            Self::CloseDelim(Delimiter::Paren) => String::from_str(")"),
            Self::CloseDelim(Delimiter::Brace) => String::from_str("}"),
            Self::CloseDelim(Delimiter::Bracket) => String::from_str("]"),
            Self::Unknown => String::from_str("unknown"),
            Self::Eof => String::from_str("end of file"),
            Self::Expr => String::from_str("expression"),
            Self::Stmt => String::from_str("statement"),
            Self::VarStmt => String::from_str("variable"),
            Self::AssignStmt => String::from_str("assign"),
            Self::BlockStmt => String::from_str("block"),
            Self::IfStmt => String::from_str("if statement"),
            Self::Fn => String::from_str("function"),
        }
    }

    /// The kind as message text, quoted when it is concrete syntax.
    pub fn to_text(&self) -> (t: String)
        ensures
            t@ == item_kind_display(*self),
    {
        if self.is_lexer_kind() {
            let mut out = String::from_str("`");
            out.append(self.text().as_str());
            out.append("`");
            out
        } else {
            self.text()
        }
    }
}

/// The display text of a list of expected items, joined with commas and a
/// final `or`.
pub open spec fn comma_join(items: Seq<ItemKind>) -> Seq<char>
    decreases items.len(),
{
    if items.len() == 0 {
        Seq::<char>::empty()
    } else {
        item_kind_display(items[0]) + ", "@ + comma_join(items.drop_first())
    }
}

/// The display text of an expected-item list: every item but the last two
/// with a comma, then the last two joined by `or`.
pub open spec fn expected_list_text(items: Seq<ItemKind>) -> Seq<char> {
    if items.len() >= 2 {
        comma_join(items.take(items.len() - 2)) + item_kind_display(items[items.len() - 2])
            + " or "@ + item_kind_display(items[items.len() - 1])
    } else if items.len() == 1 {
        item_kind_display(items[0])
    } else {
        Seq::<char>::empty()
    }
}

/// The full message text of a parser diagnostic.
pub open spec fn parse_error_text(e: ParseError) -> Seq<char> {
    match e {
        ParseError::Syntax(SyntaxError::UnvalidAssignment { span: _ }) => "unvalid assignment"@,
        ParseError::Expected(item) => {
            let tail = expected_list_text(item_sequence_items(item.expected));
            if item.found == ItemKind::Eof {
                "Expected "@ + tail
            } else {
                "Found "@ + item_kind_display(item.found) + ", expected "@ + tail
            }
        },
        ParseError::Unexpected(item) => "Unexpected "@ + item_kind_display(item.kind),
    }
}

impl ParseError {
    /// The diagnostic as message text.
    pub fn to_text(&self) -> (t: String)
        ensures
            t@ == parse_error_text(*self),
    {
        match self {
            Self::Syntax(SyntaxError::UnvalidAssignment { span: _ }) => String::from_str(
                "unvalid assignment",
            ),
            Self::Expected(item) => {
                let mut out = if item.found.eq_kind(&ItemKind::Eof) {
                    String::from_str("Expected ")
                } else {
                    let mut o = String::from_str("Found ");
                    o.append(item.found.to_text().as_str());
                    o.append(", expected ");
                    o
                };
                let items = item.expected.items();
                let ghost expected = item_sequence_items(item.expected);
                let n = items.len();
                if n >= 2 {
                    let mut i: usize = 0;
                    let mut list = String::new();
                    proof {
                        assert(expected.take(0) =~= Seq::<ItemKind>::empty());
                    }
                    while i < n - 2
                        invariant
                            n == expected.len(),
                            n >= 2,
                            i <= n - 2,
                            items@ == expected,
                            list@ == comma_join(expected.take(i as int)),
                        decreases n - 2 - i,
                    {
                        list.append(items[i].to_text().as_str());
                        list.append(", ");
                        proof {
                            lemma_comma_join_snoc(expected, i as int);
                        }
                        i = i + 1;
                    }
                    proof {
                        assert(expected.take(n - 2) =~= expected.take(i as int));
                    }
                    out.append(list.as_str());
                    out.append(items[n - 2].to_text().as_str());
                    out.append(" or ");
                    out.append(items[n - 1].to_text().as_str());
                } else if n == 1 {
                    out.append(items[0].to_text().as_str());
                }
                out
            },
            Self::Unexpected(item) => {
                let mut out = String::from_str("Unexpected ");
                out.append(item.kind.to_text().as_str());
                out
            },
        }
    }
}

impl ItemKind {
    /// Structural equality of item kinds.
    fn eq_kind(&self, other: &ItemKind) -> (r: bool)
        ensures
            r == (*self == *other),
    {
        match (self, other) {
            (Self::Docs, Self::Docs) => true,
            (Self::Not, Self::Not) => true,
            (Self::Tilde, Self::Tilde) => true,
            (Self::At, Self::At) => true,
            (Self::Dot, Self::Dot) => true,
            (Self::DotDot, Self::DotDot) => true,
            (Self::DotDotDot, Self::DotDotDot) => true,
            (Self::DotDotEq, Self::DotDotEq) => true,
            (Self::Comma, Self::Comma) => true,
            (Self::Semi, Self::Semi) => true,
            (Self::Colon, Self::Colon) => true,
            (Self::PathSep, Self::PathSep) => true,
            (Self::RArrow, Self::RArrow) => true,
            (Self::FatArrow, Self::FatArrow) => true,
            (Self::Pound, Self::Pound) => true,
            (Self::Dollar, Self::Dollar) => true,
            (Self::Question, Self::Question) => true,
            (Self::Ident, Self::Ident) => true,
            (Self::Keyword(a), Self::Keyword(b)) => *a == *b,
            (Self::Literal, Self::Literal) => true,
            (Self::Binary(Some(a)), Self::Binary(Some(b))) => *a == *b,
            (Self::Binary(None), Self::Binary(None)) => true,
            (Self::Assign(Some(a)), Self::Assign(Some(b))) => *a == *b,
            (Self::Assign(None), Self::Assign(None)) => true,
            (Self::OpenDelim(a), Self::OpenDelim(b)) => *a == *b,
            (Self::CloseDelim(a), Self::CloseDelim(b)) => *a == *b,
            (Self::Unknown, Self::Unknown) => true,
            (Self::Eof, Self::Eof) => true,
            (Self::Expr, Self::Expr) => true,
            (Self::Stmt, Self::Stmt) => true,
            (Self::VarStmt, Self::VarStmt) => true,
            (Self::AssignStmt, Self::AssignStmt) => true,
            (Self::BlockStmt, Self::BlockStmt) => true,
            (Self::IfStmt, Self::IfStmt) => true,
            (Self::Fn, Self::Fn) => true,
            _ => false,
        }
    }
}

proof fn lemma_comma_join_snoc(items: Seq<ItemKind>, i: int)
    requires
        0 <= i < items.len(),
    ensures
        comma_join(items.take(i + 1)) == comma_join(items.take(i)) + item_kind_display(items[i])
            + ", "@,
    decreases i,
{
    if i == 0 {
        assert(items.take(1) =~= seq![items[0]]);
        assert(items.take(1).drop_first() =~= Seq::<ItemKind>::empty());
        assert(items.take(0) =~= Seq::<ItemKind>::empty());
        assert(comma_join(items.take(1)) =~= item_kind_display(items[0]) + ", "@);
    } else {
        assert(items.take(i + 1).drop_first() =~= items.drop_first().take(i));
        assert(items.take(i).drop_first() =~= items.drop_first().take(i - 1));
        lemma_comma_join_snoc(items.drop_first(), i - 1);
        assert(items.drop_first()[i - 1] == items[i]);
        assert(items.take(i + 1)[0] == items[0]);
        assert(items.take(i)[0] == items[0]);
        assert(comma_join(items.take(i + 1)) =~= item_kind_display(items[0]) + ", "@ + comma_join(
            items.drop_first().take(i),
        ));
        assert(comma_join(items.take(i)) + item_kind_display(items[i]) + ", "@ =~= item_kind_display(
            items[0],
        ) + ", "@ + (comma_join(items.drop_first().take(i - 1)) + item_kind_display(items[i])
            + ", "@));
    }
}

} // verus!
