use rwlang::lexer::{
    Lexer, Kind, Keyword, Literal, LiteralKind, Operator, BinaryKind, AssignKind, Delimiter,
    LexerErrorKind, Span, Location,
};
use rwlang::cursor::Base;

#[test]
fn mod_test() {
    let source = r#"
const MAX_HEALTH = 100.0 * 1.2;
// Comment 1
// Comment 2
// Comment 3
/* Block Comment */
fn main() {
    let mut health = MAX_HEALTH - 10 * 2;
    let damage = 25.0;
    let debaff = 1.25;
    health -= damage * debaff
    print(health);
}
"#
    .trim();
    let mut lexer = Lexer::new(source);
    let mut count = 1u32;
    loop {
        let token = lexer.advance_token();
        let lexeme = &source[token.span.as_range()];
        println!("{:>4}: {:?}", count, token.kind);
        println!("    |  span: {:?}", token.span.as_range());
        println!("    |  lexeme: {:?}", lexeme);

        if let Kind::Eof = token.kind {
            break;
        }
        count += 1;
    }

    println!();
    for error in lexer.errors.iter() {
        let span = error.span.as_range();
        println!(" err: {:?}", error.kind);
        println!("    | span: {:?}", span);
        println!("    | lexeme: {}", &source[error.span.as_range()]);
    }
}

fn kinds_of(source: &str) -> Vec<Kind> {
    let (tokens, _) = Lexer::tokenize(source);
    tokens.iter().map(|t| t.kind).collect()
}

#[test]
fn decimal_literal_single_token() {
    let (tokens, errors) = Lexer::tokenize("1_234");
    assert_eq!(tokens.len(), 1);
    assert_eq!(
        tokens[0].kind,
        Kind::Literal(Literal::new(LiteralKind::Int { base: Base::Decimal }, 0))
    );
    assert_eq!(tokens[0].span, Span { start: 0, end: 5 });
    assert!(errors.is_empty());
}

#[test]
fn empty_int_diagnostic() {
    // a hex marker with zero digits: one diagnostic, lexing reaches Eof
    let (tokens, errors) = Lexer::tokenize("0x");
    assert_eq!(tokens.len(), 1);
    assert_eq!(
        tokens[0].kind,
        Kind::Literal(Literal::new(LiteralKind::Int { base: Base::Decimal }, 0))
    );
    assert_eq!(errors.len(), 1);
    assert_eq!(errors[0].kind, LexerErrorKind::EmptyInt);
    assert_eq!(errors[0].span, Span { start: 0, end: 2 });

    let mut lexer = Lexer::new("0x");
    let first = lexer.advance_token();
    assert!(matches!(first.kind, Kind::Literal(_)));
    let second = lexer.advance_token();
    assert!(matches!(second.kind, Kind::Eof));
}

#[test]
fn float_and_dot_disambiguation() {
    let (tokens, errors) = Lexer::tokenize("1.0");
    assert_eq!(tokens.len(), 1);
    assert_eq!(
        tokens[0].kind,
        Kind::Literal(Literal::new(LiteralKind::Float { base: Base::Decimal }, 0))
    );
    assert!(errors.is_empty());

    let kinds = kinds_of("1.add");
    assert_eq!(kinds.len(), 3);
    assert_eq!(
        kinds[0],
        Kind::Literal(Literal::new(LiteralKind::Int { base: Base::Decimal }, 0))
    );
    assert_eq!(kinds[1], Kind::Dot);
    assert_eq!(kinds[2], Kind::Ident);

    let kinds = kinds_of("1..2");
    assert_eq!(kinds.len(), 3);
    assert_eq!(
        kinds[0],
        Kind::Literal(Literal::new(LiteralKind::Int { base: Base::Decimal }, 0))
    );
    assert_eq!(kinds[1], Kind::DotDot);
    assert_eq!(
        kinds[2],
        Kind::Literal(Literal::new(LiteralKind::Int { base: Base::Decimal }, 0))
    );
}

#[test]
fn comment_classification() {
    // `//!` is a plain line comment, `///` is a doc comment, `////` is plain
    assert_eq!(kinds_of("//! x").len(), 0);
    let kinds = kinds_of("/// x");
    assert_eq!(kinds, vec![Kind::Docs]);
    assert_eq!(kinds_of("//// x").len(), 0);
}

#[test]
fn unterminated_str_diagnostic() {
    let (tokens, errors) = Lexer::tokenize("\"abc");
    assert_eq!(tokens.len(), 1);
    assert_eq!(tokens[0].kind, Kind::Literal(Literal::new(LiteralKind::Str, 0)));
    assert_eq!(errors.len(), 1);
    assert_eq!(errors[0].kind, LexerErrorKind::UnterminatedStr);
    // the diagnostic spans to the end of the input
    assert_eq!(errors[0].span, Span { start: 0, end: 4 });

    let mut lexer = Lexer::new("\"abc");
    let _ = lexer.advance_token();
    assert!(matches!(lexer.advance_token().kind, Kind::Eof));
}

#[test]
fn unterminated_char_diagnostic() {
    let (_, errors) = Lexer::tokenize("'a");
    assert_eq!(errors.len(), 1);
    assert_eq!(errors[0].kind, LexerErrorKind::UnterminatedChar);
}

#[test]
fn invalid_ident_diagnostic() {
    // a non-ASCII alphanumeric run is flagged and handed on as an identifier
    let (tokens, errors) = Lexer::tokenize("ab\u{0663}");
    assert_eq!(tokens.len(), 1);
    assert_eq!(tokens[0].kind, Kind::Ident);
    assert_eq!(errors.len(), 1);
    assert_eq!(errors[0].kind, LexerErrorKind::InvalidIdent);
}

#[test]
fn invalid_suffix_diagnostic() {
    let (tokens, errors) = Lexer::tokenize("1a\u{0663}");
    assert_eq!(tokens.len(), 1);
    match tokens[0].kind {
        Kind::Literal(lit) => {
            assert_eq!(lit.kind, LiteralKind::Int { base: Base::Decimal });
            assert_eq!(lit.suffix_len, 3); // 'a' is one byte, the digit two
        }
        other => panic!("not a literal: {:?}", other),
    }
    assert_eq!(errors.len(), 1);
    assert_eq!(errors[0].kind, LexerErrorKind::InvalidSuffix);
}

#[test]
fn literal_suffix_absorbed() {
    let (tokens, errors) = Lexer::tokenize("42u8");
    assert_eq!(tokens.len(), 1);
    assert_eq!(
        tokens[0].kind,
        Kind::Literal(Literal::new(LiteralKind::Int { base: Base::Decimal }, 2))
    );
    assert_eq!(tokens[0].span, Span { start: 0, end: 4 });
    assert!(errors.is_empty());
}

#[test]
fn keywords_and_bools() {
    let kinds = kinds_of("pub let const mut if else while for in fn true false ident");
    assert_eq!(
        kinds,
        vec![
            Kind::Keyword(Keyword::Pub),
            Kind::Keyword(Keyword::Let),
            Kind::Keyword(Keyword::Const),
            Kind::Keyword(Keyword::Mut),
            Kind::Keyword(Keyword::If),
            Kind::Keyword(Keyword::Else),
            Kind::Keyword(Keyword::While),
            Kind::Keyword(Keyword::For),
            Kind::Keyword(Keyword::In),
            Kind::Keyword(Keyword::Fn),
            Kind::Literal(Literal::bool()),
            Kind::Literal(Literal::bool()),
            Kind::Ident,
        ]
    );
}

#[test]
fn compound_punctuation_greedy() {
    let kinds = kinds_of(":: . .. ... ..= -> => == != <= >= << >> <<= >>= && || & | ^= =");
    assert_eq!(
        kinds,
        vec![
            Kind::PathSep,
            Kind::Dot,
            Kind::DotDot,
            Kind::DotDotDot,
            Kind::DotDotEq,
            Kind::RArrow,
            Kind::FatArrow,
            Kind::Operator(Operator::Binary(BinaryKind::Eq)),
            Kind::Operator(Operator::Binary(BinaryKind::Ne)),
            Kind::Operator(Operator::Binary(BinaryKind::Le)),
            Kind::Operator(Operator::Binary(BinaryKind::Ge)),
            Kind::Operator(Operator::Binary(BinaryKind::Shl)),
            Kind::Operator(Operator::Binary(BinaryKind::Shr)),
            Kind::Operator(Operator::Assign(AssignKind::Shl)),
            Kind::Operator(Operator::Assign(AssignKind::Shr)),
            Kind::Operator(Operator::Binary(BinaryKind::And)),
            Kind::Operator(Operator::Binary(BinaryKind::Or)),
            Kind::Operator(Operator::Binary(BinaryKind::BinAnd)),
            Kind::Operator(Operator::Binary(BinaryKind::BinOr)),
            Kind::Operator(Operator::Assign(AssignKind::Caret)),
            Kind::Operator(Operator::Assign(AssignKind::Eq)),
        ]
    );
    // whitespace between the parts keeps the tokens separate
    let kinds = kinds_of(": :");
    assert_eq!(kinds, vec![Kind::Colon, Kind::Colon]);
}

#[test]
fn delimiters() {
    let kinds = kinds_of("( ) { } [ ]");
    assert_eq!(
        kinds,
        vec![
            Kind::OpenDelim(Delimiter::Paren),
            Kind::CloseDelim(Delimiter::Paren),
            Kind::OpenDelim(Delimiter::Brace),
            Kind::CloseDelim(Delimiter::Brace),
            Kind::OpenDelim(Delimiter::Bracket),
            Kind::CloseDelim(Delimiter::Bracket),
        ]
    );
    assert_eq!(Delimiter::Paren.as_open(), Kind::OpenDelim(Delimiter::Paren));
    assert_eq!(Delimiter::Brace.as_close(), Kind::CloseDelim(Delimiter::Brace));
}

#[test]
fn spans_tile_the_source() {
    // round trip: spans tile the text with no gap and no overlap, and the
    // whitespace and comment bytes fold into the next token's span
    let source = "let x = 1; // done\nlet y = x";
    let (tokens, _) = Lexer::tokenize(source);
    let mut at = 0usize;
    let mut rebuilt = String::new();
    for token in tokens.iter() {
        assert_eq!(token.span.start, at);
        assert!(token.span.start <= token.span.end);
        rebuilt.push_str(&source[token.span.as_range()]);
        at = token.span.end;
    }
    // the trailing bytes are absorbed by the final Eof token
    let mut lexer = Lexer::new(source);
    let mut last = lexer.advance_token();
    while !matches!(last.kind, Kind::Eof) {
        last = lexer.advance_token();
    }
    assert_eq!(last.span.start, at);
    assert_eq!(last.span.end, source.len());
    rebuilt.push_str(&source[last.span.as_range()]);
    assert_eq!(rebuilt, source);
}

#[test]
fn two_raw_lookahead() {
    let mut lexer = Lexer::new("a+b");
    let (first, second) = lexer.two();
    assert!(matches!(first.kind, rwlang::cursor::Kind::Ident));
    assert!(matches!(second.kind, rwlang::cursor::Kind::Plus));
    // the lookahead consumed nothing
    let t = lexer.advance_token();
    assert_eq!(t.kind, Kind::Ident);
}

#[test]
fn span_location_counts_lines_and_columns() {
    let source = "ab\ncd\u{00e9}f";
    let span = Span::new(4, 5);
    let loc = span.location(source);
    assert_eq!(loc.line, 2);
    assert_eq!(loc.column, 2);
    // the column advances by encoded length: 'é' is two bytes wide here
    let span = Span::new(7, 8);
    let loc = span.location(source);
    assert_eq!(loc.line, 2);
    assert_eq!(loc.column, 5);
    assert_eq!(Location::new(3, 7).to_text(), "3:7");
}

#[test]
fn span_lexeme_respects_boundaries() {
    let source = "a\u{00e9}b";
    assert_eq!(Span::new(0, 1).get_lexeme(source), Some("a"));
    assert_eq!(Span::new(1, 3).get_lexeme(source), Some("\u{00e9}"));
    // a span ending inside a character is refused
    assert_eq!(Span::new(1, 2).get_lexeme(source), None);
    assert_eq!(Span::new(0, 9).get_lexeme(source), None);
    assert_eq!(Span::new(1, 3).lexeme(source), "\u{00e9}");
    assert_eq!(Span::new(0, 4).len(), 4);
    assert_eq!(Span::eof(7), Span { start: 7, end: 7 });
    assert_eq!(Span::zero(), Span { start: 0, end: 0 });
    let mut s = Span::new(2, 5);
    s.consume();
    assert_eq!(s, Span { start: 5, end: 5 });
}

#[test]
fn kind_text_matches_syntax() {
    assert_eq!(Kind::Operator(Operator::Binary(BinaryKind::Shl)).to_text(), "<<");
    assert_eq!(Kind::Operator(Operator::Assign(AssignKind::Plus)).to_text(), "+=");
    assert_eq!(Kind::Operator(Operator::Not).to_text(), "!");
    assert_eq!(Kind::Keyword(Keyword::While).to_text(), "while");
    assert_eq!(Kind::PathSep.to_text(), "::");
    assert_eq!(
        Kind::Literal(Literal::new(LiteralKind::Str, 0)).to_text(),
        "string"
    );
    assert_eq!(Kind::Eof.to_text(), "Eof");
    assert!(Kind::PathSep.is_simple());
    assert!(!Kind::Ident.is_simple());
    assert!(!Kind::Eof.is_simple());
}

#[test]
fn operator_texts() {
    assert_eq!(BinaryKind::Plus.to_text(), "+");
    assert_eq!(BinaryKind::Ne.to_text(), "!=");
    assert_eq!(BinaryKind::BinAnd.to_text(), "&");
    assert_eq!(BinaryKind::And.to_text(), "&&");
    assert_eq!(AssignKind::Eq.to_text(), "=");
    assert_eq!(AssignKind::Shr.to_text(), ">>=");
    assert_eq!(Operator::Binary(BinaryKind::Ge).to_text(), ">=");
    assert_eq!(Operator::Assign(AssignKind::Percent).to_text(), "%=");
    assert_eq!(Keyword::Fn.to_text(), "fn");
    assert_eq!(LiteralKind::Bool.to_text(), "bool");
    assert_eq!(
        LiteralKind::Float { base: Base::Decimal }.to_text(),
        "float"
    );
}
