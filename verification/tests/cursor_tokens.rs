use rwlang::cursor::{Cursor, Kind, LitKind, Base, Token};

#[test]
fn test() {
    let source = r#"a * b + c"#.trim();
    let mut cursor = Cursor::new(source);
    let mut index = 0;
    loop {
        let token = cursor.advance_token();
        let end = index + token.len as usize;
        let span = index..end;
        println!("{:?} {:?}", token.kind, &source[span]);
        if let Kind::Eof = token.kind {
            break;
        }
        index = end;
    }
}

#[test]
fn cursor_idempotent_at_eof() {
    let mut cursor = Cursor::new("x");
    let first = cursor.advance_token();
    assert!(matches!(first.kind, Kind::Ident));
    assert_eq!(first.len, 1);
    let eof1 = cursor.advance_token();
    let eof2 = cursor.advance_token();
    assert_eq!(eof1, Token::eof());
    assert_eq!(eof2, Token::eof());
}

#[test]
fn cursor_comments() {
    let mut cursor = Cursor::new("//! x\n/// y\n//// z\n/* a */ /*b");
    assert!(matches!(cursor.advance_token().kind, Kind::LineComment));
    assert!(matches!(cursor.advance_token().kind, Kind::Docs));
    assert!(matches!(cursor.advance_token().kind, Kind::LineComment));
    assert!(matches!(
        cursor.advance_token().kind,
        Kind::BlockComment { terminated: true }
    ));
    assert!(matches!(
        cursor.advance_token().kind,
        Kind::WhiteSpace { newline: false }
    ));
    assert!(matches!(
        cursor.advance_token().kind,
        Kind::BlockComment { terminated: false }
    ));
    assert!(cursor.is_eof());
}

#[test]
fn cursor_numbers() {
    let mut cursor = Cursor::new("0x1f");
    let t = cursor.advance_token();
    assert!(matches!(
        t.kind,
        Kind::Lit(LitKind::Int { base: Base::Hexadecimal, empty: false })
    ));
    assert_eq!(t.len, 4);

    let mut cursor = Cursor::new("0x");
    let t = cursor.advance_token();
    assert!(matches!(
        t.kind,
        Kind::Lit(LitKind::Int { base: Base::Decimal, empty: true })
    ));
    assert_eq!(t.len, 2);

    let mut cursor = Cursor::new("1_000.5");
    let t = cursor.advance_token();
    assert!(matches!(t.kind, Kind::Lit(LitKind::Float { base: Base::Decimal })));
    assert_eq!(t.len, 7);

    // a `.` followed by a letter or another `.` keeps the literal integral
    let mut cursor = Cursor::new("1.add");
    let t = cursor.advance_token();
    assert!(matches!(
        t.kind,
        Kind::Lit(LitKind::Int { base: Base::Decimal, empty: false })
    ));
    assert_eq!(t.len, 1);
}

#[test]
fn cursor_char_and_str() {
    let mut cursor = Cursor::new("'a'");
    assert!(matches!(
        cursor.advance_token().kind,
        Kind::Lit(LitKind::Char { terminated: true })
    ));

    let mut cursor = Cursor::new("'ab\n");
    assert!(matches!(
        cursor.advance_token().kind,
        Kind::Lit(LitKind::Char { terminated: false })
    ));

    let mut cursor = Cursor::new("\"a\\\"b\"");
    let t = cursor.advance_token();
    assert!(matches!(t.kind, Kind::Lit(LitKind::Str { terminated: true })));
    assert_eq!(t.len, 6);
}

#[test]
fn cursor_lookahead() {
    let mut cursor = Cursor::new("ab");
    assert_eq!(cursor.first(), 'a');
    assert_eq!(cursor.second(), 'b');
    assert_eq!(cursor.two(), ('a', 'b'));
    assert_eq!(cursor.peek(), Some('a'));
    assert_eq!(cursor.next(), Some('a'));
    assert_eq!(cursor.advance(), 'b');
    assert_eq!(cursor.advance(), '\0');
    assert_eq!(cursor.next(), None);

    let mut cursor = Cursor::new("abcd");
    cursor.skip();
    cursor.skip_by(2);
    assert_eq!(cursor.first(), 'd');
}

#[test]
fn cursor_invalid_ident_and_unknown() {
    // an identifier run reaching a non-ASCII alphanumeric turns invalid
    let mut cursor = Cursor::new("abé");
    let t = cursor.advance_token();
    assert!(matches!(t.kind, Kind::InvalidIdent));
    assert_eq!(t.len, 4); // 'é' is two bytes

    // a lone non-ASCII alphanumeric starts an invalid identifier run
    let mut cursor = Cursor::new("\u{0663}");
    assert!(matches!(cursor.advance_token().kind, Kind::InvalidIdent));

    // leftover ASCII is consumed as unknown
    let mut cursor = Cursor::new("`");
    assert!(matches!(cursor.advance_token().kind, Kind::Unknown));
}

#[test]
fn cursor_skip_while() {
    let mut cursor = Cursor::new("aaab");
    cursor.skip_while(|c| c == 'a');
    assert_eq!(cursor.first(), 'b');
    cursor.skip_while(|c| c != 'z');
    assert!(cursor.is_eof());
}
