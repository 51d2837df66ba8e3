use rwlang::lexer::{self, Lexer, TokenId, BinaryKind, AssignKind, Delimiter};
use rwlang::parser::{
    Parser, ParseError, ParseStmtError, ExprKind, StmtKind, UnaryKind, ItemKind, ItemSequence,
    Place, SyntaxError, VarKind, Visibility, Mutability, Span, TokenStream,
};

fn parser_for(source: &str) -> Parser {
    let (tokens, errors) = Lexer::tokenize(source);
    assert!(errors.is_empty(), "lexing {:?} gave {:?}", source, errors);
    Parser::new(tokens.iter().map(|t| t.kind).collect())
}

#[test]
fn let_statement_parses_clean() {
    // one variable declaration, zero diagnostics
    let mut parser = parser_for("let x = 1;");
    let stmt = parser.parse_statement().expect("statement");
    match stmt {
        StmtKind::Var(var) => {
            assert_eq!(var.kind, VarKind::Let);
            assert_eq!(var.vis, Visibility::Private);
            assert_eq!(var.mutability, Mutability::Not);
            assert_eq!(var.name, TokenId(1));
            assert!(var.type_path.is_none());
            match var.stmt.as_deref() {
                Some(StmtKind::Expr(ExprKind::Lit(lit))) => assert_eq!(lit.0, TokenId(3)),
                other => panic!("initializer: {:?}", other),
            }
        }
        other => panic!("not a declaration: {:?}", other),
    }
    assert!(parser.errors.is_empty());
}

#[test]
fn nested_declaration_is_flagged_once() {
    // parses into a nested declaration AST and records exactly one
    // unvalid-assignment diagnostic
    let mut parser = parser_for("let x = let y = 1;");
    let stmt = parser.parse_statement().expect("statement");
    match stmt {
        StmtKind::Var(var) => match var.stmt.as_deref() {
            Some(StmtKind::Var(inner)) => {
                assert_eq!(inner.name, TokenId(4));
                assert!(matches!(
                    inner.stmt.as_deref(),
                    Some(StmtKind::Expr(ExprKind::Lit(_)))
                ));
            }
            other => panic!("initializer: {:?}", other),
        },
        other => panic!("not a declaration: {:?}", other),
    }
    assert_eq!(parser.errors.len(), 1);
    assert!(matches!(
        parser.errors[0],
        ParseError::Syntax(SyntaxError::UnvalidAssignment { .. })
    ));
}

#[test]
fn precedence_builds_right_tree() {
    // 1 + 2 * 3 groups as 1 + (2 * 3)
    let mut parser = parser_for("1 + 2 * 3");
    let expr = parser.parse_expression().expect("expression");
    assert!(parser.errors.is_empty());
    match expr {
        ExprKind::Binary(plus) => {
            assert_eq!(plus.op, BinaryKind::Plus);
            match (*plus.lhs, *plus.rhs) {
                (ExprKind::Lit(one), ExprKind::Binary(star)) => {
                    assert_eq!(one.0, TokenId(0));
                    assert_eq!(star.op, BinaryKind::Star);
                    match (*star.lhs, *star.rhs) {
                        (ExprKind::Lit(two), ExprKind::Lit(three)) => {
                            assert_eq!(two.0, TokenId(2));
                            assert_eq!(three.0, TokenId(4));
                        }
                        other => panic!("factor operands: {:?}", other),
                    }
                }
                other => panic!("term operands: {:?}", other),
            }
        }
        other => panic!("not a binary expression: {:?}", other),
    }
}

#[test]
fn left_associative_same_level() {
    // 1 - 2 - 3 groups as (1 - 2) - 3
    let mut parser = parser_for("1 - 2 - 3");
    let expr = parser.parse_expression().expect("expression");
    match expr {
        ExprKind::Binary(outer) => {
            assert_eq!(outer.op, BinaryKind::Minus);
            assert!(matches!(*outer.lhs, ExprKind::Binary(_)));
            assert!(matches!(*outer.rhs, ExprKind::Lit(_)));
        }
        other => panic!("not a binary expression: {:?}", other),
    }
}

#[test]
fn path_counts_module_and_member_segments() {
    // two module segments beyond the leading one, one member segment
    let mut parser = parser_for("a::b::c.d");
    let expr = parser.parse_expression().expect("expression");
    assert!(parser.errors.is_empty());
    match expr {
        ExprKind::Path(path) => {
            assert_eq!(path.start, TokenId(0));
            assert_eq!(path.mod_len, 2);
            assert_eq!(path.var_len, 1);
        }
        other => panic!("not a path: {:?}", other),
    }
}

#[test]
fn missing_close_paren_is_anchored_at_eof() {
    // the inner expression survives; one diagnostic names the close paren
    // and is anchored at the token actually found
    let mut parser = parser_for("(1 + 2");
    let expr = parser.parse_expression().expect("expression");
    assert!(matches!(expr, ExprKind::Binary(_)));
    assert_eq!(parser.errors.len(), 1);
    match &parser.errors[0] {
        ParseError::Expected(item) => {
            assert!(matches!(item.place, Place::Here));
            assert!(matches!(
                item.expected,
                ItemSequence::Single(ItemKind::CloseDelim(Delimiter::Paren))
            ));
            assert!(matches!(item.found, ItemKind::Eof));
            assert_eq!(item.span, Span { start: TokenId(4), end: TokenId(4) });
        }
        other => panic!("wrong diagnostic: {:?}", other),
    }
    assert_eq!(parser.errors[0].to_text(), "Expected `)`");
}

#[test]
fn unary_operators_accumulate() {
    let mut parser = parser_for("!-a");
    let expr = parser.parse_expression().expect("expression");
    match expr {
        ExprKind::Unary(unary) => {
            assert_eq!(unary.operators, vec![UnaryKind::Not, UnaryKind::Minus]);
            assert!(matches!(*unary.expr, ExprKind::Path(_)));
        }
        other => panic!("not unary: {:?}", other),
    }
}

#[test]
fn assignment_statement() {
    let mut parser = parser_for("a += 1;");
    let stmt = parser.parse_statement().expect("statement");
    match stmt {
        StmtKind::Assign(assign) => {
            assert_eq!(assign.op, AssignKind::Plus);
            assert!(matches!(*assign.call, ExprKind::Path(_)));
            assert!(matches!(*assign.stmt, StmtKind::Expr(ExprKind::Lit(_))));
        }
        other => panic!("not an assignment: {:?}", other),
    }
    assert!(parser.errors.is_empty());
}

#[test]
fn block_and_if_statements() {
    let mut parser = parser_for("{ let a = 1; a }");
    let stmt = parser.parse_statement().expect("statement");
    match stmt {
        StmtKind::Block(block) => {
            assert_eq!(block.0.len(), 2);
            assert!(matches!(block.0[0], StmtKind::Var(_)));
            assert!(matches!(block.0[1], StmtKind::Expr(_)));
        }
        other => panic!("not a block: {:?}", other),
    }
    assert!(parser.errors.is_empty());

    let mut parser = parser_for("if a { b } else { c }");
    let stmt = parser.parse_statement().expect("statement");
    match stmt {
        StmtKind::If(if_stmt) => {
            assert!(matches!(*if_stmt.condition, StmtKind::Expr(_)));
            assert_eq!(if_stmt.block.0.len(), 1);
            assert!(matches!(if_stmt.else_stmt.as_deref(), Some(StmtKind::Block(_))));
        }
        other => panic!("not a conditional: {:?}", other),
    }
    assert!(parser.errors.is_empty());
}

#[test]
fn pub_const_declaration() {
    let mut parser = parser_for("pub const K: a::b = 2;");
    let stmt = parser.parse_statement().expect("statement");
    match stmt {
        StmtKind::Var(var) => {
            assert_eq!(var.kind, VarKind::Const);
            assert_eq!(var.vis, Visibility::Public);
            assert_eq!(var.span.start, TokenId(0));
            let tp = var.type_path.expect("type path");
            assert_eq!(tp.len, 1);
        }
        other => panic!("not a declaration: {:?}", other),
    }
    assert!(parser.errors.is_empty());
}

#[test]
fn declaration_without_initializer() {
    let mut parser = parser_for("let mut x;");
    let stmt = parser.parse_statement().expect("statement");
    match stmt {
        StmtKind::Var(var) => {
            assert_eq!(var.mutability, Mutability::Mut);
            assert!(var.stmt.is_none());
        }
        other => panic!("not a declaration: {:?}", other),
    }
    assert!(parser.errors.is_empty());
}

#[test]
fn missing_expression_after_keyword() {
    // a keyword that cannot start an operand is a genuine error
    let mut parser = parser_for("1 + let");
    let expr = parser.parse_expression().expect("partial tree survives");
    assert!(matches!(expr, ExprKind::Lit(_)));
    assert!(!parser.errors.is_empty());
}

#[test]
fn statement_at_eof_unwinds_silently() {
    let mut parser = parser_for("");
    assert!(matches!(parser.parse_statement(), Err(ParseStmtError::Eof)));
    assert!(parser.errors.is_empty());
}

#[test]
fn frames_reset_position_and_diagnostics() {
    let mut parser = parser_for("a b");
    let frame = parser.frame();
    let _ = parser.parse_expression();
    parser.push_error(ParseError::Unexpected(rwlang::parser::Item::new(
        ItemKind::Expr,
        Span { start: TokenId(0), end: TokenId(0) },
    )));
    assert!(!parser.errors.is_empty());
    parser.set_frame(frame);
    assert!(parser.errors.is_empty());
    assert_eq!(parser.stream.current_id(), TokenId(0));
}

#[test]
fn token_stream_primitives() {
    let kinds = vec![
        lexer::Kind::Ident,
        lexer::Kind::Semi,
        lexer::Kind::Unknown,
    ];
    let mut stream = TokenStream::new(kinds.clone());
    assert_eq!(stream.len(), 3);
    assert_eq!(stream.remaining_len(), 3);
    assert_eq!(stream.first_kind(), lexer::Kind::Ident);
    assert_eq!(stream.second().kind, lexer::Kind::Semi);
    let (a, b) = stream.two_kinds();
    assert_eq!((a, b), (lexer::Kind::Ident, lexer::Kind::Semi));
    assert!(stream.maybe(lexer::Kind::Semi).is_none());
    assert_eq!(stream.maybe(lexer::Kind::Ident), Some(TokenId(0)));
    assert_eq!(stream.expect(lexer::Kind::Semi), Ok(TokenId(1)));
    assert!(stream.expect(lexer::Kind::Semi).is_err());
    let got = stream
        .expect_any(&[lexer::Kind::Semi, lexer::Kind::Unknown])
        .expect("unknown is in the set");
    assert_eq!(got.id, TokenId(2));
    assert_eq!(stream.next_kind(), lexer::Kind::Eof);
    assert_eq!(stream.remaining(), vec![]);
    assert_eq!(stream.as_slice(), &kinds[..]);
    assert!(stream.peek().is_err());
}

#[test]
fn diagnostic_texts() {
    // the "found" form quotes concrete syntax, the Eof form does not
    let err = ParseError::Expected(rwlang::parser::ExpectedItem::new(
        Place::Here,
        ItemSequence::StmtWithReturnValue,
        rwlang::parser::Item::new(ItemKind::Semi, Span { start: TokenId(3), end: TokenId(3) }),
    ));
    assert_eq!(
        err.to_text(),
        "Found `;`, expected `expression`, `block` or `if statement`"
    );
    assert_eq!(err.span(), Span { start: TokenId(3), end: TokenId(3) });

    let err = ParseError::Unexpected(rwlang::parser::Item::new(
        ItemKind::Eof,
        Span { start: TokenId(0), end: TokenId(0) },
    ));
    assert_eq!(err.to_text(), "Unexpected end of file");

    let err = ParseError::Syntax(SyntaxError::UnvalidAssignment {
        span: Span { start: TokenId(0), end: TokenId(1) },
    });
    assert_eq!(err.to_text(), "unvalid assignment");

    let items = ItemSequence::Unary.items();
    assert_eq!(items.len(), 2);
    assert!(matches!(items[0], ItemKind::Not));
}

#[test]
fn span_resolution_to_bytes() {
    let source = "let x = 1;";
    let (tokens, _) = Lexer::tokenize(source);
    let spans: Vec<lexer::Span> = tokens.iter().map(|t| t.span).collect();
    let span = Span::new(TokenId(1), TokenId(3));
    let resolved = span.to_lexer_span(&spans);
    assert_eq!(resolved.start, spans[1].start);
    assert_eq!(resolved.end, spans[3].start);
}

#[test]
fn parse_through_the_trait() {
    let mut parser = parser_for("let z = 2;");
    let stmt = parser.parse::<StmtKind>().expect("statement");
    assert!(matches!(stmt, StmtKind::Var(_)));
    assert!(parser.errors.is_empty());

    let mut parser = parser_for("a::b");
    let expr = parser.parse::<ExprKind>().expect("expression");
    assert!(matches!(expr, ExprKind::Path(_)));
}

#[test]
fn missing_right_hand_side_of_assignment() {
    let mut parser = parser_for("a = ;");
    let r = parser.parse_statement();
    assert!(matches!(r, Err(ParseStmtError::Assign)));
    assert_eq!(parser.errors.len(), 3);
    assert_eq!(
        parser.errors[2].to_text(),
        "Found `=`, expected `expression`, `block` or `if statement`"
    );
}

#[test]
fn bitwise_binds_tighter_than_multiplication() {
    // the expression grammar places `|`, `&` and `^` between the factor
    // level and unary, so they bind tighter than `*`
    let mut parser = parser_for("1 * 2 | 3");
    let expr = parser.parse_expression().expect("expression");
    match expr {
        ExprKind::Binary(star) => {
            assert_eq!(star.op, BinaryKind::Star);
            match *star.rhs {
                ExprKind::Binary(or) => assert_eq!(or.op, BinaryKind::BinOr),
                other => panic!("right operand: {:?}", other),
            }
        }
        other => panic!("not a product: {:?}", other),
    }
}

#[test]
fn parser_expect_and_peek() {
    let mut parser = parser_for("a;");
    let t = parser.peek().expect("not at the end");
    assert_eq!(t.id, TokenId(0));
    assert_eq!(t.kind, lexer::Kind::Ident);
    assert!(parser.expect(lexer::Kind::Semi).is_err());
    assert_eq!(parser.expect(lexer::Kind::Ident), Ok(TokenId(0)));
    assert_eq!(parser.expect(lexer::Kind::Semi), Ok(TokenId(1)));
    assert!(parser.peek().is_err());
    // a frame built by hand restores like a captured one
    let f = rwlang::parser::ParserFrame::new(TokenId(0), 0);
    parser.set_frame(f);
    assert_eq!(parser.stream.current_id(), TokenId(0));
}
