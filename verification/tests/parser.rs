use bau::builtins::BuiltinFunction;
use bau::parser::ast::{BlockKind, Literal};
use bau::parser::error::ParserErrorKind;
use bau::parser::item::ParsedItem;
use bau::parser::{infix_binding_power, ParsedExprKind, ParsedStmt, ParsedType, Parser};
use bau::source::{CodeRange, Source, SourceCoords, Span};
use bau::tokenizer::token::Token;
use bau::tokenizer::token::TokenKind;

fn parser(text: &str) -> Parser {
    Parser::new(&Source::from_text(text))
}

#[test]
fn binding_powers() {
    assert_eq!(infix_binding_power(TokenKind::PipePipe), Some((1, 2)));
    assert_eq!(infix_binding_power(TokenKind::AmpersandAmpersand), Some((3, 4)));
    assert_eq!(infix_binding_power(TokenKind::EqualsEquals), Some((5, 6)));
    assert_eq!(infix_binding_power(TokenKind::LessThan), Some((7, 8)));
    assert_eq!(infix_binding_power(TokenKind::Minus), Some((9, 10)));
    assert_eq!(infix_binding_power(TokenKind::Percent), Some((11, 12)));
    assert_eq!(infix_binding_power(TokenKind::Equals), None);
}

#[test]
fn multiplication_binds_tighter_than_addition() {
    let expr = parser("1 + 2 * 3").parse_expression().unwrap();
    match expr.kind {
        ParsedExprKind::InfixOp { op, lhs, rhs } => {
            assert_eq!(op, TokenKind::Plus);
            assert!(matches!(lhs.kind, ParsedExprKind::Literal(Literal::Int(1))));
            match rhs.kind {
                ParsedExprKind::InfixOp { op, .. } => assert_eq!(op, TokenKind::Asterisk),
                _ => panic!("expected a product"),
            }
        }
        _ => panic!("expected a sum"),
    }
    assert_eq!(expr.span.start, 0);
    assert_eq!(expr.span.end, 9);
}

#[test]
fn operators_of_one_level_group_to_the_left() {
    let expr = parser("8 - 4 - 2").parse_expression().unwrap();
    match expr.kind {
        ParsedExprKind::InfixOp { lhs, rhs, .. } => {
            assert!(matches!(lhs.kind, ParsedExprKind::InfixOp { .. }));
            assert!(matches!(rhs.kind, ParsedExprKind::Literal(Literal::Int(2))));
        }
        _ => panic!("expected a difference"),
    }
}

#[test]
fn parentheses_group() {
    let expr = parser("(1 + 2) * 3").parse_expression().unwrap();
    match expr.kind {
        ParsedExprKind::InfixOp { op, lhs, .. } => {
            assert_eq!(op, TokenKind::Asterisk);
            assert!(matches!(lhs.kind, ParsedExprKind::InfixOp { .. }));
        }
        _ => panic!("expected a product"),
    }
}

#[test]
fn literals() {
    let e = parser("\"hi\"").parse_expression().unwrap();
    assert!(matches!(e.kind, ParsedExprKind::Literal(Literal::String(ref s)) if s == "hi"));
    let e = parser("false").parse_expression().unwrap();
    assert!(matches!(e.kind, ParsedExprKind::Literal(Literal::Bool(false))));
    let e = parser("2.50").parse_expression().unwrap();
    assert!(matches!(e.kind, ParsedExprKind::Literal(Literal::Float(ref t)) if t == "2.50"));
    let e = parser("-9223372036854775808").parse_expression().unwrap();
    assert!(matches!(e.kind, ParsedExprKind::Literal(Literal::Int(i64::MIN))));
}

#[test]
fn an_integer_out_of_range_is_an_error() {
    let e = parser("99999999999999999999").parse_expression().unwrap_err();
    assert_eq!(e.kind, ParserErrorKind::InvalidLiteral(TokenKind::IntLiteral));
    assert_eq!(e.range.span.start, 0);
    assert_eq!(e.range.span.end, 20);
}

#[test]
fn calls_of_builtins_functions_and_methods() {
    let e = parser("print(1)").parse_expression().unwrap();
    assert!(matches!(e.kind, ParsedExprKind::BuiltinFnCall { function: BuiltinFunction::Print, .. }));
    let e = parser("foo(1, 2)").parse_expression().unwrap();
    match e.kind {
        ParsedExprKind::FnCall(call) => {
            assert_eq!(call.name, "foo");
            assert_eq!(call.args.len(), 2);
        }
        _ => panic!("expected a call"),
    }
    let e = parser("x.len()").parse_expression().unwrap();
    match e.kind {
        ParsedExprKind::MethodCall { expr, call } => {
            assert!(matches!(expr.kind, ParsedExprKind::Identifier(ref n) if n == "x"));
            assert_eq!(call.name, "len");
        }
        _ => panic!("expected a method call"),
    }
}

#[test]
fn member_access_is_not_implemented() {
    let e = parser("x.y").parse_expression().unwrap_err();
    assert_eq!(e.kind, ParserErrorKind::MemberAccessNotImplemented);
}

#[test]
fn invalid_start_of_expression() {
    let e = parser(";").parse_expression().unwrap_err();
    assert_eq!(e.kind, ParserErrorKind::InvalidStartOfExpression(TokenKind::Semicolon));
}

#[test]
fn statements() {
    let mut p = parser("{ let int x = 1; x = 2; return x; }");
    match p.parse_statement().unwrap() {
        ParsedStmt::Block { block_kind, statements } => {
            assert_eq!(block_kind, BlockKind::Regular);
            assert_eq!(statements.len(), 3);
            assert!(matches!(statements[0], ParsedStmt::Let { ref name, parsed_type: ParsedType::Name(ref t), .. } if name == "x" && t == "int"));
            assert!(matches!(statements[1], ParsedStmt::Assignment { .. }));
            assert!(matches!(statements[2], ParsedStmt::Return { expr: Some(_) }));
        }
        _ => panic!("expected a block"),
    }
}

#[test]
fn if_else_and_loop() {
    let mut p = parser("if a { break; } else { continue; }");
    assert!(matches!(p.parse_statement().unwrap(), ParsedStmt::If { else_branch: Some(_), .. }));
    let mut p = parser("loop { return; }");
    match p.parse_statement().unwrap() {
        ParsedStmt::Loop { body } => {
            assert!(matches!(*body, ParsedStmt::Block { block_kind: BlockKind::Loop, .. }))
        }
        _ => panic!("expected a loop"),
    }
}

#[test]
fn a_missing_semicolon_is_an_unexpected_token() {
    let e = parser("let int x = 1 }").parse_statement().unwrap_err();
    assert_eq!(e.kind, ParserErrorKind::UnexpectedToken(TokenKind::BraceClose, Some(TokenKind::Semicolon)));
}

#[test]
fn an_invalid_token_is_unknown() {
    let e = parser("let # x").parse_statement().unwrap_err();
    assert_eq!(e.kind, ParserErrorKind::UnknownToken(TokenKind::Invalid));
}

#[test]
fn the_end_of_the_file_where_a_token_is_needed() {
    let e = parser("let int x =").parse_statement().unwrap_err();
    assert_eq!(e.kind, ParserErrorKind::InvalidStartOfExpression(TokenKind::EndOfFile));
    let e = parser("fn").parse_top_level().unwrap_err();
    assert_eq!(e.kind, ParserErrorKind::UnexpectedToken(TokenKind::EndOfFile, Some(TokenKind::Identifier)));
}

#[test]
fn items() {
    let items = parser("fn a(int x, string y) -> int { return 1; } extend string { fn b() -> int { return 2; } }")
        .parse_top_level()
        .unwrap();
    assert_eq!(items.len(), 2);
    match &items[0] {
        ParsedItem::Function(f) => {
            assert_eq!(f.name, "a");
            assert_eq!(f.parameters.len(), 2);
            assert_eq!(f.parameters[0].0, "x");
            assert!(matches!(f.parameters[0].1, ParsedType::Name(ref n) if n == "int"));
            assert_eq!(f.parameters[1].0, "y");
            assert!(matches!(f.parameters[1].1, ParsedType::Name(ref n) if n == "string"));
        }
        _ => panic!("expected a function"),
    }
    match &items[1] {
        ParsedItem::Extends(x) => {
            assert!(matches!(x.parsed_type, ParsedType::Name(ref n) if n == "string"));
            assert_eq!(x.methods.len(), 1);
        }
        _ => panic!("expected an extension"),
    }
}

#[test]
fn a_stray_token_at_the_top_level() {
    let e = parser("let").parse_top_level().unwrap_err();
    assert_eq!(e.kind, ParserErrorKind::UnexpectedToken(TokenKind::Let, None));
}

#[test]
fn a_function_body_must_be_a_block() {
    let e = parser("fn a() -> int return 1;").parse_top_level().unwrap_err();
    assert_eq!(e.kind, ParserErrorKind::UnexpectedToken(TokenKind::Return, Some(TokenKind::BraceOpen)));
}

#[test]
fn comments_run_to_the_end_of_the_line() {
    let items = parser("// fn hidden() -> int { }\nfn shown() -> int { return 1; } // done")
        .parse_top_level()
        .unwrap();
    assert_eq!(items.len(), 1);
    match &items[0] {
        ParsedItem::Function(f) => assert_eq!(f.name, "shown"),
        _ => panic!("expected a function"),
    }
}

#[test]
fn the_text_of_a_token() {
    let p = parser("let abc");
    let t = p.peek_offset(1);
    assert_eq!(p.text(t), "abc");
}

#[test]
fn a_successful_parse_ends_at_the_end_of_the_file() {
    let mut p = parser("fn a() -> int { return 1; }\n// trailing");
    assert_eq!(p.parse_top_level().unwrap().len(), 1);
    assert_eq!(p.peek_kind(), TokenKind::EndOfFile);
}

#[test]
fn whitespace_and_comments_are_not_seen() {
    let mut p = parser("a // b c\n  d");
    let mut seen = vec![];
    while !p.at(TokenKind::EndOfFile) {
        seen.push(p.consume().unwrap().kind);
    }
    assert_eq!(seen, vec![TokenKind::Identifier, TokenKind::Identifier]);
}

#[test]
fn taking_a_token_always_moves_past_it() {
    let mut p = parser("x");
    assert_eq!(p.consume().unwrap().kind, TokenKind::Identifier);
    let e = p.consume().unwrap_err();
    assert_eq!(e.kind, ParserErrorKind::UnexpectedEof(None));
    let e = p.consume().unwrap_err();
    assert_eq!(e.kind, ParserErrorKind::UnexpectedEof(None));
}

#[test]
fn a_mismatched_token_is_moved_past_too() {
    let mut p = parser("let x ;");
    let e = p.consume_specific(TokenKind::Fn).unwrap_err();
    assert_eq!(e.kind, ParserErrorKind::UnexpectedToken(TokenKind::Let, Some(TokenKind::Fn)));
    assert_eq!(p.peek_kind(), TokenKind::Identifier);
    assert_eq!(p.consume_specific(TokenKind::Identifier).unwrap().kind, TokenKind::Identifier);
    let mut p = parser("# x");
    assert_eq!(p.consume_specific(TokenKind::Identifier).unwrap_err().kind, ParserErrorKind::UnknownToken(TokenKind::Invalid));
    assert_eq!(p.peek_kind(), TokenKind::Identifier);
}

#[test]
fn a_parser_over_given_tokens() {
    let text = "a+b";
    let token = |kind, start, end| Token::new(kind, CodeRange::new(Span::new(start, end), SourceCoords::new(0, start)));
    let tokens = vec![
        token(TokenKind::Identifier, 0, 1),
        token(TokenKind::Plus, 1, 2),
        token(TokenKind::Identifier, 2, 3),
    ];
    let mut p = Parser::from_tokens(text, tokens);
    match p.parse_expression().unwrap().kind {
        ParsedExprKind::InfixOp { op, rhs, .. } => {
            assert_eq!(op, TokenKind::Plus);
            assert!(matches!(rhs.kind, ParsedExprKind::Identifier(ref n) if n == "b"));
        }
        _ => panic!("expected a sum"),
    }
    assert_eq!(p.peek().range.span, Span::new(3, 3));
}

#[test]
fn the_end_of_file_token_sits_at_the_end_of_the_text() {
    let p = parser("let int x = 1;");
    let t = p.end_of_file();
    assert_eq!(t.kind, TokenKind::EndOfFile);
    assert_eq!(t.range.span, Span::new(14, 14));
    assert_eq!(t.range.coords, SourceCoords::new(0, 14));
}

#[test]
fn reading_ahead_by_nothing_reads_the_next_token() {
    let mut p = parser("x = 1;");
    for _ in 0..5 {
        assert_eq!(p.peek_offset(0), p.peek());
        let _ = p.consume();
    }
    assert_eq!(p.peek().kind, TokenKind::EndOfFile);
}

#[test]
fn consuming_moves_past_one_token_and_fails_only_at_the_end() {
    let mut p = parser("a b");
    assert_eq!(p.consume().unwrap().kind, TokenKind::Identifier);
    assert_eq!(p.consume().unwrap().kind, TokenKind::Identifier);
    let e = p.consume().unwrap_err();
    assert_eq!(e.kind, ParserErrorKind::UnexpectedEof(None));
}

#[test]
fn while_and_compound_assignments() {
    let s = parser("while x < 3 { x += 1; }").parse_statement().unwrap();
    match s {
        ParsedStmt::While { condition, body } => {
            assert!(matches!(condition.kind, ParsedExprKind::InfixOp { op: TokenKind::LessThan, .. }));
            match *body {
                ParsedStmt::Block { block_kind, statements } => {
                    assert_eq!(block_kind, BlockKind::Loop);
                    assert!(matches!(statements[0], ParsedStmt::CompoundAssignment { op: TokenKind::Plus, .. }));
                }
                _ => panic!("expected a block"),
            }
        }
        _ => panic!("expected a while statement"),
    }
}
