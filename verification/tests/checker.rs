use bau::parser::ast::Literal;
use bau::parser::{ParsedExpr, ParsedExprKind, ParsedStmt, ParsedType};
use bau::source::Span;
use bau::typechecker::checked::{CheckedStmt, INT_TYPE_ID, STRING_TYPE_ID, VOID_TYPE_ID};
use bau::typechecker::error::TypecheckerErrorKind;
use bau::typechecker::Typechecker;

fn literal(l: Literal) -> ParsedExpr {
    ParsedExpr { kind: ParsedExprKind::Literal(l), span: Span::new(3, 5) }
}

#[test]
fn a_checked_function_body_must_be_a_block() {
    let mut typechecker = Typechecker::new();
    let body = ParsedStmt::Return { expr: None };
    assert_eq!(
        typechecker.check_function_body(&body, VOID_TYPE_ID).unwrap_err().kind,
        TypecheckerErrorKind::BodyNotBlock
    );
}

#[test]
fn builtin_types_and_named_types() {
    let mut typechecker = Typechecker::new();
    assert_eq!(typechecker.check_type(&ParsedType::Int), Ok(INT_TYPE_ID));
    assert_eq!(typechecker.check_type(&ParsedType::Name("string".to_string())), Ok(STRING_TYPE_ID));
    assert_eq!(
        typechecker.check_type(&ParsedType::Name("text".to_string())).unwrap_err().kind,
        TypecheckerErrorKind::UnknownType("text".to_string())
    );
    assert_eq!(typechecker.get_type_from_literal(&Literal::String("a".to_string())), STRING_TYPE_ID);
}

#[test]
fn a_let_gives_its_variable_a_type() {
    let mut typechecker = Typechecker::new();
    let stmt = ParsedStmt::Let {
        name: "x".to_string(),
        parsed_type: ParsedType::Int,
        expr: literal(Literal::Int(1)),
    };
    assert!(matches!(typechecker.check_let_statement(&stmt), Ok(CheckedStmt::Let { var_type: INT_TYPE_ID, .. })));
    let read = ParsedExpr { kind: ParsedExprKind::Identifier("x".to_string()), span: Span::new(0, 1) };
    assert_eq!(typechecker.check_expression(&read).unwrap().type_id, INT_TYPE_ID);
    let assign = ParsedStmt::Assignment { name: "x".to_string(), expr: literal(Literal::Bool(true)) };
    assert_eq!(
        typechecker.check_assignment_statement(&assign).unwrap_err().kind,
        TypecheckerErrorKind::TypeMismatch { expected: "int".to_string(), found: "bool".to_string() }
    );
}

#[test]
fn an_expression_statement_is_checked() {
    let mut typechecker = Typechecker::new();
    let stmt = ParsedStmt::Expression { expr: literal(Literal::Float("1.0".to_string())) };
    assert!(matches!(typechecker.check_expression_statement(&stmt), Ok(CheckedStmt::Expression { .. })));
}
