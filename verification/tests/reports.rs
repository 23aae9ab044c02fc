use bau::error::BauError;
use bau::builtins::BuiltinMethod;
use bau::interpreter::error::{ExecutionError, ExecutionErrorKind};
use bau::interpreter::value::Value;
use bau::messages::{decimal_text, value_to_text};
use bau::parser::error::{ParserError, ParserErrorKind};
use bau::parser::ParsedType;
use bau::source::{CodeRange, Source, SourceCoords, Span};
use bau::tokenizer::token::TokenKind;
use bau::typechecker::error::{Construct, TypecheckerError, TypecheckerErrorKind};
use bau::Bau;

fn parser_message(kind: ParserErrorKind) -> String {
    ParserError::new(kind, CodeRange::new(Span::new(0, 0), SourceCoords::new(0, 0))).message()
}

#[test]
fn parser_messages() {
    assert_eq!(parser_message(ParserErrorKind::UnknownToken(TokenKind::Invalid)), "Unknown token: `invalid token`");
    assert_eq!(
        parser_message(ParserErrorKind::UnexpectedToken(TokenKind::BraceClose, Some(TokenKind::Semicolon))),
        "Expected token `;`, but found `}` instead"
    );
    assert_eq!(parser_message(ParserErrorKind::UnexpectedToken(TokenKind::Let, None)), "Expected an item (`fn` or `extend`), but found `let` instead");
    assert_eq!(parser_message(ParserErrorKind::UnexpectedEof(None)), "Expected a token, but found end of file instead");
    assert_eq!(
        parser_message(ParserErrorKind::UnexpectedEof(Some(TokenKind::Identifier))),
        "Expected token `identifier`, but found end of file instead"
    );
    assert_eq!(
        parser_message(ParserErrorKind::InvalidStartOfExpression(TokenKind::Semicolon)),
        "Invalid start of expression `;`"
    );
    assert_eq!(parser_message(ParserErrorKind::MemberAccessNotImplemented), "Member access is not implemented");
    assert_eq!(parser_message(ParserErrorKind::InvalidLiteral(TokenKind::IntLiteral)), "Invalid `integer literal`");
}

#[test]
fn typechecker_messages() {
    let e = TypecheckerError::new(
        TypecheckerErrorKind::TypeMismatch { expected: "int".to_string(), found: "string".to_string() },
        Span::new(0, 0),
    );
    assert_eq!(e.message(), "Expected type `int`, but found `string` instead");
    let e = TypecheckerError::new(
        TypecheckerErrorKind::ReturnTypeMismatch { expected: "int".to_string(), found: "bool".to_string() },
        Span::new(0, 0),
    );
    assert_eq!(e.message(), "Expected type `int`, but found `bool` instead");
    let e = TypecheckerError::new(
        TypecheckerErrorKind::DuplicateMethod { name: "a".to_string(), on_type: "int".to_string() },
        Span::new(0, 0),
    );
    assert_eq!(e.message(), "Method `a` already exists on type `int`");
    let e = TypecheckerError::new(TypecheckerErrorKind::NotImplemented(Construct::PostfixOperator), Span::new(0, 0));
    assert_eq!(e.message(), "Typechecking postfix operators is not implemented");
    let e = TypecheckerError::new(
        TypecheckerErrorKind::WrongArgumentCount { name: "f".to_string(), expected: 2, found: 13 },
        Span::new(0, 0),
    );
    assert_eq!(e.message(), "Invalid number of arguments for function `f`: expected 2, found 13");
}

#[test]
fn execution_messages() {
    assert_eq!(ExecutionError::new(ExecutionErrorKind::MainFunctionNotFound).message(), "No main function found");
    assert_eq!(ExecutionError::new(ExecutionErrorKind::VoidArgument).message(), "Argument can't be `void`");
    assert_eq!(
        ExecutionError::new(ExecutionErrorKind::InvalidMethodCall(BuiltinMethod::Append)).message(),
        "Method `append` can't be applied here"
    );
    assert_eq!(
        ExecutionError::new(ExecutionErrorKind::NonBooleanCondition(Some(Value::Int(-12)))).message(),
        "Expected boolean condition, found: `-12`"
    );
    assert_eq!(
        ExecutionError::new(ExecutionErrorKind::NonBooleanCondition(None)).message(),
        "Expected boolean condition, found: `void`"
    );
    assert_eq!(
        ExecutionError::new(ExecutionErrorKind::InvalidOperands(TokenKind::Plus)).message(),
        "Addition is only available between ints, floats and strings"
    );
    assert_eq!(
        ExecutionError::new(ExecutionErrorKind::IntegerOverflow(TokenKind::Asterisk)).message(),
        "Integer overflow in `*`"
    );
}

#[test]
fn values_as_text() {
    assert_eq!(decimal_text(0), "0");
    assert_eq!(decimal_text(1234567890), "1234567890");
    assert_eq!(decimal_text(i64::MIN), "-9223372036854775808");
    assert_eq!(value_to_text(&Some(Value::Bool(true))), "true");
    assert_eq!(value_to_text(&Some(Value::String("x y".to_string()))), "x y");
    assert_eq!(value_to_text(&None), "void");
    assert_eq!(ParsedType::Name("thing".to_string()).to_text(), "thing");
    assert_eq!(ParsedType::Void.to_text(), "void");
}

#[test]
fn a_report_points_at_the_line_and_column() {
    let source = Source::new("fn main() -> int {\n    return \"a\";\n}\n".to_string(), "main.bau".to_string());
    let error = Bau::new().run(&source).unwrap_err();
    let report = error.report(&source);
    assert_eq!(report.message, "Expected type `int`, but found `string` instead");
    let location = report.location.unwrap();
    assert_eq!(location.file_path, "main.bau");
    assert_eq!(location.line, 2);
    assert_eq!(location.column, 12);
    assert_eq!(location.line_text, "    return \"a\";");
    assert_eq!(location.highlight_start, 11);
    assert_eq!(location.highlight_len, 3);
    assert_eq!(location.gutter_width, 1);
}

#[test]
fn an_execution_error_is_shown_at_the_start() {
    let source = Source::from_text("fn other() -> int { return 1; }");
    let error = Bau::new().run(&source).unwrap_err();
    assert!(matches!(error, BauError::ExecutionError(_)));
    let report = error.report(&source);
    assert_eq!(report.message, "No main function found");
    let location = report.location.unwrap();
    assert_eq!((location.line, location.column), (1, 1));
    assert_eq!(location.line_text, "fn other() -> int { return 1; }");
    assert_eq!(location.highlight_len, 0);
}

#[test]
fn a_general_error_is_not_underlined() {
    let source = Source::from_text("fn main() -> int { return missing(); }");
    let report = Bau::new().run(&source).unwrap_err().report(&source);
    assert_eq!(report.message, "Function `missing` is not defined");
    assert!(!report.location.unwrap().underline);
    let source = Source::from_text("fn main() -> int { return \"a\"; }");
    let report = Bau::new().run(&source).unwrap_err().report(&source);
    assert!(report.location.unwrap().underline);
}
