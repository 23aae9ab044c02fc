use bau::error::BauError;
use bau::interpreter::error::ExecutionErrorKind;
use bau::interpreter::value::Value;
use bau::parser::error::ParserErrorKind;
use bau::source::Source;
use bau::tokenizer::token::TokenKind;
use bau::typechecker::error::TypecheckerErrorKind;
use bau::Bau;

fn run(src: &str) -> Result<Option<Value>, BauError> {
    Bau::new().run(&Source::from_text(src))
}

fn main_returning(ty: &str, expr: &str) -> Result<Option<Value>, BauError> {
    run(&format!("fn main() -> {} {{ return {}; }}", ty, expr))
}

fn execution_error(r: Result<Option<Value>, BauError>) -> ExecutionErrorKind {
    match r {
        Err(BauError::ExecutionError(e)) => e.kind,
        other => panic!("expected an execution error, got {:?}", other),
    }
}

fn typechecker_error(r: Result<Option<Value>, BauError>) -> TypecheckerErrorKind {
    match r {
        Err(BauError::TypecheckerError(e)) => e.kind,
        other => panic!("expected a typechecker error, got {:?}", other),
    }
}

#[test]
fn integer_arithmetic() {
    assert_eq!(main_returning("int", "1 + 2 * 3"), Ok(Some(Value::Int(7))));
    assert_eq!(main_returning("int", "(0 - 7) % 3"), Ok(Some(Value::Int(-1))));
    assert_eq!(main_returning("int", "7 % (0 - 3)"), Ok(Some(Value::Int(1))));
    assert_eq!(main_returning("int", "10 - 4 - 3"), Ok(Some(Value::Int(3))));
}

#[test]
fn comparisons_are_booleans() {
    assert_eq!(main_returning("bool", "1 < 2"), Ok(Some(Value::Bool(true))));
    assert_eq!(main_returning("bool", "true && false"), Ok(Some(Value::Bool(false))));
    assert_eq!(main_returning("bool", "true || false"), Ok(Some(Value::Bool(true))));
    assert_eq!(main_returning("bool", "\"a\" == \"a\""), Ok(Some(Value::Bool(true))));
    assert_eq!(main_returning("bool", "3 != 3"), Ok(Some(Value::Bool(false))));
    assert!(main_returning("int", "1 < 2").is_err());
}

#[test]
fn prefix_operators_apply_to_the_whole_expression_after_them() {
    assert_eq!(main_returning("int", "- 5 + 2"), Ok(Some(Value::Int(-7))));
    assert_eq!(main_returning("bool", "!false"), Ok(Some(Value::Bool(true))));
}

#[test]
fn strings_concatenate() {
    assert_eq!(main_returning("string", "\"foo\" + \"bar\""), Ok(Some(Value::String("foobar".to_string()))));
}

#[test]
fn integer_overflow_is_an_error() {
    assert_eq!(
        execution_error(main_returning("int", "9223372036854775807 + 1")),
        ExecutionErrorKind::IntegerOverflow(TokenKind::Plus)
    );
    assert_eq!(
        execution_error(main_returning("int", "-9223372036854775808 - 1")),
        ExecutionErrorKind::IntegerOverflow(TokenKind::Minus)
    );
    assert_eq!(
        execution_error(main_returning("int", "4611686018427387904 * 2")),
        ExecutionErrorKind::IntegerOverflow(TokenKind::Asterisk)
    );
}

#[test]
fn remainder_by_zero_is_an_error() {
    assert_eq!(execution_error(main_returning("int", "1 % 0")), ExecutionErrorKind::DivisionByZero(TokenKind::Percent));
}

#[test]
fn a_slash_is_not_a_token() {
    match main_returning("int", "7 / 2") {
        Err(BauError::ParserError(e)) => assert_eq!(e.kind, ParserErrorKind::UnknownToken(TokenKind::Invalid)),
        other => panic!("unexpected {:?}", other),
    }
}

#[test]
fn float_arithmetic_is_not_computed() {
    assert_eq!(main_returning("float", "1.5"), Ok(Some(Value::Float("1.5".to_string()))));
    assert_eq!(execution_error(main_returning("float", "1.5 + 2.0")), ExecutionErrorKind::FloatOperation(TokenKind::Plus));
}

#[test]
fn strings_cannot_be_subtracted() {
    assert_eq!(
        execution_error(main_returning("string", "\"a\" - \"b\"")),
        ExecutionErrorKind::InvalidOperands(TokenKind::Minus)
    );
}

#[test]
fn variables_are_read_back() {
    let r = run("fn main() -> int { let int a = 2; let int b = a * 5; a = b + 1; return a; }");
    assert_eq!(r, Ok(Some(Value::Int(11))));
}

#[test]
fn functions_and_methods_are_called() {
    let r = run("extend int { fn seven() -> int { return 7; } } fn six() -> int { return 6; } fn main() -> int { let int x = 1; return x.seven() * six(); }");
    assert_eq!(r, Ok(Some(Value::Int(42))));
}

#[test]
fn print_collects_output() {
    let source = Source::from_text("fn main() -> void { print(1 + 1); print(\"hi\"); print(true); }");
    let (result, output) = Bau::new().run_with_output(&source);
    assert_eq!(result, Ok(None));
    assert_eq!(output, vec![Some(Value::Int(2)), Some(Value::String("hi".to_string())), Some(Value::Bool(true))]);
}

#[test]
fn print_needs_an_argument() {
    assert_eq!(
        execution_error(run("fn main() -> void { print(); }")),
        ExecutionErrorKind::MissingArgument(bau::builtins::BuiltinFunction::Print)
    );
}

#[test]
fn a_void_value_cannot_initialize_a_variable() {
    assert_eq!(
        execution_error(run("fn main() -> void { let void x = print(1); }")),
        ExecutionErrorKind::VoidInitializer
    );
}

#[test]
fn without_main_nothing_runs() {
    assert_eq!(execution_error(run("fn other() -> int { return 1; }")), ExecutionErrorKind::MainFunctionNotFound);
}

#[test]
fn typechecker_errors() {
    assert_eq!(
        typechecker_error(run("fn main() -> int { let int x = \"a\"; return x; }")),
        TypecheckerErrorKind::TypeMismatch { expected: "int".to_string(), found: "string".to_string() }
    );
    assert_eq!(
        typechecker_error(run("fn main() -> int { return true; }")),
        TypecheckerErrorKind::ReturnTypeMismatch { expected: "int".to_string(), found: "bool".to_string() }
    );
    assert_eq!(
        typechecker_error(run("fn main() -> int { return; }")),
        TypecheckerErrorKind::MissingReturnValue { expected: "int".to_string() }
    );
    assert_eq!(
        typechecker_error(run("fn main() -> int { return y; }")),
        TypecheckerErrorKind::UnknownVariable("y".to_string())
    );
    assert_eq!(
        typechecker_error(run("fn main() -> number { return 1; }")),
        TypecheckerErrorKind::UnknownType("number".to_string())
    );
    assert_eq!(
        typechecker_error(run("fn main() -> int { return nothing(); }")),
        TypecheckerErrorKind::UnknownFunction("nothing".to_string())
    );
    assert_eq!(
        typechecker_error(run("fn main() -> int { let int x = 1; return x.size(); }")),
        TypecheckerErrorKind::UnknownMethod { name: "size".to_string(), on_type: "int".to_string() }
    );
    assert_eq!(
        typechecker_error(run("extend int { fn a() -> int { return 1; } fn a() -> int { return 2; } } fn main() -> int { return 1; }")),
        TypecheckerErrorKind::DuplicateMethod { name: "a".to_string(), on_type: "int".to_string() }
    );
    assert_eq!(
        typechecker_error(run("fn main() -> int { if 1 { return 1; } return 2; }")),
        TypecheckerErrorKind::TypeMismatch { expected: "bool".to_string(), found: "int".to_string() }
    );
    assert_eq!(
        typechecker_error(run("fn main() -> int { while \"a\" { } return 2; }")),
        TypecheckerErrorKind::TypeMismatch { expected: "bool".to_string(), found: "string".to_string() }
    );
    assert_eq!(
        typechecker_error(run("fn f(int a) -> int { return a; } fn main() -> int { return f(1, 2); }")),
        TypecheckerErrorKind::WrongArgumentCount { name: "f".to_string(), expected: 1, found: 2 }
    );
    assert_eq!(
        typechecker_error(run("fn f(int a) -> int { return a; } fn main() -> int { return f(true); }")),
        TypecheckerErrorKind::TypeMismatch { expected: "int".to_string(), found: "bool".to_string() }
    );
    assert_eq!(
        typechecker_error(run("fn f(number a) -> int { return 1; } fn main() -> int { return 1; }")),
        TypecheckerErrorKind::UnknownType("number".to_string())
    );
    assert_eq!(
        typechecker_error(run("fn main() -> bool { return !1; }")),
        TypecheckerErrorKind::TypeMismatch { expected: "bool".to_string(), found: "int".to_string() }
    );
    assert_eq!(
        typechecker_error(run("fn main() -> string { return - \"a\"; }")),
        TypecheckerErrorKind::TypeMismatch { expected: "int".to_string(), found: "string".to_string() }
    );
}

#[test]
fn a_typechecker_error_points_at_its_expression() {
    match run("fn main() -> int { let int x = \"a\"; return x; }") {
        Err(BauError::TypecheckerError(e)) => {
            assert_eq!(e.span.start, 31);
            assert_eq!(e.span.end, 34);
        }
        other => panic!("unexpected {:?}", other),
    }
}

#[test]
fn parser_errors_come_first() {
    match run("fn main() -> int { return 1 }") {
        Err(BauError::ParserError(e)) => {
            assert_eq!(e.kind, ParserErrorKind::UnexpectedToken(TokenKind::BraceClose, Some(TokenKind::Semicolon)))
        }
        other => panic!("unexpected {:?}", other),
    }
}

#[test]
fn return_without_value_does_not_stop_a_function() {
    assert_eq!(run("fn main() -> void { return; print(1); }"), Ok(None));
}
