use bau::interpreter::error::ExecutionErrorKind;
use bau::interpreter::execution::{apply_infix, apply_prefix};
use bau::interpreter::value::Value;
use bau::tokenizer::token::TokenKind;

fn num(i: i64) -> Option<Value> {
    Some(Value::Int(i))
}

fn err(r: Result<Option<Value>, bau::interpreter::error::ExecutionError>) -> ExecutionErrorKind {
    r.unwrap_err().kind
}

#[test]
fn division_rounds_toward_zero() {
    assert_eq!(apply_infix(TokenKind::Slash, num(7), num(2)), Ok(num(3)));
    assert_eq!(apply_infix(TokenKind::Slash, num(-7), num(2)), Ok(num(-3)));
    assert_eq!(apply_infix(TokenKind::Slash, num(7), num(-2)), Ok(num(-3)));
    assert_eq!(apply_infix(TokenKind::Slash, num(-7), num(-2)), Ok(num(3)));
    assert_eq!(apply_infix(TokenKind::Slash, num(i64::MIN), num(1)), Ok(num(i64::MIN)));
    assert_eq!(apply_infix(TokenKind::Slash, num(i64::MIN), num(2)), Ok(num(i64::MIN / 2)));
}

#[test]
fn remainder_has_the_sign_of_the_dividend() {
    assert_eq!(apply_infix(TokenKind::Percent, num(-7), num(2)), Ok(num(-1)));
    assert_eq!(apply_infix(TokenKind::Percent, num(7), num(-2)), Ok(num(1)));
    assert_eq!(apply_infix(TokenKind::Percent, num(i64::MIN), num(3)), Ok(num(i64::MIN % 3)));
}

#[test]
fn division_errors() {
    assert_eq!(err(apply_infix(TokenKind::Slash, num(1), num(0))), ExecutionErrorKind::DivisionByZero(TokenKind::Slash));
    assert_eq!(err(apply_infix(TokenKind::Slash, num(i64::MIN), num(-1))), ExecutionErrorKind::IntegerOverflow(TokenKind::Slash));
    assert_eq!(err(apply_infix(TokenKind::Percent, num(i64::MIN), num(-1))), ExecutionErrorKind::IntegerOverflow(TokenKind::Percent));
}

#[test]
fn prefix_operators() {
    assert_eq!(apply_prefix(TokenKind::Minus, num(5)), Ok(num(-5)));
    assert_eq!(apply_prefix(TokenKind::Plus, None), Ok(None));
    assert_eq!(apply_prefix(TokenKind::ExclamationMark, Some(Value::Bool(true))), Ok(Some(Value::Bool(false))));
    assert_eq!(err(apply_prefix(TokenKind::Minus, num(i64::MIN))), ExecutionErrorKind::IntegerOverflow(TokenKind::Minus));
    assert_eq!(err(apply_prefix(TokenKind::Minus, Some(Value::Bool(true)))), ExecutionErrorKind::InvalidNegation);
    assert_eq!(err(apply_prefix(TokenKind::ExclamationMark, num(1))), ExecutionErrorKind::InvalidNot);
    assert_eq!(err(apply_prefix(TokenKind::Minus, Some(Value::Float("1.0".to_string())))), ExecutionErrorKind::FloatOperation(TokenKind::Minus));
    assert_eq!(err(apply_prefix(TokenKind::Asterisk, num(1))), ExecutionErrorKind::InvalidPrefixOperator(TokenKind::Asterisk));
}

#[test]
fn infix_errors() {
    assert_eq!(err(apply_infix(TokenKind::Plus, None, num(1))), ExecutionErrorKind::VoidOperand);
    assert_eq!(err(apply_infix(TokenKind::AmpersandAmpersand, num(1), num(1))), ExecutionErrorKind::InvalidOperands(TokenKind::AmpersandAmpersand));
    assert_eq!(err(apply_infix(TokenKind::Equals, num(1), num(1))), ExecutionErrorKind::InvalidInfixOperator(TokenKind::Equals));
    assert_eq!(
        err(apply_infix(TokenKind::EqualsEquals, Some(Value::Float("1.0".to_string())), Some(Value::Float("1.00".to_string())))),
        ExecutionErrorKind::FloatOperation(TokenKind::EqualsEquals)
    );
}

#[test]
fn equality_across_kinds_is_false() {
    assert_eq!(apply_infix(TokenKind::EqualsEquals, num(1), Some(Value::Bool(true))), Ok(Some(Value::Bool(false))));
    assert_eq!(apply_infix(TokenKind::ExclamationMarkEquals, num(1), Some(Value::Bool(true))), Ok(Some(Value::Bool(true))));
    assert_eq!(apply_infix(TokenKind::GreaterThanEquals, num(2), num(2)), Ok(Some(Value::Bool(true))));
}
