//! What goes wrong while a program runs.
use vstd::prelude::*;

use crate::builtins::{BuiltinFunction, BuiltinMethod};
use crate::interpreter::value::{opt_view, Value, ValueView};
use crate::tokenizer::token::TokenKind;

verus! {

#[derive(Debug, PartialEq)]
pub enum ExecutionErrorKind {
    MainFunctionNotFound,
    UnknownVariable(String),
    UnknownFunction(String),
    /// `let` with an expression that has no value.
    VoidInitializer,
    /// An assignment of an expression that has no value.
    VoidAssignment,
    /// An `if` whose condition is not a boolean; the value it had, if any.
    NonBooleanCondition(Option<Value>),
    /// `-` applied to something other than a number.
    InvalidNegation,
    /// `!` applied to something other than a boolean.
    InvalidNot,
    InvalidPrefixOperator(TokenKind),
    /// An infix operator with an operand that has no value.
    VoidOperand,
    /// An infix operator applied to values it is not defined on.
    InvalidOperands(TokenKind),
    InvalidInfixOperator(TokenKind),
    PostfixNotImplemented,
    /// Integer arithmetic whose result does not fit in an `i64`.
    IntegerOverflow(TokenKind),
    DivisionByZero(TokenKind),
    /// Arithmetic or a comparison on floats, which this library does not compute.
    FloatOperation(TokenKind),
    /// A builtin called without the argument it needs.
    MissingArgument(BuiltinFunction),
    /// An argument with no value.
    VoidArgument,
    /// A builtin method applied where it does not apply.
    InvalidMethodCall(BuiltinMethod),
    /// A function whose body is not a block.
    BodyNotBlock,
    /// The program ran longer than its fuel allowed.
    OutOfFuel,
}

pub enum ExecutionErrorKindView {
    MainFunctionNotFound,
    UnknownVariable(Seq<char>),
    UnknownFunction(Seq<char>),
    VoidInitializer,
    VoidAssignment,
    NonBooleanCondition(Option<ValueView>),
    InvalidNegation,
    InvalidNot,
    InvalidPrefixOperator(TokenKind),
    VoidOperand,
    InvalidOperands(TokenKind),
    InvalidInfixOperator(TokenKind),
    PostfixNotImplemented,
    IntegerOverflow(TokenKind),
    DivisionByZero(TokenKind),
    FloatOperation(TokenKind),
    MissingArgument(BuiltinFunction),
    VoidArgument,
    InvalidMethodCall(BuiltinMethod),
    BodyNotBlock,
    OutOfFuel,
}

impl View for ExecutionErrorKind {
    type V = ExecutionErrorKindView;

    open spec fn view(&self) -> ExecutionErrorKindView {
        match self {
            ExecutionErrorKind::MainFunctionNotFound => ExecutionErrorKindView::MainFunctionNotFound,
            ExecutionErrorKind::UnknownVariable(n) => ExecutionErrorKindView::UnknownVariable(n@),
            ExecutionErrorKind::UnknownFunction(n) => ExecutionErrorKindView::UnknownFunction(n@),
            ExecutionErrorKind::VoidInitializer => ExecutionErrorKindView::VoidInitializer,
            ExecutionErrorKind::VoidAssignment => ExecutionErrorKindView::VoidAssignment,
            ExecutionErrorKind::NonBooleanCondition(v) => ExecutionErrorKindView::NonBooleanCondition(
                opt_view(*v),
            ),
            ExecutionErrorKind::InvalidNegation => ExecutionErrorKindView::InvalidNegation,
            ExecutionErrorKind::InvalidNot => ExecutionErrorKindView::InvalidNot,
            ExecutionErrorKind::InvalidPrefixOperator(op) => ExecutionErrorKindView::InvalidPrefixOperator(*op),
            ExecutionErrorKind::VoidOperand => ExecutionErrorKindView::VoidOperand,
            ExecutionErrorKind::InvalidOperands(op) => ExecutionErrorKindView::InvalidOperands(*op),
            ExecutionErrorKind::InvalidInfixOperator(op) => ExecutionErrorKindView::InvalidInfixOperator(*op),
            ExecutionErrorKind::PostfixNotImplemented => ExecutionErrorKindView::PostfixNotImplemented,
            ExecutionErrorKind::IntegerOverflow(op) => ExecutionErrorKindView::IntegerOverflow(*op),
            ExecutionErrorKind::DivisionByZero(op) => ExecutionErrorKindView::DivisionByZero(*op),
            ExecutionErrorKind::FloatOperation(op) => ExecutionErrorKindView::FloatOperation(*op),
            ExecutionErrorKind::MissingArgument(f) => ExecutionErrorKindView::MissingArgument(*f),
            ExecutionErrorKind::VoidArgument => ExecutionErrorKindView::VoidArgument,
            ExecutionErrorKind::InvalidMethodCall(m) => ExecutionErrorKindView::InvalidMethodCall(*m),
            ExecutionErrorKind::BodyNotBlock => ExecutionErrorKindView::BodyNotBlock,
            ExecutionErrorKind::OutOfFuel => ExecutionErrorKindView::OutOfFuel,
        }
    }
}

#[derive(Debug, PartialEq)]
pub struct ExecutionError {
    pub kind: ExecutionErrorKind,
}

impl View for ExecutionError {
    type V = ExecutionErrorKindView;

    open spec fn view(&self) -> ExecutionErrorKindView {
        self.kind@
    }
}

impl ExecutionError {
    pub fn new(kind: ExecutionErrorKind) -> (e: Self)
        ensures
            e.kind == kind,
    {
        ExecutionError { kind }
    }
}

pub type ExecutionResult<T> = Result<T, ExecutionError>;

} // verus!
