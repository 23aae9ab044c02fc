//! What the typechecker rejects.
use vstd::prelude::*;

use crate::source::Span;

verus! {

/// A construct that the typechecker does not handle yet.
#[derive(Debug, Clone, Copy, PartialEq, Eq, Structural)]
pub enum Construct {
    PrefixOperator,
    PostfixOperator,
}

#[derive(Debug, Clone, PartialEq)]
pub enum TypecheckerErrorKind {
    /// A value of type `found` where one of type `expected` belongs.
    TypeMismatch { expected: String, found: String },
    /// A returned value of type `found` in a function that returns `expected`.
    ReturnTypeMismatch { expected: String, found: String },
    /// `return;` in a function that returns `expected`.
    MissingReturnValue { expected: String },
    UnknownVariable(String),
    UnknownType(String),
    UnknownFunction(String),
    /// A call of `name` with `found` arguments, where it takes `expected`.
    WrongArgumentCount { name: String, expected: usize, found: usize },
    UnknownMethod { name: String, on_type: String },
    DuplicateMethod { name: String, on_type: String },
    NotImplemented(Construct),
    /// A function whose body is not a block.
    BodyNotBlock,
}

pub enum TypecheckerErrorKindView {
    TypeMismatch { expected: Seq<char>, found: Seq<char> },
    ReturnTypeMismatch { expected: Seq<char>, found: Seq<char> },
    MissingReturnValue { expected: Seq<char> },
    UnknownVariable(Seq<char>),
    UnknownType(Seq<char>),
    UnknownFunction(Seq<char>),
    WrongArgumentCount { name: Seq<char>, expected: usize, found: usize },
    UnknownMethod { name: Seq<char>, on_type: Seq<char> },
    DuplicateMethod { name: Seq<char>, on_type: Seq<char> },
    NotImplemented(Construct),
    BodyNotBlock,
}

impl View for TypecheckerErrorKind {
    type V = TypecheckerErrorKindView;

    open spec fn view(&self) -> TypecheckerErrorKindView {
        match self {
            TypecheckerErrorKind::TypeMismatch { expected, found } => TypecheckerErrorKindView::TypeMismatch {
                expected: expected@,
                found: found@,
            },
            TypecheckerErrorKind::ReturnTypeMismatch { expected, found } => TypecheckerErrorKindView::ReturnTypeMismatch {
                expected: expected@,
                found: found@,
            },
            TypecheckerErrorKind::MissingReturnValue { expected } => TypecheckerErrorKindView::MissingReturnValue {
                expected: expected@,
            },
            TypecheckerErrorKind::UnknownVariable(n) => TypecheckerErrorKindView::UnknownVariable(n@),
            TypecheckerErrorKind::UnknownType(n) => TypecheckerErrorKindView::UnknownType(n@),
            TypecheckerErrorKind::UnknownFunction(n) => TypecheckerErrorKindView::UnknownFunction(n@),
            TypecheckerErrorKind::WrongArgumentCount { name, expected, found } => TypecheckerErrorKindView::WrongArgumentCount {
                name: name@,
                expected: *expected,
                found: *found,
            },
            TypecheckerErrorKind::UnknownMethod { name, on_type } => TypecheckerErrorKindView::UnknownMethod {
                name: name@,
                on_type: on_type@,
            },
            TypecheckerErrorKind::DuplicateMethod { name, on_type } => TypecheckerErrorKindView::DuplicateMethod {
                name: name@,
                on_type: on_type@,
            },
            TypecheckerErrorKind::NotImplemented(c) => TypecheckerErrorKindView::NotImplemented(*c),
            TypecheckerErrorKind::BodyNotBlock => TypecheckerErrorKindView::BodyNotBlock,
        }
    }
}

/// A typechecker error and the span it points at; `0..0` where no span is known.
#[derive(Debug, Clone, PartialEq)]
pub struct TypecheckerError {
    pub kind: TypecheckerErrorKind,
    pub span: Span,
}

pub struct TypecheckerErrorView {
    pub kind: TypecheckerErrorKindView,
    pub span: Span,
}

impl View for TypecheckerError {
    type V = TypecheckerErrorView;

    open spec fn view(&self) -> TypecheckerErrorView {
        TypecheckerErrorView { kind: self.kind@, span: self.span }
    }
}

impl TypecheckerError {
    pub fn new(kind: TypecheckerErrorKind, span: Span) -> (e: Self)
        ensures
            e.kind == kind,
            e.span == span,
    {
        TypecheckerError { kind, span }
    }
}

pub type TypecheckerResult<T> = Result<T, TypecheckerError>;

} // verus!
