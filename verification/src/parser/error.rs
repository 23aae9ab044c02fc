//! What goes wrong while parsing.
use vstd::prelude::*;

use crate::source::CodeRange;
use crate::tokenizer::token::TokenKind;

verus! {

#[derive(Debug, Clone, Copy, PartialEq, Eq, Structural)]
pub enum ParserErrorKind {
    /// An invalid token where a specific one was expected.
    UnknownToken(TokenKind),
    /// The token found, and the one expected if one was.
    UnexpectedToken(TokenKind, Option<TokenKind>),
    /// The end of the file, and the token expected if one was.
    UnexpectedEof(Option<TokenKind>),
    InvalidStartOfExpression(TokenKind),
    /// `a.b` that is not a method call: member access is not implemented.
    MemberAccessNotImplemented,
    /// A literal whose text does not denote a value of its kind (an integer out of range).
    InvalidLiteral(TokenKind),
}

#[derive(Debug, Clone, Copy, PartialEq, Eq, Structural)]
pub struct ParserError {
    pub kind: ParserErrorKind,
    pub range: CodeRange,
}

impl ParserError {
    pub fn new(kind: ParserErrorKind, range: CodeRange) -> (e: Self)
        ensures
            e.kind == kind,
            e.range == range,
    {
        ParserError { kind, range }
    }
}

pub type ParserResult<T> = Result<T, ParserError>;

} // verus!
