//! Token kinds and tokens.
use vstd::prelude::*;

use crate::source::{CodeRange, Span};

verus! {

#[derive(Debug, Clone, Copy, PartialEq, Eq, Hash, Structural)]
pub enum TokenKind {
    // Keywords
    Fn,
    Extend,
    Let,
    If,
    Else,
    Loop,
    Return,
    Continue,
    Break,
    While,
    // Literals
    StringLiteral,
    IntLiteral,
    FloatLiteral,
    BoolLiteral,
    // Identifiers
    Identifier,
    // Operators
    Plus,
    Minus,
    Asterisk,
    Slash,
    Percent,
    ExclamationMark,
    LessThan,
    GreaterThan,
    // Compound operators
    PlusEquals,
    MinusEquals,
    AsteriskEquals,
    SlashEquals,
    PercentEquals,
    EqualsEquals,
    ExclamationMarkEquals,
    LessThanEquals,
    GreaterThanEquals,
    AmpersandAmpersand,
    PipePipe,
    // Punctuation
    Equals,
    Arrow,
    ParenOpen,
    ParenClose,
    BraceOpen,
    BraceClose,
    SquareOpen,
    SquareClose,
    Semicolon,
    Period,
    Comma,
    // Misc
    Comment,
    Whitespace,
    EndOfFile,
    EndOfLine,
    Invalid,
}

/// How a token kind is written in messages; for keywords and operators, its spelling.
pub open spec fn kind_name(k: TokenKind) -> Seq<char> {
    match k {
        TokenKind::Fn => "fn"@,
        TokenKind::Extend => "extend"@,
        TokenKind::Let => "let"@,
        TokenKind::If => "if"@,
        TokenKind::Else => "else"@,
        TokenKind::Loop => "loop"@,
        TokenKind::Return => "return"@,
        TokenKind::Continue => "continue"@,
        TokenKind::Break => "break"@,
        TokenKind::While => "while"@,
        TokenKind::StringLiteral => "string literal"@,
        TokenKind::IntLiteral => "integer literal"@,
        TokenKind::FloatLiteral => "float literal"@,
        TokenKind::BoolLiteral => "bool literal"@,
        TokenKind::Identifier => "identifier"@,
        TokenKind::Plus => "+"@,
        TokenKind::Minus => "-"@,
        TokenKind::Asterisk => "*"@,
        TokenKind::Slash => "/"@,
        TokenKind::ExclamationMark => "!"@,
        TokenKind::LessThan => "<"@,
        TokenKind::GreaterThan => ">"@,
        TokenKind::Percent => "%"@,
        TokenKind::PlusEquals => "+="@,
        TokenKind::MinusEquals => "-="@,
        TokenKind::AsteriskEquals => "*="@,
        TokenKind::SlashEquals => "/="@,
        TokenKind::PercentEquals => "%="@,
        TokenKind::EqualsEquals => "=="@,
        TokenKind::ExclamationMarkEquals => "!="@,
        TokenKind::LessThanEquals => "<="@,
        TokenKind::GreaterThanEquals => ">="@,
        TokenKind::AmpersandAmpersand => "&&"@,
        TokenKind::PipePipe => "||"@,
        TokenKind::Equals => "="@,
        TokenKind::Arrow => "->"@,
        TokenKind::ParenOpen => "("@,
        TokenKind::ParenClose => ")"@,
        TokenKind::BraceOpen => "{"@,
        TokenKind::BraceClose => "}"@,
        TokenKind::SquareOpen => "["@,
        TokenKind::SquareClose => "]"@,
        TokenKind::Semicolon => ";"@,
        TokenKind::Period => "."@,
        TokenKind::Comma => ","@,
        TokenKind::Comment => "comment"@,
        TokenKind::Whitespace => "whitespace"@,
        TokenKind::EndOfFile => "end of file"@,
        TokenKind::EndOfLine => "end of line"@,
        TokenKind::Invalid => "invalid token"@,
    }
}

impl TokenKind {
    /// How the kind is written in messages.
    pub fn name(&self) -> (s: &'static str)
        ensures
            s@ == kind_name(*self),
    {
        match self {
            TokenKind::Fn => "fn",
            TokenKind::Extend => "extend",
            TokenKind::Let => "let",
            TokenKind::If => "if",
            TokenKind::Else => "else",
            TokenKind::Loop => "loop",
            TokenKind::Return => "return",
            TokenKind::Continue => "continue",
            TokenKind::Break => "break",
            TokenKind::While => "while",
            TokenKind::StringLiteral => "string literal",
            TokenKind::IntLiteral => "integer literal",
            TokenKind::FloatLiteral => "float literal",
            TokenKind::BoolLiteral => "bool literal",
            TokenKind::Identifier => "identifier",
            TokenKind::Plus => "+",
            TokenKind::Minus => "-",
            TokenKind::Asterisk => "*",
            TokenKind::Slash => "/",
            TokenKind::ExclamationMark => "!",
            TokenKind::LessThan => "<",
            TokenKind::GreaterThan => ">",
            TokenKind::Percent => "%",
            TokenKind::PlusEquals => "+=",
            TokenKind::MinusEquals => "-=",
            TokenKind::AsteriskEquals => "*=",
            TokenKind::SlashEquals => "/=",
            TokenKind::PercentEquals => "%=",
            TokenKind::EqualsEquals => "==",
            TokenKind::ExclamationMarkEquals => "!=",
            TokenKind::LessThanEquals => "<=",
            TokenKind::GreaterThanEquals => ">=",
            TokenKind::AmpersandAmpersand => "&&",
            TokenKind::PipePipe => "||",
            TokenKind::Equals => "=",
            TokenKind::Arrow => "->",
            TokenKind::ParenOpen => "(",
            TokenKind::ParenClose => ")",
            TokenKind::BraceOpen => "{",
            TokenKind::BraceClose => "}",
            TokenKind::SquareOpen => "[",
            TokenKind::SquareClose => "]",
            TokenKind::Semicolon => ";",
            TokenKind::Period => ".",
            TokenKind::Comma => ",",
            TokenKind::Comment => "comment",
            TokenKind::Whitespace => "whitespace",
            TokenKind::EndOfFile => "end of file",
            TokenKind::EndOfLine => "end of line",
            TokenKind::Invalid => "invalid token",
        }
    }
}

/// A token: its kind and where it stands in the source.
#[derive(Debug, Clone, Copy, PartialEq, Eq, Structural)]
pub struct Token {
    pub kind: TokenKind,
    pub range: CodeRange,
}

impl Token {
    pub fn new(kind: TokenKind, range: CodeRange) -> (t: Self)
        ensures
            t.kind == kind,
            t.range == range,
    {
        Token { kind, range }
    }

    pub fn kind(&self) -> (k: TokenKind)
        ensures
            k == self.kind,
    {
        self.kind
    }

    pub fn range(&self) -> (r: CodeRange)
        ensures
            r == self.range,
    {
        self.range
    }

    pub fn span(&self) -> (s: Span)
        ensures
            s == self.range.span,
    {
        self.range.span
    }

    /// The number of characters the token covers.
    pub fn len(&self) -> (n: usize)
        requires
            self.range.span.start <= self.range.span.end,
        ensures
            n == self.range.span.end - self.range.span.start,
    {
        self.range.span.len()
    }

    pub fn is_empty(&self) -> (b: bool)
        requires
            self.range.span.start <= self.range.span.end,
        ensures
            b == (self.range.span.end == self.range.span.start),
    {
        self.len() == 0
    }

    pub fn is(&self, kind: TokenKind) -> (b: bool)
        ensures
            b == (self.kind == kind),
    {
        self.kind == kind
    }
}

} // verus!
