//! The parser: from tokens to a syntax tree.
//!
//! What each parsing function computes is stated in `grammar`, as spec functions over the
//! token sequence and a position in it; the executable functions in `expr`, `stmt` and `item`
//! are proved to compute exactly that.
use vstd::prelude::*;

use crate::builtins::BuiltinFunction;
use crate::source::{Source, Span};
use crate::text::{chars_of, string_from_chars};
use crate::tokenizer::token::{Token, TokenKind};
use crate::tokenizer::{tokens_of, Tokenizer};

pub mod ast;
pub mod error;
pub mod expr;
pub mod grammar;
pub mod item;
pub mod laws;
pub mod stmt;

use self::ast::{Literal, LiteralView};
use self::error::{ParserError, ParserErrorKind, ParserResult};

verus! {

/// A type as written in the source.
#[derive(Debug)]
pub enum ParsedType {
    Void,
    Int,
    Float,
    String,
    Bool,
    Name(String),
}

pub enum ParsedTypeView {
    Void,
    Int,
    Float,
    String,
    Bool,
    Name(Seq<char>),
}

impl View for ParsedType {
    type V = ParsedTypeView;

    open spec fn view(&self) -> ParsedTypeView {
        match self {
            ParsedType::Void => ParsedTypeView::Void,
            ParsedType::Int => ParsedTypeView::Int,
            ParsedType::Float => ParsedTypeView::Float,
            ParsedType::String => ParsedTypeView::String,
            ParsedType::Bool => ParsedTypeView::Bool,
            ParsedType::Name(n) => ParsedTypeView::Name(n@),
        }
    }
}

#[derive(Debug)]
pub enum ParsedStmt {
    Let { name: String, parsed_type: ParsedType, expr: ParsedExpr },
    Assignment { name: String, expr: ParsedExpr },
    If { condition: ParsedExpr, then_branch: Box<ParsedStmt>, else_branch: Option<Box<ParsedStmt>> },
    Loop { body: Box<ParsedStmt> },
    While { condition: ParsedExpr, body: Box<ParsedStmt> },
    CompoundAssignment { name: String, op: TokenKind, expr: ParsedExpr },
    Block { block_kind: crate::parser::ast::BlockKind, statements: Vec<ParsedStmt> },
    Return { expr: Option<ParsedExpr> },
    Continue,
    Break,
    Expression { expr: ParsedExpr },
}

#[derive(Debug)]
pub enum ParsedExprKind {
    Literal(Literal),
    Identifier(String),
    BuiltinFnCall { function: BuiltinFunction, args: Vec<ParsedExpr> },
    FnCall(ParsedFunctionCall),
    PrefixOp { op: TokenKind, expr: Box<ParsedExpr> },
    InfixOp { op: TokenKind, lhs: Box<ParsedExpr>, rhs: Box<ParsedExpr> },
    PostfixOp { op: TokenKind, expr: Box<ParsedExpr> },
    MethodCall { expr: Box<ParsedExpr>, call: ParsedFunctionCall },
}

/// An expression and the span from its first token to the token after it.
#[derive(Debug)]
pub struct ParsedExpr {
    pub kind: ParsedExprKind,
    pub span: Span,
}

#[derive(Debug)]
pub struct ParsedFunctionCall {
    pub name: String,
    pub args: Vec<ParsedExpr>,
}

pub enum ParsedStmtView {
    Let { name: Seq<char>, parsed_type: ParsedTypeView, expr: ParsedExprView },
    Assignment { name: Seq<char>, expr: ParsedExprView },
    If {
        condition: ParsedExprView,
        then_branch: Box<ParsedStmtView>,
        else_branch: Option<Box<ParsedStmtView>>,
    },
    Loop { body: Box<ParsedStmtView> },
    While { condition: ParsedExprView, body: Box<ParsedStmtView> },
    CompoundAssignment { name: Seq<char>, op: TokenKind, expr: ParsedExprView },
    Block { block_kind: crate::parser::ast::BlockKind, statements: Seq<ParsedStmtView> },
    Return { expr: Option<ParsedExprView> },
    Continue,
    Break,
    Expression { expr: ParsedExprView },
}

pub enum ParsedExprKindView {
    Literal(LiteralView),
    Identifier(Seq<char>),
    BuiltinFnCall { function: BuiltinFunction, args: Seq<ParsedExprView> },
    FnCall(ParsedFunctionCallView),
    PrefixOp { op: TokenKind, expr: Box<ParsedExprView> },
    InfixOp { op: TokenKind, lhs: Box<ParsedExprView>, rhs: Box<ParsedExprView> },
    PostfixOp { op: TokenKind, expr: Box<ParsedExprView> },
    MethodCall { expr: Box<ParsedExprView>, call: ParsedFunctionCallView },
}

pub struct ParsedExprView {
    pub kind: ParsedExprKindView,
    pub span: Span,
}

pub struct ParsedFunctionCallView {
    pub name: Seq<char>,
    pub args: Seq<ParsedExprView>,
}

pub open spec fn expr_view(e: ParsedExpr) -> ParsedExprView
    decreases e,
{
    let kind = match e.kind {
        ParsedExprKind::Literal(l) => ParsedExprKindView::Literal(l@),
        ParsedExprKind::Identifier(n) => ParsedExprKindView::Identifier(n@),
        ParsedExprKind::BuiltinFnCall { function, args } => ParsedExprKindView::BuiltinFnCall {
            function,
            args: exprs_view(args@),
        },
        ParsedExprKind::FnCall(c) => ParsedExprKindView::FnCall(
            ParsedFunctionCallView { name: c.name@, args: exprs_view(c.args@) },
        ),
        ParsedExprKind::PrefixOp { op, expr } => ParsedExprKindView::PrefixOp {
            op,
            expr: Box::new(expr_view(*expr)),
        },
        ParsedExprKind::InfixOp { op, lhs, rhs } => ParsedExprKindView::InfixOp {
            op,
            lhs: Box::new(expr_view(*lhs)),
            rhs: Box::new(expr_view(*rhs)),
        },
        ParsedExprKind::PostfixOp { op, expr } => ParsedExprKindView::PostfixOp {
            op,
            expr: Box::new(expr_view(*expr)),
        },
        ParsedExprKind::MethodCall { expr, call } => ParsedExprKindView::MethodCall {
            expr: Box::new(expr_view(*expr)),
            call: ParsedFunctionCallView { name: call.name@, args: exprs_view(call.args@) },
        },
    };
    ParsedExprView { kind, span: e.span }
}

pub open spec fn call_view(c: ParsedFunctionCall) -> ParsedFunctionCallView {
    ParsedFunctionCallView { name: c.name@, args: exprs_view(c.args@) }
}

pub open spec fn exprs_view(s: Seq<ParsedExpr>) -> Seq<ParsedExprView>
    decreases s,
{
    if s.len() == 0 {
        Seq::empty()
    } else {
        proof {
            assert(decreases_to!(s => s.drop_last()));
        }
        exprs_view(s.drop_last()).push(expr_view(s.last()))
    }
}

pub open spec fn stmt_view(s: ParsedStmt) -> ParsedStmtView
    decreases s,
{
    match s {
        ParsedStmt::Let { name, parsed_type, expr } => ParsedStmtView::Let {
            name: name@,
            parsed_type: parsed_type@,
            expr: expr_view(expr),
        },
        ParsedStmt::Assignment { name, expr } => ParsedStmtView::Assignment {
            name: name@,
            expr: expr_view(expr),
        },
        ParsedStmt::If { condition, then_branch, else_branch } => ParsedStmtView::If {
            condition: expr_view(condition),
            then_branch: Box::new(stmt_view(*then_branch)),
            else_branch: match else_branch {
                Some(b) => Some(Box::new(stmt_view(*b))),
                None => None,
            },
        },
        ParsedStmt::Loop { body } => ParsedStmtView::Loop { body: Box::new(stmt_view(*body)) },
        ParsedStmt::While { condition, body } => ParsedStmtView::While {
            condition: expr_view(condition),
            body: Box::new(stmt_view(*body)),
        },
        ParsedStmt::CompoundAssignment { name, op, expr } => ParsedStmtView::CompoundAssignment {
            name: name@,
            op,
            expr: expr_view(expr),
        },
        ParsedStmt::Block { block_kind, statements } => ParsedStmtView::Block {
            block_kind,
            statements: stmts_view(statements@),
        },
        ParsedStmt::Return { expr } => ParsedStmtView::Return {
            expr: match expr {
                Some(e) => Some(expr_view(e)),
                None => None,
            },
        },
        ParsedStmt::Continue => ParsedStmtView::Continue,
        ParsedStmt::Break => ParsedStmtView::Break,
        ParsedStmt::Expression { expr } => ParsedStmtView::Expression { expr: expr_view(expr) },
    }
}

pub open spec fn stmts_view(s: Seq<ParsedStmt>) -> Seq<ParsedStmtView>
    decreases s,
{
    if s.len() == 0 {
        Seq::empty()
    } else {
        proof {
            assert(decreases_to!(s => s.drop_last()));
        }
        stmts_view(s.drop_last()).push(stmt_view(s.last()))
    }
}

impl View for ParsedExpr {
    type V = ParsedExprView;

    open spec fn view(&self) -> ParsedExprView {
        expr_view(*self)
    }
}

impl View for ParsedStmt {
    type V = ParsedStmtView;

    open spec fn view(&self) -> ParsedStmtView {
        stmt_view(*self)
    }
}

impl View for ParsedFunctionCall {
    type V = ParsedFunctionCallView;

    open spec fn view(&self) -> ParsedFunctionCallView {
        call_view(*self)
    }
}

/// What the parser reads: the tokens that matter, the source text, and the end-of-file token
/// that stands for every position past the last token.
pub struct ParseInput {
    pub tokens: Seq<Token>,
    pub text: Seq<char>,
    pub eof: Token,
}

/// A parser's input and position.
pub struct ParserView {
    pub input: ParseInput,
    pub cursor: int,
}

/// Token ranges lie within the text, and the end-of-file token is the one of the text.
pub open spec fn input_wf(inp: ParseInput) -> bool {
    &&& inp.eof == crate::source::eof_token_of(inp.text)
    &&& inp.eof.kind == TokenKind::EndOfFile
    &&& 2 * inp.tokens.len() + 2 <= usize::MAX
    &&& inp.text.len() < usize::MAX
    &&& inp.eof.range.span.start <= inp.eof.range.span.end <= inp.text.len()
    &&& forall|i: int|
        0 <= i < inp.tokens.len() ==> #[trigger] inp.tokens[i].range.span.start
            <= inp.tokens[i].range.span.end <= inp.text.len()
}

/// Whether the token's text holds a newline.
pub open spec fn has_newline(text: Seq<char>, t: Token) -> bool {
    exists|i: int| t.range.span.start <= i < t.range.span.end && 0 <= i < text.len() && text[i] == '\n'
}

/// The tokens from `i` on that the parser keeps: whitespace and line ends are dropped, and a
/// comment drops every token up to and including the first that holds a newline.
pub open spec fn filter_tokens(tokens: Seq<Token>, text: Seq<char>, i: int, in_comment: bool) -> Seq<Token>
    decreases tokens.len() - i,
{
    if i < 0 || i >= tokens.len() {
        Seq::empty()
    } else {
        let t = tokens[i];
        if in_comment {
            filter_tokens(tokens, text, i + 1, !has_newline(text, t))
        } else if t.kind == TokenKind::Whitespace || t.kind == TokenKind::EndOfLine {
            filter_tokens(tokens, text, i + 1, false)
        } else if t.kind == TokenKind::Comment {
            filter_tokens(tokens, text, i + 1, true)
        } else {
            seq![t] + filter_tokens(tokens, text, i + 1, false)
        }
    }
}

/// What a parser for `text` reads.
pub open spec fn parse_input_of(text: Seq<char>) -> ParseInput {
    ParseInput {
        tokens: filter_tokens(tokens_of(text), text, 0, false),
        text,
        eof: crate::source::eof_token_of(text),
    }
}

pub struct Parser {
    tokens: Vec<Token>,
    text: Vec<char>,
    eof: Token,
    cursor: usize,
}

impl View for Parser {
    type V = ParserView;

    closed spec fn view(&self) -> ParserView {
        ParserView {
            input: ParseInput { tokens: self.tokens@, text: self.text@, eof: self.eof },
            cursor: self.cursor as int,
        }
    }
}

/// The binding powers of an infix operator, left and right; `None` for other tokens.
pub open spec fn infix_power(op: TokenKind) -> Option<(u8, u8)> {
    match op {
        TokenKind::PipePipe => Some((1, 2)),
        TokenKind::AmpersandAmpersand => Some((3, 4)),
        TokenKind::EqualsEquals | TokenKind::ExclamationMarkEquals => Some((5, 6)),
        TokenKind::LessThan
        | TokenKind::LessThanEquals
        | TokenKind::GreaterThan
        | TokenKind::GreaterThanEquals => Some((7, 8)),
        TokenKind::Plus | TokenKind::Minus => Some((9, 10)),
        TokenKind::Asterisk | TokenKind::Slash | TokenKind::Percent => Some((11, 12)),
        _ => None,
    }
}

/// The binding powers of an infix operator, left and right; `None` for other tokens.
pub fn infix_binding_power(op: TokenKind) -> (r: Option<(u8, u8)>)
    ensures
        r == infix_power(op),
{
    match op {
        TokenKind::PipePipe => Some((1, 2)),
        TokenKind::AmpersandAmpersand => Some((3, 4)),
        TokenKind::EqualsEquals | TokenKind::ExclamationMarkEquals => Some((5, 6)),
        TokenKind::LessThan
        | TokenKind::LessThanEquals
        | TokenKind::GreaterThan
        | TokenKind::GreaterThanEquals => Some((7, 8)),
        TokenKind::Plus | TokenKind::Minus => Some((9, 10)),
        TokenKind::Asterisk | TokenKind::Slash | TokenKind::Percent => Some((11, 12)),
        _ => None,
    }
}

fn token_has_newline(text: &Vec<char>, t: Token) -> (b: bool)
    requires
        t.range.span.end <= text@.len(),
    ensures
        b == has_newline(text@, t),
{
    let mut i = t.range.span.start;
    while i < t.range.span.end
        invariant
            t.range.span.end <= text@.len(),
            t.range.span.start <= i,
            forall|j: int| t.range.span.start <= j < i ==> text@[j] != '\n',
        decreases t.range.span.end - i,
    {
        if text[i] == '\n' {
            assert(text@[i as int] == '\n');
            return true;
        }
        i = i + 1;
    }
    false
}

impl Parser {
    #[verifier::type_invariant]
    closed spec fn wf(&self) -> bool {
        input_wf(self@.input)
    }

    /// A parser over the tokens of the source text, at the first of them.
    pub fn new(source: &Source) -> (p: Self)
        requires
            2 * source@.text.len() + 4 <= usize::MAX,
        ensures
            p@.input == parse_input_of(source@.text),
            p@.cursor == 0,
    {
        let mut tokenizer = Tokenizer::new(source.text());
        let all = tokenizer.tokenize();
        proof {
            crate::tokenizer::lemma_tokens_in_text(source@.text);
        }
        Parser::from_tokens(source.text(), all)
    }

    /// A parser over `tokens` of `text`, at the first of them: whitespace, line ends and
    /// comments are dropped as `new` drops them, and past the last token stands the end-of-file
    /// token of `text`.
    #[verifier::rlimit(30)]
    pub fn from_tokens(text: &str, all: Vec<Token>) -> (p: Self)
        requires
            text@.len() < usize::MAX,
            2 * all@.len() + 2 <= usize::MAX,
            forall|j: int|
                0 <= j < all@.len() ==> #[trigger] all@[j].range.span.start <= all@[j].range.span.end
                    <= text@.len(),
        ensures
            p@.input == (ParseInput {
                tokens: filter_tokens(all@, text@, 0, false),
                text: text@,
                eof: crate::source::eof_token_of(text@),
            }),
            p@.cursor == 0,
    {
        let chars = chars_of(text);
        let eof = crate::source::eof_token_of_text(text);
        let mut tokens: Vec<Token> = Vec::new();
        let mut in_comment = false;
        let mut i: usize = 0;
        while i < all.len()
            invariant
                chars@ == text@,
                chars@.len() < usize::MAX,
                i <= all@.len(),
                2 * all@.len() + 2 <= usize::MAX,
                tokens@.len() <= i,
                forall|j: int| 0 <= j < all@.len() ==> #[trigger] all@[j].range.span.start
                    <= all@[j].range.span.end <= chars@.len(),
                forall|j: int| 0 <= j < tokens@.len() ==> #[trigger] tokens@[j].range.span.start
                    <= tokens@[j].range.span.end <= chars@.len(),
                tokens@ + filter_tokens(all@, chars@, i as int, in_comment) == filter_tokens(
                    all@,
                    chars@,
                    0,
                    false,
                ),
            decreases all@.len() - i,
        {
            let t = all[i];
            if in_comment {
                in_comment = !token_has_newline(&chars, t);
            } else if t.kind == TokenKind::Whitespace || t.kind == TokenKind::EndOfLine {
            } else if t.kind == TokenKind::Comment {
                in_comment = true;
            } else {
                let ghost before = tokens@;
                tokens.push(t);
                proof {
                    assert(before + filter_tokens(all@, chars@, i as int, false) =~= tokens@
                        + filter_tokens(all@, chars@, i + 1, false));
                }
            }
            i = i + 1;
        }
        proof {
            assert(tokens@ =~= filter_tokens(all@, chars@, 0, false));
        }
        Parser { tokens, text: chars, eof, cursor: 0 }
    }

    /// The end-of-file token: empty, just after the last character of the text, where every
    /// read past the tokens lands.
    pub fn end_of_file(&self) -> (t: Token)
        ensures
            t == self@.input.eof,
            t == crate::source::eof_token_of(self@.input.text),
            t.kind == TokenKind::EndOfFile,
            t.range.span.start == self@.input.text.len(),
            t.range.span.end == self@.input.text.len(),
    {
        proof {
            use_type_invariant(self);
        }
        self.eof
    }

    /// The next token, without taking it.
    pub fn peek(&self) -> (t: Token)
        ensures
            t == grammar::peek(self@.input, self@.cursor),
    {
        if self.cursor < self.tokens.len() {
            self.tokens[self.cursor]
        } else {
            self.eof
        }
    }

    /// The kind of the next token.
    pub fn peek_kind(&self) -> (k: TokenKind)
        ensures
            k == grammar::peek(self@.input, self@.cursor).kind,
    {
        self.peek().kind
    }

    /// The token `offset` places after the next one, without taking anything.
    pub fn peek_offset(&self, offset: usize) -> (t: Token)
        ensures
            t == grammar::peek_offset(self@.input, self@.cursor, offset as int),
    {
        proof {
            use_type_invariant(self);
        }
        let i = if offset <= usize::MAX - self.cursor {
            self.cursor + offset
        } else {
            usize::MAX
        };
        if i < self.tokens.len() {
            self.tokens[i]
        } else if i > self.tokens.len() && self.tokens.len() > 0 {
            self.tokens[self.tokens.len() - 1]
        } else {
            self.eof
        }
    }

    pub fn peek_offset_kind(&self, offset: usize) -> (k: TokenKind)
        ensures
            k == grammar::peek_offset(self@.input, self@.cursor, offset as int).kind,
    {
        self.peek_offset(offset).kind
    }

    /// Whether the next token is of the given kind.
    pub fn at(&self, kind: TokenKind) -> (b: bool)
        ensures
            b == (grammar::peek(self@.input, self@.cursor).kind == kind),
    {
        self.peek_kind() == kind
    }

    /// Where in the text the next token starts.
    pub fn current_char_cursor(&self) -> (n: usize)
        ensures
            n == grammar::start_of(self@.input, self@.cursor),
    {
        self.peek().range.span.start
    }

    /// An error of the given kind at the next token.
    pub fn error(&self, kind: ParserErrorKind) -> (e: ParserError)
        ensures
            e == grammar::error_at(self@.input, self@.cursor, kind),
    {
        ParserError::new(kind, self.peek().range)
    }

    /// Takes the next token and moves past it; the end of the file cannot be taken, and is an
    /// error, but the parser moves past it all the same.
    pub fn consume(&mut self) -> (r: ParserResult<Token>)
        requires
            old(self)@.cursor < usize::MAX,
        ensures
            final(self)@.input == old(self)@.input,
            (r, final(self)@.cursor) == grammar::consume(old(self)@.input, old(self)@.cursor),
            final(self)@.cursor == old(self)@.cursor + 1,
            r is Ok ==> final(self)@.cursor <= final(self)@.input.tokens.len(),
            r matches Ok(t) ==> t.range.span.start <= t.range.span.end <= old(self)@.input.text.len(),
    {
        proof {
            use_type_invariant(&*self);
        }
        let token = self.peek();
        let at_end = token.kind == TokenKind::EndOfFile || self.cursor >= self.tokens.len();
        let error = self.error(ParserErrorKind::UnexpectedEof(None));
        self.cursor = self.cursor + 1;
        if at_end {
            return Err(error);
        }
        assert(token == self@.input.tokens[self@.cursor - 1]);
        Ok(token)
    }

    /// Moves past the next token and checks that it is of the expected kind; the error, if
    /// any, is at that token.
    pub fn consume_specific(&mut self, expected: TokenKind) -> (r: ParserResult<Token>)
        requires
            old(self)@.cursor < usize::MAX,
        ensures
            final(self)@.input == old(self)@.input,
            (r, final(self)@.cursor) == grammar::consume_specific(
                old(self)@.input,
                old(self)@.cursor,
                expected,
            ),
            final(self)@.cursor == old(self)@.cursor + 1,
            r is Ok ==> final(self)@.cursor <= final(self)@.input.tokens.len(),
            r matches Ok(t) ==> t.range.span.start <= t.range.span.end <= old(self)@.input.text.len(),
    {
        proof {
            use_type_invariant(&*self);
        }
        let current = self.peek();
        if current.kind == TokenKind::Invalid {
            let error = self.error(ParserErrorKind::UnknownToken(current.kind));
            self.cursor = self.cursor + 1;
            return Err(error);
        }
        if current.kind != expected {
            let error = self.error(ParserErrorKind::UnexpectedToken(current.kind, Some(expected)));
            self.cursor = self.cursor + 1;
            return Err(error);
        }
        let error = self.error(ParserErrorKind::UnexpectedEof(Some(expected)));
        match self.consume() {
            Ok(token) => Ok(token),
            Err(_) => Err(error),
        }
    }

    /// The characters of a token, which lies within the source.
    pub fn token_chars(&self, token: Token) -> (v: Vec<char>)
        requires
            token.range.span.start <= token.range.span.end <= self@.input.text.len(),
        ensures
            v@ == grammar::token_text(self@.input, token),
    {
        let mut v: Vec<char> = Vec::new();
        let mut i = token.range.span.start;
        while i < token.range.span.end
            invariant
                token.range.span.start <= i <= token.range.span.end <= self.text@.len(),
                v@ == self.text@.subrange(token.range.span.start as int, i as int),
            decreases token.range.span.end - i,
        {
            v.push(self.text[i]);
            i = i + 1;
            proof {
                assert(v@ =~= self.text@.subrange(token.range.span.start as int, i as int));
            }
        }
        v
    }

    /// The source text of a token, which lies within the source.
    pub fn text(&self, token: Token) -> (s: String)
        requires
            token.range.span.start <= token.range.span.end <= self@.input.text.len(),
        ensures
            s@ == grammar::token_text(self@.input, token),
    {
        string_from_chars(&self.text, token.range.span.start, token.range.span.end)
    }
}

} // verus!
