//! The grammar, as spec functions.
//!
//! Each function takes the parser's input and a position in its tokens, and gives the result of
//! parsing there together with the position the parser is left at, on success and on error.
//! Past the last token every position reads as the end-of-file token.
use vstd::prelude::*;

use crate::builtins::builtin_named;
use crate::parser::ast::{BlockKind, LiteralView};
use crate::parser::error::{ParserError, ParserErrorKind};
use crate::parser::item::{ParsedExtendsItemView, ParsedFunctionItemView, ParsedItemView};
use crate::parser::{
    infix_power, ParseInput, ParsedExprKindView, ParsedExprView, ParsedFunctionCallView,
    ParsedStmtView, ParsedTypeView,
};
use crate::source::Span;
use crate::tokenizer::token::{Token, TokenKind};

verus! {

/// The token at `pos`.
pub open spec fn peek(inp: ParseInput, pos: int) -> Token {
    if 0 <= pos < inp.tokens.len() {
        inp.tokens[pos]
    } else {
        inp.eof
    }
}

/// The token `offset` places after `pos`: past the end of the tokens, the last token, and
/// exactly at their end (or when there are none) the end-of-file token.
pub open spec fn peek_offset(inp: ParseInput, pos: int, offset: int) -> Token {
    let i = pos + offset;
    if 0 <= i < inp.tokens.len() {
        inp.tokens[i]
    } else if i > inp.tokens.len() && inp.tokens.len() > 0 {
        inp.tokens[inp.tokens.len() - 1]
    } else {
        inp.eof
    }
}

/// The character position where the token at `pos` starts.
pub open spec fn start_of(inp: ParseInput, pos: int) -> usize {
    peek(inp, pos).range.span.start
}

/// The span from character position `start` to the start of the token at `pos`.
pub open spec fn span_to(inp: ParseInput, start: usize, pos: int) -> Span {
    Span { start, end: start_of(inp, pos) }
}

/// An error of the given kind at the token at `pos`.
pub open spec fn error_at(inp: ParseInput, pos: int, kind: ParserErrorKind) -> ParserError {
    ParserError { kind, range: peek(inp, pos).range }
}

/// How many tokens are left from `pos` on.
pub open spec fn remaining(inp: ParseInput, pos: int) -> nat {
    if 0 <= pos <= inp.tokens.len() {
        (inp.tokens.len() - pos) as nat
    } else {
        0
    }
}

/// Whether `p` lies after `pos` and within the tokens.
pub open spec fn advanced(inp: ParseInput, pos: int, p: int) -> bool {
    0 <= pos < p <= inp.tokens.len()
}

/// The text of a token.
pub open spec fn token_text(inp: ParseInput, t: Token) -> Seq<char> {
    inp.text.subrange(t.range.span.start as int, t.range.span.end as int)
}

/// Takes the token at `pos` and moves past it; the end of the file cannot be taken, and is an
/// error, but the parser moves past it all the same.
pub open spec fn consume(inp: ParseInput, pos: int) -> (Result<Token, ParserError>, int) {
    let t = peek(inp, pos);
    if t.kind == TokenKind::EndOfFile || pos < 0 || pos >= inp.tokens.len() {
        (Err(error_at(inp, pos, ParserErrorKind::UnexpectedEof(None))), pos + 1)
    } else {
        (Ok(t), pos + 1)
    }
}

/// Moves past the token at `pos` and checks that it is of the expected kind; the error, if
/// any, is at that token.
pub open spec fn consume_specific(inp: ParseInput, pos: int, expected: TokenKind) -> (
    Result<Token, ParserError>,
    int,
) {
    let t = peek(inp, pos);
    if t.kind == TokenKind::Invalid {
        (Err(error_at(inp, pos, ParserErrorKind::UnknownToken(t.kind))), pos + 1)
    } else if t.kind != expected {
        (Err(error_at(inp, pos, ParserErrorKind::UnexpectedToken(t.kind, Some(expected)))), pos + 1)
    } else {
        match consume(inp, pos) {
            (Ok(tok), p) => (Ok(tok), p),
            (Err(_), p) => (Err(error_at(inp, pos, ParserErrorKind::UnexpectedEof(Some(expected)))), p),
        }
    }
}

/// How far a parse that starts at `pos` can move the parser: within the tokens, every token
/// taken is one more, and on the way out of an error each enclosing parenthesis takes one
/// more.
pub open spec fn parse_bound(inp: ParseInput, pos: int) -> int {
    if pos <= inp.tokens.len() {
        2 * inp.tokens.len() - pos + 1
    } else {
        pos + 1
    }
}

/// A type: a name.
pub open spec fn parse_type(inp: ParseInput, pos: int) -> (Result<ParsedTypeView, ParserError>, int) {
    match consume_specific(inp, pos, TokenKind::Identifier) {
        (Ok(t), p) => (Ok(ParsedTypeView::Name(token_text(inp, t))), p),
        (Err(e), p) => (Err(e), p),
    }
}

pub open spec fn is_ascii_digit(c: char) -> bool {
    '0' <= c && c <= '9'
}

/// The number that a string of ASCII digits denotes.
pub open spec fn digits_value(s: Seq<char>) -> nat
    decreases s.len(),
{
    if s.len() == 0 {
        0
    } else {
        digits_value(s.drop_last()) * 10 + (s.last() as nat - '0' as nat) as nat
    }
}

/// Whether every character is an ASCII digit.
pub open spec fn all_ascii_digits(d: Seq<char>) -> bool {
    forall|i: int| 0 <= i < d.len() ==> is_ascii_digit(#[trigger] d[i])
}

/// `s` without its sign, if it has one.
pub open spec fn unsigned_part(s: Seq<char>) -> Seq<char> {
    if s.len() > 0 && (s[0] == '-' || s[0] == '+') {
        s.drop_first()
    } else {
        s
    }
}

/// The `i64` that `str::parse` reads from `s`: an optional sign and then at least one ASCII
/// digit, within range.
pub open spec fn parse_i64(s: Seq<char>) -> Option<i64> {
    let digits = unsigned_part(s);
    if digits.len() == 0 || !all_ascii_digits(digits) {
        None
    } else {
        let v: int = if s.len() > 0 && s[0] == '-' {
            -digits_value(digits)
        } else {
            digits_value(digits) as int
        };
        if i64::MIN <= v <= i64::MAX {
            Some(v as i64)
        } else {
            None
        }
    }
}

/// Whether the text of a float literal is one that `f64`'s parser reads: the literal's shape
/// is fixed by the tokenizer, so this asks only that its characters be ASCII.
pub open spec fn float_text_ok(s: Seq<char>) -> bool {
    forall|i: int| 0 <= i < s.len() ==> (#[trigger] s[i] as u32) < 128
}

/// The value of a literal token of the given kind and text.
pub open spec fn literal_value(kind: TokenKind, text: Seq<char>) -> Option<LiteralView> {
    match kind {
        TokenKind::IntLiteral => match parse_i64(text) {
            Some(v) => Some(LiteralView::Int(v)),
            None => None,
        },
        TokenKind::FloatLiteral => if float_text_ok(text) {
            Some(LiteralView::Float(text))
        } else {
            None
        },
        TokenKind::StringLiteral => if text.len() >= 2 {
            Some(LiteralView::String(text.subrange(1, text.len() - 1)))
        } else {
            None
        },
        TokenKind::BoolLiteral => if text == "true"@ {
            Some(LiteralView::Bool(true))
        } else if text == "false"@ {
            Some(LiteralView::Bool(false))
        } else {
            None
        },
        _ => None,
    }
}

/// A literal expression.
pub open spec fn literal(inp: ParseInput, pos: int) -> (Result<ParsedExprView, ParserError>, int) {
    let kind = peek(inp, pos).kind;
    let start = start_of(inp, pos);
    match consume(inp, pos) {
        (Err(e), p) => (Err(e), p),
        (Ok(t), p) => match literal_value(kind, token_text(inp, t)) {
            None => (Err(ParserError { kind: ParserErrorKind::InvalidLiteral(kind), range: t.range }), p),
            Some(l) => (
                Ok(ParsedExprView { kind: ParsedExprKindView::Literal(l), span: span_to(inp, start, p) }),
                p,
            ),
        },
    }
}

/// A variable.
pub open spec fn identifier(inp: ParseInput, pos: int) -> (Result<ParsedExprView, ParserError>, int) {
    let start = start_of(inp, pos);
    match consume(inp, pos) {
        (Err(e), p) => (Err(e), p),
        (Ok(t), p) => (
            Ok(
                ParsedExprView {
                    kind: ParsedExprKindView::Identifier(token_text(inp, t)),
                    span: span_to(inp, start, p),
                },
            ),
            p,
        ),
    }
}

/// A call of a function or builtin by name.
pub open spec fn fn_call(inp: ParseInput, pos: int) -> (Result<ParsedExprView, ParserError>, int)
    decreases remaining(inp, pos), 0int,
{
    let start = start_of(inp, pos);
    match consume(inp, pos) {
        (Err(e), p1) => (Err(e), p1),
        (Ok(t), p1) => match consume_specific(inp, p1, TokenKind::ParenOpen) {
            (Err(e), p2) => (Err(e), p2),
            (Ok(_), p2) => if advanced(inp, pos, p2) {
                match args(inp, p2, Seq::empty()) {
                    (Err(e), p3) => (Err(e), p3),
                    (Ok(a), p3) => match consume_specific(inp, p3, TokenKind::ParenClose) {
                        (Err(e), p4) => (Err(e), p4),
                        (Ok(_), p4) => {
                            let name = token_text(inp, t);
                            let kind = match builtin_named(name) {
                                Some(f) => ParsedExprKindView::BuiltinFnCall { function: f, args: a },
                                None => ParsedExprKindView::FnCall(
                                    ParsedFunctionCallView { name, args: a },
                                ),
                            };
                            (Ok(ParsedExprView { kind, span: span_to(inp, start, p4) }), p4)
                        },
                    },
                }
            } else {
                (Err(error_at(inp, p2, ParserErrorKind::UnexpectedEof(None))), p2)
            },
        },
    }
}

/// Call arguments up to the closing parenthesis, after those in `acc`; commas between them may
/// be left out.
pub open spec fn args(inp: ParseInput, pos: int, acc: Seq<ParsedExprView>) -> (
    Result<Seq<ParsedExprView>, ParserError>,
    int,
)
    decreases remaining(inp, pos), 6int,
{
    if peek(inp, pos).kind == TokenKind::ParenClose {
        (Ok(acc), pos)
    } else {
        match pratt(inp, pos, 0) {
            (Err(e), p1) => (Err(e), p1),
            (Ok(a), p1) => {
                let acc2 = acc.push(a);
                if peek(inp, p1).kind == TokenKind::Comma {
                    match consume_specific(inp, p1, TokenKind::Comma) {
                        (Err(e), p2) => (Err(e), p2),
                        (Ok(_), p2) => if advanced(inp, pos, p2) {
                            args(inp, p2, acc2)
                        } else {
                            (Ok(acc2), p2)
                        },
                    }
                } else if advanced(inp, pos, p1) {
                    args(inp, p1, acc2)
                } else {
                    (Ok(acc2), p1)
                }
            },
        }
    }
}

/// An expression whose infix operators bind at least as tightly as `min_bp`.
pub open spec fn pratt(inp: ParseInput, pos: int, min_bp: int) -> (
    Result<ParsedExprView, ParserError>,
    int,
)
    decreases remaining(inp, pos), 5int,
{
    match primary(inp, pos, false) {
        (Err(e), p1) => (Err(e), p1),
        (Ok(l), p1) => if 0 <= pos <= p1 <= inp.tokens.len() {
            pratt_loop(inp, pos, p1, min_bp, l)
        } else {
            (Ok(l), p1)
        },
    }
}

/// The infix operators after the left operand `lhs` of an expression that began at `start_pos`.
pub open spec fn pratt_loop(
    inp: ParseInput,
    start_pos: int,
    pos: int,
    min_bp: int,
    lhs: ParsedExprView,
) -> (Result<ParsedExprView, ParserError>, int)
    decreases remaining(inp, pos), 4int,
{
    let op = peek(inp, pos).kind;
    match infix_power(op) {
        None => (Ok(lhs), pos),
        Some((l, r)) => if (l as int) < min_bp {
            (Ok(lhs), pos)
        } else {
            match consume_specific(inp, pos, op) {
                (Err(e), p1) => (Err(e), p1),
                (Ok(_), p1) => if advanced(inp, pos, p1) {
                    match pratt(inp, p1, r as int) {
                        (Err(e), p2) => (Err(e), p2),
                        (Ok(rv), p2) => {
                            let e = ParsedExprView {
                                kind: ParsedExprKindView::InfixOp {
                                    op,
                                    lhs: Box::new(lhs),
                                    rhs: Box::new(rv),
                                },
                                span: span_to(inp, start_of(inp, start_pos), p2),
                            };
                            if p1 <= p2 <= inp.tokens.len() {
                                pratt_loop(inp, start_pos, p2, min_bp, e)
                            } else {
                                (Ok(e), p2)
                            }
                        },
                    }
                } else {
                    (Ok(lhs), p1)
                },
            }
        },
    }
}

/// A primary expression: a literal, a variable, a call, a prefix operator applied to an
/// expression, or a parenthesized expression. With `ignore_members`, `a.b` is not read as a
/// method call.
pub open spec fn primary(inp: ParseInput, pos: int, ignore_members: bool) -> (
    Result<ParsedExprView, ParserError>,
    int,
)
    decreases remaining(inp, pos), if ignore_members {
        1int
    } else {
        3int
    },
{
    let t = peek(inp, pos);
    match t.kind {
        TokenKind::IntLiteral
        | TokenKind::FloatLiteral
        | TokenKind::StringLiteral
        | TokenKind::BoolLiteral => literal(inp, pos),
        TokenKind::Identifier => {
            let next = peek_offset(inp, pos, 1).kind;
            if next == TokenKind::ParenOpen {
                fn_call(inp, pos)
            } else if next == TokenKind::Period && !ignore_members {
                if peek_offset(inp, pos, 2).kind == TokenKind::Identifier && peek_offset(
                    inp,
                    pos,
                    3,
                ).kind == TokenKind::ParenOpen {
                    method_call(inp, pos)
                } else {
                    (Err(error_at(inp, pos, ParserErrorKind::MemberAccessNotImplemented)), pos)
                }
            } else {
                identifier(inp, pos)
            }
        },
        TokenKind::Plus | TokenKind::Minus | TokenKind::ExclamationMark => prefix(inp, pos),
        TokenKind::ParenOpen => match consume_specific(inp, pos, TokenKind::ParenOpen) {
            (Err(e), p1) => (Err(e), p1),
            (Ok(_), p1) => if advanced(inp, pos, p1) {
                let (inner, p2) = pratt(inp, p1, 0);
                match consume_specific(inp, p2, TokenKind::ParenClose) {
                    (Err(e), p3) => (Err(e), p3),
                    (Ok(_), p3) => (inner, p3),
                }
            } else {
                (Err(error_at(inp, p1, ParserErrorKind::UnexpectedEof(None))), p1)
            },
        },
        k => (Err(error_at(inp, pos, ParserErrorKind::InvalidStartOfExpression(k))), pos),
    }
}

/// A prefix operator applied to the expression after it.
pub open spec fn prefix(inp: ParseInput, pos: int) -> (Result<ParsedExprView, ParserError>, int)
    decreases remaining(inp, pos), 0int,
{
    let start = start_of(inp, pos);
    match consume(inp, pos) {
        (Err(e), p1) => (Err(e), p1),
        (Ok(op), p1) => if advanced(inp, pos, p1) {
            match pratt(inp, p1, 0) {
                (Err(e), p2) => (Err(e), p2),
                (Ok(e), p2) => (
                    Ok(
                        ParsedExprView {
                            kind: ParsedExprKindView::PrefixOp {
                                op: op.kind,
                                expr: Box::new(e),
                            },
                            span: span_to(inp, start, p2),
                        },
                    ),
                    p2,
                ),
            }
        } else {
            (Err(error_at(inp, p1, ParserErrorKind::UnexpectedEof(None))), p1)
        },
    }
}

/// A method call `receiver.name(args)`.
pub open spec fn method_call(inp: ParseInput, pos: int) -> (Result<ParsedExprView, ParserError>, int)
    decreases remaining(inp, pos), 2int,
{
    let start = start_of(inp, pos);
    match primary(inp, pos, true) {
        (Err(e), p1) => (Err(e), p1),
        (Ok(receiver), p1) => match consume_specific(inp, p1, TokenKind::Period) {
            (Err(e), p2) => (Err(e), p2),
            (Ok(_), p2) => match consume(inp, p2) {
                (Err(e), p3) => (Err(e), p3),
                (Ok(nt), p3) => match consume_specific(inp, p3, TokenKind::ParenOpen) {
                    (Err(e), p4) => (Err(e), p4),
                    (Ok(_), p4) => if advanced(inp, pos, p4) {
                        match args(inp, p4, Seq::empty()) {
                            (Err(e), p5) => (Err(e), p5),
                            (Ok(a), p5) => match consume_specific(inp, p5, TokenKind::ParenClose) {
                                (Err(e), p6) => (Err(e), p6),
                                (Ok(_), p6) => (
                                    Ok(
                                        ParsedExprView {
                                            kind: ParsedExprKindView::MethodCall {
                                                expr: Box::new(receiver),
                                                call: ParsedFunctionCallView {
                                                    name: token_text(inp, nt),
                                                    args: a,
                                                },
                                            },
                                            span: span_to(inp, start, p6),
                                        },
                                    ),
                                    p6,
                                ),
                            },
                        }
                    } else {
                        (Err(error_at(inp, p4, ParserErrorKind::UnexpectedEof(None))), p4)
                    },
                },
            },
        },
    }
}

/// An expression.
pub open spec fn expression(inp: ParseInput, pos: int) -> (Result<ParsedExprView, ParserError>, int) {
    pratt(inp, pos, 0)
}

/// A statement.
pub open spec fn stmt(inp: ParseInput, pos: int) -> (Result<ParsedStmtView, ParserError>, int)
    decreases remaining(inp, pos), 8int,
{
    match peek(inp, pos).kind {
        TokenKind::Let => let_stmt(inp, pos),
        TokenKind::If => if_stmt(inp, pos),
        TokenKind::Loop => loop_stmt(inp, pos),
        TokenKind::While => while_stmt(inp, pos),
        TokenKind::Return => return_stmt(inp, pos),
        TokenKind::Continue => keyword_stmt(inp, pos, TokenKind::Continue, ParsedStmtView::Continue),
        TokenKind::Break => keyword_stmt(inp, pos, TokenKind::Break, ParsedStmtView::Break),
        TokenKind::BraceOpen => block(inp, pos, BlockKind::Regular),
        TokenKind::Identifier => if peek_offset(inp, pos, 1).kind == TokenKind::Equals {
            assignment(inp, pos)
        } else if is_compound_operator(peek_offset(inp, pos, 1).kind) && peek_offset(inp, pos, 2).kind
            == TokenKind::Equals {
            compound_assignment(inp, pos)
        } else {
            expr_stmt(inp, pos)
        },
        _ => expr_stmt(inp, pos),
    }
}

/// `continue;` or `break;`.
pub open spec fn keyword_stmt(inp: ParseInput, pos: int, keyword: TokenKind, s: ParsedStmtView) -> (
    Result<ParsedStmtView, ParserError>,
    int,
) {
    match consume_specific(inp, pos, keyword) {
        (Err(e), p1) => (Err(e), p1),
        (Ok(_), p1) => match consume_specific(inp, p1, TokenKind::Semicolon) {
            (Err(e), p2) => (Err(e), p2),
            (Ok(_), p2) => (Ok(s), p2),
        },
    }
}

/// `let type name = expr;`
pub open spec fn let_stmt(inp: ParseInput, pos: int) -> (Result<ParsedStmtView, ParserError>, int)
    decreases remaining(inp, pos), 7int,
{
    match consume_specific(inp, pos, TokenKind::Let) {
        (Err(e), p1) => (Err(e), p1),
        (Ok(_), p1) => match parse_type(inp, p1) {
            (Err(e), p2) => (Err(e), p2),
            (Ok(ty), p2) => match consume_specific(inp, p2, TokenKind::Identifier) {
                (Err(e), p3) => (Err(e), p3),
                (Ok(nt), p3) => match consume_specific(inp, p3, TokenKind::Equals) {
                    (Err(e), p4) => (Err(e), p4),
                    (Ok(_), p4) => if advanced(inp, pos, p4) {
                        match pratt(inp, p4, 0) {
                            (Err(e), p5) => (Err(e), p5),
                            (Ok(e), p5) => match consume_specific(inp, p5, TokenKind::Semicolon) {
                                (Err(err), p6) => (Err(err), p6),
                                (Ok(_), p6) => (
                                    Ok(
                                        ParsedStmtView::Let {
                                            name: token_text(inp, nt),
                                            parsed_type: ty,
                                            expr: e,
                                        },
                                    ),
                                    p6,
                                ),
                            },
                        }
                    } else {
                        (Err(error_at(inp, p4, ParserErrorKind::UnexpectedEof(None))), p4)
                    },
                },
            },
        },
    }
}

/// `if condition { ... }`, with an optional `else { ... }`.
pub open spec fn if_stmt(inp: ParseInput, pos: int) -> (Result<ParsedStmtView, ParserError>, int)
    decreases remaining(inp, pos), 7int,
{
    match consume_specific(inp, pos, TokenKind::If) {
        (Err(e), p1) => (Err(e), p1),
        (Ok(_), p1) => if advanced(inp, pos, p1) {
            match pratt(inp, p1, 0) {
                (Err(e), p2) => (Err(e), p2),
                (Ok(c), p2) => if p1 <= p2 <= inp.tokens.len() {
                    match block(inp, p2, BlockKind::Regular) {
                        (Err(e), p3) => (Err(e), p3),
                        (Ok(tb), p3) => if peek(inp, p3).kind == TokenKind::Else {
                            match consume_specific(inp, p3, TokenKind::Else) {
                                (Err(e), p4) => (Err(e), p4),
                                (Ok(_), p4) => if advanced(inp, pos, p4) {
                                    match block(inp, p4, BlockKind::Regular) {
                                        (Err(e), p5) => (Err(e), p5),
                                        (Ok(eb), p5) => (
                                            Ok(
                                                ParsedStmtView::If {
                                                    condition: c,
                                                    then_branch: Box::new(tb),
                                                    else_branch: Some(Box::new(eb)),
                                                },
                                            ),
                                            p5,
                                        ),
                                    }
                                } else {
                                    (Err(error_at(inp, p4, ParserErrorKind::UnexpectedEof(None))), p4)
                                },
                            }
                        } else {
                            (
                                Ok(
                                    ParsedStmtView::If {
                                        condition: c,
                                        then_branch: Box::new(tb),
                                        else_branch: None,
                                    },
                                ),
                                p3,
                            )
                        },
                    }
                } else {
                    (Err(error_at(inp, p2, ParserErrorKind::UnexpectedEof(None))), p2)
                },
            }
        } else {
            (Err(error_at(inp, p1, ParserErrorKind::UnexpectedEof(None))), p1)
        },
    }
}

/// `loop { ... }`
pub open spec fn loop_stmt(inp: ParseInput, pos: int) -> (Result<ParsedStmtView, ParserError>, int)
    decreases remaining(inp, pos), 7int,
{
    match consume_specific(inp, pos, TokenKind::Loop) {
        (Err(e), p1) => (Err(e), p1),
        (Ok(_), p1) => if advanced(inp, pos, p1) {
            match block(inp, p1, BlockKind::Loop) {
                (Err(e), p2) => (Err(e), p2),
                (Ok(b), p2) => (Ok(ParsedStmtView::Loop { body: Box::new(b) }), p2),
            }
        } else {
            (Err(error_at(inp, p1, ParserErrorKind::UnexpectedEof(None))), p1)
        },
    }
}

/// The operators that combine with `=` to update a variable: `+=`, `-=`, `*=`, `/=`, `%=`.
pub open spec fn is_compound_operator(k: TokenKind) -> bool {
    k == TokenKind::Plus || k == TokenKind::Minus || k == TokenKind::Asterisk || k == TokenKind::Slash
        || k == TokenKind::Percent
}

/// `while condition { ... }`
pub open spec fn while_stmt(inp: ParseInput, pos: int) -> (Result<ParsedStmtView, ParserError>, int)
    decreases remaining(inp, pos), 7int,
{
    match consume_specific(inp, pos, TokenKind::While) {
        (Err(e), p1) => (Err(e), p1),
        (Ok(_), p1) => if advanced(inp, pos, p1) {
            match pratt(inp, p1, 0) {
                (Err(e), p2) => (Err(e), p2),
                (Ok(c), p2) => if p1 <= p2 <= inp.tokens.len() {
                    match block(inp, p2, BlockKind::Loop) {
                        (Err(e), p3) => (Err(e), p3),
                        (Ok(b), p3) => (Ok(ParsedStmtView::While { condition: c, body: Box::new(b) }), p3),
                    }
                } else {
                    (Err(error_at(inp, p2, ParserErrorKind::UnexpectedEof(None))), p2)
                },
            }
        } else {
            (Err(error_at(inp, p1, ParserErrorKind::UnexpectedEof(None))), p1)
        },
    }
}

/// `name op= expr;`
pub open spec fn compound_assignment(inp: ParseInput, pos: int) -> (Result<ParsedStmtView, ParserError>, int)
    decreases remaining(inp, pos), 7int,
{
    match consume_specific(inp, pos, TokenKind::Identifier) {
        (Err(e), p1) => (Err(e), p1),
        (Ok(nt), p1) => match consume(inp, p1) {
            (Err(e), p2) => (Err(e), p2),
            (Ok(op), p2) => match consume_specific(inp, p2, TokenKind::Equals) {
                (Err(e), p3) => (Err(e), p3),
                (Ok(_), p3) => if advanced(inp, pos, p3) {
                    match pratt(inp, p3, 0) {
                        (Err(e), p4) => (Err(e), p4),
                        (Ok(e), p4) => match consume_specific(inp, p4, TokenKind::Semicolon) {
                            (Err(err), p5) => (Err(err), p5),
                            (Ok(_), p5) => (
                                Ok(
                                    ParsedStmtView::CompoundAssignment {
                                        name: token_text(inp, nt),
                                        op: op.kind,
                                        expr: e,
                                    },
                                ),
                                p5,
                            ),
                        },
                    }
                } else {
                    (Err(error_at(inp, p3, ParserErrorKind::UnexpectedEof(None))), p3)
                },
            },
        },
    }
}

/// `return;` or `return expr;`
pub open spec fn return_stmt(inp: ParseInput, pos: int) -> (Result<ParsedStmtView, ParserError>, int)
    decreases remaining(inp, pos), 7int,
{
    match consume_specific(inp, pos, TokenKind::Return) {
        (Err(e), p1) => (Err(e), p1),
        (Ok(_), p1) => if peek(inp, p1).kind == TokenKind::Semicolon {
            match consume_specific(inp, p1, TokenKind::Semicolon) {
                (Err(e), p2) => (Err(e), p2),
                (Ok(_), p2) => (Ok(ParsedStmtView::Return { expr: None }), p2),
            }
        } else if advanced(inp, pos, p1) {
            match pratt(inp, p1, 0) {
                (Err(e), p2) => (Err(e), p2),
                (Ok(e), p2) => match consume_specific(inp, p2, TokenKind::Semicolon) {
                    (Err(err), p3) => (Err(err), p3),
                    (Ok(_), p3) => (Ok(ParsedStmtView::Return { expr: Some(e) }), p3),
                },
            }
        } else {
            (Err(error_at(inp, p1, ParserErrorKind::UnexpectedEof(None))), p1)
        },
    }
}

/// `{ statements }`
pub open spec fn block(inp: ParseInput, pos: int, kind: BlockKind) -> (
    Result<ParsedStmtView, ParserError>,
    int,
)
    decreases remaining(inp, pos), 7int,
{
    match consume_specific(inp, pos, TokenKind::BraceOpen) {
        (Err(e), p1) => (Err(e), p1),
        (Ok(_), p1) => if advanced(inp, pos, p1) {
            match stmts(inp, p1, Seq::empty()) {
                (Err(e), p2) => (Err(e), p2),
                (Ok(ss), p2) => match consume_specific(inp, p2, TokenKind::BraceClose) {
                    (Err(e), p3) => (Err(e), p3),
                    (Ok(_), p3) => (Ok(ParsedStmtView::Block { block_kind: kind, statements: ss }), p3),
                },
            }
        } else {
            (Err(error_at(inp, p1, ParserErrorKind::UnexpectedEof(None))), p1)
        },
    }
}

/// Statements up to the closing brace, after those in `acc`.
pub open spec fn stmts(inp: ParseInput, pos: int, acc: Seq<ParsedStmtView>) -> (
    Result<Seq<ParsedStmtView>, ParserError>,
    int,
)
    decreases remaining(inp, pos), 9int,
{
    if peek(inp, pos).kind == TokenKind::BraceClose {
        (Ok(acc), pos)
    } else {
        match stmt(inp, pos) {
            (Err(e), p1) => (Err(e), p1),
            (Ok(s), p1) => if advanced(inp, pos, p1) {
                stmts(inp, p1, acc.push(s))
            } else {
                (Ok(acc.push(s)), p1)
            },
        }
    }
}

/// `name = expr;`
pub open spec fn assignment(inp: ParseInput, pos: int) -> (Result<ParsedStmtView, ParserError>, int)
    decreases remaining(inp, pos), 7int,
{
    match consume_specific(inp, pos, TokenKind::Identifier) {
        (Err(e), p1) => (Err(e), p1),
        (Ok(nt), p1) => match consume_specific(inp, p1, TokenKind::Equals) {
            (Err(e), p2) => (Err(e), p2),
            (Ok(_), p2) => if advanced(inp, pos, p2) {
                match pratt(inp, p2, 0) {
                    (Err(e), p3) => (Err(e), p3),
                    (Ok(e), p3) => match consume_specific(inp, p3, TokenKind::Semicolon) {
                        (Err(err), p4) => (Err(err), p4),
                        (Ok(_), p4) => (
                            Ok(ParsedStmtView::Assignment { name: token_text(inp, nt), expr: e }),
                            p4,
                        ),
                    },
                }
            } else {
                (Err(error_at(inp, p2, ParserErrorKind::UnexpectedEof(None))), p2)
            },
        },
    }
}

/// `expr;`
pub open spec fn expr_stmt(inp: ParseInput, pos: int) -> (Result<ParsedStmtView, ParserError>, int)
    decreases remaining(inp, pos), 7int,
{
    match pratt(inp, pos, 0) {
        (Err(e), p1) => (Err(e), p1),
        (Ok(e), p1) => match consume_specific(inp, p1, TokenKind::Semicolon) {
            (Err(err), p2) => (Err(err), p2),
            (Ok(_), p2) => (Ok(ParsedStmtView::Expression { expr: e }), p2),
        },
    }
}

/// Parameters, each a type and a name, up to the closing parenthesis, after those in `acc`;
/// a comma may follow each.
pub open spec fn params(inp: ParseInput, pos: int, acc: Seq<(Seq<char>, ParsedTypeView)>) -> (
    Result<Seq<(Seq<char>, ParsedTypeView)>, ParserError>,
    int,
)
    decreases remaining(inp, pos),
{
    if peek(inp, pos).kind == TokenKind::ParenClose {
        (Ok(acc), pos)
    } else {
        match parse_type(inp, pos) {
            (Err(e), p1) => (Err(e), p1),
            (Ok(ty), p1) => match consume_specific(inp, p1, TokenKind::Identifier) {
                (Err(e), p2) => (Err(e), p2),
                (Ok(t), p2) => {
                    let acc2 = acc.push((token_text(inp, t), ty));
                    if peek(inp, p2).kind == TokenKind::Comma {
                        match consume_specific(inp, p2, TokenKind::Comma) {
                            (Err(e), p3) => (Err(e), p3),
                            (Ok(_), p3) => if advanced(inp, pos, p3) {
                                params(inp, p3, acc2)
                            } else {
                                (Ok(acc2), p3)
                            },
                        }
                    } else if advanced(inp, pos, p2) {
                        params(inp, p2, acc2)
                    } else {
                        (Ok(acc2), p2)
                    }
                },
            },
        }
    }
}

/// `fn name(params) -> type { body }`
pub open spec fn function_item(inp: ParseInput, pos: int) -> (
    Result<ParsedFunctionItemView, ParserError>,
    int,
) {
    match consume_specific(inp, pos, TokenKind::Fn) {
        (Err(e), p1) => (Err(e), p1),
        (Ok(_), p1) => match consume_specific(inp, p1, TokenKind::Identifier) {
            (Err(e), p2) => (Err(e), p2),
            (Ok(nt), p2) => match consume_specific(inp, p2, TokenKind::ParenOpen) {
                (Err(e), p3) => (Err(e), p3),
                (Ok(_), p3) => match params(inp, p3, Seq::empty()) {
                    (Err(e), p4) => (Err(e), p4),
                    (Ok(ps), p4) => match consume_specific(inp, p4, TokenKind::ParenClose) {
                        (Err(e), p5) => (Err(e), p5),
                        (Ok(_), p5) => match consume_specific(inp, p5, TokenKind::Arrow) {
                            (Err(e), p6) => (Err(e), p6),
                            (Ok(_), p6) => match parse_type(inp, p6) {
                                (Err(e), p7) => (Err(e), p7),
                                (Ok(rt), p7) => {
                                    let k = peek(inp, p7).kind;
                                    if k != TokenKind::BraceOpen {
                                        (
                                            Err(
                                                error_at(
                                                    inp,
                                                    p7,
                                                    ParserErrorKind::UnexpectedToken(
                                                        k,
                                                        Some(TokenKind::BraceOpen),
                                                    ),
                                                ),
                                            ),
                                            p7,
                                        )
                                    } else {
                                        match stmt(inp, p7) {
                                            (Err(e), p8) => (Err(e), p8),
                                            (Ok(body), p8) => (
                                                Ok(
                                                    ParsedFunctionItemView {
                                                        name: token_text(inp, nt),
                                                        parameters: ps,
                                                        body,
                                                        return_type: rt,
                                                    },
                                                ),
                                                p8,
                                            ),
                                        }
                                    }
                                },
                            },
                        },
                    },
                },
            },
        },
    }
}

/// Methods up to the closing brace, after those in `acc`.
pub open spec fn methods(inp: ParseInput, pos: int, acc: Seq<ParsedFunctionItemView>) -> (
    Result<Seq<ParsedFunctionItemView>, ParserError>,
    int,
)
    decreases remaining(inp, pos),
{
    if peek(inp, pos).kind == TokenKind::BraceClose {
        (Ok(acc), pos)
    } else {
        match function_item(inp, pos) {
            (Err(e), p1) => (Err(e), p1),
            (Ok(m), p1) => if advanced(inp, pos, p1) {
                methods(inp, p1, acc.push(m))
            } else {
                (Ok(acc.push(m)), p1)
            },
        }
    }
}

/// `extend type { methods }`
pub open spec fn extends(inp: ParseInput, pos: int) -> (Result<ParsedExtendsItemView, ParserError>, int) {
    match consume_specific(inp, pos, TokenKind::Extend) {
        (Err(e), p1) => (Err(e), p1),
        (Ok(_), p1) => match parse_type(inp, p1) {
            (Err(e), p2) => (Err(e), p2),
            (Ok(ty), p2) => match consume_specific(inp, p2, TokenKind::BraceOpen) {
                (Err(e), p3) => (Err(e), p3),
                (Ok(_), p3) => match methods(inp, p3, Seq::empty()) {
                    (Err(e), p4) => (Err(e), p4),
                    (Ok(ms), p4) => match consume_specific(inp, p4, TokenKind::BraceClose) {
                        (Err(e), p5) => (Err(e), p5),
                        (Ok(_), p5) => (Ok(ParsedExtendsItemView { parsed_type: ty, methods: ms }), p5),
                    },
                },
            },
        },
    }
}

/// A function or an extension.
pub open spec fn item(inp: ParseInput, pos: int) -> (Result<ParsedItemView, ParserError>, int) {
    match peek(inp, pos).kind {
        TokenKind::Fn => match function_item(inp, pos) {
            (Err(e), p) => (Err(e), p),
            (Ok(f), p) => (Ok(ParsedItemView::Function(f)), p),
        },
        TokenKind::Extend => match extends(inp, pos) {
            (Err(e), p) => (Err(e), p),
            (Ok(x), p) => (Ok(ParsedItemView::Extends(x)), p),
        },
        k => (Err(error_at(inp, pos, ParserErrorKind::UnexpectedToken(k, None))), pos),
    }
}

/// Items up to the end of the file, after those in `acc`.
pub open spec fn top_level(inp: ParseInput, pos: int, acc: Seq<ParsedItemView>) -> (
    Result<Seq<ParsedItemView>, ParserError>,
    int,
)
    decreases remaining(inp, pos),
{
    if peek(inp, pos).kind == TokenKind::EndOfFile {
        (Ok(acc), pos)
    } else {
        match item(inp, pos) {
            (Err(e), p1) => (Err(e), p1),
            (Ok(it), p1) => if advanced(inp, pos, p1) {
                top_level(inp, p1, acc.push(it))
            } else {
                (Ok(acc.push(it)), p1)
            },
        }
    }
}

/// What parsing a whole input gives: its items, or the first error.
pub open spec fn parse_program(inp: ParseInput) -> Result<Seq<ParsedItemView>, ParserError> {
    top_level(inp, 0, Seq::empty()).0
}

} // verus!
