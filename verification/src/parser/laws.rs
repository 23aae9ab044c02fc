//! What holds of every parse: the parser only moves forward, a bounded distance; a parse that
//! succeeds takes at least one token and stays within the tokens.
use vstd::prelude::*;

use crate::parser::ast::BlockKind;
use crate::parser::grammar::{
    advanced, args, assignment, compound_assignment, while_stmt, parse_bound, block, consume, consume_specific, expr_stmt, fn_call, function_item,
    identifier, if_stmt, item, let_stmt, literal, loop_stmt, method_call, methods, params,
    parse_type, peek, peek_offset, pratt, pratt_loop, prefix, primary, remaining, return_stmt,
    span_to, start_of, stmt, stmts, token_text, top_level,
};
use crate::parser::error::ParserError;
use crate::parser::infix_power;
use crate::parser::{input_wf, ParseInput, ParsedExprKindView, ParsedExprView, ParsedStmtView};
use crate::tokenizer::token::Token;
use crate::tokenizer::token::TokenKind;

verus! {

/// A parse from `pos` that left the parser at `p`: it moved forward, no further than
/// `parse_bound`, and if it succeeded, it moved at least one token and stayed within the
/// tokens.
pub open spec fn moved<T>(inp: ParseInput, pos: int, r: (Result<T, crate::parser::error::ParserError>, int)) -> bool {
    &&& pos <= r.1 <= parse_bound(inp, pos)
    &&& r.0 is Ok ==> pos < r.1 <= inp.tokens.len()
}

/// Like `moved`, for a parse that may succeed without taking a token.
pub open spec fn kept<T>(inp: ParseInput, pos: int, r: (Result<T, crate::parser::error::ParserError>, int)) -> bool {
    &&& pos <= r.1 <= parse_bound(inp, pos)
    &&& r.0 is Ok ==> r.1 <= inp.tokens.len()
}

pub proof fn lemma_consume(inp: ParseInput, pos: int)
    requires
        0 <= pos,
    ensures
        moved(inp, pos, consume(inp, pos)),
        consume(inp, pos).0 is Ok ==> consume(inp, pos).1 == pos + 1,
        moved(inp, pos, parse_type(inp, pos)),
        forall|k: TokenKind| #[trigger] consume_specific(inp, pos, k).0 is Ok ==> consume_specific(inp, pos, k).1
            == pos + 1,
        forall|k: TokenKind| moved(inp, pos, #[trigger] consume_specific(inp, pos, k)),
{
}

pub proof fn lemma_literal(inp: ParseInput, pos: int)
    requires
        0 <= pos,
    ensures
        moved(inp, pos, literal(inp, pos)),
        moved(inp, pos, identifier(inp, pos)),
{
}

pub proof fn lemma_fn_call(inp: ParseInput, pos: int)
    requires
        0 <= pos <= inp.tokens.len(),
    ensures
        moved(inp, pos, fn_call(inp, pos)),
    decreases remaining(inp, pos), 0int,
{
    lemma_consume(inp, pos);
    let p1 = consume(inp, pos).1;
    lemma_consume(inp, p1);
    let p2 = consume_specific(inp, p1, TokenKind::ParenOpen).1;
    if consume(inp, pos).0 is Ok && consume_specific(inp, p1, TokenKind::ParenOpen).0 is Ok && advanced(inp, pos, p2) {
        lemma_args(inp, p2, Seq::empty());
        lemma_consume(inp, args(inp, p2, Seq::empty()).1);
    }
}

pub proof fn lemma_args(inp: ParseInput, pos: int, acc: Seq<ParsedExprView>)
    requires
        0 <= pos <= inp.tokens.len(),
    ensures
        kept(inp, pos, args(inp, pos, acc)),
    decreases remaining(inp, pos), 6int,
{
    if peek(inp, pos).kind != TokenKind::ParenClose {
        lemma_pratt(inp, pos, 0);
        let (r, p1) = pratt(inp, pos, 0);
        if let Ok(a) = r {
            lemma_consume(inp, p1);
            if peek(inp, p1).kind == TokenKind::Comma {
                let p2 = consume_specific(inp, p1, TokenKind::Comma).1;
                if consume_specific(inp, p1, TokenKind::Comma).0 is Ok && advanced(inp, pos, p2) {
                    lemma_args(inp, p2, acc.push(a));
                }
            } else if advanced(inp, pos, p1) {
                lemma_args(inp, p1, acc.push(a));
            }
        }
    }
}

pub proof fn lemma_pratt(inp: ParseInput, pos: int, min_bp: int)
    requires
        0 <= pos <= inp.tokens.len(),
    ensures
        moved(inp, pos, pratt(inp, pos, min_bp)),
    decreases remaining(inp, pos), 5int,
{
    lemma_primary(inp, pos, false);
    let (r, p1) = primary(inp, pos, false);
    if let Ok(l) = r {
        lemma_pratt_loop(inp, pos, p1, min_bp, l);
    }
}

pub proof fn lemma_pratt_loop(inp: ParseInput, start_pos: int, pos: int, min_bp: int, lhs: ParsedExprView)
    requires
        0 <= pos <= inp.tokens.len(),
    ensures
        kept(inp, pos, pratt_loop(inp, start_pos, pos, min_bp, lhs)),
    decreases remaining(inp, pos), 4int,
{
    let op = peek(inp, pos).kind;
    lemma_consume(inp, pos);
    if let Some((l, r)) = crate::parser::infix_power(op) {
        if (l as int) >= min_bp {
            let p1 = consume_specific(inp, pos, op).1;
            if consume_specific(inp, pos, op).0 is Ok && advanced(inp, pos, p1) {
                lemma_pratt(inp, p1, r as int);
                let (rr, p2) = pratt(inp, p1, r as int);
                if let Ok(rv) = rr {
                    let e = ParsedExprView {
                        kind: crate::parser::ParsedExprKindView::InfixOp {
                            op,
                            lhs: Box::new(lhs),
                            rhs: Box::new(rv),
                        },
                        span: span_to(inp, start_of(inp, start_pos), p2),
                    };
                    lemma_pratt_loop(inp, start_pos, p2, min_bp, e);
                }
            }
        }
    }
}

pub proof fn lemma_primary(inp: ParseInput, pos: int, ignore_members: bool)
    requires
        0 <= pos <= inp.tokens.len(),
    ensures
        moved(inp, pos, primary(inp, pos, ignore_members)),
    decreases remaining(inp, pos), if ignore_members {
        1int
    } else {
        3int
    },
{
    lemma_literal(inp, pos);
    lemma_consume(inp, pos);
    match peek(inp, pos).kind {
        TokenKind::Identifier => {
            let next = peek_offset(inp, pos, 1).kind;
            if next == TokenKind::ParenOpen {
                lemma_fn_call(inp, pos);
            } else if next == TokenKind::Period && !ignore_members {
                if peek_offset(inp, pos, 2).kind == TokenKind::Identifier && peek_offset(inp, pos, 3).kind
                    == TokenKind::ParenOpen {
                    lemma_method_call(inp, pos);
                }
            }
        },
        TokenKind::Plus | TokenKind::Minus | TokenKind::ExclamationMark => {
            lemma_prefix(inp, pos);
        },
        TokenKind::ParenOpen => {
            let p1 = consume_specific(inp, pos, TokenKind::ParenOpen).1;
            if consume_specific(inp, pos, TokenKind::ParenOpen).0 is Ok && advanced(inp, pos, p1) {
                lemma_pratt(inp, p1, 0);
                lemma_consume(inp, pratt(inp, p1, 0).1);
            }
        },
        _ => {},
    }
}

pub proof fn lemma_prefix(inp: ParseInput, pos: int)
    requires
        0 <= pos <= inp.tokens.len(),
    ensures
        moved(inp, pos, prefix(inp, pos)),
    decreases remaining(inp, pos), 0int,
{
    lemma_consume(inp, pos);
    let p1 = consume(inp, pos).1;
    if consume(inp, pos).0 is Ok && advanced(inp, pos, p1) {
        lemma_pratt(inp, p1, 0);
    }
}

pub proof fn lemma_method_call(inp: ParseInput, pos: int)
    requires
        0 <= pos <= inp.tokens.len(),
    ensures
        moved(inp, pos, method_call(inp, pos)),
    decreases remaining(inp, pos), 2int,
{
    lemma_primary(inp, pos, true);
    let p1 = primary(inp, pos, true).1;
    lemma_consume(inp, p1);
    let p2 = consume_specific(inp, p1, TokenKind::Period).1;
    lemma_consume(inp, p2);
    let p3 = consume(inp, p2).1;
    lemma_consume(inp, p3);
    let p4 = consume_specific(inp, p3, TokenKind::ParenOpen).1;
    if advanced(inp, pos, p4) {
        lemma_args(inp, p4, Seq::empty());
        lemma_consume(inp, args(inp, p4, Seq::empty()).1);
    }
}

pub proof fn lemma_stmt(inp: ParseInput, pos: int)
    requires
        0 <= pos <= inp.tokens.len(),
    ensures
        moved(inp, pos, stmt(inp, pos)),
    decreases remaining(inp, pos), 8int,
{
    lemma_consume(inp, pos);
    match peek(inp, pos).kind {
        TokenKind::Let => lemma_let_stmt(inp, pos),
        TokenKind::If => lemma_if_stmt(inp, pos),
        TokenKind::Loop => lemma_loop_stmt(inp, pos),
        TokenKind::Return => lemma_return_stmt(inp, pos),
        TokenKind::Continue | TokenKind::Break => {
            let p1 = consume_specific(inp, pos, peek(inp, pos).kind).1;
            lemma_consume(inp, p1);
        },
        TokenKind::BraceOpen => lemma_block(inp, pos, BlockKind::Regular),
        TokenKind::Identifier => {
            lemma_assignment(inp, pos);
            lemma_compound_assignment(inp, pos);
            lemma_expr_stmt(inp, pos);
        },
        TokenKind::While => lemma_while_stmt(inp, pos),
        _ => lemma_expr_stmt(inp, pos),
    }
}

pub proof fn lemma_let_stmt(inp: ParseInput, pos: int)
    requires
        0 <= pos <= inp.tokens.len(),
    ensures
        moved(inp, pos, let_stmt(inp, pos)),
    decreases remaining(inp, pos), 7int,
{
    lemma_consume(inp, pos);
    let p1 = consume_specific(inp, pos, TokenKind::Let).1;
    lemma_consume(inp, p1);
    let p2 = parse_type(inp, p1).1;
    lemma_consume(inp, p2);
    let p3 = consume_specific(inp, p2, TokenKind::Identifier).1;
    lemma_consume(inp, p3);
    let p4 = consume_specific(inp, p3, TokenKind::Equals).1;
    if advanced(inp, pos, p4) {
        lemma_pratt(inp, p4, 0);
        lemma_consume(inp, pratt(inp, p4, 0).1);
    }
}

pub proof fn lemma_if_stmt(inp: ParseInput, pos: int)
    requires
        0 <= pos <= inp.tokens.len(),
    ensures
        moved(inp, pos, if_stmt(inp, pos)),
    decreases remaining(inp, pos), 7int,
{
    lemma_consume(inp, pos);
    let p1 = consume_specific(inp, pos, TokenKind::If).1;
    if consume_specific(inp, pos, TokenKind::If).0 is Ok && advanced(inp, pos, p1) {
        lemma_pratt(inp, p1, 0);
        let p2 = pratt(inp, p1, 0).1;
        if pratt(inp, p1, 0).0 is Ok && p1 <= p2 <= inp.tokens.len() {
            lemma_block(inp, p2, BlockKind::Regular);
            let p3 = block(inp, p2, BlockKind::Regular).1;
            lemma_consume(inp, p3);
            let p4 = consume_specific(inp, p3, TokenKind::Else).1;
            if advanced(inp, pos, p4) {
                lemma_block(inp, p4, BlockKind::Regular);
            }
        }
    }
}

pub proof fn lemma_loop_stmt(inp: ParseInput, pos: int)
    requires
        0 <= pos <= inp.tokens.len(),
    ensures
        moved(inp, pos, loop_stmt(inp, pos)),
    decreases remaining(inp, pos), 7int,
{
    lemma_consume(inp, pos);
    let p1 = consume_specific(inp, pos, TokenKind::Loop).1;
    if advanced(inp, pos, p1) {
        lemma_block(inp, p1, BlockKind::Loop);
    }
}

pub proof fn lemma_while_stmt(inp: ParseInput, pos: int)
    requires
        0 <= pos <= inp.tokens.len(),
    ensures
        moved(inp, pos, while_stmt(inp, pos)),
    decreases remaining(inp, pos), 7int,
{
    lemma_consume(inp, pos);
    let p1 = consume_specific(inp, pos, TokenKind::While).1;
    if consume_specific(inp, pos, TokenKind::While).0 is Ok && advanced(inp, pos, p1) {
        lemma_pratt(inp, p1, 0);
        let p2 = pratt(inp, p1, 0).1;
        if pratt(inp, p1, 0).0 is Ok && p1 <= p2 <= inp.tokens.len() {
            lemma_block(inp, p2, BlockKind::Loop);
        }
    }
}

pub proof fn lemma_compound_assignment(inp: ParseInput, pos: int)
    requires
        0 <= pos <= inp.tokens.len(),
    ensures
        moved(inp, pos, compound_assignment(inp, pos)),
    decreases remaining(inp, pos), 7int,
{
    lemma_consume(inp, pos);
    let p1 = consume_specific(inp, pos, TokenKind::Identifier).1;
    lemma_consume(inp, p1);
    let p2 = consume(inp, p1).1;
    lemma_consume(inp, p2);
    let p3 = consume_specific(inp, p2, TokenKind::Equals).1;
    if advanced(inp, pos, p3) {
        lemma_pratt(inp, p3, 0);
        lemma_consume(inp, pratt(inp, p3, 0).1);
    }
}

pub proof fn lemma_return_stmt(inp: ParseInput, pos: int)
    requires
        0 <= pos <= inp.tokens.len(),
    ensures
        moved(inp, pos, return_stmt(inp, pos)),
    decreases remaining(inp, pos), 7int,
{
    lemma_consume(inp, pos);
    let p1 = consume_specific(inp, pos, TokenKind::Return).1;
    lemma_consume(inp, p1);
    if advanced(inp, pos, p1) {
        lemma_pratt(inp, p1, 0);
        lemma_consume(inp, pratt(inp, p1, 0).1);
    }
}

pub proof fn lemma_block(inp: ParseInput, pos: int, kind: BlockKind)
    requires
        0 <= pos <= inp.tokens.len(),
    ensures
        moved(inp, pos, block(inp, pos, kind)),
    decreases remaining(inp, pos), 7int,
{
    lemma_consume(inp, pos);
    let p1 = consume_specific(inp, pos, TokenKind::BraceOpen).1;
    if advanced(inp, pos, p1) {
        lemma_stmts(inp, p1, Seq::empty());
        lemma_consume(inp, stmts(inp, p1, Seq::empty()).1);
    }
}

pub proof fn lemma_stmts(inp: ParseInput, pos: int, acc: Seq<ParsedStmtView>)
    requires
        0 <= pos <= inp.tokens.len(),
    ensures
        kept(inp, pos, stmts(inp, pos, acc)),
    decreases remaining(inp, pos), 9int,
{
    if peek(inp, pos).kind != TokenKind::BraceClose {
        lemma_stmt(inp, pos);
        let (r, p1) = stmt(inp, pos);
        if let Ok(s) = r {
            lemma_stmts(inp, p1, acc.push(s));
        }
    }
}

pub proof fn lemma_assignment(inp: ParseInput, pos: int)
    requires
        0 <= pos <= inp.tokens.len(),
    ensures
        moved(inp, pos, assignment(inp, pos)),
    decreases remaining(inp, pos), 7int,
{
    lemma_consume(inp, pos);
    let p1 = consume_specific(inp, pos, TokenKind::Identifier).1;
    lemma_consume(inp, p1);
    let p2 = consume_specific(inp, p1, TokenKind::Equals).1;
    if advanced(inp, pos, p2) {
        lemma_pratt(inp, p2, 0);
        lemma_consume(inp, pratt(inp, p2, 0).1);
    }
}

pub proof fn lemma_expr_stmt(inp: ParseInput, pos: int)
    requires
        0 <= pos <= inp.tokens.len(),
    ensures
        moved(inp, pos, expr_stmt(inp, pos)),
    decreases remaining(inp, pos), 7int,
{
    lemma_pratt(inp, pos, 0);
    lemma_consume(inp, pratt(inp, pos, 0).1);
}

pub proof fn lemma_params(inp: ParseInput, pos: int, acc: Seq<(Seq<char>, crate::parser::ParsedTypeView)>)
    requires
        0 <= pos <= inp.tokens.len(),
    ensures
        kept(inp, pos, params(inp, pos, acc)),
    decreases remaining(inp, pos),
{
    lemma_consume(inp, pos);
    if peek(inp, pos).kind != TokenKind::ParenClose {
        let (r1, p1) = parse_type(inp, pos);
        lemma_consume(inp, p1);
        if let Ok(ty) = r1 {
            let (r, p2) = consume_specific(inp, p1, TokenKind::Identifier);
            lemma_consume(inp, p2);
            if let Ok(t) = r {
                let acc2 = acc.push((token_text(inp, t), ty));
                if peek(inp, p2).kind == TokenKind::Comma {
                    let p3 = consume_specific(inp, p2, TokenKind::Comma).1;
                    if consume_specific(inp, p2, TokenKind::Comma).0 is Ok && advanced(inp, pos, p3) {
                        lemma_params(inp, p3, acc2);
                    }
                } else if advanced(inp, pos, p2) {
                    lemma_params(inp, p2, acc2);
                }
            }
        }
    }
}

pub proof fn lemma_function_item(inp: ParseInput, pos: int)
    requires
        0 <= pos <= inp.tokens.len(),
    ensures
        moved(inp, pos, function_item(inp, pos)),
{
    lemma_consume(inp, pos);
    let p1 = consume_specific(inp, pos, TokenKind::Fn).1;
    lemma_consume(inp, p1);
    let p2 = consume_specific(inp, p1, TokenKind::Identifier).1;
    lemma_consume(inp, p2);
    let p3 = consume_specific(inp, p2, TokenKind::ParenOpen).1;
    if p3 <= inp.tokens.len() {
        lemma_params(inp, p3, Seq::empty());
    }
    let p4 = params(inp, p3, Seq::empty()).1;
    lemma_consume(inp, p4);
    let p5 = consume_specific(inp, p4, TokenKind::ParenClose).1;
    lemma_consume(inp, p5);
    let p6 = consume_specific(inp, p5, TokenKind::Arrow).1;
    lemma_consume(inp, p6);
    let p7 = parse_type(inp, p6).1;
    if p7 <= inp.tokens.len() {
        lemma_stmt(inp, p7);
    }
}

pub proof fn lemma_methods(inp: ParseInput, pos: int, acc: Seq<crate::parser::item::ParsedFunctionItemView>)
    requires
        0 <= pos <= inp.tokens.len(),
    ensures
        kept(inp, pos, methods(inp, pos, acc)),
    decreases remaining(inp, pos),
{
    if peek(inp, pos).kind != TokenKind::BraceClose {
        lemma_function_item(inp, pos);
        let (r, p1) = function_item(inp, pos);
        if let Ok(m) = r {
            lemma_methods(inp, p1, acc.push(m));
        }
    }
}

pub proof fn lemma_item(inp: ParseInput, pos: int)
    requires
        0 <= pos <= inp.tokens.len(),
    ensures
        moved(inp, pos, item(inp, pos)),
{
    lemma_function_item(inp, pos);
    lemma_consume(inp, pos);
    let p1 = consume_specific(inp, pos, TokenKind::Extend).1;
    lemma_consume(inp, p1);
    let p2 = parse_type(inp, p1).1;
    lemma_consume(inp, p2);
    let p3 = consume_specific(inp, p2, TokenKind::BraceOpen).1;
    if p3 <= inp.tokens.len() {
        lemma_methods(inp, p3, Seq::empty());
    }
    lemma_consume(inp, methods(inp, p3, Seq::empty()).1);
}

proof fn lemma_top_level(inp: ParseInput, pos: int, acc: Seq<crate::parser::item::ParsedItemView>)
    requires
        0 <= pos <= inp.tokens.len(),
    ensures
        kept(inp, pos, top_level(inp, pos, acc)),
        top_level(inp, pos, acc).0 is Ok ==> peek(inp, top_level(inp, pos, acc).1).kind == TokenKind::EndOfFile,
    decreases remaining(inp, pos),
{
    if peek(inp, pos).kind != TokenKind::EndOfFile {
        lemma_item(inp, pos);
        let (r, p1) = item(inp, pos);
        if let Ok(it) = r {
            lemma_top_level(inp, p1, acc.push(it));
        }
    }
}

/// A program that parses was read to its end: parsing stops only at the end-of-file token.
pub proof fn law_parse_reads_everything(inp: ParseInput)
    ensures
        top_level(inp, 0, Seq::empty()).0 is Ok ==> peek(inp, top_level(inp, 0, Seq::empty()).1).kind
            == TokenKind::EndOfFile,
        top_level(inp, 0, Seq::empty()).0 is Ok ==> top_level(inp, 0, Seq::empty()).1 <= inp.tokens.len(),
{
    lemma_top_level(inp, 0, Seq::empty());
}

/// The parser sees no whitespace, no line ends and no comments.
pub proof fn law_filtered_tokens(tokens: Seq<crate::tokenizer::token::Token>, text: Seq<char>, i: int, in_comment: bool)
    ensures
        forall|k: int|
            0 <= k < crate::parser::filter_tokens(tokens, text, i, in_comment).len() ==> {
                let kind = (#[trigger] crate::parser::filter_tokens(tokens, text, i, in_comment)[k]).kind;
                kind != TokenKind::Whitespace && kind != TokenKind::EndOfLine && kind != TokenKind::Comment
            },
    decreases tokens.len() - i,
{
    if 0 <= i < tokens.len() {
        let t = tokens[i];
        let next = if in_comment {
            !crate::parser::has_newline(text, t)
        } else {
            t.kind == TokenKind::Comment
        };
        law_filtered_tokens(tokens, text, i + 1, next);
        law_filtered_tokens(tokens, text, i + 1, false);
        let f = crate::parser::filter_tokens(tokens, text, i, in_comment);
        let rest = crate::parser::filter_tokens(tokens, text, i + 1, false);
        if !in_comment && t.kind != TokenKind::Whitespace && t.kind != TokenKind::EndOfLine && t.kind
            != TokenKind::Comment {
            assert(f == seq![t] + rest);
            assert forall|k: int| 0 <= k < f.len() implies {
                let kind = (#[trigger] f[k]).kind;
                kind != TokenKind::Whitespace && kind != TokenKind::EndOfLine && kind != TokenKind::Comment
            } by {
                if k > 0 {
                    assert(f[k] == rest[k - 1]);
                }
            }
        }
    }
}

/// An expression statement must end with a semicolon: where another token follows the
/// expression, that token is refused.
pub proof fn law_statement_needs_semicolon(inp: ParseInput, pos: int)
    requires
        pratt(inp, pos, 0).0 is Ok,
        peek(inp, pratt(inp, pos, 0).1).kind != TokenKind::Semicolon,
        peek(inp, pratt(inp, pos, 0).1).kind != TokenKind::Invalid,
    ensures
        expr_stmt(inp, pos).0 == Err::<ParsedStmtView, crate::parser::error::ParserError>(
            crate::parser::grammar::error_at(
                inp,
                pratt(inp, pos, 0).1,
                crate::parser::error::ParserErrorKind::UnexpectedToken(
                    peek(inp, pratt(inp, pos, 0).1).kind,
                    Some(TokenKind::Semicolon),
                ),
            ),
        ),
{
}

/// Reading ahead by no tokens reads the next token, wherever the parser stands within its
/// tokens or just past them, and anywhere past them when the last token is the end-of-file
/// token.
pub proof fn law_peek_offset_zero(inp: ParseInput, pos: int)
    requires
        0 <= pos,
        pos <= inp.tokens.len() || (inp.tokens.len() > 0 && inp.tokens.last() == inp.eof),
    ensures
        peek_offset(inp, pos, 0) == peek(inp, pos),
{
}

/// Consuming moves past one token, even at the end of the file; it fails exactly there, and
/// otherwise gives the token it moved past.
pub proof fn law_consume(inp: ParseInput, pos: int)
    requires
        input_wf(inp),
        0 <= pos,
    ensures
        consume(inp, pos).1 == pos + 1,
        consume(inp, pos).0 is Err <==> peek(inp, pos).kind == TokenKind::EndOfFile,
        consume(inp, pos).0 is Ok ==> consume(inp, pos).0 == Ok::<Token, ParserError>(peek(inp, pos)),
{
}

/// The precedence levels of the infix operators, loosest first: `||`; `&&`; `==` `!=`;
/// `<` `<=` `>` `>=`; `+` `-`; `*` `/` `%`.
pub open spec fn precedence_level(op: TokenKind) -> int {
    if op == TokenKind::PipePipe {
        1
    } else if op == TokenKind::AmpersandAmpersand {
        2
    } else if op == TokenKind::EqualsEquals || op == TokenKind::ExclamationMarkEquals {
        3
    } else if op == TokenKind::LessThan || op == TokenKind::LessThanEquals || op == TokenKind::GreaterThan
        || op == TokenKind::GreaterThanEquals {
        4
    } else if op == TokenKind::Plus || op == TokenKind::Minus {
        5
    } else if op == TokenKind::Asterisk || op == TokenKind::Slash || op == TokenKind::Percent {
        6
    } else {
        0
    }
}

/// Binding powers order the infix operators: exactly the operators of a precedence level have
/// powers; operators of one level share them; an operator's left power is below its right
/// one, so that operators of one level group to the left (`a - b + c` is `(a - b) + c`); and
/// every power of a tighter level is above every power of a looser one.
pub proof fn law_binding_powers(op: TokenKind, other: TokenKind)
    ensures
        infix_power(op) is Some <==> precedence_level(op) > 0,
        infix_power(op) matches Some((l, r)) ==> l < r,
        precedence_level(op) > 0 && precedence_level(op) == precedence_level(other) ==> infix_power(op)
            == infix_power(other),
        infix_power(op) matches Some((l, r)) ==> (infix_power(other) matches Some((l2, r2)) ==> (
        precedence_level(op) < precedence_level(other) ==> r < l2)),
{
}

/// Operators of one precedence level group to the left: `a op1 b op2 c`, with `op1` and `op2`
/// of one level and `a`, `b`, `c` operands that parse on their own, parses as
/// `(a op1 b) op2 c`; so `a - b + c` is `(a - b) + c`.
pub proof fn law_same_level_groups_left(
    inp: ParseInput,
    op1: TokenKind,
    op2: TokenKind,
    a: ParsedExprView,
    b: ParsedExprView,
    c: ParsedExprView,
)
    requires
        inp.tokens.len() >= 5,
        precedence_level(op1) > 0,
        precedence_level(op1) == precedence_level(op2),
        inp.tokens[1].kind == op1,
        inp.tokens[3].kind == op2,
        primary(inp, 0, false) == (Ok::<ParsedExprView, ParserError>(a), 1int),
        primary(inp, 2, false) == (Ok::<ParsedExprView, ParserError>(b), 3int),
        primary(inp, 4, false) == (Ok::<ParsedExprView, ParserError>(c), 5int),
        infix_power(peek(inp, 5).kind) is None,
    ensures
        pratt(inp, 0, 0).0 is Ok,
        pratt(inp, 0, 0).0->Ok_0.kind is InfixOp,
        pratt(inp, 0, 0).0->Ok_0.kind->InfixOp_op == op2,
        *pratt(inp, 0, 0).0->Ok_0.kind->InfixOp_rhs == c,
        pratt(inp, 0, 0).0->Ok_0.kind->InfixOp_lhs.kind is InfixOp,
        pratt(inp, 0, 0).0->Ok_0.kind->InfixOp_lhs.kind->InfixOp_op == op1,
        *pratt(inp, 0, 0).0->Ok_0.kind->InfixOp_lhs.kind->InfixOp_lhs == a,
        *pratt(inp, 0, 0).0->Ok_0.kind->InfixOp_lhs.kind->InfixOp_rhs == b,
{
    law_binding_powers(op1, op2);
    let (l1, r1) = infix_power(op1)->Some_0;
    let (l2, r2) = infix_power(op2)->Some_0;
    assert(pratt(inp, 4, r2 as int) == (Ok::<ParsedExprView, ParserError>(c), 5int));
    assert(pratt(inp, 2, r1 as int) == (Ok::<ParsedExprView, ParserError>(b), 3int));
    let e1 = ParsedExprView {
        kind: ParsedExprKindView::InfixOp { op: op1, lhs: Box::new(a), rhs: Box::new(b) },
        span: span_to(inp, start_of(inp, 0), 3),
    };
    let e2 = ParsedExprView {
        kind: ParsedExprKindView::InfixOp { op: op2, lhs: Box::new(e1), rhs: Box::new(c) },
        span: span_to(inp, start_of(inp, 0), 5),
    };
    assert(pratt_loop(inp, 0, 5, 0, e2) == (Ok::<ParsedExprView, ParserError>(e2), 5int));
    assert(pratt_loop(inp, 0, 3, 0, e1) == (Ok::<ParsedExprView, ParserError>(e2), 5int));
    assert(pratt_loop(inp, 0, 1, 0, a) == (Ok::<ParsedExprView, ParserError>(e2), 5int));
}

} // verus!
