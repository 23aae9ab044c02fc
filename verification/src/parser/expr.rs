//! Expressions: a Pratt parser over the binary operators, and the primary expressions.
use vstd::prelude::*;

use crate::builtins::from_name;
use crate::parser::ast::Literal;
use crate::parser::error::{ParserError, ParserErrorKind, ParserResult};
use crate::parser::grammar::{
    parse_bound,
    args, digits_value, expression, unsigned_part, fn_call, float_text_ok, identifier,
    is_ascii_digit, literal, method_call, parse_i64, pratt, pratt_loop, prefix, primary, remaining,
    span_to, start_of,
};
use crate::parser::{
    exprs_view, infix_binding_power, ParsedExpr, ParsedExprKind, ParsedExprView, ParsedFunctionCall,
    Parser,
};
use crate::text::{chars_of, same_chars, string_from_chars};
use crate::tokenizer::token::TokenKind;

verus! {

/// An expression result, by its view.
pub open spec fn expr_result(r: ParserResult<ParsedExpr>) -> Result<ParsedExprView, ParserError> {
    match r {
        Ok(e) => Ok(e@),
        Err(err) => Err(err),
    }
}

/// A result holding expressions, by their views.
pub open spec fn exprs_result(r: ParserResult<Vec<ParsedExpr>>) -> Result<Seq<ParsedExprView>, ParserError> {
    match r {
        Ok(v) => Ok(exprs_view(v@)),
        Err(err) => Err(err),
    }
}

/// The `i64` that `str::parse` reads from the characters.
pub fn parse_int_literal(s: &Vec<char>) -> (r: Option<i64>)
    ensures
        r == parse_i64(s@),
{
    let n = s.len();
    if n == 0 {
        return None;
    }
    let negative = s[0] == '-';
    let start: usize = if s[0] == '-' || s[0] == '+' {
        1
    } else {
        0
    };
    let ghost digits = unsigned_part(s@);
    assert(digits =~= s@.subrange(start as int, n as int));
    if start == n {
        return None;
    }
    let big: u128 = 9223372036854775809;
    let mut acc: u128 = 0;
    let mut i = start;
    while i < n
        invariant
            n == s@.len(),
            n > 0,
            digits == unsigned_part(s@),
            start <= i <= n,
            digits =~= s@.subrange(start as int, n as int),
            forall|j: int| start <= j < i ==> is_ascii_digit(#[trigger] s@[j]),
            big == 9223372036854775809,
            acc as int == if digits_value(s@.subrange(start as int, i as int)) < big {
                digits_value(s@.subrange(start as int, i as int)) as int
            } else {
                big as int
            },
        decreases n - i,
    {
        let c = s[i];
        if !(c >= '0' && c <= '9') {
            assert(s@.subrange(start as int, n as int)[i - start] == s@[i as int]);
            assert(digits[i - start] == c);
            assert(!is_ascii_digit(digits[i - start]));
            assert(0 <= i - start < digits.len());

            return None;
        }
        let d = (c as u32 - '0' as u32) as u128;
        proof {
            assert(s@.subrange(start as int, i + 1).drop_last() =~= s@.subrange(start as int, i as int));
        }
        acc = acc * 10 + d;
        if acc > big {
            acc = big;
        }
        i = i + 1;
    }
    proof {
        assert(s@.subrange(start as int, n as int) =~= digits);
        assert forall|j: int| 0 <= j < digits.len() implies is_ascii_digit(#[trigger] digits[j]) by {
            assert(digits[j] == s@[start + j]);
        }
    }
    let v: i128 = if negative {
        0 - (acc as i128)
    } else {
        acc as i128
    };
    if v >= -9223372036854775808i128 && v <= 9223372036854775807i128 {
        Some(v as i64)
    } else {
        None
    }
}

/// Whether every character is ASCII.
fn all_ascii(s: &Vec<char>) -> (b: bool)
    ensures
        b == float_text_ok(s@),
{
    let mut i: usize = 0;
    while i < s.len()
        invariant
            i <= s@.len(),
            forall|j: int| 0 <= j < i ==> (#[trigger] s@[j] as u32) < 128,
        decreases s@.len() - i,
    {
        if s[i] as u32 >= 128 {
            return false;
        }
        i = i + 1;
    }
    true
}

impl Parser {
    /// An expression of the given kind, spanning from `cursor_start` to the next token.
    pub fn create_expr(&self, cursor_start: usize, kind: ParsedExprKind) -> (e: ParsedExpr)
        ensures
            e.kind == kind,
            e.span == span_to(self@.input, cursor_start, self@.cursor),
    {
        let end = self.current_char_cursor();
        ParsedExpr { kind, span: crate::source::Span::new(cursor_start, end) }
    }

    pub fn parse_expression(&mut self) -> (r: ParserResult<ParsedExpr>)
        requires
            old(self)@.cursor < usize::MAX,
        ensures
            final(self)@.input == old(self)@.input,
            final(self)@.cursor <= parse_bound(old(self)@.input, old(self)@.cursor),
            r is Ok ==> final(self)@.cursor <= final(self)@.input.tokens.len(),
            (expr_result(r), final(self)@.cursor) == expression(old(self)@.input, old(self)@.cursor),
            old(self)@.cursor <= final(self)@.cursor,
            r is Ok ==> old(self)@.cursor < final(self)@.cursor,
    {
        proof {
            use_type_invariant(&*self);
        }
        self.parse_pratt_expression(0)
    }

    /// An expression whose infix operators bind at least as tightly as `min_binding_power`.
    pub fn parse_pratt_expression(&mut self, min_binding_power: u8) -> (r: ParserResult<ParsedExpr>)
        requires
            old(self)@.cursor < usize::MAX,
        ensures
            final(self)@.input == old(self)@.input,
            final(self)@.cursor <= parse_bound(old(self)@.input, old(self)@.cursor),
            r is Ok ==> final(self)@.cursor <= final(self)@.input.tokens.len(),
            (expr_result(r), final(self)@.cursor) == pratt(
                old(self)@.input,
                old(self)@.cursor,
                min_binding_power as int,
            ),
            old(self)@.cursor <= final(self)@.cursor,
            r is Ok ==> old(self)@.cursor < final(self)@.cursor,
        decreases remaining(old(self)@.input, old(self)@.cursor), 5int,
    {
        proof {
            use_type_invariant(&*self);
        }
        let ghost inp = self@.input;
        let ghost pos = self@.cursor;
        let cursor_start = self.current_char_cursor();
        let mut lhs = match self.parse_primary_expression(false) {
            Ok(e) => e,
            Err(e) => return Err(e),
        };
        proof {
            use_type_invariant(&*self);
        }
        loop
            invariant
                self@.input == inp,
                crate::parser::input_wf(inp),
                inp == old(self)@.input,
                pos == old(self)@.cursor,
                0 <= pos < self@.cursor <= inp.tokens.len(),
                cursor_start == start_of(inp, pos),
                pratt(inp, pos, min_binding_power as int) == pratt_loop(
                    inp,
                    pos,
                    self@.cursor,
                    min_binding_power as int,
                    lhs@,
                ),
            decreases remaining(inp, self@.cursor),
        {
            let op = self.peek_kind();
            match infix_binding_power(op) {
                None => return Ok(lhs),
                Some((left, right)) => {
                    if left < min_binding_power {
                        return Ok(lhs);
                    }
                    match self.consume_specific(op) {
                        Ok(_) => {},
                        Err(e) => return Err(e),
                    }
                    proof {
                        use_type_invariant(&*self);
                    }
                    let rhs = match self.parse_pratt_expression(right) {
                        Ok(e) => e,
                        Err(e) => return Err(e),
                    };
                    proof {
                        use_type_invariant(&*self);
                    }
                    lhs = self.create_expr(
                        cursor_start,
                        ParsedExprKind::InfixOp { op, lhs: Box::new(lhs), rhs: Box::new(rhs) },
                    );
                },
            }
        }
    }

    /// A literal, a variable, a call, a prefix operator applied to an expression, or a
    /// parenthesized expression. With `ignore_members`, `a.b` is not read as a method call.
    pub fn parse_primary_expression(&mut self, ignore_members: bool) -> (r: ParserResult<ParsedExpr>)
        requires
            old(self)@.cursor < usize::MAX,
        ensures
            final(self)@.input == old(self)@.input,
            final(self)@.cursor <= parse_bound(old(self)@.input, old(self)@.cursor),
            r is Ok ==> final(self)@.cursor <= final(self)@.input.tokens.len(),
            (expr_result(r), final(self)@.cursor) == primary(
                old(self)@.input,
                old(self)@.cursor,
                ignore_members,
            ),
            old(self)@.cursor <= final(self)@.cursor,
            r is Ok ==> old(self)@.cursor < final(self)@.cursor,
        decreases remaining(old(self)@.input, old(self)@.cursor), if ignore_members {
            1int
        } else {
            3int
        },
    {
        proof {
            use_type_invariant(&*self);
        }
        match self.peek_kind() {
            TokenKind::IntLiteral
            | TokenKind::FloatLiteral
            | TokenKind::StringLiteral
            | TokenKind::BoolLiteral => self.parse_literal_expression(),
            TokenKind::Identifier => {
                let next = self.peek_offset_kind(1);
                if next == TokenKind::ParenOpen {
                    self.parse_function_call_expression()
                } else if next == TokenKind::Period && !ignore_members {
                    if self.peek_offset_kind(2) == TokenKind::Identifier && self.peek_offset_kind(3)
                        == TokenKind::ParenOpen {
                        self.parse_method_call_expression()
                    } else {
                        Err(self.error(ParserErrorKind::MemberAccessNotImplemented))
                    }
                } else {
                    self.parse_identifier_expression()
                }
            },
            TokenKind::Plus | TokenKind::Minus | TokenKind::ExclamationMark => {
                self.parse_prefix_operator_expression()
            },
            TokenKind::ParenOpen => {
                match self.consume_specific(TokenKind::ParenOpen) {
                    Ok(_) => {},
                    Err(e) => return Err(e),
                }
                proof {
                    use_type_invariant(&*self);
                }
                let expr = self.parse_pratt_expression(0);
                match self.consume_specific(TokenKind::ParenClose) {
                    Ok(_) => {},
                    Err(e) => return Err(e),
                }
                expr
            },
            invalid_kind => Err(self.error(ParserErrorKind::InvalidStartOfExpression(invalid_kind))),
        }
    }

    /// The arguments of a call, up to the closing parenthesis.
    fn parse_arguments(&mut self) -> (r: ParserResult<Vec<ParsedExpr>>)
        requires
            old(self)@.cursor <= old(self)@.input.tokens.len(),
            old(self)@.cursor < usize::MAX,
        ensures
            final(self)@.input == old(self)@.input,
            final(self)@.cursor <= parse_bound(old(self)@.input, old(self)@.cursor),
            r is Ok ==> final(self)@.cursor <= final(self)@.input.tokens.len(),
            (exprs_result(r), final(self)@.cursor) == args(
                old(self)@.input,
                old(self)@.cursor,
                Seq::empty(),
            ),
            old(self)@.cursor <= final(self)@.cursor,
        decreases remaining(old(self)@.input, old(self)@.cursor), 6int,
    {
        proof {
            use_type_invariant(&*self);
        }
        let ghost inp = self@.input;
        let ghost pos = self@.cursor;
        let mut arguments: Vec<ParsedExpr> = Vec::new();
        proof {
            assert(exprs_view(arguments@) =~= Seq::<ParsedExprView>::empty());
        }
        while !self.at(TokenKind::ParenClose)
            invariant
                self@.input == inp,
                crate::parser::input_wf(inp),
                inp == old(self)@.input,
                pos == old(self)@.cursor,
                0 <= pos <= self@.cursor <= inp.tokens.len(),
                args(inp, pos, Seq::empty()) == args(inp, self@.cursor, exprs_view(arguments@)),
            decreases remaining(inp, self@.cursor),
        {
            let arg = match self.parse_pratt_expression(0) {
                Ok(a) => a,
                Err(e) => return Err(e),
            };
            let ghost before = arguments@;
            arguments.push(arg);
            proof {
                assert(arguments@.drop_last() =~= before);
                use_type_invariant(&*self);
            }
            if self.at(TokenKind::Comma) {
                match self.consume_specific(TokenKind::Comma) {
                    Ok(_) => {},
                    Err(e) => return Err(e),
                }
                proof {
                    use_type_invariant(&*self);
                }
            }
        }
        Ok(arguments)
    }

    /// A call `name(args)` of a function or a builtin.
    pub fn parse_function_call_expression(&mut self) -> (r: ParserResult<ParsedExpr>)
        requires
            old(self)@.cursor < usize::MAX,
        ensures
            final(self)@.input == old(self)@.input,
            final(self)@.cursor <= parse_bound(old(self)@.input, old(self)@.cursor),
            r is Ok ==> final(self)@.cursor <= final(self)@.input.tokens.len(),
            (expr_result(r), final(self)@.cursor) == fn_call(old(self)@.input, old(self)@.cursor),
            old(self)@.cursor <= final(self)@.cursor,
            r is Ok ==> old(self)@.cursor < final(self)@.cursor,
        decreases remaining(old(self)@.input, old(self)@.cursor), 0int,
    {
        proof {
            use_type_invariant(&*self);
        }
        let cursor_start = self.current_char_cursor();
        let token = match self.consume() {
            Ok(t) => t,
            Err(e) => return Err(e),
        };
        let name = self.text(token);
        match self.consume_specific(TokenKind::ParenOpen) {
            Ok(_) => {},
            Err(e) => return Err(e),
        }
        proof {
            use_type_invariant(&*self);
        }
        let args = match self.parse_arguments() {
            Ok(a) => a,
            Err(e) => return Err(e),
        };
        match self.consume_specific(TokenKind::ParenClose) {
            Ok(_) => {},
            Err(e) => return Err(e),
        }
        if let Some(function) = from_name(name.as_str()) {
            return Ok(self.create_expr(cursor_start, ParsedExprKind::BuiltinFnCall { function, args }));
        }
        Ok(self.create_expr(cursor_start, ParsedExprKind::FnCall(ParsedFunctionCall { name, args })))
    }

    /// A method call `receiver.name(args)`.
    pub fn parse_method_call_expression(&mut self) -> (r: ParserResult<ParsedExpr>)
        requires
            old(self)@.cursor < usize::MAX,
        ensures
            final(self)@.input == old(self)@.input,
            final(self)@.cursor <= parse_bound(old(self)@.input, old(self)@.cursor),
            r is Ok ==> final(self)@.cursor <= final(self)@.input.tokens.len(),
            (expr_result(r), final(self)@.cursor) == method_call(old(self)@.input, old(self)@.cursor),
            old(self)@.cursor <= final(self)@.cursor,
            r is Ok ==> old(self)@.cursor < final(self)@.cursor,
        decreases remaining(old(self)@.input, old(self)@.cursor), 2int,
    {
        proof {
            use_type_invariant(&*self);
        }
        let cursor_start = self.current_char_cursor();
        let expr = match self.parse_primary_expression(true) {
            Ok(e) => e,
            Err(e) => return Err(e),
        };
        match self.consume_specific(TokenKind::Period) {
            Ok(_) => {},
            Err(e) => return Err(e),
        }
        let token = match self.consume() {
            Ok(t) => t,
            Err(e) => return Err(e),
        };
        let name = self.text(token);
        match self.consume_specific(TokenKind::ParenOpen) {
            Ok(_) => {},
            Err(e) => return Err(e),
        }
        proof {
            use_type_invariant(&*self);
        }
        let args = match self.parse_arguments() {
            Ok(a) => a,
            Err(e) => return Err(e),
        };
        match self.consume_specific(TokenKind::ParenClose) {
            Ok(_) => {},
            Err(e) => return Err(e),
        }
        Ok(
            self.create_expr(
                cursor_start,
                ParsedExprKind::MethodCall {
                    expr: Box::new(expr),
                    call: ParsedFunctionCall { name, args },
                },
            ),
        )
    }

    /// A variable.
    pub fn parse_identifier_expression(&mut self) -> (r: ParserResult<ParsedExpr>)
        requires
            old(self)@.cursor < usize::MAX,
        ensures
            final(self)@.input == old(self)@.input,
            final(self)@.cursor <= parse_bound(old(self)@.input, old(self)@.cursor),
            r is Ok ==> final(self)@.cursor <= final(self)@.input.tokens.len(),
            (expr_result(r), final(self)@.cursor) == identifier(old(self)@.input, old(self)@.cursor),
            old(self)@.cursor <= final(self)@.cursor,
            r is Ok ==> old(self)@.cursor < final(self)@.cursor,
    {
        proof {
            use_type_invariant(&*self);
        }
        let cursor_start = self.current_char_cursor();
        let token = match self.consume() {
            Ok(t) => t,
            Err(e) => return Err(e),
        };
        let name = self.text(token);
        Ok(self.create_expr(cursor_start, ParsedExprKind::Identifier(name)))
    }

    /// A literal. An integer literal out of the range of `i64`, or a literal whose text its type
    /// cannot be read from, is an error.
    pub fn parse_literal_expression(&mut self) -> (r: ParserResult<ParsedExpr>)
        requires
            old(self)@.cursor < usize::MAX,
        ensures
            final(self)@.input == old(self)@.input,
            final(self)@.cursor <= parse_bound(old(self)@.input, old(self)@.cursor),
            r is Ok ==> final(self)@.cursor <= final(self)@.input.tokens.len(),
            (expr_result(r), final(self)@.cursor) == literal(old(self)@.input, old(self)@.cursor),
            old(self)@.cursor <= final(self)@.cursor,
            r is Ok ==> old(self)@.cursor < final(self)@.cursor,
    {
        proof {
            use_type_invariant(&*self);
        }
        let cursor_start = self.current_char_cursor();
        let kind = self.peek_kind();
        let token = match self.consume() {
            Ok(t) => t,
            Err(e) => return Err(e),
        };
        let chars = self.token_chars(token);
        let invalid = ParserError::new(ParserErrorKind::InvalidLiteral(kind), token.range);
        let literal = match kind {
            TokenKind::IntLiteral => match parse_int_literal(&chars) {
                Some(v) => Literal::Int(v),
                None => return Err(invalid),
            },
            TokenKind::FloatLiteral => {
                if !all_ascii(&chars) {
                    return Err(invalid);
                }
                Literal::Float(string_from_chars(&chars, 0, chars.len()))
            },
            TokenKind::StringLiteral => {
                if chars.len() < 2 {
                    return Err(invalid);
                }
                Literal::String(string_from_chars(&chars, 1, chars.len() - 1))
            },
            TokenKind::BoolLiteral => {
                if same_chars(&chars, &chars_of("true")) {
                    Literal::Bool(true)
                } else if same_chars(&chars, &chars_of("false")) {
                    Literal::Bool(false)
                } else {
                    return Err(invalid);
                }
            },
            _ => return Err(invalid),
        };
        proof {
            assert(chars@.subrange(0, chars@.len() as int) =~= chars@);
        }
        Ok(self.create_expr(cursor_start, ParsedExprKind::Literal(literal)))
    }

    /// A prefix operator applied to the expression after it.
    pub fn parse_prefix_operator_expression(&mut self) -> (r: ParserResult<ParsedExpr>)
        requires
            old(self)@.cursor < usize::MAX,
        ensures
            final(self)@.input == old(self)@.input,
            final(self)@.cursor <= parse_bound(old(self)@.input, old(self)@.cursor),
            r is Ok ==> final(self)@.cursor <= final(self)@.input.tokens.len(),
            (expr_result(r), final(self)@.cursor) == prefix(old(self)@.input, old(self)@.cursor),
            old(self)@.cursor <= final(self)@.cursor,
            r is Ok ==> old(self)@.cursor < final(self)@.cursor,
        decreases remaining(old(self)@.input, old(self)@.cursor), 0int,
    {
        proof {
            use_type_invariant(&*self);
        }
        let cursor_start = self.current_char_cursor();
        let op = match self.consume() {
            Ok(t) => t.kind,
            Err(e) => return Err(e),
        };
        proof {
            use_type_invariant(&*self);
        }
        let expr = match self.parse_pratt_expression(0) {
            Ok(e) => e,
            Err(e) => return Err(e),
        };
        Ok(self.create_expr(cursor_start, ParsedExprKind::PrefixOp { op, expr: Box::new(expr) }))
    }
}

} // verus!
