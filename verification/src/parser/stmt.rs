//! Statements and types.
use vstd::prelude::*;

use crate::parser::ast::BlockKind;
use crate::parser::error::{ParserError, ParserResult};

use crate::parser::grammar::{
    parse_bound,
    assignment, block, compound_assignment, consume_specific, expr_stmt, while_stmt, if_stmt, keyword_stmt, let_stmt, loop_stmt,
    parse_type, remaining, return_stmt, stmt, stmts,
};
use crate::parser::{stmts_view, ParsedStmt, ParsedStmtView, ParsedType, ParsedTypeView, Parser};
use crate::tokenizer::token::TokenKind;

verus! {

/// A statement result, by its view.
pub open spec fn stmt_result(r: ParserResult<ParsedStmt>) -> Result<ParsedStmtView, ParserError> {
    match r {
        Ok(s) => Ok(s@),
        Err(err) => Err(err),
    }
}

/// A type result, by its view.
pub open spec fn type_result(r: ParserResult<ParsedType>) -> Result<ParsedTypeView, ParserError> {
    match r {
        Ok(t) => Ok(t@),
        Err(err) => Err(err),
    }
}

impl Parser {
    /// A statement.
    pub fn parse_statement(&mut self) -> (r: ParserResult<ParsedStmt>)
        requires
            old(self)@.cursor < usize::MAX,
        ensures
            final(self)@.input == old(self)@.input,
            final(self)@.cursor <= parse_bound(old(self)@.input, old(self)@.cursor),
            r is Ok ==> final(self)@.cursor <= final(self)@.input.tokens.len(),
            (stmt_result(r), final(self)@.cursor) == stmt(old(self)@.input, old(self)@.cursor),
            old(self)@.cursor <= final(self)@.cursor,
            r is Ok ==> old(self)@.cursor < final(self)@.cursor,
        decreases remaining(old(self)@.input, old(self)@.cursor), 8int,
    {
        proof {
            use_type_invariant(&*self);
        }
        match self.peek_kind() {
            TokenKind::Let => self.parse_let_statement(),
            TokenKind::If => self.parse_if_statement(),
            TokenKind::Loop => self.parse_loop_statement(),
            TokenKind::While => self.parse_while_statement(),
            TokenKind::Return => self.parse_return_statement(),
            TokenKind::Continue => self.parse_continue_statement(),
            TokenKind::Break => self.parse_break_statement(),
            TokenKind::BraceOpen => self.parse_block_statement(BlockKind::Regular),
            TokenKind::Identifier => {
                let next = self.peek_offset_kind(1);
                if next == TokenKind::Equals {
                    self.parse_assignment_statement()
                } else if (next == TokenKind::Plus || next == TokenKind::Minus || next == TokenKind::Asterisk
                    || next == TokenKind::Slash || next == TokenKind::Percent) && self.peek_offset_kind(2)
                    == TokenKind::Equals {
                    self.parse_compound_assignment_statement()
                } else {
                    self.parse_expression_statement()
                }
            },
            _ => self.parse_expression_statement(),
        }
    }

    /// `let type name = expr;`
    pub fn parse_let_statement(&mut self) -> (r: ParserResult<ParsedStmt>)
        requires
            old(self)@.cursor < usize::MAX,
        ensures
            final(self)@.input == old(self)@.input,
            final(self)@.cursor <= parse_bound(old(self)@.input, old(self)@.cursor),
            r is Ok ==> final(self)@.cursor <= final(self)@.input.tokens.len(),
            (stmt_result(r), final(self)@.cursor) == let_stmt(old(self)@.input, old(self)@.cursor),
            old(self)@.cursor <= final(self)@.cursor,
            r is Ok ==> old(self)@.cursor < final(self)@.cursor,
        decreases remaining(old(self)@.input, old(self)@.cursor), 7int,
    {
        proof {
            use_type_invariant(&*self);
        }
        match self.consume_specific(TokenKind::Let) {
            Ok(_) => {},
            Err(e) => return Err(e),
        }
        let var_type = match self.parse_type() {
            Ok(t) => t,
            Err(e) => return Err(e),
        };
        let name_ident = match self.consume_specific(TokenKind::Identifier) {
            Ok(t) => t,
            Err(e) => return Err(e),
        };
        let name = self.text(name_ident);
        match self.consume_specific(TokenKind::Equals) {
            Ok(_) => {},
            Err(e) => return Err(e),
        }
        proof {
            use_type_invariant(&*self);
        }
        let value = match self.parse_expression() {
            Ok(e) => e,
            Err(e) => return Err(e),
        };
        match self.consume_specific(TokenKind::Semicolon) {
            Ok(_) => {},
            Err(e) => return Err(e),
        }
        Ok(ParsedStmt::Let { name, parsed_type: var_type, expr: value })
    }

    /// `if condition { ... }`, with an optional `else { ... }`.
    pub fn parse_if_statement(&mut self) -> (r: ParserResult<ParsedStmt>)
        requires
            old(self)@.cursor < usize::MAX,
        ensures
            final(self)@.input == old(self)@.input,
            final(self)@.cursor <= parse_bound(old(self)@.input, old(self)@.cursor),
            r is Ok ==> final(self)@.cursor <= final(self)@.input.tokens.len(),
            (stmt_result(r), final(self)@.cursor) == if_stmt(old(self)@.input, old(self)@.cursor),
            old(self)@.cursor <= final(self)@.cursor,
            r is Ok ==> old(self)@.cursor < final(self)@.cursor,
        decreases remaining(old(self)@.input, old(self)@.cursor), 7int,
    {
        proof {
            use_type_invariant(&*self);
        }
        match self.consume_specific(TokenKind::If) {
            Ok(_) => {},
            Err(e) => return Err(e),
        }
        proof {
            use_type_invariant(&*self);
        }
        let condition = match self.parse_expression() {
            Ok(e) => e,
            Err(e) => return Err(e),
        };
        proof {
            use_type_invariant(&*self);
        }
        let then_branch = match self.parse_block_statement(BlockKind::Regular) {
            Ok(s) => s,
            Err(e) => return Err(e),
        };
        let else_branch = if self.at(TokenKind::Else) {
            match self.consume_specific(TokenKind::Else) {
                Ok(_) => {},
                Err(e) => return Err(e),
            }
            proof {
                use_type_invariant(&*self);
            }
            match self.parse_block_statement(BlockKind::Regular) {
                Ok(s) => Some(Box::new(s)),
                Err(e) => return Err(e),
            }
        } else {
            None
        };
        Ok(ParsedStmt::If { condition, then_branch: Box::new(then_branch), else_branch })
    }

    /// `loop { ... }`
    pub fn parse_loop_statement(&mut self) -> (r: ParserResult<ParsedStmt>)
        requires
            old(self)@.cursor < usize::MAX,
        ensures
            final(self)@.input == old(self)@.input,
            final(self)@.cursor <= parse_bound(old(self)@.input, old(self)@.cursor),
            r is Ok ==> final(self)@.cursor <= final(self)@.input.tokens.len(),
            (stmt_result(r), final(self)@.cursor) == loop_stmt(old(self)@.input, old(self)@.cursor),
            old(self)@.cursor <= final(self)@.cursor,
            r is Ok ==> old(self)@.cursor < final(self)@.cursor,
        decreases remaining(old(self)@.input, old(self)@.cursor), 7int,
    {
        proof {
            use_type_invariant(&*self);
        }
        match self.consume_specific(TokenKind::Loop) {
            Ok(_) => {},
            Err(e) => return Err(e),
        }
        proof {
            use_type_invariant(&*self);
        }
        let body = match self.parse_block_statement(BlockKind::Loop) {
            Ok(s) => s,
            Err(e) => return Err(e),
        };
        Ok(ParsedStmt::Loop { body: Box::new(body) })
    }

    /// `while condition { ... }`
    pub fn parse_while_statement(&mut self) -> (r: ParserResult<ParsedStmt>)
        requires
            old(self)@.cursor < usize::MAX,
        ensures
            final(self)@.input == old(self)@.input,
            final(self)@.cursor <= parse_bound(old(self)@.input, old(self)@.cursor),
            r is Ok ==> final(self)@.cursor <= final(self)@.input.tokens.len(),
            (stmt_result(r), final(self)@.cursor) == while_stmt(old(self)@.input, old(self)@.cursor),
            old(self)@.cursor <= final(self)@.cursor,
            r is Ok ==> old(self)@.cursor < final(self)@.cursor,
        decreases remaining(old(self)@.input, old(self)@.cursor), 7int,
    {
        proof {
            use_type_invariant(&*self);
        }
        match self.consume_specific(TokenKind::While) {
            Ok(_) => {},
            Err(e) => return Err(e),
        }
        let condition = match self.parse_expression() {
            Ok(e) => e,
            Err(e) => return Err(e),
        };
        let body = match self.parse_block_statement(BlockKind::Loop) {
            Ok(s) => s,
            Err(e) => return Err(e),
        };
        Ok(ParsedStmt::While { condition, body: Box::new(body) })
    }

    /// `name op= expr;`, where `op` is `+`, `-`, `*` or `%`.
    pub fn parse_compound_assignment_statement(&mut self) -> (r: ParserResult<ParsedStmt>)
        requires
            old(self)@.cursor < usize::MAX,
        ensures
            final(self)@.input == old(self)@.input,
            final(self)@.cursor <= parse_bound(old(self)@.input, old(self)@.cursor),
            r is Ok ==> final(self)@.cursor <= final(self)@.input.tokens.len(),
            (stmt_result(r), final(self)@.cursor) == compound_assignment(
                old(self)@.input,
                old(self)@.cursor,
            ),
            old(self)@.cursor <= final(self)@.cursor,
            r is Ok ==> old(self)@.cursor < final(self)@.cursor,
        decreases remaining(old(self)@.input, old(self)@.cursor), 7int,
    {
        proof {
            use_type_invariant(&*self);
        }
        let ident = match self.consume_specific(TokenKind::Identifier) {
            Ok(t) => t,
            Err(e) => return Err(e),
        };
        let name = self.text(ident);
        let op = match self.consume() {
            Ok(t) => t.kind,
            Err(e) => return Err(e),
        };
        match self.consume_specific(TokenKind::Equals) {
            Ok(_) => {},
            Err(e) => return Err(e),
        }
        let value = match self.parse_expression() {
            Ok(e) => e,
            Err(e) => return Err(e),
        };
        match self.consume_specific(TokenKind::Semicolon) {
            Ok(_) => {},
            Err(e) => return Err(e),
        }
        Ok(ParsedStmt::CompoundAssignment { name, op, expr: value })
    }

    /// `return;` or `return expr;`
    pub fn parse_return_statement(&mut self) -> (r: ParserResult<ParsedStmt>)
        requires
            old(self)@.cursor < usize::MAX,
        ensures
            final(self)@.input == old(self)@.input,
            final(self)@.cursor <= parse_bound(old(self)@.input, old(self)@.cursor),
            r is Ok ==> final(self)@.cursor <= final(self)@.input.tokens.len(),
            (stmt_result(r), final(self)@.cursor) == return_stmt(old(self)@.input, old(self)@.cursor),
            old(self)@.cursor <= final(self)@.cursor,
            r is Ok ==> old(self)@.cursor < final(self)@.cursor,
        decreases remaining(old(self)@.input, old(self)@.cursor), 7int,
    {
        proof {
            use_type_invariant(&*self);
        }
        match self.consume_specific(TokenKind::Return) {
            Ok(_) => {},
            Err(e) => return Err(e),
        }
        if self.at(TokenKind::Semicolon) {
            match self.consume_specific(TokenKind::Semicolon) {
                Ok(_) => {},
                Err(e) => return Err(e),
            }
            return Ok(ParsedStmt::Return { expr: None });
        }
        proof {
            use_type_invariant(&*self);
        }
        let value = match self.parse_expression() {
            Ok(e) => e,
            Err(e) => return Err(e),
        };
        match self.consume_specific(TokenKind::Semicolon) {
            Ok(_) => {},
            Err(e) => return Err(e),
        }
        Ok(ParsedStmt::Return { expr: Some(value) })
    }

    /// `continue;`
    pub fn parse_continue_statement(&mut self) -> (r: ParserResult<ParsedStmt>)
        requires
            old(self)@.cursor < usize::MAX,
        ensures
            final(self)@.input == old(self)@.input,
            final(self)@.cursor <= parse_bound(old(self)@.input, old(self)@.cursor),
            r is Ok ==> final(self)@.cursor <= final(self)@.input.tokens.len(),
            (stmt_result(r), final(self)@.cursor) == keyword_stmt(
                old(self)@.input,
                old(self)@.cursor,
                TokenKind::Continue,
                ParsedStmtView::Continue,
            ),
            old(self)@.cursor <= final(self)@.cursor,
            r is Ok ==> old(self)@.cursor < final(self)@.cursor,
    {
        proof {
            use_type_invariant(&*self);
        }
        match self.consume_specific(TokenKind::Continue) {
            Ok(_) => {},
            Err(e) => return Err(e),
        }
        match self.consume_specific(TokenKind::Semicolon) {
            Ok(_) => {},
            Err(e) => return Err(e),
        }
        Ok(ParsedStmt::Continue)
    }

    /// `break;`
    pub fn parse_break_statement(&mut self) -> (r: ParserResult<ParsedStmt>)
        requires
            old(self)@.cursor < usize::MAX,
        ensures
            final(self)@.input == old(self)@.input,
            final(self)@.cursor <= parse_bound(old(self)@.input, old(self)@.cursor),
            r is Ok ==> final(self)@.cursor <= final(self)@.input.tokens.len(),
            (stmt_result(r), final(self)@.cursor) == keyword_stmt(
                old(self)@.input,
                old(self)@.cursor,
                TokenKind::Break,
                ParsedStmtView::Break,
            ),
            old(self)@.cursor <= final(self)@.cursor,
            r is Ok ==> old(self)@.cursor < final(self)@.cursor,
    {
        proof {
            use_type_invariant(&*self);
        }
        match self.consume_specific(TokenKind::Break) {
            Ok(_) => {},
            Err(e) => return Err(e),
        }
        match self.consume_specific(TokenKind::Semicolon) {
            Ok(_) => {},
            Err(e) => return Err(e),
        }
        Ok(ParsedStmt::Break)
    }

    /// `{ statements }`, a block of the given kind.
    pub fn parse_block_statement(&mut self, block_kind: BlockKind) -> (r: ParserResult<ParsedStmt>)
        requires
            old(self)@.cursor < usize::MAX,
        ensures
            final(self)@.input == old(self)@.input,
            final(self)@.cursor <= parse_bound(old(self)@.input, old(self)@.cursor),
            r is Ok ==> final(self)@.cursor <= final(self)@.input.tokens.len(),
            (stmt_result(r), final(self)@.cursor) == block(
                old(self)@.input,
                old(self)@.cursor,
                block_kind,
            ),
            old(self)@.cursor <= final(self)@.cursor,
            r is Ok ==> old(self)@.cursor < final(self)@.cursor,
        decreases remaining(old(self)@.input, old(self)@.cursor), 7int,
    {
        proof {
            use_type_invariant(&*self);
        }
        let ghost inp = self@.input;
        let ghost pos = self@.cursor;
        match self.consume_specific(TokenKind::BraceOpen) {
            Ok(_) => {},
            Err(e) => return Err(e),
        }
        proof {
            use_type_invariant(&*self);
        }
        let ghost p1 = self@.cursor;
        let mut statements: Vec<ParsedStmt> = Vec::new();
        proof {
            assert(stmts_view(statements@) =~= Seq::<ParsedStmtView>::empty());
        }
        while !self.at(TokenKind::BraceClose)
            invariant
                self@.input == inp,
                crate::parser::input_wf(inp),
                inp == old(self)@.input,
                pos == old(self)@.cursor,
                0 <= pos < p1 <= self@.cursor <= inp.tokens.len(),
                consume_specific(inp, pos, TokenKind::BraceOpen).0 is Ok,
                consume_specific(inp, pos, TokenKind::BraceOpen).1 == p1,
                stmts(inp, p1, Seq::empty()) == stmts(inp, self@.cursor, stmts_view(statements@)),
            decreases remaining(inp, self@.cursor),
        {
            let statement = match self.parse_statement() {
                Ok(s) => s,
                Err(e) => return Err(e),
            };
            let ghost before = statements@;
            statements.push(statement);
            proof {
                assert(statements@.drop_last() =~= before);
                use_type_invariant(&*self);
            }
        }
        match self.consume_specific(TokenKind::BraceClose) {
            Ok(_) => {},
            Err(e) => return Err(e),
        }
        Ok(ParsedStmt::Block { statements, block_kind })
    }

    /// `name = expr;`
    pub fn parse_assignment_statement(&mut self) -> (r: ParserResult<ParsedStmt>)
        requires
            old(self)@.cursor < usize::MAX,
        ensures
            final(self)@.input == old(self)@.input,
            final(self)@.cursor <= parse_bound(old(self)@.input, old(self)@.cursor),
            r is Ok ==> final(self)@.cursor <= final(self)@.input.tokens.len(),
            (stmt_result(r), final(self)@.cursor) == assignment(old(self)@.input, old(self)@.cursor),
            old(self)@.cursor <= final(self)@.cursor,
            r is Ok ==> old(self)@.cursor < final(self)@.cursor,
        decreases remaining(old(self)@.input, old(self)@.cursor), 7int,
    {
        proof {
            use_type_invariant(&*self);
        }
        let ident = match self.consume_specific(TokenKind::Identifier) {
            Ok(t) => t,
            Err(e) => return Err(e),
        };
        let name = self.text(ident);
        match self.consume_specific(TokenKind::Equals) {
            Ok(_) => {},
            Err(e) => return Err(e),
        }
        proof {
            use_type_invariant(&*self);
        }
        let value = match self.parse_expression() {
            Ok(e) => e,
            Err(e) => return Err(e),
        };
        match self.consume_specific(TokenKind::Semicolon) {
            Ok(_) => {},
            Err(e) => return Err(e),
        }
        Ok(ParsedStmt::Assignment { name, expr: value })
    }

    /// `expr;`
    pub fn parse_expression_statement(&mut self) -> (r: ParserResult<ParsedStmt>)
        requires
            old(self)@.cursor < usize::MAX,
        ensures
            final(self)@.input == old(self)@.input,
            final(self)@.cursor <= parse_bound(old(self)@.input, old(self)@.cursor),
            r is Ok ==> final(self)@.cursor <= final(self)@.input.tokens.len(),
            (stmt_result(r), final(self)@.cursor) == expr_stmt(old(self)@.input, old(self)@.cursor),
            old(self)@.cursor <= final(self)@.cursor,
            r is Ok ==> old(self)@.cursor < final(self)@.cursor,
        decreases remaining(old(self)@.input, old(self)@.cursor), 7int,
    {
        proof {
            use_type_invariant(&*self);
        }
        let expr = match self.parse_expression() {
            Ok(e) => e,
            Err(e) => return Err(e),
        };
        match self.consume_specific(TokenKind::Semicolon) {
            Ok(_) => {},
            Err(e) => return Err(e),
        }
        Ok(ParsedStmt::Expression { expr })
    }

    /// A type: a name.
    pub fn parse_type(&mut self) -> (r: ParserResult<ParsedType>)
        requires
            old(self)@.cursor < usize::MAX,
        ensures
            final(self)@.input == old(self)@.input,
            final(self)@.cursor <= parse_bound(old(self)@.input, old(self)@.cursor),
            r is Ok ==> final(self)@.cursor <= final(self)@.input.tokens.len(),
            (type_result(r), final(self)@.cursor) == parse_type(old(self)@.input, old(self)@.cursor),
            old(self)@.cursor <= final(self)@.cursor,
            r is Ok ==> old(self)@.cursor < final(self)@.cursor,
    {
        proof {
            use_type_invariant(&*self);
        }
        let ident = match self.consume_specific(TokenKind::Identifier) {
            Ok(t) => t,
            Err(e) => return Err(e),
        };
        Ok(ParsedType::Name(self.text(ident)))
    }
}

} // verus!
