//! Items: functions and extensions of types.
use vstd::prelude::*;

use crate::parser::error::{ParserError, ParserErrorKind, ParserResult};
use crate::parser::grammar::{
    parse_bound,
    consume_specific, extends, function_item, item, methods, params, remaining, top_level,
};
use crate::parser::{stmt_view, ParsedStmt, ParsedStmtView, ParsedType, ParsedTypeView, Parser};
use crate::tokenizer::token::TokenKind;

verus! {

#[derive(Debug)]
pub enum ParsedItem {
    Function(ParsedFunctionItem),
    Extends(ParsedExtendsItem),
}

#[derive(Debug)]
pub struct ParsedFunctionItem {
    pub name: String,
    pub parameters: Vec<(String, ParsedType)>,
    pub body: ParsedStmt,
    pub return_type: ParsedType,
}

#[derive(Debug)]
pub struct ParsedExtendsItem {
    pub parsed_type: ParsedType,
    pub methods: Vec<ParsedFunctionItem>,
}

pub enum ParsedItemView {
    Function(ParsedFunctionItemView),
    Extends(ParsedExtendsItemView),
}

pub struct ParsedFunctionItemView {
    pub name: Seq<char>,
    pub parameters: Seq<(Seq<char>, ParsedTypeView)>,
    pub body: ParsedStmtView,
    pub return_type: ParsedTypeView,
}

pub struct ParsedExtendsItemView {
    pub parsed_type: ParsedTypeView,
    pub methods: Seq<ParsedFunctionItemView>,
}

pub open spec fn names_view(s: Seq<(String, ParsedType)>) -> Seq<(Seq<char>, ParsedTypeView)> {
    s.map_values(|p: (String, ParsedType)| (p.0@, p.1@))
}

impl View for ParsedFunctionItem {
    type V = ParsedFunctionItemView;

    open spec fn view(&self) -> ParsedFunctionItemView {
        ParsedFunctionItemView {
            name: self.name@,
            parameters: names_view(self.parameters@),
            body: stmt_view(self.body),
            return_type: self.return_type@,
        }
    }
}

pub open spec fn functions_view(s: Seq<ParsedFunctionItem>) -> Seq<ParsedFunctionItemView> {
    s.map_values(|f: ParsedFunctionItem| f@)
}

impl View for ParsedExtendsItem {
    type V = ParsedExtendsItemView;

    open spec fn view(&self) -> ParsedExtendsItemView {
        ParsedExtendsItemView {
            parsed_type: self.parsed_type@,
            methods: functions_view(self.methods@),
        }
    }
}

impl View for ParsedItem {
    type V = ParsedItemView;

    open spec fn view(&self) -> ParsedItemView {
        match self {
            ParsedItem::Function(f) => ParsedItemView::Function(f@),
            ParsedItem::Extends(e) => ParsedItemView::Extends(e@),
        }
    }
}

pub open spec fn items_view(s: Seq<ParsedItem>) -> Seq<ParsedItemView> {
    s.map_values(|i: ParsedItem| i@)
}

/// A result holding items, by their views.
pub open spec fn items_result(r: ParserResult<Vec<ParsedItem>>) -> Result<Seq<ParsedItemView>, ParserError> {
    match r {
        Ok(v) => Ok(items_view(v@)),
        Err(err) => Err(err),
    }
}

pub open spec fn item_result(r: ParserResult<ParsedItem>) -> Result<ParsedItemView, ParserError> {
    match r {
        Ok(i) => Ok(i@),
        Err(err) => Err(err),
    }
}

pub open spec fn function_result(r: ParserResult<ParsedFunctionItem>) -> Result<
    ParsedFunctionItemView,
    ParserError,
> {
    match r {
        Ok(f) => Ok(f@),
        Err(err) => Err(err),
    }
}

pub open spec fn extends_result(r: ParserResult<ParsedExtendsItem>) -> Result<
    ParsedExtendsItemView,
    ParserError,
> {
    match r {
        Ok(x) => Ok(x@),
        Err(err) => Err(err),
    }
}

impl Parser {
    /// Every item up to the end of the file.
    pub fn parse_top_level(&mut self) -> (r: ParserResult<Vec<ParsedItem>>)
        requires
            old(self)@.cursor < usize::MAX,
        ensures
            final(self)@.input == old(self)@.input,
            final(self)@.cursor <= parse_bound(old(self)@.input, old(self)@.cursor),
            (items_result(r), final(self)@.cursor) == top_level(
                old(self)@.input,
                old(self)@.cursor,
                Seq::empty(),
            ),
    {
        proof {
            use_type_invariant(&*self);
        }
        let ghost inp = self@.input;
        let ghost pos = self@.cursor;
        let mut items: Vec<ParsedItem> = Vec::new();
        proof {
            assert(items_view(items@) =~= Seq::<ParsedItemView>::empty());
        }
        while !self.at(TokenKind::EndOfFile)
            invariant
                self@.input == inp,
                crate::parser::input_wf(inp),
                inp == old(self)@.input,
                pos == old(self)@.cursor,
                pos < usize::MAX,
                0 <= pos <= self@.cursor,
                self@.cursor == pos || self@.cursor <= inp.tokens.len(),
                top_level(inp, pos, Seq::empty()) == top_level(inp, self@.cursor, items_view(items@)),
            decreases remaining(inp, self@.cursor),
        {
            let item = match self.parse_item() {
                Ok(i) => i,
                Err(e) => return Err(e),
            };
            let ghost before = items_view(items@);
            items.push(item);
            proof {
                assert(items_view(items@) =~= before.push(item@));
                use_type_invariant(&*self);
            }
        }
        Ok(items)
    }

    /// A function or an extension.
    pub fn parse_item(&mut self) -> (r: ParserResult<ParsedItem>)
        requires
            old(self)@.cursor < usize::MAX,
        ensures
            final(self)@.input == old(self)@.input,
            final(self)@.cursor <= parse_bound(old(self)@.input, old(self)@.cursor),
            r is Ok ==> final(self)@.cursor <= final(self)@.input.tokens.len(),
            (item_result(r), final(self)@.cursor) == item(old(self)@.input, old(self)@.cursor),
            r is Ok ==> old(self)@.cursor < final(self)@.cursor,
    {
        proof {
            use_type_invariant(&*self);
        }
        match self.peek_kind() {
            TokenKind::Fn => match self.parse_function_item() {
                Ok(f) => Ok(ParsedItem::Function(f)),
                Err(e) => Err(e),
            },
            TokenKind::Extend => match self.parse_extends() {
                Ok(x) => Ok(ParsedItem::Extends(x)),
                Err(e) => Err(e),
            },
            unknown => Err(self.error(ParserErrorKind::UnexpectedToken(unknown, None))),
        }
    }

    /// `fn name(params) -> type { body }`
    pub fn parse_function_item(&mut self) -> (r: ParserResult<ParsedFunctionItem>)
        requires
            old(self)@.cursor < usize::MAX,
        ensures
            final(self)@.input == old(self)@.input,
            final(self)@.cursor <= parse_bound(old(self)@.input, old(self)@.cursor),
            r is Ok ==> final(self)@.cursor <= final(self)@.input.tokens.len(),
            (function_result(r), final(self)@.cursor) == function_item(
                old(self)@.input,
                old(self)@.cursor,
            ),
            old(self)@.cursor <= final(self)@.cursor,
            r is Ok ==> old(self)@.cursor < final(self)@.cursor,
    {
        proof {
            use_type_invariant(&*self);
        }
        let ghost inp = self@.input;
        let ghost pos = self@.cursor;
        match self.consume_specific(TokenKind::Fn) {
            Ok(_) => {},
            Err(e) => return Err(e),
        }
        let ident = match self.consume_specific(TokenKind::Identifier) {
            Ok(t) => t,
            Err(e) => return Err(e),
        };
        let name = self.text(ident);
        match self.consume_specific(TokenKind::ParenOpen) {
            Ok(_) => {},
            Err(e) => return Err(e),
        }
        proof {
            use_type_invariant(&*self);
        }
        let parameters = match self.parse_parameters() {
            Ok(p) => p,
            Err(e) => return Err(e),
        };
        match self.consume_specific(TokenKind::ParenClose) {
            Ok(_) => {},
            Err(e) => return Err(e),
        }
        match self.consume_specific(TokenKind::Arrow) {
            Ok(_) => {},
            Err(e) => return Err(e),
        }
        let return_type = match self.parse_type() {
            Ok(t) => t,
            Err(e) => return Err(e),
        };
        if !self.at(TokenKind::BraceOpen) {
            let kind = self.peek_kind();
            return Err(self.error(ParserErrorKind::UnexpectedToken(kind, Some(TokenKind::BraceOpen))));
        }
        let body = match self.parse_statement() {
            Ok(s) => s,
            Err(e) => return Err(e),
        };
        Ok(ParsedFunctionItem { name, parameters, body, return_type })
    }

    /// `extend type { methods }`
    pub fn parse_extends(&mut self) -> (r: ParserResult<ParsedExtendsItem>)
        requires
            old(self)@.cursor < usize::MAX,
        ensures
            final(self)@.input == old(self)@.input,
            final(self)@.cursor <= parse_bound(old(self)@.input, old(self)@.cursor),
            r is Ok ==> final(self)@.cursor <= final(self)@.input.tokens.len(),
            (extends_result(r), final(self)@.cursor) == extends(old(self)@.input, old(self)@.cursor),
            old(self)@.cursor <= final(self)@.cursor,
            r is Ok ==> old(self)@.cursor < final(self)@.cursor,
    {
        proof {
            use_type_invariant(&*self);
        }
        let ghost inp = self@.input;
        match self.consume_specific(TokenKind::Extend) {
            Ok(_) => {},
            Err(e) => return Err(e),
        }
        let parsed_type = match self.parse_type() {
            Ok(t) => t,
            Err(e) => return Err(e),
        };
        match self.consume_specific(TokenKind::BraceOpen) {
            Ok(_) => {},
            Err(e) => return Err(e),
        }
        proof {
            use_type_invariant(&*self);
        }
        let found = match self.parse_methods() {
            Ok(m) => m,
            Err(e) => return Err(e),
        };
        match self.consume_specific(TokenKind::BraceClose) {
            Ok(_) => {},
            Err(e) => return Err(e),
        }
        Ok(ParsedExtendsItem { parsed_type, methods: found })
    }

    /// Parameters, each a type and a name, up to the closing parenthesis; a comma may follow
    /// each.
    fn parse_parameters(&mut self) -> (r: ParserResult<Vec<(String, ParsedType)>>)
        requires
            old(self)@.cursor <= old(self)@.input.tokens.len(),
            old(self)@.cursor < usize::MAX,
        ensures
            final(self)@.input == old(self)@.input,
            final(self)@.cursor <= parse_bound(old(self)@.input, old(self)@.cursor),
            r is Ok ==> final(self)@.cursor <= final(self)@.input.tokens.len(),
            (match r {
                Ok(v) => Ok(names_view(v@)),
                Err(e) => Err(e),
            }, final(self)@.cursor) == params(old(self)@.input, old(self)@.cursor, Seq::empty()),
            old(self)@.cursor <= final(self)@.cursor,
    {
        proof {
            use_type_invariant(&*self);
        }
        let ghost inp = self@.input;
        let ghost p3 = self@.cursor;
        let mut parameters: Vec<(String, ParsedType)> = Vec::new();
        proof {
            assert(names_view(parameters@) =~= Seq::<(Seq<char>, ParsedTypeView)>::empty());
        }
        while !self.at(TokenKind::ParenClose)
            invariant
                self@.input == inp,
                crate::parser::input_wf(inp),
                inp == old(self)@.input,
                p3 == old(self)@.cursor,
                0 <= p3 <= self@.cursor <= inp.tokens.len(),
                params(inp, p3, Seq::empty()) == params(inp, self@.cursor, names_view(parameters@)),
            decreases remaining(inp, self@.cursor),
        {
            let ty = match self.parse_type() {
                Ok(t) => t,
                Err(e) => return Err(e),
            };
            let param_ident = match self.consume_specific(TokenKind::Identifier) {
                Ok(t) => t,
                Err(e) => return Err(e),
            };
            let param = self.text(param_ident);
            let ghost before = names_view(parameters@);
            let ghost entry = (param@, ty@);
            parameters.push((param, ty));
            proof {
                assert(names_view(parameters@) =~= before.push(entry));
                use_type_invariant(&*self);
            }
            if self.at(TokenKind::Comma) {
                match self.consume_specific(TokenKind::Comma) {
                    Ok(_) => {},
                    Err(e) => return Err(e),
                }
            }
        }
        Ok(parameters)
    }

    /// Methods up to the closing brace.
    fn parse_methods(&mut self) -> (r: ParserResult<Vec<ParsedFunctionItem>>)
        requires
            old(self)@.cursor <= old(self)@.input.tokens.len(),
            old(self)@.cursor < usize::MAX,
        ensures
            final(self)@.input == old(self)@.input,
            final(self)@.cursor <= parse_bound(old(self)@.input, old(self)@.cursor),
            r is Ok ==> final(self)@.cursor <= final(self)@.input.tokens.len(),
            (match r {
                Ok(v) => Ok(functions_view(v@)),
                Err(e) => Err(e),
            }, final(self)@.cursor) == methods(old(self)@.input, old(self)@.cursor, Seq::empty()),
            old(self)@.cursor <= final(self)@.cursor,
    {
        proof {
            use_type_invariant(&*self);
        }
        let ghost inp = self@.input;
        let ghost p3 = self@.cursor;
        let mut found: Vec<ParsedFunctionItem> = Vec::new();
        proof {
            assert(functions_view(found@) =~= Seq::<ParsedFunctionItemView>::empty());
        }
        while !self.at(TokenKind::BraceClose)
            invariant
                self@.input == inp,
                crate::parser::input_wf(inp),
                inp == old(self)@.input,
                p3 == old(self)@.cursor,
                0 <= p3 <= self@.cursor <= inp.tokens.len(),
                methods(inp, p3, Seq::empty()) == methods(inp, self@.cursor, functions_view(found@)),
            decreases remaining(inp, self@.cursor),
        {
            let method = match self.parse_function_item() {
                Ok(m) => m,
                Err(e) => return Err(e),
            };
            let ghost before = functions_view(found@);
            found.push(method);
            proof {
                assert(functions_view(found@) =~= before.push(method@));
                use_type_invariant(&*self);
            }
        }
        Ok(found)
    }
}

} // verus!
