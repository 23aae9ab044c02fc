//! The typechecker: from the parsed tree to the checked one.
//!
//! What each function computes is stated by the spec functions of `rules`.
use vstd::prelude::*;

pub mod checked;
pub mod error;
pub mod laws;
pub mod rules;

use crate::builtins::{method_from_name, BuiltinFunction, BuiltinMethod};
use crate::parser::ast::{BlockKind, Literal};
use crate::parser::item::{
    functions_view, items_view, ParsedExtendsItem, ParsedFunctionItem, ParsedFunctionItemView,
    ParsedItem, ParsedItemView,
};
use crate::parser::{exprs_view, ParsedExpr, ParsedExprKind, ParsedStmt, ParsedType};
use crate::source::Span;
use crate::text::str_eq;
use crate::tokenizer::token::TokenKind;
use crate::types::{find_method, Type, TypeView};

use self::checked::{
    cexprs_view, cfunction_view, cfunctions_view, cstmts_view, params_view, CheckedExpr,
    CheckedExprKind, CheckedExprView, CheckedFunctionCall, CheckedFunctionItem, CheckedFunctionView,
    CheckedStmt, CheckedStmtView, FunctionId, TypeId, BOOL_TYPE_ID, FLOAT_TYPE_ID, INT_TYPE_ID,
    STRING_TYPE_ID, VOID_TYPE_ID,
};
use self::error::{
    Construct, TypecheckerError, TypecheckerErrorKind, TypecheckerErrorView, TypecheckerResult,
};
use self::rules::{
    builtin_applies, builtin_method_params, builtin_method_type, builtin_return_type, builtin_types,
    check_arguments, first_mismatch, check_condition, check_params, bind_params, check_body, check_expr, check_exprs, check_extend,
    check_extends, check_function, check_function_bodies, check_method, check_methods,
    check_program, check_stmt, check_stmts, check_type, count_functions, declare_function,
    declare_functions, find_function, find_type, find_variable, literal_type, methods_of,
    set_variable, display_name, variable_type, with_variables, TypecheckerView,
};

verus! {

/// An expression result, by its view.
pub open spec fn expr_result(r: TypecheckerResult<CheckedExpr>) -> Result<CheckedExprView, TypecheckerErrorView> {
    match r {
        Ok(e) => Ok(e@),
        Err(e) => Err(e@),
    }
}

/// A statement result, by its view.
pub open spec fn stmt_result(r: TypecheckerResult<CheckedStmt>) -> Result<CheckedStmtView, TypecheckerErrorView> {
    match r {
        Ok(s) => Ok(s@),
        Err(e) => Err(e@),
    }
}

/// A result with nothing in it, by its view.
pub open spec fn unit_result(r: TypecheckerResult<()>) -> Result<(), TypecheckerErrorView> {
    match r {
        Ok(_) => Ok(()),
        Err(e) => Err(e@),
    }
}

pub open spec fn types_view(types: Seq<Type>) -> Seq<TypeView> {
    types.map_values(|t: Type| t@)
}

pub struct Typechecker {
    variable_types: Vec<(String, TypeId)>,
    functions: Vec<CheckedFunctionItem>,
    types: Vec<Type>,
}

impl View for Typechecker {
    type V = TypecheckerView;

    closed spec fn view(&self) -> TypecheckerView {
        TypecheckerView {
            variables: params_view(self.variable_types@),
            functions: cfunctions_view(self.functions@),
            types: types_view(self.types@),
        }
    }
}

/// A type found by `check_type` is in the table.
pub proof fn lemma_check_type_in_table(types: Seq<TypeView>, t: crate::parser::ParsedTypeView)
    requires
        types.len() >= 5,
    ensures
        check_type(types, t) matches Ok(id) ==> id < types.len(),
{
    if let crate::parser::ParsedTypeView::Name(n) = t {
        lemma_find_type(types, n, 0);
    }
}

proof fn lemma_find_type(types: Seq<TypeView>, name: Seq<char>, i: int)
    requires
        0 <= i,
    ensures
        find_type(types, name, i) matches Some(j) ==> i <= j < types.len() && types[j].name == name,
    decreases types.len() - i,
{
    if i < types.len() && types[i].name != name {
        lemma_find_type(types, name, i + 1);
    }
}

/// Declaring functions adds one for each and changes nothing else.
pub(crate) proof fn lemma_declare(tc: TypecheckerView, items: Seq<ParsedItemView>, i: int)
    requires
        0 <= i <= items.len(),
    ensures
        declare_functions(tc, items, i).0.types == tc.types,
        declare_functions(tc, items, i).1 is Ok ==> declare_functions(tc, items, i).0.functions.len()
            == tc.functions.len() + count_functions(items, i),
    decreases items.len() - i,
{
    if i < items.len() {
        match items[i] {
            ParsedItemView::Function(f) => {
                lemma_declare(declare_function(tc, f).0, items, i + 1);
            },
            ParsedItemView::Extends(_) => {
                lemma_declare(tc, items, i + 1);
            },
        }
    }
}

/// Checking bodies keeps the number of functions and the types.
pub(crate) proof fn lemma_bodies(tc: TypecheckerView, items: Seq<ParsedItemView>, i: int, k: int)
    requires
        0 <= i <= items.len(),
        0 <= k,
        k + count_functions(items, i) <= tc.functions.len(),
    ensures
        check_function_bodies(tc, items, i, k).0.functions.len() == tc.functions.len(),
        check_function_bodies(tc, items, i, k).0.types == tc.types,
    decreases items.len() - i,
{
    if i < items.len() {
        match items[i] {
            ParsedItemView::Function(pf) => {
                lemma_bodies(check_function(tc, k, pf).0, items, i + 1, k + 1);
            },
            ParsedItemView::Extends(_) => {
                lemma_bodies(tc, items, i + 1, k);
            },
        }
    }
}

/// Checking methods keeps the number of types and the functions.
pub(crate) proof fn lemma_methods(tc: TypecheckerView, t: TypeId, ms: Seq<ParsedFunctionItemView>, i: int)
    requires
        t < tc.types.len(),
        0 <= i,
    ensures
        check_methods(tc, t, ms, i).0.types.len() == tc.types.len(),
        check_methods(tc, t, ms, i).0.functions == tc.functions,
    decreases ms.len() - i,
{
    if i < ms.len() {
        lemma_methods(check_method(tc, t, ms[i]).0, t, ms, i + 1);
    }
}

impl Typechecker {
    /// The builtin types are never removed.
    pub open spec fn wf(&self) -> bool {
        self@.types.len() >= 5
    }

    /// A typechecker that knows the builtin types and nothing else.
    pub fn new() -> (t: Self)
        ensures
            t.wf(),
            t@ == (TypecheckerView {
                variables: Seq::empty(),
                functions: Seq::empty(),
                types: builtin_types(),
            }),
    {
        let mut types: Vec<Type> = Vec::new();
        types.push(Type::new("void", Vec::new()));
        types.push(Type::new("int", Vec::new()));
        types.push(Type::new("float", Vec::new()));
        types.push(Type::new("string", Vec::new()));
        types.push(Type::new("bool", Vec::new()));
        let t = Typechecker { variable_types: Vec::new(), functions: Vec::new(), types };
        proof {
            assert(params_view(t.variable_types@) =~= Seq::<(Seq<char>, TypeId)>::empty());
            assert(cfunctions_view(t.functions@) =~= Seq::<CheckedFunctionView>::empty());
            assert(types_view(t.types@) =~= builtin_types());
        }
        t
    }

    /// The functions checked so far.
    pub fn functions(&self) -> (f: &Vec<CheckedFunctionItem>)
        ensures
            cfunctions_view(f@) == self@.functions,
    {
        &self.functions
    }

    /// The name of a type, as messages show it.
    fn display_name(&self, type_id: TypeId) -> (s: String)
        ensures
            s@ == display_name(self@.types, type_id),
    {
        if type_id < self.types.len() {
            self.types[type_id].name().to_string()
        } else {
            String::new()
        }
    }

    /// The type of the variable with the given name.
    fn get_variable_type(&self, name: &str) -> (t: Option<TypeId>)
        ensures
            t == variable_type(self@.variables, name@),
    {
        let mut i: usize = 0;
        while i < self.variable_types.len()
            invariant
                i <= self.variable_types@.len(),
                find_variable(self@.variables, name@, 0) == find_variable(self@.variables, name@, i as int),
            decreases self.variable_types@.len() - i,
        {
            assert(self@.variables[i as int] == (self.variable_types@[i as int].0@, self.variable_types@[i as int].1));
            if str_eq(self.variable_types[i].0.as_str(), name) {
                return Some(self.variable_types[i].1);
            }
            i = i + 1;
        }
        None
    }

    /// Gives the variable with the given name a type.
    fn set_variable_type(&mut self, name: String, type_id: TypeId)
        ensures
            final(self)@ == with_variables(old(self)@, set_variable(old(self)@.variables, name@, type_id)),
    {
        let ghost vars = self@.variables;
        let mut i: usize = 0;
        while i < self.variable_types.len()
            invariant
                i <= self.variable_types@.len(),
                vars == self@.variables,
                self@ == old(self)@,
                find_variable(vars, name@, 0) == find_variable(vars, name@, i as int),
            decreases self.variable_types@.len() - i,
        {
            if str_eq(self.variable_types[i].0.as_str(), name.as_str()) {
                assert(vars[i as int].0 == name@);
                self.variable_types.set(i, (name, type_id));
                proof {
                    assert(params_view(self.variable_types@) =~= vars.update(i as int, (name@, type_id)));
                }
                return;
            }
            i = i + 1;
        }
        let ghost before = self.variable_types@;
        self.variable_types.push((name, type_id));
        proof {
            assert(params_view(self.variable_types@) =~= vars.push((name@, type_id)));
        }
    }

    /// The index of the first function with the given name.
    fn get_function_by_name(&self, name: &str) -> (i: Option<usize>)
        ensures
            i matches Some(k) ==> k < self@.functions.len() && find_function(self@.functions, name@, 0)
                == Some(k as int),
            i is None ==> find_function(self@.functions, name@, 0) is None,
    {
        let mut i: usize = 0;
        while i < self.functions.len()
            invariant
                i <= self.functions@.len(),
                find_function(self@.functions, name@, 0) == find_function(self@.functions, name@, i as int),
            decreases self.functions@.len() - i,
        {
            assert(self@.functions[i as int] == cfunction_view(self.functions@[i as int]));
            if str_eq(self.functions[i].name.as_str(), name) {
                return Some(i);
            }
            i = i + 1;
        }
        None
    }

    /// The type that a parsed type names.
    fn id_from_parsed_type(&self, parsed_type: &ParsedType) -> (r: TypecheckerResult<TypeId>)
        ensures
            match r {
                Ok(t) => check_type(self@.types, parsed_type@) == Ok::<TypeId, TypecheckerErrorView>(t),
                Err(e) => check_type(self@.types, parsed_type@) == Err::<TypeId, TypecheckerErrorView>(e@),
            },
    {
        match parsed_type {
            ParsedType::Void => Ok(VOID_TYPE_ID),
            ParsedType::Int => Ok(INT_TYPE_ID),
            ParsedType::Float => Ok(FLOAT_TYPE_ID),
            ParsedType::String => Ok(STRING_TYPE_ID),
            ParsedType::Bool => Ok(BOOL_TYPE_ID),
            ParsedType::Name(name) => {
                let mut i: usize = 0;
                while i < self.types.len()
                    invariant
                        i <= self.types@.len(),
                        parsed_type@ == crate::parser::ParsedTypeView::Name(name@),
                        find_type(self@.types, name@, 0) == find_type(self@.types, name@, i as int),
                    decreases self.types@.len() - i,
                {
                    assert(self@.types[i as int] == self.types@[i as int]@);
                    if str_eq(self.types[i].name(), name.as_str()) {
                        return Ok(i);
                    }
                    i = i + 1;
                }
                Err(
                    TypecheckerError::new(
                        TypecheckerErrorKind::UnknownType(name.clone()),
                        Span::new(0, 0),
                    ),
                )
            },
        }
    }

    /// The type that a parsed type names.
    pub fn check_type(&mut self, parsed_type: &ParsedType) -> (r: TypecheckerResult<TypeId>)
        ensures
            final(self)@ == old(self)@,
            match r {
                Ok(t) => check_type(old(self)@.types, parsed_type@) == Ok::<TypeId, TypecheckerErrorView>(t),
                Err(e) => check_type(old(self)@.types, parsed_type@) == Err::<TypeId, TypecheckerErrorView>(e@),
            },
    {
        self.id_from_parsed_type(parsed_type)
    }

    /// The type of a literal.
    pub fn get_type_from_literal(&mut self, literal: &Literal) -> (t: TypeId)
        ensures
            final(self)@ == old(self)@,
            t == literal_type(literal@),
    {
        match literal {
            Literal::Int(_) => INT_TYPE_ID,
            Literal::Float(_) => FLOAT_TYPE_ID,
            Literal::String(_) => STRING_TYPE_ID,
            Literal::Bool(_) => BOOL_TYPE_ID,
        }
    }

    /// A copy of the method of the given type with the given name.
    fn get_method(&self, type_id: TypeId, name: &str) -> (m: Option<CheckedFunctionItem>)
        ensures
            match find_method(methods_of(self@.types, type_id), name@, 0) {
                Some(j) => m matches Some(f) && f@ == methods_of(self@.types, type_id)[j],
                None => m is None,
            },
    {
        if type_id >= self.types.len() {
            return None;
        }
        let methods = self.types[type_id].methods();
        let ghost mv = methods@.map_values(|f: CheckedFunctionItem| cfunction_view(f));
        assert(mv == methods_of(self@.types, type_id));
        let mut j: usize = 0;
        while j < methods.len()
            invariant
                j <= methods@.len(),
                mv == methods@.map_values(|f: CheckedFunctionItem| cfunction_view(f)),
                mv == methods_of(self@.types, type_id),
                find_method(mv, name@, 0) == find_method(mv, name@, j as int),
            decreases methods@.len() - j,
        {
            assert(mv[j as int] == cfunction_view(methods@[j as int]));
            if str_eq(methods[j].name(), name) {
                return Some(methods[j].duplicate());
            }
            j = j + 1;
        }
        None
    }

    /// Checks an expression.
    #[verifier::rlimit(30)]
    pub fn check_expression(&mut self, expression: &ParsedExpr) -> (r: TypecheckerResult<CheckedExpr>)
        ensures
            final(self)@ == old(self)@,
            expr_result(r) == check_expr(old(self)@, expression@),
        decreases expression,
    {
        let span = expression.span;
        match &expression.kind {
            ParsedExprKind::Literal(literal) => {
                let type_id = self.get_type_from_literal(literal);
                Ok(CheckedExpr { kind: CheckedExprKind::Literal(literal.duplicate()), type_id, span })
            },
            ParsedExprKind::Identifier(identifier) => match self.get_variable_type(identifier.as_str()) {
                Some(type_id) => Ok(
                    CheckedExpr { kind: CheckedExprKind::Identifier(identifier.clone()), type_id, span },
                ),
                None => Err(
                    TypecheckerError::new(TypecheckerErrorKind::UnknownVariable(identifier.clone()), span),
                ),
            },
            ParsedExprKind::BuiltinFnCall { function, args } => {
                let checked_args = match self.check_expressions(args) {
                    Ok(a) => a,
                    Err(e) => return Err(e),
                };
                Ok(
                    CheckedExpr {
                        kind: CheckedExprKind::BuiltinFnCall { function: *function, args: checked_args },
                        type_id: builtin_return_type_of(*function),
                        span,
                    },
                )
            },
            ParsedExprKind::FnCall(call) => match self.get_function_by_name(call.name.as_str()) {
                Some(i) => {
                    let args = match self.check_expressions(&call.args) {
                        Ok(a) => a,
                        Err(e) => return Err(e),
                    };
                    proof {
                        assert(self@.functions[i as int] == cfunction_view(self.functions@[i as int]));
                    }
                    if let Some(err) = self.check_arguments(&call.name, &self.functions[i].parameters, &args, span) {
                        return Err(err);
                    }
                    let type_id = self.functions[i].return_type;
                    let checked_call = CheckedFunctionCall { name: call.name.clone(), args };
                    Ok(CheckedExpr { kind: CheckedExprKind::FnCall(checked_call), type_id, span })
                },
                None => Err(
                    TypecheckerError::new(
                        TypecheckerErrorKind::UnknownFunction(call.name.clone()),
                        Span::new(0, 0),
                    ),
                ),
            },
            ParsedExprKind::PrefixOp { op, expr } => {
                let operand = match self.check_expression(expr) {
                    Ok(c) => c,
                    Err(e) => return Err(e),
                };
                let expected = match op {
                    TokenKind::Minus | TokenKind::Plus => {
                        if operand.type_id == INT_TYPE_ID || operand.type_id == FLOAT_TYPE_ID {
                            None
                        } else {
                            Some(INT_TYPE_ID)
                        }
                    },
                    TokenKind::ExclamationMark => {
                        if operand.type_id == BOOL_TYPE_ID {
                            None
                        } else {
                            Some(BOOL_TYPE_ID)
                        }
                    },
                    _ => {
                        return Err(
                            TypecheckerError::new(
                                TypecheckerErrorKind::NotImplemented(Construct::PrefixOperator),
                                span,
                            ),
                        );
                    },
                };
                if let Some(expected) = expected {
                    return Err(
                        TypecheckerError::new(
                            TypecheckerErrorKind::TypeMismatch {
                                expected: self.display_name(expected),
                                found: self.display_name(operand.type_id),
                            },
                            operand.span,
                        ),
                    );
                }
                let type_id = operand.type_id;
                Ok(CheckedExpr { kind: CheckedExprKind::PrefixOp { op: *op, expr: Box::new(operand) }, type_id, span })
            },
            ParsedExprKind::InfixOp { op, lhs, rhs } => {
                let l = match self.check_expression(lhs) {
                    Ok(e) => e,
                    Err(e) => return Err(e),
                };
                let r = match self.check_expression(rhs) {
                    Ok(e) => e,
                    Err(e) => return Err(e),
                };
                if l.type_id != r.type_id {
                    return Err(
                        TypecheckerError::new(
                            TypecheckerErrorKind::TypeMismatch {
                                expected: self.display_name(l.type_id),
                                found: self.display_name(r.type_id),
                            },
                            r.span,
                        ),
                    );
                }
                let type_id = match op {
                    TokenKind::EqualsEquals
                    | TokenKind::ExclamationMarkEquals
                    | TokenKind::LessThan
                    | TokenKind::LessThanEquals
                    | TokenKind::GreaterThan
                    | TokenKind::GreaterThanEquals => BOOL_TYPE_ID,
                    _ => l.type_id,
                };
                Ok(
                    CheckedExpr {
                        kind: CheckedExprKind::InfixOp { op: *op, lhs: Box::new(l), rhs: Box::new(r) },
                        type_id,
                        span,
                    },
                )
            },
            ParsedExprKind::PostfixOp { .. } => Err(
                TypecheckerError::new(TypecheckerErrorKind::NotImplemented(Construct::PostfixOperator), span),
            ),
            ParsedExprKind::MethodCall { expr, call } => {
                let receiver = match self.check_expression(expr) {
                    Ok(e) => e,
                    Err(e) => return Err(e),
                };
                match self.get_method(receiver.type_id, call.name.as_str()) {
                    Some(method) => {
                        let args = match self.check_expressions(&call.args) {
                            Ok(a) => a,
                            Err(e) => return Err(e),
                        };
                        if let Some(err) = self.check_arguments(&call.name, &method.parameters, &args, span) {
                            return Err(err);
                        }
                        let type_id = method.return_type;
                        Ok(CheckedExpr { kind: CheckedExprKind::MethodCall { method: Box::new(method), args }, type_id, span })
                    },
                    None => {
                        let builtin = match method_from_name(call.name.as_str()) {
                            Some(m) => if builtin_applies_to(m, receiver.type_id) {
                                Some(m)
                            } else {
                                None
                            },
                            None => None,
                        };
                        match builtin {
                            Some(m) => {
                                let args = match self.check_expressions(&call.args) {
                                    Ok(a) => a,
                                    Err(e) => return Err(e),
                                };
                                let params = builtin_params_of(m);
                                if let Some(err) = self.check_arguments(&call.name, &params, &args, span) {
                                    return Err(err);
                                }
                                Ok(
                                    CheckedExpr {
                                        kind: CheckedExprKind::BuiltinMethodCall {
                                            method: m,
                                            receiver: Box::new(receiver),
                                            args,
                                        },
                                        type_id: builtin_type_of(m),
                                        span,
                                    },
                                )
                            },
                            None => Err(
                                TypecheckerError::new(
                                    TypecheckerErrorKind::UnknownMethod {
                                        name: call.name.clone(),
                                        on_type: self.display_name(receiver.type_id),
                                    },
                                    Span::new(0, 0),
                                ),
                            ),
                        }
                    },
                }
            },
        }
    }

    /// What is wrong with the arguments of a call: their number, or else the type of the first
    /// with the wrong one.
    fn check_arguments(
        &self,
        name: &String,
        params: &Vec<(String, TypeId)>,
        args: &Vec<CheckedExpr>,
        span: Span,
    ) -> (r: Option<TypecheckerError>)
        ensures
            match r {
                Some(e) => check_arguments(self@.types, name@, params_view(params@), cexprs_view(args@), span)
                    == Some(e@),
                None => check_arguments(self@.types, name@, params_view(params@), cexprs_view(args@), span) is None,
            },
    {
        proof {
            crate::interpreter::execution::lemma_cexprs_view(args@);
        }
        if args.len() != params.len() {
            return Some(
                TypecheckerError::new(
                    TypecheckerErrorKind::WrongArgumentCount {
                        name: name.clone(),
                        expected: params.len(),
                        found: args.len(),
                    },
                    span,
                ),
            );
        }
        let ghost ps = params_view(params@);
        let ghost cs = cexprs_view(args@);
        let mut k: usize = 0;
        while k < args.len()
            invariant
                args@.len() == params@.len(),
                ps == params_view(params@),
                cs == cexprs_view(args@),
                cs.len() == args@.len(),
                forall|j: int| 0 <= j < cs.len() ==> #[trigger] cs[j] == args@[j]@,
                k <= args@.len(),
                first_mismatch(ps, cs, 0) == first_mismatch(ps, cs, k as int),
            decreases args@.len() - k,
        {
            assert(ps[k as int] == (params@[k as int].0@, params@[k as int].1));
            if args[k].type_id != params[k].1 {
                return Some(
                    TypecheckerError::new(
                        TypecheckerErrorKind::TypeMismatch {
                            expected: self.display_name(params[k].1),
                            found: self.display_name(args[k].type_id),
                        },
                        args[k].span,
                    ),
                );
            }
            k = k + 1;
        }
        None
    }

    /// Checks expressions in order.
    fn check_expressions(&mut self, args: &Vec<ParsedExpr>) -> (r: TypecheckerResult<Vec<CheckedExpr>>)
        ensures
            final(self)@ == old(self)@,
            match r {
                Ok(v) => check_exprs(old(self)@, exprs_view(args@)) == Ok::<Seq<CheckedExprView>, TypecheckerErrorView>(cexprs_view(v@)),
                Err(e) => check_exprs(old(self)@, exprs_view(args@)) == Err::<Seq<CheckedExprView>, TypecheckerErrorView>(e@),
            },
        decreases args,
    {
        let mut out: Vec<CheckedExpr> = Vec::new();
        let mut i: usize = 0;
        proof {
            lemma_exprs_view_take(args@, 0);
        }
        while i < args.len()
            invariant
                i <= args@.len(),
                self@ == old(self)@,
                check_exprs(self@, exprs_view(args@.take(i as int))) == Ok::<Seq<CheckedExprView>, TypecheckerErrorView>(cexprs_view(out@)),
            decreases args@.len() - i,
        {
            assert(decreases_to!(args => args@[i as int]));
            let c = match self.check_expression(&args[i]) {
                Ok(c) => c,
                Err(e) => {
                    proof {
                        lemma_check_exprs_prefix_err(self@, args@, i as int);
                    }
                    return Err(e);
                },
            };
            let ghost before = out@;
            out.push(c);
            proof {
                assert(out@.drop_last() =~= before);
                lemma_exprs_view_step(args@, i as int);
            }
            i = i + 1;
        }
        proof {
            assert(args@.take(args@.len() as int) =~= args@);
        }
        Ok(out)
    }
}

/// Whether a builtin method applies to values of a type.
fn builtin_applies_to(m: BuiltinMethod, t: TypeId) -> (b: bool)
    ensures
        b == builtin_applies(m, t),
{
    match m {
        BuiltinMethod::Append => t == STRING_TYPE_ID,
        BuiltinMethod::ToString => t == INT_TYPE_ID || t == FLOAT_TYPE_ID || t == STRING_TYPE_ID || t
            == BOOL_TYPE_ID,
    }
}

/// The parameters of a builtin method.
fn builtin_params_of(m: BuiltinMethod) -> (ps: Vec<(String, TypeId)>)
    ensures
        params_view(ps@) == builtin_method_params(m),
{
    let mut ps: Vec<(String, TypeId)> = Vec::new();
    match m {
        BuiltinMethod::Append => {
            ps.push(("text".to_string(), STRING_TYPE_ID));
        },
        BuiltinMethod::ToString => {},
    }
    assert(params_view(ps@) =~= builtin_method_params(m));
    ps
}

/// What a builtin method returns.
fn builtin_type_of(m: BuiltinMethod) -> (t: TypeId)
    ensures
        t == builtin_method_type(m),
{
    match m {
        BuiltinMethod::Append => VOID_TYPE_ID,
        BuiltinMethod::ToString => STRING_TYPE_ID,
    }
}

/// What a builtin returns.
fn builtin_return_type_of(f: BuiltinFunction) -> (t: TypeId)
    ensures
        t == builtin_return_type(f),
{
    match f {
        BuiltinFunction::Print => VOID_TYPE_ID,
    }
}

proof fn lemma_exprs_view_take(s: Seq<ParsedExpr>, i: int)
    requires
        0 <= i <= s.len(),
    ensures
        exprs_view(s.take(i)).len() == i,
        forall|j: int| 0 <= j < i ==> #[trigger] exprs_view(s.take(i))[j] == s[j]@,
    decreases i,
{
    if i > 0 {
        lemma_exprs_view_take(s, i - 1);
        assert(s.take(i).drop_last() =~= s.take(i - 1));
    }
}

proof fn lemma_exprs_view_step(s: Seq<ParsedExpr>, i: int)
    requires
        0 <= i < s.len(),
    ensures
        exprs_view(s.take(i + 1)) == exprs_view(s.take(i)).push(s[i]@),
        exprs_view(s.take(i + 1)).drop_last() == exprs_view(s.take(i)),
        exprs_view(s.take(i + 1)).last() == s[i]@,
{
    assert(s.take(i + 1).drop_last() =~= s.take(i));
}

proof fn lemma_check_exprs_prefix_err(tc: TypecheckerView, s: Seq<ParsedExpr>, i: int)
    requires
        0 <= i < s.len(),
        check_exprs(tc, exprs_view(s.take(i))) is Ok,
        check_expr(tc, s[i]@) is Err,
    ensures
        check_exprs(tc, exprs_view(s)) == Err::<Seq<CheckedExprView>, TypecheckerErrorView>(check_expr(tc, s[i]@)->Err_0),
    decreases s.len() - i,
{
    lemma_exprs_view_step(s, i);
    lemma_check_exprs_err_extends(tc, s, i + 1);
}

proof fn lemma_check_exprs_err_extends(tc: TypecheckerView, s: Seq<ParsedExpr>, k: int)
    requires
        0 < k <= s.len(),
        check_exprs(tc, exprs_view(s.take(k))) is Err,
    ensures
        check_exprs(tc, exprs_view(s)) == check_exprs(tc, exprs_view(s.take(k))),
    decreases s.len() - k,
{
    if k < s.len() {
        lemma_exprs_view_step(s, k);
        lemma_check_exprs_err_extends(tc, s, k + 1);
    } else {
        assert(s.take(k) =~= s);
    }
}

impl Typechecker {
    /// Checks a statement of a function that returns `function_return_type`.
    pub fn check_statement(&mut self, statement: &ParsedStmt, function_return_type: TypeId) -> (r: TypecheckerResult<CheckedStmt>)
        ensures
            final(self)@ == with_variables(
                old(self)@,
                check_stmt(old(self)@, statement@, function_return_type).0,
            ),
            stmt_result(r) == check_stmt(old(self)@, statement@, function_return_type).1,
        decreases statement, 2int,
    {
        match statement {
            ParsedStmt::Let { .. } => self.check_let_statement(statement),
            ParsedStmt::Assignment { .. } => self.check_assignment_statement(statement),
            ParsedStmt::If { .. } => self.check_if_statement(statement, function_return_type),
            ParsedStmt::Return { .. } => self.check_return_statement(statement, function_return_type),
            ParsedStmt::Expression { .. } => self.check_expression_statement(statement),
            ParsedStmt::While { condition, body } => {
                let c = match self.check_condition(condition) {
                    Ok(c) => c,
                    Err(e) => return Err(e),
                };
                match self.check_statement(body, function_return_type) {
                    Ok(b) => Ok(CheckedStmt::While { condition: Box::new(c), body: Box::new(b) }),
                    Err(e) => Err(e),
                }
            },
            ParsedStmt::Loop { body } => match self.check_statement(body, function_return_type) {
                Ok(b) => Ok(CheckedStmt::Loop { body: Box::new(b) }),
                Err(e) => Err(e),
            },
            ParsedStmt::Block { block_kind, statements } => {
                match self.check_statements(statements, function_return_type) {
                    Ok(checked) => Ok(CheckedStmt::Block { block_kind: *block_kind, statements: checked }),
                    Err(e) => Err(e),
                }
            },
            ParsedStmt::CompoundAssignment { name, op, expr } => {
                let checked = match self.check_expression(expr) {
                    Ok(c) => c,
                    Err(e) => return Err(e),
                };
                let var_type = match self.get_variable_type(name.as_str()) {
                    Some(t) => t,
                    None => return Err(
                        TypecheckerError::new(
                            TypecheckerErrorKind::UnknownVariable(name.clone()),
                            checked.span,
                        ),
                    ),
                };
                if var_type != checked.type_id {
                    return Err(
                        TypecheckerError::new(
                            TypecheckerErrorKind::TypeMismatch {
                                expected: self.display_name(var_type),
                                found: self.display_name(checked.type_id),
                            },
                            checked.span,
                        ),
                    );
                }
                Ok(CheckedStmt::CompoundAssignment { name: name.clone(), op: *op, expr: Box::new(checked) })
            },
            ParsedStmt::Continue => Ok(CheckedStmt::Continue),
            ParsedStmt::Break => Ok(CheckedStmt::Break),
        }
    }

    /// Checks a condition: an expression of type `bool`.
    pub fn check_condition(&mut self, condition: &ParsedExpr) -> (r: TypecheckerResult<CheckedExpr>)
        ensures
            final(self)@ == old(self)@,
            expr_result(r) == check_condition(old(self)@, condition@),
    {
        let c = match self.check_expression(condition) {
            Ok(c) => c,
            Err(e) => return Err(e),
        };
        if c.type_id != BOOL_TYPE_ID {
            return Err(
                TypecheckerError::new(
                    TypecheckerErrorKind::TypeMismatch {
                        expected: self.display_name(BOOL_TYPE_ID),
                        found: self.display_name(c.type_id),
                    },
                    c.span,
                ),
            );
        }
        Ok(c)
    }

    /// Checks statements in order, each seeing the variables the ones before it declared.
    pub fn check_statements(&mut self, statements: &Vec<ParsedStmt>, function_return_type: TypeId) -> (r: TypecheckerResult<Vec<CheckedStmt>>)
        ensures
            final(self)@ == with_variables(
                old(self)@,
                check_stmts(old(self)@, crate::parser::stmts_view(statements@), function_return_type, 0, Seq::empty()).0,
            ),
            (match r {
                Ok(v) => Ok(cstmts_view(v@)),
                Err(e) => Err(e@),
            }) == check_stmts(old(self)@, crate::parser::stmts_view(statements@), function_return_type, 0, Seq::empty()).1,
        decreases statements, 0int,
    {
        let ghost tc0 = self@;
        let ghost ss = crate::parser::stmts_view(statements@);
        proof {
            lemma_stmts_view(statements@);
        }
        let mut checked: Vec<CheckedStmt> = Vec::new();
        let mut i: usize = 0;
        proof {
            assert(cstmts_view(checked@) =~= Seq::<CheckedStmtView>::empty());
        }
        while i < statements.len()
            invariant
                i <= statements@.len(),
                ss == crate::parser::stmts_view(statements@),
                tc0 == old(self)@,
                ss.len() == statements@.len(),
                forall|j: int| 0 <= j < ss.len() ==> #[trigger] ss[j] == statements@[j]@,
                self@ == with_variables(tc0, self@.variables),
                check_stmts(tc0, ss, function_return_type, 0, Seq::empty()) == check_stmts(
                    self@,
                    ss,
                    function_return_type,
                    i as int,
                    cstmts_view(checked@),
                ),
            decreases statements@.len() - i,
        {
            assert(decreases_to!(statements => statements@[i as int]));
            let c = match self.check_statement(&statements[i], function_return_type) {
                Ok(c) => c,
                Err(e) => return Err(e),
            };
            let ghost before = checked@;
            checked.push(c);
            proof {
                assert(checked@.drop_last() =~= before);
            }
            i = i + 1;
        }
        Ok(checked)
    }

    /// Checks `let type name = expr;`: the expression must have the declared type, which the
    /// variable then has.
    pub fn check_let_statement(&mut self, statement: &ParsedStmt) -> (r: TypecheckerResult<CheckedStmt>)
        requires
            statement is Let,
        ensures
            final(self)@ == with_variables(old(self)@, check_stmt(old(self)@, statement@, VOID_TYPE_ID).0),
            stmt_result(r) == check_stmt(old(self)@, statement@, VOID_TYPE_ID).1,
    {
        match statement {
            ParsedStmt::Let { parsed_type, expr, name } => {
                let var_type_id = match self.check_type(parsed_type) {
                    Ok(t) => t,
                    Err(e) => return Err(e),
                };
                let checked = match self.check_expression(expr) {
                    Ok(c) => c,
                    Err(e) => return Err(e),
                };
                if var_type_id != checked.type_id {
                    return Err(
                        TypecheckerError::new(
                            TypecheckerErrorKind::TypeMismatch {
                                expected: self.display_name(var_type_id),
                                found: self.display_name(checked.type_id),
                            },
                            checked.span,
                        ),
                    );
                }
                self.set_variable_type(name.clone(), var_type_id);
                Ok(CheckedStmt::Let { name: name.clone(), var_type: var_type_id, expr: Box::new(checked) })
            },
            _ => Err(TypecheckerError::new(TypecheckerErrorKind::BodyNotBlock, Span::new(0, 0))),
        }
    }

    /// Checks `name = expr;`: the variable must exist and have the expression's type.
    pub fn check_assignment_statement(&mut self, statement: &ParsedStmt) -> (r: TypecheckerResult<CheckedStmt>)
        requires
            statement is Assignment,
        ensures
            final(self)@ == with_variables(old(self)@, check_stmt(old(self)@, statement@, VOID_TYPE_ID).0),
            stmt_result(r) == check_stmt(old(self)@, statement@, VOID_TYPE_ID).1,
    {
        match statement {
            ParsedStmt::Assignment { expr, name } => {
                let checked = match self.check_expression(expr) {
                    Ok(c) => c,
                    Err(e) => return Err(e),
                };
                let var_type = match self.get_variable_type(name.as_str()) {
                    Some(t) => t,
                    None => return Err(
                        TypecheckerError::new(
                            TypecheckerErrorKind::UnknownVariable(name.clone()),
                            checked.span,
                        ),
                    ),
                };
                if var_type != checked.type_id {
                    return Err(
                        TypecheckerError::new(
                            TypecheckerErrorKind::TypeMismatch {
                                expected: self.display_name(var_type),
                                found: self.display_name(checked.type_id),
                            },
                            checked.span,
                        ),
                    );
                }
                Ok(CheckedStmt::Assignment { name: name.clone(), expr: Box::new(checked) })
            },
            _ => Err(TypecheckerError::new(TypecheckerErrorKind::BodyNotBlock, Span::new(0, 0))),
        }
    }

    /// Checks `if condition { ... } else { ... }`: the condition must be a boolean.
    pub fn check_if_statement(&mut self, statement: &ParsedStmt, function_return_type: TypeId) -> (r: TypecheckerResult<CheckedStmt>)
        requires
            statement is If,
        ensures
            final(self)@ == with_variables(
                old(self)@,
                check_stmt(old(self)@, statement@, function_return_type).0,
            ),
            stmt_result(r) == check_stmt(old(self)@, statement@, function_return_type).1,
        decreases statement, 1int,
    {
        match statement {
            ParsedStmt::If { condition, then_branch, else_branch } => {
                let c = match self.check_condition(condition) {
                    Ok(c) => c,
                    Err(e) => return Err(e),
                };
                let t = match self.check_statement(then_branch, function_return_type) {
                    Ok(t) => t,
                    Err(e) => return Err(e),
                };
                match else_branch {
                    None => Ok(CheckedStmt::If { condition: Box::new(c), then_branch: Box::new(t), else_branch: None }),
                    Some(b) => match self.check_statement(b, function_return_type) {
                        Ok(eb) => Ok(
                            CheckedStmt::If {
                                condition: Box::new(c),
                                then_branch: Box::new(t),
                                else_branch: Some(Box::new(eb)),
                            },
                        ),
                        Err(e) => Err(e),
                    },
                }
            },
            _ => Err(TypecheckerError::new(TypecheckerErrorKind::BodyNotBlock, Span::new(0, 0))),
        }
    }

    /// Checks `return;` or `return expr;` in a function that returns `function_return_type`.
    pub fn check_return_statement(&mut self, statement: &ParsedStmt, function_return_type: TypeId) -> (r: TypecheckerResult<CheckedStmt>)
        requires
            statement is Return,
        ensures
            final(self)@ == old(self)@,
            stmt_result(r) == check_stmt(old(self)@, statement@, function_return_type).1,
    {
        match statement {
            ParsedStmt::Return { expr } => match expr {
                Some(expr) => {
                    let checked = match self.check_expression(expr) {
                        Ok(c) => c,
                        Err(e) => return Err(e),
                    };
                    if checked.type_id != function_return_type {
                        return Err(
                            TypecheckerError::new(
                                TypecheckerErrorKind::ReturnTypeMismatch {
                                    expected: self.display_name(function_return_type),
                                    found: self.display_name(checked.type_id),
                                },
                                expr.span,
                            ),
                        );
                    }
                    Ok(CheckedStmt::Return { expr: Some(Box::new(checked)) })
                },
                None => {
                    if function_return_type != VOID_TYPE_ID {
                        return Err(
                            TypecheckerError::new(
                                TypecheckerErrorKind::MissingReturnValue {
                                    expected: self.display_name(function_return_type),
                                },
                                Span::new(0, 0),
                            ),
                        );
                    }
                    Ok(CheckedStmt::Return { expr: None })
                },
            },
            _ => Err(TypecheckerError::new(TypecheckerErrorKind::BodyNotBlock, Span::new(0, 0))),
        }
    }

    /// Checks `expr;`.
    pub fn check_expression_statement(&mut self, statement: &ParsedStmt) -> (r: TypecheckerResult<CheckedStmt>)
        requires
            statement is Expression,
        ensures
            final(self)@ == old(self)@,
            stmt_result(r) == check_stmt(old(self)@, statement@, VOID_TYPE_ID).1,
    {
        match statement {
            ParsedStmt::Expression { expr } => match self.check_expression(expr) {
                Ok(c) => Ok(CheckedStmt::Expression { expr: Box::new(c) }),
                Err(e) => Err(e),
            },
            _ => Err(TypecheckerError::new(TypecheckerErrorKind::BodyNotBlock, Span::new(0, 0))),
        }
    }

    /// Checks the body of a function that returns `function_return_type`; it must be a block.
    pub fn check_function_body(&mut self, body: &ParsedStmt, function_return_type: TypeId) -> (r: TypecheckerResult<CheckedStmt>)
        ensures
            final(self)@ == with_variables(old(self)@, check_body(old(self)@, body@, function_return_type).0),
            stmt_result(r) == check_body(old(self)@, body@, function_return_type).1,
    {
        match body {
            ParsedStmt::Block { statements, .. } => match self.check_statements(statements, function_return_type) {
                Ok(checked) => Ok(CheckedStmt::Block { block_kind: BlockKind::Function, statements: checked }),
                Err(e) => Err(e),
            },
            _ => Err(TypecheckerError::new(TypecheckerErrorKind::BodyNotBlock, Span::new(0, 0))),
        }
    }
}

/// The views of a list of statements, one for each.
proof fn lemma_stmts_view(s: Seq<ParsedStmt>)
    ensures
        crate::parser::stmts_view(s).len() == s.len(),
        forall|j: int| 0 <= j < s.len() ==> #[trigger] crate::parser::stmts_view(s)[j] == s[j]@,
    decreases s.len(),
{
    if s.len() > 0 {
        lemma_stmts_view(s.drop_last());
        assert forall|j: int| 0 <= j < s.len() implies #[trigger] crate::parser::stmts_view(s)[j] == s[j]@ by {
            if j < s.len() - 1 {
                assert(s.drop_last()[j] == s[j]);
            }
        }
    }
}

/// The views of a list of items, one for each.
proof fn lemma_items_view(s: Seq<ParsedItem>)
    ensures
        items_view(s).len() == s.len(),
        forall|j: int| 0 <= j < s.len() ==> #[trigger] items_view(s)[j] == s[j]@,
{
}

impl Typechecker {
    /// Checks a method and adds it to the type `type_id`.
    fn check_method_item(&mut self, type_id: TypeId, method: &ParsedFunctionItem) -> (r: TypecheckerResult<()>)
        requires
            type_id < old(self)@.types.len(),
        ensures
            (final(self)@, unit_result(r)) == check_method(old(self)@, type_id, method@),
            final(self)@.types.len() == old(self)@.types.len(),
    {
        let return_type = match self.check_type(&method.return_type) {
            Ok(t) => t,
            Err(e) => return Err(e),
        };
        let params = match self.check_parameters(&method.parameters) {
            Ok(p) => p,
            Err(e) => return Err(e),
        };
        let ghost bound_params = params_view(params@);
        self.bind_parameters(&params);
        let body = match self.check_function_body(&method.body, return_type) {
            Ok(b) => b,
            Err(e) => return Err(e),
        };
        let item = CheckedFunctionItem::new(method.name.as_str(), return_type, params, body);
        proof {
            assert(self@.types[type_id as int] == self.types@[type_id as int]@);
        }
        let ghost before = self.types@;
        let ghost tc1 = self@;
        let ghost ty = tc1.types[type_id as int];
        assert(item@ == rules::checked_function(method@.name, return_type, bound_params, body@));
        let result = self.types[type_id as usize].add_method(item);
        proof {
            assert(types_view(self.types@) =~= types_view(before).update(type_id as int, self.types@[type_id as int]@));
            if find_method(ty.methods, method@.name, 0) is Some {
                assert(types_view(before).update(type_id as int, before[type_id as int]@) =~= types_view(before));
                assert(self@ == tc1);
            } else {
                assert(self@.types == tc1.types.update(type_id as int, TypeView { name: ty.name, methods: ty.methods.push(item@) }));
            }
        }
        result
    }

    /// The types of parameters.
    fn check_parameters(&mut self, ps: &Vec<(String, ParsedType)>) -> (r: TypecheckerResult<Vec<(String, TypeId)>>)
        ensures
            final(self)@ == old(self)@,
            (match r {
                Ok(v) => Ok(params_view(v@)),
                Err(e) => Err(e@),
            }) == check_params(old(self)@.types, crate::parser::item::names_view(ps@), 0, Seq::empty()),
    {
        let ghost pv = crate::parser::item::names_view(ps@);
        let mut out: Vec<(String, TypeId)> = Vec::new();
        proof {
            assert(params_view(out@) =~= Seq::<(Seq<char>, TypeId)>::empty());
        }
        let mut i: usize = 0;
        while i < ps.len()
            invariant
                i <= ps@.len(),
                pv == crate::parser::item::names_view(ps@),
                self@ == old(self)@,
                check_params(self@.types, pv, 0, Seq::empty()) == check_params(self@.types, pv, i as int, params_view(out@)),
            decreases ps@.len() - i,
        {
            assert(pv[i as int] == (ps@[i as int].0@, ps@[i as int].1@));
            let t = match self.check_type(&ps[i].1) {
                Ok(t) => t,
                Err(e) => return Err(e),
            };
            let ghost before = params_view(out@);
            let name = ps[i].0.clone();
            let ghost entry = (name@, t);
            out.push((name, t));
            proof {
                assert(params_view(out@) =~= before.push(entry));
            }
            i = i + 1;
        }
        Ok(out)
    }

    /// Gives each parameter its type, in order.
    fn bind_parameters(&mut self, params: &Vec<(String, TypeId)>)
        ensures
            final(self)@ == with_variables(old(self)@, bind_params(old(self)@.variables, params_view(params@), 0)),
    {
        let ghost pv = params_view(params@);
        let mut i: usize = 0;
        while i < params.len()
            invariant
                i <= params@.len(),
                pv == params_view(params@),
                self@ == with_variables(old(self)@, self@.variables),
                bind_params(old(self)@.variables, pv, 0) == bind_params(self@.variables, pv, i as int),
            decreases params@.len() - i,
        {
            assert(pv[i as int] == (params@[i as int].0@, params@[i as int].1));
            self.set_variable_type(params[i].0.clone(), params[i].1);
            i = i + 1;
        }
    }

    /// Checks an extension: its type must exist, and each method is checked and added to it.
    pub fn check_extend_item(&mut self, extends_item: &ParsedExtendsItem) -> (r: TypecheckerResult<()>)
        requires
            old(self).wf(),
        ensures
            final(self).wf(),
            (final(self)@, unit_result(r)) == check_extend(old(self)@, extends_item@),
    {
        let type_id = match self.check_type(&extends_item.parsed_type) {
            Ok(t) => t,
            Err(e) => return Err(e),
        };
        proof {
            lemma_check_type_in_table(self@.types, extends_item.parsed_type@);
        }
        let ghost ms = functions_view(extends_item.methods@);
        let ghost tc0 = self@;
        let mut j: usize = 0;
        while j < extends_item.methods.len()
            invariant
                j <= extends_item.methods@.len(),
                ms == functions_view(extends_item.methods@),
                ms.len() == extends_item.methods@.len(),
                type_id < self@.types.len(),
                self.wf(),
                check_extend(old(self)@, extends_item@) == check_methods(tc0, type_id, ms, 0),
                check_methods(tc0, type_id, ms, 0) == check_methods(self@, type_id, ms, j as int),
            decreases extends_item.methods@.len() - j,
        {
            assert(ms[j as int] == extends_item.methods@[j as int]@);
            match self.check_method_item(type_id, &extends_item.methods[j]) {
                Ok(()) => {},
                Err(e) => return Err(e),
            }
            j = j + 1;
        }
        Ok(())
    }

    /// Declares a function by its name and return type, with an empty body.
    pub fn declare_function_item(&mut self, function: &ParsedFunctionItem) -> (r: TypecheckerResult<()>)
        ensures
            (final(self)@, unit_result(r)) == declare_function(old(self)@, function@),
    {
        let return_type = match self.check_type(&function.return_type) {
            Ok(t) => t,
            Err(e) => return Err(e),
        };
        let params = match self.check_parameters(&function.parameters) {
            Ok(p) => p,
            Err(e) => return Err(e),
        };
        let item = CheckedFunctionItem::new(
            function.name.as_str(),
            return_type,
            params,
            CheckedStmt::Block { block_kind: BlockKind::Function, statements: Vec::new() },
        );
        proof {
            assert(cstmts_view(Seq::<CheckedStmt>::empty()) =~= Seq::<CheckedStmtView>::empty());
        }
        let ghost before = self.functions@;
        self.functions.push(item);
        proof {
            assert(cfunctions_view(self.functions@) =~= cfunctions_view(before).push(cfunction_view(item)));
        }
        Ok(())
    }

    /// Checks the body of the function declared at `function_id` and fills it in.
    pub fn check_function_item(&mut self, function_id: FunctionId, function: &ParsedFunctionItem) -> (r: TypecheckerResult<()>)
        requires
            function_id < old(self)@.functions.len(),
        ensures
            (final(self)@, unit_result(r)) == check_function(old(self)@, function_id as int, function@),
    {
        assert(self@.functions[function_id as int] == cfunction_view(self.functions@[function_id as int]));
        let return_type = self.functions[function_id].return_type;
        let name = self.functions[function_id].name.clone();
        let params = crate::typechecker::checked::duplicate_params(&self.functions[function_id].parameters);
        self.bind_parameters(&params);
        let body = match self.check_function_body(&function.body, return_type) {
            Ok(b) => b,
            Err(e) => return Err(e),
        };
        let item = CheckedFunctionItem::new(name.as_str(), return_type, params, body);
        let ghost before = self.functions@;
        self.functions.set(function_id, item);
        proof {
            assert(cfunctions_view(self.functions@) =~= cfunctions_view(before).update(
                function_id as int,
                cfunction_view(item),
            ));
        }
        Ok(())
    }

    /// Checks the extensions among the items, in order.
    fn check_extend_items(&mut self, top_level: &Vec<ParsedItem>) -> (r: TypecheckerResult<()>)
        requires
            old(self).wf(),
        ensures
            final(self).wf(),
            (final(self)@, unit_result(r)) == check_extends(old(self)@, items_view(top_level@), 0),
    {
        let ghost items = items_view(top_level@);
        proof {
            lemma_items_view(top_level@);
        }
        let mut i: usize = 0;
        while i < top_level.len()
            invariant
                i <= top_level@.len(),
                items == items_view(top_level@),
                items.len() == top_level@.len(),
                forall|j: int| 0 <= j < items.len() ==> #[trigger] items[j] == top_level@[j]@,
                self.wf(),
                check_extends(old(self)@, items, 0) == check_extends(self@, items, i as int),
            decreases top_level@.len() - i,
        {
            match &top_level[i] {
                ParsedItem::Extends(extends_item) => match self.check_extend_item(extends_item) {
                    Ok(()) => {},
                    Err(e) => return Err(e),
                },
                ParsedItem::Function(_) => {},
            }
            i = i + 1;
        }
        Ok(())
    }

    /// Declares the functions among the items, in order.
    fn declare_function_items(&mut self, top_level: &Vec<ParsedItem>) -> (r: TypecheckerResult<()>)
        ensures
            (final(self)@, unit_result(r)) == declare_functions(old(self)@, items_view(top_level@), 0),
    {
        let ghost items = items_view(top_level@);
        proof {
            lemma_items_view(top_level@);
        }
        let mut i: usize = 0;
        while i < top_level.len()
            invariant
                i <= top_level@.len(),
                items == items_view(top_level@),
                items.len() == top_level@.len(),
                forall|j: int| 0 <= j < items.len() ==> #[trigger] items[j] == top_level@[j]@,
                declare_functions(old(self)@, items, 0) == declare_functions(self@, items, i as int),
            decreases top_level@.len() - i,
        {
            match &top_level[i] {
                ParsedItem::Function(function) => match self.declare_function_item(function) {
                    Ok(()) => {},
                    Err(e) => return Err(e),
                },
                ParsedItem::Extends(_) => {},
            }
            i = i + 1;
        }
        Ok(())
    }

    /// Checks the bodies of the functions among the items, declared from index `base` on.
    #[verifier::rlimit(30)]
    fn check_function_items(&mut self, top_level: &Vec<ParsedItem>, base: usize) -> (r: TypecheckerResult<()>)
        requires
            base + count_functions(items_view(top_level@), 0) == old(self)@.functions.len(),
        ensures
            (final(self)@, unit_result(r)) == check_function_bodies(
                old(self)@,
                items_view(top_level@),
                0,
                base as int,
            ),
    {
        let ghost items = items_view(top_level@);
        proof {
            lemma_items_view(top_level@);
        }
        let mut k = base;
        let mut i: usize = 0;
        while i < top_level.len()
            invariant
                i <= top_level@.len(),
                items == items_view(top_level@),
                items.len() == top_level@.len(),
                forall|j: int| 0 <= j < items.len() ==> #[trigger] items[j] == top_level@[j]@,
                k + count_functions(items, i as int) == self@.functions.len(),
                check_function_bodies(old(self)@, items, 0, base as int) == check_function_bodies(
                    self@,
                    items,
                    i as int,
                    k as int,
                ),
            decreases top_level@.len() - i,
        {
            match &top_level[i] {
                ParsedItem::Function(function) => {
                    let ghost len_before = self@.functions.len();
                    assert(count_functions(items, i as int) == 1 + count_functions(items, i + 1));
                    match self.check_function_item(k, function) {
                        Ok(()) => {},
                        Err(e) => return Err(e),
                    }
                    assert(self@.functions.len() == len_before);
                    assert(self@.functions.len() == self.functions@.len());
                    assert(self.functions.len() == self.functions@.len());
                    k = k + 1;
                },
                ParsedItem::Extends(_) => {},
            }
            i = i + 1;
        }
        Ok(())
    }

    /// Checks a program: every extension first, then every function's name and return type,
    /// then every function's body.
    #[verifier::rlimit(30)]
    pub fn check_top_level(&mut self, top_level: &Vec<ParsedItem>) -> (r: TypecheckerResult<()>)
        requires
            old(self).wf(),
        ensures
            final(self).wf(),
            (final(self)@, unit_result(r)) == check_program(old(self)@, items_view(top_level@)),
    {
        let ghost items = items_view(top_level@);
        match self.check_extend_items(top_level) {
            Ok(()) => {},
            Err(e) => return Err(e),
        }
        let ghost tc1 = self@;
        let base = self.functions.len();
        match self.declare_function_items(top_level) {
            Ok(()) => {},
            Err(e) => {
                proof {
                    lemma_declare(tc1, items, 0);
                }
                return Err(e);
            },
        }
        proof {
            lemma_declare(tc1, items, 0);
            lemma_bodies(self@, items, 0, base as int);
        }
        self.check_function_items(top_level, base)
    }
}

} // verus!
