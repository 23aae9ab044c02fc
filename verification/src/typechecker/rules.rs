//! The typing rules, as spec functions over views.
use vstd::prelude::*;

use crate::builtins::{builtin_method_named, BuiltinFunction, BuiltinMethod};
use crate::parser::ast::{BlockKind, LiteralView};
use crate::parser::item::{ParsedExtendsItemView, ParsedFunctionItemView, ParsedItemView};
use crate::parser::{ParsedExprKindView, ParsedExprView, ParsedStmtView, ParsedTypeView};
use crate::source::Span;
use crate::tokenizer::token::TokenKind;
use crate::typechecker::checked::{
    CheckedExprKindView, CheckedExprView, CheckedFunctionView, CheckedStmtView, TypeId,
    BOOL_TYPE_ID, FLOAT_TYPE_ID, INT_TYPE_ID, STRING_TYPE_ID, VOID_TYPE_ID,
};
use crate::typechecker::error::{Construct, TypecheckerErrorKindView, TypecheckerErrorView};
use crate::types::{find_method, TypeView};

verus! {

/// What the typechecker knows: the types of variables (one entry per name), the functions
/// checked so far, and the types with their methods.
pub struct TypecheckerView {
    pub variables: Seq<(Seq<char>, TypeId)>,
    pub functions: Seq<CheckedFunctionView>,
    pub types: Seq<TypeView>,
}

/// The types a typechecker starts with.
pub open spec fn builtin_types() -> Seq<TypeView> {
    seq![
        TypeView { name: "void"@, methods: Seq::empty() },
        TypeView { name: "int"@, methods: Seq::empty() },
        TypeView { name: "float"@, methods: Seq::empty() },
        TypeView { name: "string"@, methods: Seq::empty() },
        TypeView { name: "bool"@, methods: Seq::empty() },
    ]
}

/// The span of errors that have no place in the source.
pub open spec fn no_span() -> Span {
    Span { start: 0, end: 0 }
}

pub open spec fn error(kind: TypecheckerErrorKindView, span: Span) -> TypecheckerErrorView {
    TypecheckerErrorView { kind, span }
}

/// The name of a type, as messages show it.
pub open spec fn display_name(types: Seq<TypeView>, id: TypeId) -> Seq<char> {
    if id < types.len() {
        types[id as int].name
    } else {
        Seq::empty()
    }
}

/// The methods of a type.
pub open spec fn methods_of(types: Seq<TypeView>, id: TypeId) -> Seq<CheckedFunctionView> {
    if id < types.len() {
        types[id as int].methods
    } else {
        Seq::empty()
    }
}

/// The index of the first type at or after `i` with the given name.
pub open spec fn find_type(types: Seq<TypeView>, name: Seq<char>, i: int) -> Option<int>
    decreases types.len() - i,
{
    if i < 0 || i >= types.len() {
        None
    } else if types[i].name == name {
        Some(i)
    } else {
        find_type(types, name, i + 1)
    }
}

/// The index of the first function at or after `i` with the given name.
pub open spec fn find_function(functions: Seq<CheckedFunctionView>, name: Seq<char>, i: int) -> Option<int>
    decreases functions.len() - i,
{
    if i < 0 || i >= functions.len() {
        None
    } else if functions[i].name == name {
        Some(i)
    } else {
        find_function(functions, name, i + 1)
    }
}

/// The index of the first variable at or after `i` with the given name.
pub open spec fn find_variable(variables: Seq<(Seq<char>, TypeId)>, name: Seq<char>, i: int) -> Option<int>
    decreases variables.len() - i,
{
    if i < 0 || i >= variables.len() {
        None
    } else if variables[i].0 == name {
        Some(i)
    } else {
        find_variable(variables, name, i + 1)
    }
}

/// The type of a variable.
pub open spec fn variable_type(variables: Seq<(Seq<char>, TypeId)>, name: Seq<char>) -> Option<TypeId> {
    match find_variable(variables, name, 0) {
        Some(i) => Some(variables[i].1),
        None => None,
    }
}

/// The variables with `name` given type `t`, replacing its earlier type if it had one.
pub open spec fn set_variable(variables: Seq<(Seq<char>, TypeId)>, name: Seq<char>, t: TypeId) -> Seq<
    (Seq<char>, TypeId),
> {
    match find_variable(variables, name, 0) {
        Some(i) => variables.update(i, (name, t)),
        None => variables.push((name, t)),
    }
}

/// The type of a parsed type: a builtin, or a type found by name.
pub open spec fn check_type(types: Seq<TypeView>, t: ParsedTypeView) -> Result<TypeId, TypecheckerErrorView> {
    match t {
        ParsedTypeView::Void => Ok(VOID_TYPE_ID),
        ParsedTypeView::Int => Ok(INT_TYPE_ID),
        ParsedTypeView::Float => Ok(FLOAT_TYPE_ID),
        ParsedTypeView::String => Ok(STRING_TYPE_ID),
        ParsedTypeView::Bool => Ok(BOOL_TYPE_ID),
        ParsedTypeView::Name(n) => match find_type(types, n, 0) {
            Some(i) => Ok(i as TypeId),
            None => Err(error(TypecheckerErrorKindView::UnknownType(n), no_span())),
        },
    }
}

/// The type of a literal.
pub open spec fn literal_type(l: LiteralView) -> TypeId {
    match l {
        LiteralView::Int(_) => INT_TYPE_ID,
        LiteralView::Float(_) => FLOAT_TYPE_ID,
        LiteralView::String(_) => STRING_TYPE_ID,
        LiteralView::Bool(_) => BOOL_TYPE_ID,
    }
}

/// What a builtin returns.
pub open spec fn builtin_return_type(f: BuiltinFunction) -> TypeId {
    match f {
        BuiltinFunction::Print => VOID_TYPE_ID,
    }
}

/// The type of an infix expression over operands of type `t`: a comparison gives a boolean,
/// every other operator the operands' type.
pub open spec fn infix_result_type(op: TokenKind, t: TypeId) -> TypeId {
    match op {
        TokenKind::EqualsEquals
        | TokenKind::ExclamationMarkEquals
        | TokenKind::LessThan
        | TokenKind::LessThanEquals
        | TokenKind::GreaterThan
        | TokenKind::GreaterThanEquals => BOOL_TYPE_ID,
        _ => t,
    }
}

/// A checked expression with the given kind and type, at the span of `e`.
pub open spec fn checked(e: ParsedExprView, kind: CheckedExprKindView, t: TypeId) -> CheckedExprView {
    CheckedExprView { kind, type_id: t, span: e.span }
}

/// Checks an expression. A call of a function keeps no arguments; an infix operator takes two
/// operands of one type and gives that type, or a boolean for a comparison; `-` and `+` take a number, `!` a boolean.
pub open spec fn check_expr(tc: TypecheckerView, e: ParsedExprView) -> Result<
    CheckedExprView,
    TypecheckerErrorView,
>
    decreases e,
{
    match e.kind {
        ParsedExprKindView::Literal(l) => Ok(checked(e, CheckedExprKindView::Literal(l), literal_type(l))),
        ParsedExprKindView::Identifier(n) => match variable_type(tc.variables, n) {
            Some(t) => Ok(checked(e, CheckedExprKindView::Identifier(n), t)),
            None => Err(error(TypecheckerErrorKindView::UnknownVariable(n), e.span)),
        },
        ParsedExprKindView::BuiltinFnCall { function, args } => match check_exprs(tc, args) {
            Ok(cs) => Ok(
                checked(
                    e,
                    CheckedExprKindView::BuiltinFnCall { function, args: cs },
                    builtin_return_type(function),
                ),
            ),
            Err(err) => Err(err),
        },
        ParsedExprKindView::FnCall(call) => match find_function(tc.functions, call.name, 0) {
            None => Err(error(TypecheckerErrorKindView::UnknownFunction(call.name), no_span())),
            Some(i) => match check_exprs(tc, call.args) {
                Err(err) => Err(err),
                Ok(cs) => match check_arguments(tc.types, call.name, tc.functions[i].parameters, cs, e.span) {
                    Some(err) => Err(err),
                    None => Ok(
                        checked(
                            e,
                            CheckedExprKindView::FnCall { name: call.name, args: cs },
                            tc.functions[i].return_type,
                        ),
                    ),
                },
            },
        },
        ParsedExprKindView::PrefixOp { op, expr } => match check_expr(tc, *expr) {
            Err(err) => Err(err),
            Ok(c) => {
                let node = checked(e, CheckedExprKindView::PrefixOp { op, expr: Box::new(c) }, c.type_id);
                match op {
                    TokenKind::Minus | TokenKind::Plus => if c.type_id == INT_TYPE_ID || c.type_id
                        == FLOAT_TYPE_ID {
                        Ok(node)
                    } else {
                        Err(
                            error(
                                TypecheckerErrorKindView::TypeMismatch {
                                    expected: display_name(tc.types, INT_TYPE_ID),
                                    found: display_name(tc.types, c.type_id),
                                },
                                c.span,
                            ),
                        )
                    },
                    TokenKind::ExclamationMark => if c.type_id == BOOL_TYPE_ID {
                        Ok(node)
                    } else {
                        Err(
                            error(
                                TypecheckerErrorKindView::TypeMismatch {
                                    expected: display_name(tc.types, BOOL_TYPE_ID),
                                    found: display_name(tc.types, c.type_id),
                                },
                                c.span,
                            ),
                        )
                    },
                    _ => Err(error(TypecheckerErrorKindView::NotImplemented(Construct::PrefixOperator), e.span)),
                }
            },
        },
        ParsedExprKindView::InfixOp { op, lhs, rhs } => match check_expr(tc, *lhs) {
            Err(err) => Err(err),
            Ok(l) => match check_expr(tc, *rhs) {
                Err(err) => Err(err),
                Ok(r) => if l.type_id != r.type_id {
                    Err(
                        error(
                            TypecheckerErrorKindView::TypeMismatch {
                                expected: display_name(tc.types, l.type_id),
                                found: display_name(tc.types, r.type_id),
                            },
                            r.span,
                        ),
                    )
                } else {
                    Ok(
                        checked(
                            e,
                            CheckedExprKindView::InfixOp { op, lhs: Box::new(l), rhs: Box::new(r) },
                            infix_result_type(op, l.type_id),
                        ),
                    )
                },
            },
        },
        ParsedExprKindView::PostfixOp { .. } => Err(
            error(TypecheckerErrorKindView::NotImplemented(Construct::PostfixOperator), e.span),
        ),
        ParsedExprKindView::MethodCall { expr, call } => match check_expr(tc, *expr) {
            Err(err) => Err(err),
            Ok(receiver) => {
                let methods = methods_of(tc.types, receiver.type_id);
                match find_method(methods, call.name, 0) {
                    Some(j) => match check_exprs(tc, call.args) {
                        Err(err) => Err(err),
                        Ok(cs) => match check_arguments(tc.types, call.name, methods[j].parameters, cs, e.span) {
                            Some(err) => Err(err),
                            None => Ok(
                                checked(
                                    e,
                                    CheckedExprKindView::MethodCall { method: Box::new(methods[j]), args: cs },
                                    methods[j].return_type,
                                ),
                            ),
                        },
                    },
                    None => match builtin_method_named(call.name) {
                        Some(m) if builtin_applies(m, receiver.type_id) => match check_exprs(tc, call.args) {
                            Err(err) => Err(err),
                            Ok(cs) => match check_arguments(tc.types, call.name, builtin_method_params(m), cs, e.span) {
                                Some(err) => Err(err),
                                None => Ok(
                                    checked(
                                        e,
                                        CheckedExprKindView::BuiltinMethodCall {
                                            method: m,
                                            receiver: Box::new(receiver),
                                            args: cs,
                                        },
                                        builtin_method_type(m),
                                    ),
                                ),
                            },
                        },
                        _ => Err(
                            error(
                                TypecheckerErrorKindView::UnknownMethod {
                                    name: call.name,
                                    on_type: display_name(tc.types, receiver.type_id),
                                },
                                no_span(),
                            ),
                        ),
                    },
                }
            },
        },
    }
}

/// Whether a builtin method applies to values of a type: `append` to strings, `to_string` to
/// ints, floats, strings and booleans.
pub open spec fn builtin_applies(m: BuiltinMethod, t: TypeId) -> bool {
    match m {
        BuiltinMethod::Append => t == STRING_TYPE_ID,
        BuiltinMethod::ToString => t == INT_TYPE_ID || t == FLOAT_TYPE_ID || t == STRING_TYPE_ID || t
            == BOOL_TYPE_ID,
    }
}

/// The parameters of a builtin method.
pub open spec fn builtin_method_params(m: BuiltinMethod) -> Seq<(Seq<char>, TypeId)> {
    match m {
        BuiltinMethod::Append => seq![("text"@, STRING_TYPE_ID)],
        BuiltinMethod::ToString => Seq::empty(),
    }
}

/// What a builtin method returns.
pub open spec fn builtin_method_type(m: BuiltinMethod) -> TypeId {
    match m {
        BuiltinMethod::Append => VOID_TYPE_ID,
        BuiltinMethod::ToString => STRING_TYPE_ID,
    }
}

/// The index of the first argument, from `k` on, whose type is not its parameter's.
pub open spec fn first_mismatch(params: Seq<(Seq<char>, TypeId)>, args: Seq<CheckedExprView>, k: int) -> Option<int>
    decreases args.len() - k,
{
    if k < 0 || k >= args.len() || k >= params.len() {
        None
    } else if args[k].type_id != params[k].1 {
        Some(k)
    } else {
        first_mismatch(params, args, k + 1)
    }
}

/// What is wrong with the arguments of a call of `name` at `span`: their number, or else the
/// type of the first that has the wrong one; `None` if nothing is.
pub open spec fn check_arguments(
    types: Seq<TypeView>,
    name: Seq<char>,
    params: Seq<(Seq<char>, TypeId)>,
    args: Seq<CheckedExprView>,
    span: Span,
) -> Option<TypecheckerErrorView> {
    if args.len() != params.len() {
        Some(
            error(
                TypecheckerErrorKindView::WrongArgumentCount {
                    name,
                    expected: params.len() as usize,
                    found: args.len() as usize,
                },
                span,
            ),
        )
    } else {
        match first_mismatch(params, args, 0) {
            Some(k) => Some(
                error(
                    TypecheckerErrorKindView::TypeMismatch {
                        expected: display_name(types, params[k].1),
                        found: display_name(types, args[k].type_id),
                    },
                    args[k].span,
                ),
            ),
            None => None,
        }
    }
}

/// Checks expressions in order; the first error stops it.
pub open spec fn check_exprs(tc: TypecheckerView, es: Seq<ParsedExprView>) -> Result<
    Seq<CheckedExprView>,
    TypecheckerErrorView,
>
    decreases es,
{
    if es.len() == 0 {
        Ok(Seq::empty())
    } else {
        proof {
            assert(decreases_to!(es => es.drop_last()));
        }
        match check_exprs(tc, es.drop_last()) {
            Err(err) => Err(err),
            Ok(cs) => match check_expr(tc, es.last()) {
                Err(err) => Err(err),
                Ok(c) => Ok(cs.push(c)),
            },
        }
    }
}

/// Checks a statement of a function that returns `ret`: the variables after it, and the
/// checked statement. Only `let` gives a variable a type; an error in a statement with no
/// statements inside changes nothing. A condition must be a boolean.
pub open spec fn check_stmt(tc: TypecheckerView, s: ParsedStmtView, ret: TypeId) -> (
    Seq<(Seq<char>, TypeId)>,
    Result<CheckedStmtView, TypecheckerErrorView>,
)
    decreases s, 0int,
{
    let unchanged = tc.variables;
    match s {
        ParsedStmtView::Let { name, parsed_type, expr } => match check_type(tc.types, parsed_type) {
            Err(err) => (unchanged, Err(err)),
            Ok(t) => match check_expr(tc, expr) {
                Err(err) => (unchanged, Err(err)),
                Ok(c) => if t != c.type_id {
                    (
                        unchanged,
                        Err(
                            error(
                                TypecheckerErrorKindView::TypeMismatch {
                                    expected: display_name(tc.types, t),
                                    found: display_name(tc.types, c.type_id),
                                },
                                c.span,
                            ),
                        ),
                    )
                } else {
                    (
                        set_variable(tc.variables, name, t),
                        Ok(CheckedStmtView::Let { name, var_type: t, expr: c }),
                    )
                },
            },
        },
        ParsedStmtView::Assignment { name, expr } => match check_expr(tc, expr) {
            Err(err) => (unchanged, Err(err)),
            Ok(c) => match variable_type(tc.variables, name) {
                None => (unchanged, Err(error(TypecheckerErrorKindView::UnknownVariable(name), c.span))),
                Some(t) => if t != c.type_id {
                    (
                        unchanged,
                        Err(
                            error(
                                TypecheckerErrorKindView::TypeMismatch {
                                    expected: display_name(tc.types, t),
                                    found: display_name(tc.types, c.type_id),
                                },
                                c.span,
                            ),
                        ),
                    )
                } else {
                    (unchanged, Ok(CheckedStmtView::Assignment { name, expr: c }))
                },
            },
        },
        ParsedStmtView::Return { expr: Some(e) } => match check_expr(tc, e) {
            Err(err) => (unchanged, Err(err)),
            Ok(c) => if c.type_id != ret {
                (
                    unchanged,
                    Err(
                        error(
                            TypecheckerErrorKindView::ReturnTypeMismatch {
                                expected: display_name(tc.types, ret),
                                found: display_name(tc.types, c.type_id),
                            },
                            e.span,
                        ),
                    ),
                )
            } else {
                (unchanged, Ok(CheckedStmtView::Return { expr: Some(c) }))
            },
        },
        ParsedStmtView::Return { expr: None } => if ret != VOID_TYPE_ID {
            (
                unchanged,
                Err(
                    error(
                        TypecheckerErrorKindView::MissingReturnValue { expected: display_name(tc.types, ret) },
                        no_span(),
                    ),
                ),
            )
        } else {
            (unchanged, Ok(CheckedStmtView::Return { expr: None }))
        },
        ParsedStmtView::Expression { expr } => match check_expr(tc, expr) {
            Err(err) => (unchanged, Err(err)),
            Ok(c) => (unchanged, Ok(CheckedStmtView::Expression { expr: c })),
        },
        ParsedStmtView::If { condition, then_branch, else_branch } => match check_condition(tc, condition) {
            Err(err) => (unchanged, Err(err)),
            Ok(c) => {
                let (vars1, r1) = check_stmt(tc, *then_branch, ret);
                match r1 {
                    Err(err) => (vars1, Err(err)),
                    Ok(t) => match else_branch {
                        None => (vars1, Ok(CheckedStmtView::If { condition: c, then_branch: Box::new(t), else_branch: None })),
                        Some(b) => {
                            let (vars2, r2) = check_stmt(with_variables(tc, vars1), *b, ret);
                            match r2 {
                                Err(err) => (vars2, Err(err)),
                                Ok(eb) => (
                                    vars2,
                                    Ok(
                                        CheckedStmtView::If {
                                            condition: c,
                                            then_branch: Box::new(t),
                                            else_branch: Some(Box::new(eb)),
                                        },
                                    ),
                                ),
                            }
                        },
                    },
                }
            },
        },
        ParsedStmtView::While { condition, body } => match check_condition(tc, condition) {
            Err(err) => (unchanged, Err(err)),
            Ok(c) => {
                let (vars, r) = check_stmt(tc, *body, ret);
                match r {
                    Err(err) => (vars, Err(err)),
                    Ok(b) => (vars, Ok(CheckedStmtView::While { condition: c, body: Box::new(b) })),
                }
            },
        },
        ParsedStmtView::Loop { body } => {
            let (vars, r) = check_stmt(tc, *body, ret);
            match r {
                Err(err) => (vars, Err(err)),
                Ok(b) => (vars, Ok(CheckedStmtView::Loop { body: Box::new(b) })),
            }
        },
        ParsedStmtView::Block { block_kind, statements } => {
            let (vars, r) = check_stmts(tc, statements, ret, 0, Seq::empty());
            match r {
                Err(err) => (vars, Err(err)),
                Ok(cs) => (vars, Ok(CheckedStmtView::Block { block_kind, statements: cs })),
            }
        },
        ParsedStmtView::CompoundAssignment { name, op, expr } => match check_expr(tc, expr) {
            Err(err) => (unchanged, Err(err)),
            Ok(c) => match variable_type(tc.variables, name) {
                None => (unchanged, Err(error(TypecheckerErrorKindView::UnknownVariable(name), c.span))),
                Some(t) => if t != c.type_id {
                    (
                        unchanged,
                        Err(
                            error(
                                TypecheckerErrorKindView::TypeMismatch {
                                    expected: display_name(tc.types, t),
                                    found: display_name(tc.types, c.type_id),
                                },
                                c.span,
                            ),
                        ),
                    )
                } else {
                    (unchanged, Ok(CheckedStmtView::CompoundAssignment { name, op, expr: c }))
                },
            },
        },
        ParsedStmtView::Continue => (unchanged, Ok(CheckedStmtView::Continue)),
        ParsedStmtView::Break => (unchanged, Ok(CheckedStmtView::Break)),
    }
}

/// A condition: an expression of type `bool`.
pub open spec fn check_condition(tc: TypecheckerView, e: ParsedExprView) -> Result<CheckedExprView, TypecheckerErrorView> {
    match check_expr(tc, e) {
        Err(err) => Err(err),
        Ok(c) => if c.type_id != BOOL_TYPE_ID {
            Err(
                error(
                    TypecheckerErrorKindView::TypeMismatch {
                        expected: display_name(tc.types, BOOL_TYPE_ID),
                        found: display_name(tc.types, c.type_id),
                    },
                    c.span,
                ),
            )
        } else {
            Ok(c)
        },
    }
}

/// The typechecker with its variables replaced.
pub open spec fn with_variables(tc: TypecheckerView, variables: Seq<(Seq<char>, TypeId)>) -> TypecheckerView {
    TypecheckerView { variables, ..tc }
}

/// Checks the statements from index `i` on, in order, each seeing the variables the ones
/// before it declared, after those already checked in `acc`; the first error stops it.
pub open spec fn check_stmts(tc: TypecheckerView, ss: Seq<ParsedStmtView>, ret: TypeId, i: int, acc: Seq<CheckedStmtView>) -> (
    Seq<(Seq<char>, TypeId)>,
    Result<Seq<CheckedStmtView>, TypecheckerErrorView>,
)
    decreases ss, ss.len() - i,
{
    if i < 0 || i >= ss.len() {
        (tc.variables, Ok(acc))
    } else {
        proof {
            assert(decreases_to!(ss => ss[i]));
        }
        let (vars, r) = check_stmt(tc, ss[i], ret);
        match r {
            Err(err) => (vars, Err(err)),
            Ok(c) => check_stmts(with_variables(tc, vars), ss, ret, i + 1, acc.push(c)),
        }
    }
}

/// Checks the body of a function that returns `ret`; it must be a block.
pub open spec fn check_body(tc: TypecheckerView, body: ParsedStmtView, ret: TypeId) -> (
    Seq<(Seq<char>, TypeId)>,
    Result<CheckedStmtView, TypecheckerErrorView>,
) {
    match body {
        ParsedStmtView::Block { statements, .. } => {
            let (vars, r) = check_stmts(tc, statements, ret, 0, Seq::empty());
            match r {
                Err(err) => (vars, Err(err)),
                Ok(cs) => (vars, Ok(CheckedStmtView::Block { block_kind: BlockKind::Function, statements: cs })),
            }
        },
        _ => (tc.variables, Err(error(TypecheckerErrorKindView::BodyNotBlock, no_span()))),
    }
}

/// A checked function.
pub open spec fn checked_function(
    name: Seq<char>,
    ret: TypeId,
    params: Seq<(Seq<char>, TypeId)>,
    body: CheckedStmtView,
) -> CheckedFunctionView {
    CheckedFunctionView { name, return_type: ret, parameters: params, body }
}

/// The types of parameters from index `i` on, after those in `acc`.
pub open spec fn check_params(
    types: Seq<TypeView>,
    ps: Seq<(Seq<char>, ParsedTypeView)>,
    i: int,
    acc: Seq<(Seq<char>, TypeId)>,
) -> Result<Seq<(Seq<char>, TypeId)>, TypecheckerErrorView>
    decreases ps.len() - i,
{
    if i < 0 || i >= ps.len() {
        Ok(acc)
    } else {
        match check_type(types, ps[i].1) {
            Err(err) => Err(err),
            Ok(t) => check_params(types, ps, i + 1, acc.push((ps[i].0, t))),
        }
    }
}

/// The variables with each parameter from index `i` on given its type.
pub open spec fn bind_params(
    variables: Seq<(Seq<char>, TypeId)>,
    params: Seq<(Seq<char>, TypeId)>,
    i: int,
) -> Seq<(Seq<char>, TypeId)>
    decreases params.len() - i,
{
    if i < 0 || i >= params.len() {
        variables
    } else {
        bind_params(set_variable(variables, params[i].0, params[i].1), params, i + 1)
    }
}

/// An empty function body.
pub open spec fn empty_body() -> CheckedStmtView {
    CheckedStmtView::Block { block_kind: BlockKind::Function, statements: Seq::empty() }
}

/// Checks a method and adds it to type `t`.
pub open spec fn check_method(tc: TypecheckerView, t: TypeId, m: ParsedFunctionItemView) -> (
    TypecheckerView,
    Result<(), TypecheckerErrorView>,
) {
    match check_type(tc.types, m.return_type) {
        Err(err) => (tc, Err(err)),
        Ok(ret) => match check_params(tc.types, m.parameters, 0, Seq::empty()) {
        Err(err) => (tc, Err(err)),
        Ok(params) => {
            let (vars, r) = check_body(with_variables(tc, bind_params(tc.variables, params, 0)), m.body, ret);
            let tc1 = with_variables(tc, vars);
            match r {
                Err(err) => (tc1, Err(err)),
                Ok(body) => {
                    let ty = tc1.types[t as int];
                    if find_method(ty.methods, m.name, 0) is Some {
                        (
                            tc1,
                            Err(
                                error(
                                    TypecheckerErrorKindView::DuplicateMethod {
                                        name: m.name,
                                        on_type: ty.name,
                                    },
                                    no_span(),
                                ),
                            ),
                        )
                    } else {
                        (
                            TypecheckerView {
                                types: tc1.types.update(
                                    t as int,
                                    TypeView {
                                        name: ty.name,
                                        methods: ty.methods.push(checked_function(m.name, ret, params, body)),
                                    },
                                ),
                                ..tc1
                            },
                            Ok(()),
                        )
                    }
                },
            }
        },
        },
    }
}

/// Checks the methods from index `i` on, in order, and adds them to type `t`.
pub open spec fn check_methods(tc: TypecheckerView, t: TypeId, ms: Seq<ParsedFunctionItemView>, i: int) -> (
    TypecheckerView,
    Result<(), TypecheckerErrorView>,
)
    decreases ms.len() - i,
{
    if i < 0 || i >= ms.len() {
        (tc, Ok(()))
    } else {
        let (tc1, r) = check_method(tc, t, ms[i]);
        match r {
            Err(err) => (tc1, Err(err)),
            Ok(_) => check_methods(tc1, t, ms, i + 1),
        }
    }
}

/// Checks an extension: its type must exist.
pub open spec fn check_extend(tc: TypecheckerView, x: ParsedExtendsItemView) -> (
    TypecheckerView,
    Result<(), TypecheckerErrorView>,
) {
    match check_type(tc.types, x.parsed_type) {
        Err(err) => (tc, Err(err)),
        Ok(t) => check_methods(tc, t, x.methods, 0),
    }
}

/// Checks the extensions among the items from index `i` on, in order.
pub open spec fn check_extends(tc: TypecheckerView, items: Seq<ParsedItemView>, i: int) -> (
    TypecheckerView,
    Result<(), TypecheckerErrorView>,
)
    decreases items.len() - i,
{
    if i < 0 || i >= items.len() {
        (tc, Ok(()))
    } else {
        match items[i] {
            ParsedItemView::Extends(x) => {
                let (tc1, r) = check_extend(tc, x);
                match r {
                    Err(err) => (tc1, Err(err)),
                    Ok(_) => check_extends(tc1, items, i + 1),
                }
            },
            ParsedItemView::Function(_) => check_extends(tc, items, i + 1),
        }
    }
}

/// How many functions there are among the items from index `i` on.
pub open spec fn count_functions(items: Seq<ParsedItemView>, i: int) -> nat
    decreases items.len() - i,
{
    if i < 0 || i >= items.len() {
        0
    } else {
        match items[i] {
            ParsedItemView::Function(_) => 1 + count_functions(items, i + 1),
            ParsedItemView::Extends(_) => count_functions(items, i + 1),
        }
    }
}

/// Declares a function by its name and return type, with an empty body.
pub open spec fn declare_function(tc: TypecheckerView, f: ParsedFunctionItemView) -> (
    TypecheckerView,
    Result<(), TypecheckerErrorView>,
) {
    match check_type(tc.types, f.return_type) {
        Err(err) => (tc, Err(err)),
        Ok(ret) => match check_params(tc.types, f.parameters, 0, Seq::empty()) {
            Err(err) => (tc, Err(err)),
            Ok(params) => (
                TypecheckerView {
                    functions: tc.functions.push(checked_function(f.name, ret, params, empty_body())),
                    ..tc
                },
                Ok(()),
            ),
        },
    }
}

/// Checks the body of the function declared at index `k` and fills it in.
pub open spec fn check_function(tc: TypecheckerView, k: int, pf: ParsedFunctionItemView) -> (
    TypecheckerView,
    Result<(), TypecheckerErrorView>,
) {
    let f = tc.functions[k];
    let (vars, rb) = check_body(with_variables(tc, bind_params(tc.variables, f.parameters, 0)), pf.body, f.return_type);
    let tc1 = with_variables(tc, vars);
    match rb {
        Err(err) => (tc1, Err(err)),
        Ok(body) => (
            TypecheckerView {
                functions: tc1.functions.update(k, checked_function(f.name, f.return_type, f.parameters, body)),
                ..tc1
            },
            Ok(()),
        ),
    }
}

/// Declares the functions among the items from index `i` on, in order, by name and return
/// type, with empty bodies.
pub open spec fn declare_functions(tc: TypecheckerView, items: Seq<ParsedItemView>, i: int) -> (
    TypecheckerView,
    Result<(), TypecheckerErrorView>,
)
    decreases items.len() - i,
{
    if i < 0 || i >= items.len() {
        (tc, Ok(()))
    } else {
        match items[i] {
            ParsedItemView::Function(f) => {
                let (tc1, r) = declare_function(tc, f);
                match r {
                    Err(err) => (tc1, Err(err)),
                    Ok(_) => declare_functions(tc1, items, i + 1),
                }
            },
            ParsedItemView::Extends(_) => declare_functions(tc, items, i + 1),
        }
    }
}

/// Checks the bodies of the functions among the items from index `i` on, in order; the first
/// of them was declared at index `k`. Each body is filled in.
pub open spec fn check_function_bodies(tc: TypecheckerView, items: Seq<ParsedItemView>, i: int, k: int) -> (
    TypecheckerView,
    Result<(), TypecheckerErrorView>,
)
    decreases items.len() - i,
{
    if i < 0 || i >= items.len() {
        (tc, Ok(()))
    } else {
        match items[i] {
            ParsedItemView::Function(pf) => {
                let (tc1, r) = check_function(tc, k, pf);
                match r {
                    Err(err) => (tc1, Err(err)),
                    Ok(_) => check_function_bodies(tc1, items, i + 1, k + 1),
                }
            },
            ParsedItemView::Extends(_) => check_function_bodies(tc, items, i + 1, k),
        }
    }
}

/// Checks a program: first every extension, so that methods are known; then every function's
/// name and return type, so that a function can be called above its definition; then every
/// function's body.
pub open spec fn check_program(tc: TypecheckerView, items: Seq<ParsedItemView>) -> (
    TypecheckerView,
    Result<(), TypecheckerErrorView>,
) {
    let (tc1, r1) = check_extends(tc, items, 0);
    match r1 {
        Err(err) => (tc1, Err(err)),
        Ok(_) => {
            let (tc2, r2) = declare_functions(tc1, items, 0);
            match r2 {
                Err(err) => (tc2, Err(err)),
                Ok(_) => check_function_bodies(tc2, items, 0, tc1.functions.len() as int),
            }
        },
    }
}

} // verus!
