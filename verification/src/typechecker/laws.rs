//! What holds of every typechecked program.
use vstd::prelude::*;

use crate::parser::item::{ParsedFunctionItemView, ParsedItemView};
use crate::parser::{ParsedExprView, ParsedStmtView};
use crate::tokenizer::token::TokenKind;
use crate::builtins::{builtin_method_named, BuiltinMethod};
use crate::typechecker::checked::{
    CheckedExprView, BOOL_TYPE_ID, FLOAT_TYPE_ID, INT_TYPE_ID, STRING_TYPE_ID, VOID_TYPE_ID,
};
use crate::typechecker::error::TypecheckerErrorView;
use crate::typechecker::checked::{CheckedStmtView, TypeId};
use crate::typechecker::rules::{
    builtin_applies, builtin_method_params, builtin_method_type, methods_of, check_body, check_expr,
    check_exprs, find_function, first_mismatch, check_extend, check_extends, check_method, check_methods, check_program,
    check_stmt, check_stmts, check_type, declare_functions, find_variable, set_variable,
    variable_type, with_variables, TypecheckerView,
};
use crate::types::{find_method, TypeView};

verus! {

proof fn lemma_find_variable(vars: Seq<(Seq<char>, TypeId)>, name: Seq<char>, i: int)
    requires
        0 <= i,
    ensures
        match find_variable(vars, name, i) {
            Some(j) => i <= j < vars.len() && vars[j].0 == name && forall|k: int|
                i <= k < j ==> #[trigger] vars[k].0 != name,
            None => forall|k: int| i <= k < vars.len() ==> #[trigger] vars[k].0 != name,
        },
    decreases vars.len() - i,
{
    if i < vars.len() && vars[i].0 != name {
        lemma_find_variable(vars, name, i + 1);
    }
}

/// After a variable is given a type, it has that type, and every other variable keeps its own.
pub proof fn law_set_variable(vars: Seq<(Seq<char>, TypeId)>, name: Seq<char>, t: TypeId, other: Seq<char>)
    ensures
        variable_type(set_variable(vars, name, t), name) == Some(t),
        other != name ==> variable_type(set_variable(vars, name, t), other) == variable_type(vars, other),
{
    let p = set_variable(vars, name, t);
    lemma_find_variable(vars, name, 0);
    lemma_find_variable(p, name, 0);
    lemma_find_variable(vars, other, 0);
    lemma_find_variable(p, other, 0);
    match find_variable(vars, name, 0) {
        Some(i) => {
            assert(p[i].0 == name);
            if find_variable(p, name, 0) != Some(i) {
                assert(p[i].0 == name);
            }
            if other != name {
                assert forall|k: int| 0 <= k < vars.len() implies (#[trigger] p[k]).0 == other <==> vars[k].0
                    == other by {
                    if k != i {
                        assert(p[k] == vars[k]);
                    }
                }
                if let Some(j) = find_variable(vars, other, 0) {
                    assert(p[j] == vars[j]);
                }
            }
        },
        None => {
            assert(p[vars.len() as int].0 == name);
            assert forall|k: int| 0 <= k < vars.len() implies #[trigger] p[k] == vars[k] by {}
            if other != name {
                if let Some(j) = find_variable(vars, other, 0) {
                    assert(p[j] == vars[j]);
                }
            }
        },
    }
}

/// A checked `let` gives its variable the declared type, which its value has.
pub proof fn law_let_declares(tc: TypecheckerView, s: ParsedStmtView, ret: TypeId)
    requires
        s is Let,
        check_stmt(tc, s, ret).1 is Ok,
    ensures
        check_stmt(tc, s, ret).1->Ok_0 matches CheckedStmtView::Let { name, var_type, expr } && expr.type_id
            == var_type && variable_type(check_stmt(tc, s, ret).0, name) == Some(var_type),
{
    if let ParsedStmtView::Let { name, parsed_type, expr } = s {
        let t = check_type(tc.types, parsed_type)->Ok_0;
        law_set_variable(tc.variables, name, t, name);
    }
}

/// Every `return` with a value in the statements checked, from index `i` on and in `acc`,
/// returns a value of the function's return type.
pub open spec fn returns_typed(ss: Seq<CheckedStmtView>, ret: TypeId) -> bool {
    forall|i: int|
        0 <= i < ss.len() ==> (#[trigger] ss[i] matches CheckedStmtView::Return { expr: Some(c) }
            ==> c.type_id == ret)
}

proof fn lemma_stmts_returns(
    tc: TypecheckerView,
    ss: Seq<ParsedStmtView>,
    ret: TypeId,
    i: int,
    acc: Seq<CheckedStmtView>,
)
    requires
        returns_typed(acc, ret),
    ensures
        check_stmts(tc, ss, ret, i, acc).1 matches Ok(cs) ==> returns_typed(cs, ret),
    decreases ss.len() - i,
{
    if 0 <= i < ss.len() {
        let (vars, r) = check_stmt(tc, ss[i], ret);
        if let Ok(c) = r {
            let acc2 = acc.push(c);
            assert forall|j: int| 0 <= j < acc2.len() implies (#[trigger] acc2[j] matches CheckedStmtView::Return {
                expr: Some(e),
            } ==> e.type_id == ret) by {
                if j < acc.len() {
                    assert(acc2[j] == acc[j]);
                }
            }
            lemma_stmts_returns(with_variables(tc, vars), ss, ret, i + 1, acc2);
        }
    }
}

/// In a checked function body, every `return` with a value returns a value of the function's
/// return type.
pub proof fn law_returns_typed(tc: TypecheckerView, body: ParsedStmtView, ret: TypeId)
    ensures
        check_body(tc, body, ret).1 matches Ok(CheckedStmtView::Block { statements, .. }) ==> returns_typed(
            statements,
            ret,
        ),
{
    if let ParsedStmtView::Block { statements, .. } = body {
        lemma_stmts_returns(tc, statements, ret, 0, Seq::empty());
    }
}

/// No type has two methods of the same name.
pub open spec fn methods_distinct(types: Seq<TypeView>) -> bool {
    forall|t: int, i: int, j: int|
        0 <= t < types.len() && 0 <= i < j < types[t].methods.len() ==> (#[trigger] types[t].methods[i]).name
            != (#[trigger] types[t].methods[j]).name
}

proof fn lemma_find_method(methods: Seq<crate::typechecker::checked::CheckedFunctionView>, name: Seq<char>, i: int)
    requires
        0 <= i,
    ensures
        find_method(methods, name, i) is None ==> forall|k: int| i <= k < methods.len() ==> #[trigger] methods[k].name != name,
    decreases methods.len() - i,
{
    if i < methods.len() && methods[i].name != name {
        lemma_find_method(methods, name, i + 1);
    }
}

proof fn lemma_method_distinct(tc: TypecheckerView, t: TypeId, m: ParsedFunctionItemView)
    requires
        methods_distinct(tc.types),
        t < tc.types.len(),
    ensures
        methods_distinct(check_method(tc, t, m).0.types),
        check_method(tc, t, m).0.types.len() == tc.types.len(),
{
    if let Ok(ret) = check_type(tc.types, m.return_type) {
        let ty = tc.types[t as int];
        lemma_find_method(ty.methods, m.name, 0);
        let types2 = check_method(tc, t, m).0.types;
        assert forall|u: int, i: int, j: int|
            0 <= u < types2.len() && 0 <= i < j < types2[u].methods.len() implies (#[trigger] types2[u].methods[i]).name
            != (#[trigger] types2[u].methods[j]).name by {
            if u == t as int && check_method(tc, t, m).1 is Ok {
                if j == ty.methods.len() {
                    assert(types2[u].methods[i] == ty.methods[i]);
                } else {
                    assert(types2[u].methods[i] == ty.methods[i]);
                    assert(types2[u].methods[j] == ty.methods[j]);
                }
            } else {
                assert(types2[u] == tc.types[u]);
            }
        }
    }
}

proof fn lemma_methods_distinct(tc: TypecheckerView, t: TypeId, ms: Seq<ParsedFunctionItemView>, i: int)
    requires
        methods_distinct(tc.types),
        t < tc.types.len(),
    ensures
        methods_distinct(check_methods(tc, t, ms, i).0.types),
    decreases ms.len() - i,
{
    if 0 <= i < ms.len() {
        lemma_method_distinct(tc, t, ms[i]);
        lemma_methods_distinct(check_method(tc, t, ms[i]).0, t, ms, i + 1);
    }
}

proof fn lemma_extends_distinct(tc: TypecheckerView, items: Seq<ParsedItemView>, i: int)
    requires
        methods_distinct(tc.types),
        tc.types.len() >= 5,
    ensures
        methods_distinct(check_extends(tc, items, i).0.types),
        check_extends(tc, items, i).0.types.len() == tc.types.len(),
    decreases items.len() - i,
{
    if 0 <= i < items.len() {
        match items[i] {
            ParsedItemView::Extends(x) => {
                crate::typechecker::lemma_check_type_in_table(tc.types, x.parsed_type);
                if let Ok(t) = check_type(tc.types, x.parsed_type) {
                    lemma_methods_distinct(tc, t, x.methods, 0);
                    crate::typechecker::lemma_methods(tc, t, x.methods, 0);
                }
                lemma_extends_distinct(check_extend(tc, x).0, items, i + 1);
            },
            ParsedItemView::Function(_) => {
                lemma_extends_distinct(tc, items, i + 1);
            },
        }
    }
}

/// Checking a program never gives a type two methods of the same name: a second method of a
/// name is an error.
pub proof fn law_methods_distinct(tc: TypecheckerView, items: Seq<ParsedItemView>)
    requires
        methods_distinct(tc.types),
        tc.types.len() >= 5,
    ensures
        methods_distinct(check_program(tc, items).0.types),
{
    lemma_extends_distinct(tc, items, 0);
    let tc1 = check_extends(tc, items, 0).0;
    if check_extends(tc, items, 0).1 is Ok {
        crate::typechecker::lemma_declare(tc1, items, 0);
        let tc2 = declare_functions(tc1, items, 0).0;
        if declare_functions(tc1, items, 0).1 is Ok {
            crate::typechecker::lemma_bodies(tc2, items, 0, tc1.functions.len() as int);
        }
    }
}

/// Whether some function has the name.
pub open spec fn named(fs: Seq<crate::typechecker::checked::CheckedFunctionView>, name: Seq<char>) -> bool {
    exists|k: int| 0 <= k < fs.len() && (#[trigger] fs[k]).name == name
}

proof fn lemma_find_function(fs: Seq<crate::typechecker::checked::CheckedFunctionView>, name: Seq<char>, i: int)
    requires
        0 <= i,
    ensures
        crate::typechecker::rules::find_function(fs, name, i) is Some <==> exists|k: int| i <= k < fs.len() && (#[trigger] fs[k]).name == name,
    decreases fs.len() - i,
{
    if i < fs.len() {
        lemma_find_function(fs, name, i + 1);
        if fs[i].name != name {
            assert forall|k: int| i <= k < fs.len() && (#[trigger] fs[k]).name == name implies i + 1 <= k by {}
        }
    }
}

/// Whether every function among the items from index `i` on has its name in `fs`.
pub open spec fn all_named(fs: Seq<crate::typechecker::checked::CheckedFunctionView>, items: Seq<ParsedItemView>, i: int) -> bool {
    forall|j: int|
        i <= j < items.len() ==> (#[trigger] items[j] matches ParsedItemView::Function(f) ==> named(fs, f.name))
}

proof fn lemma_declare_names(tc: TypecheckerView, items: Seq<ParsedItemView>, i: int)
    requires
        0 <= i <= items.len(),
    ensures
        declare_functions(tc, items, i).1 is Ok ==> all_named(declare_functions(tc, items, i).0.functions, items, i)
            && forall|n: Seq<char>| named(tc.functions, n) ==> #[trigger] named(declare_functions(tc, items, i).0.functions, n),
    decreases items.len() - i,
{
    if i < items.len() {
        match items[i] {
            ParsedItemView::Function(f) => {
                let tc1 = crate::typechecker::rules::declare_function(tc, f);
                lemma_declare_names(tc1.0, items, i + 1);
                if tc1.1 is Ok {
                    let fs = tc1.0.functions;
                    assert(fs[tc.functions.len() as int].name == f.name);
                    assert(named(fs, f.name));
                    assert forall|n: Seq<char>| named(tc.functions, n) implies #[trigger] named(fs, n) by {
                        let k = choose|k: int| 0 <= k < tc.functions.len() && (#[trigger] tc.functions[k]).name == n;
                        assert(fs[k] == tc.functions[k]);
                    }
                }
            },
            ParsedItemView::Extends(_) => {
                lemma_declare_names(tc, items, i + 1);
            },
        }
    }
}

proof fn lemma_bodies_names(tc: TypecheckerView, items: Seq<ParsedItemView>, i: int, k: int)
    requires
        0 <= i <= items.len(),
        0 <= k,
        k + crate::typechecker::rules::count_functions(items, i) <= tc.functions.len(),
    ensures
        check_function_bodies_names(tc, items, i, k),
    decreases items.len() - i,
{
    if i < items.len() {
        match items[i] {
            ParsedItemView::Function(pf) => {
                let tc1 = crate::typechecker::rules::check_function(tc, k, pf).0;
                assert forall|m: int| 0 <= m < tc.functions.len() implies #[trigger] tc1.functions[m].name
                    == tc.functions[m].name by {}
                lemma_bodies_names(tc1, items, i + 1, k + 1);
            },
            ParsedItemView::Extends(_) => {
                lemma_bodies_names(tc, items, i + 1, k);
            },
        }
    }
}

/// Checking bodies keeps the number and the names of the functions.
pub open spec fn check_function_bodies_names(tc: TypecheckerView, items: Seq<ParsedItemView>, i: int, k: int) -> bool {
    let after = crate::typechecker::rules::check_function_bodies(tc, items, i, k).0.functions;
    &&& after.len() == tc.functions.len()
    &&& forall|m: int| 0 <= m < tc.functions.len() ==> (#[trigger] after[m]).name == tc.functions[m].name
}

/// A function can be called above its definition: every function of a program is declared
/// before any body is checked, and stays known, under its name, while the bodies are checked.
pub proof fn law_functions_declared_first(tc: TypecheckerView, items: Seq<ParsedItemView>)
    requires
        tc.types.len() >= 5,
    ensures
        ({
            let tc1 = check_extends(tc, items, 0).0;
            let tc2 = declare_functions(tc1, items, 0).0;
            check_extends(tc, items, 0).1 is Ok && declare_functions(tc1, items, 0).1 is Ok ==> all_named(
                tc2.functions,
                items,
                0,
            ) && check_function_bodies_names(tc2, items, 0, tc1.functions.len() as int) && forall|j: int|
                0 <= j < items.len() ==> (#[trigger] items[j] matches ParsedItemView::Function(f)
                    ==> crate::typechecker::rules::find_function(tc2.functions, f.name, 0) is Some)
        }),
        check_program(tc, items).1 is Ok ==> all_named(check_program(tc, items).0.functions, items, 0),
{
    let tc1 = check_extends(tc, items, 0).0;
    let tc2 = declare_functions(tc1, items, 0).0;
    lemma_declare_names(tc1, items, 0);
    if check_extends(tc, items, 0).1 is Ok && declare_functions(tc1, items, 0).1 is Ok {
        crate::typechecker::lemma_declare(tc1, items, 0);
        lemma_bodies_names(tc2, items, 0, tc1.functions.len() as int);
        assert forall|j: int| 0 <= j < items.len() implies (#[trigger] items[j] matches ParsedItemView::Function(f)
            ==> crate::typechecker::rules::find_function(tc2.functions, f.name, 0) is Some) by {
            if let ParsedItemView::Function(f) = items[j] {
                assert(named(tc2.functions, f.name));
                lemma_find_function(tc2.functions, f.name, 0);
            }
        }
        let after = check_program(tc, items).0.functions;
        assert forall|j: int| 0 <= j < items.len() implies (#[trigger] items[j] matches ParsedItemView::Function(f) ==> named(after, f.name)) by {
            if let ParsedItemView::Function(f) = items[j] {
                assert(named(tc2.functions, f.name));
                let k = choose|k: int| 0 <= k < tc2.functions.len() && (#[trigger] tc2.functions[k]).name == f.name;
                assert(after[k].name == tc2.functions[k].name);
            }
        }
    }
}

/// A `let` whose value has another type than the one declared is refused, with both types
/// named, and declares nothing.
pub proof fn law_let_mismatch_refused(tc: TypecheckerView, s: ParsedStmtView, ret: TypeId)
    requires
        s matches ParsedStmtView::Let { parsed_type, expr, .. } && check_type(tc.types, parsed_type) is Ok
            && check_expr(tc, expr) is Ok && check_expr(tc, expr)->Ok_0.type_id != check_type(
            tc.types,
            parsed_type,
        )->Ok_0,
    ensures
        ({
            let declared = check_type(tc.types, s->Let_parsed_type)->Ok_0;
            let found = check_expr(tc, s->Let_expr)->Ok_0;
            check_stmt(tc, s, ret) == (
                tc.variables,
                Err::<CheckedStmtView, crate::typechecker::error::TypecheckerErrorView>(
                    crate::typechecker::rules::error(
                        crate::typechecker::error::TypecheckerErrorKindView::TypeMismatch {
                            expected: crate::typechecker::rules::display_name(tc.types, declared),
                            found: crate::typechecker::rules::display_name(tc.types, found.type_id),
                        },
                        found.span,
                    ),
                ),
            )
        }),
{
}

/// A `return` whose value has another type than the function returns is refused, with both
/// types named.
pub proof fn law_return_mismatch_refused(tc: TypecheckerView, s: ParsedStmtView, ret: TypeId)
    requires
        s matches ParsedStmtView::Return { expr: Some(e) } && check_expr(tc, e) is Ok && check_expr(
            tc,
            e,
        )->Ok_0.type_id != ret,
    ensures
        check_stmt(tc, s, ret).1 matches Err(err) && err.kind == (
        crate::typechecker::error::TypecheckerErrorKindView::ReturnTypeMismatch {
            expected: crate::typechecker::rules::display_name(tc.types, ret),
            found: crate::typechecker::rules::display_name(
                tc.types,
                check_expr(tc, s->Return_expr->Some_0)->Ok_0.type_id,
            ),
        }),
{
}

/// A method whose name its type already has is refused, and the type keeps its methods.
pub proof fn law_duplicate_method_refused(tc: TypecheckerView, t: TypeId, m: ParsedFunctionItemView)
    requires
        t < tc.types.len(),
        find_method(tc.types[t as int].methods, m.name, 0) is Some,
    ensures
        check_method(tc, t, m).1 is Err,
        check_method(tc, t, m).0.types == tc.types,
{
}

proof fn lemma_find_function_from(fs: Seq<crate::typechecker::checked::CheckedFunctionView>, name: Seq<char>, i: int)
    requires
        0 <= i,
    ensures
        match crate::typechecker::rules::find_function(fs, name, i) {
            Some(j) => i <= j < fs.len() && fs[j].name == name && forall|k: int|
                i <= k < j ==> #[trigger] fs[k].name != name,
            None => forall|k: int| i <= k < fs.len() ==> #[trigger] fs[k].name != name,
        },
    decreases fs.len() - i,
{
    if i < fs.len() && fs[i].name != name {
        lemma_find_function_from(fs, name, i + 1);
    }
}

/// A function is looked up by name in the order the functions were added: the first with the
/// name is found, and none is found when no function has the name.
pub proof fn law_find_function_first(fs: Seq<crate::typechecker::checked::CheckedFunctionView>, name: Seq<char>)
    ensures
        match crate::typechecker::rules::find_function(fs, name, 0) {
            Some(j) => 0 <= j < fs.len() && fs[j].name == name && forall|k: int|
                0 <= k < j ==> #[trigger] fs[k].name != name,
            None => forall|k: int| 0 <= k < fs.len() ==> #[trigger] fs[k].name != name,
        },
{
    lemma_find_function_from(fs, name, 0);
}

proof fn lemma_find_method_from(ms: Seq<crate::typechecker::checked::CheckedFunctionView>, name: Seq<char>, i: int)
    requires
        0 <= i,
    ensures
        match find_method(ms, name, i) {
            Some(j) => i <= j < ms.len() && ms[j].name == name && forall|k: int|
                i <= k < j ==> #[trigger] ms[k].name != name,
            None => forall|k: int| i <= k < ms.len() ==> #[trigger] ms[k].name != name,
        },
    decreases ms.len() - i,
{
    if i < ms.len() && ms[i].name != name {
        lemma_find_method_from(ms, name, i + 1);
    }
}

/// A method is looked up by name on its type: the first method of the type with the name is
/// found, and none is found when the type has no method of the name.
pub proof fn law_find_method_first(ms: Seq<crate::typechecker::checked::CheckedFunctionView>, name: Seq<char>)
    ensures
        match find_method(ms, name, 0) {
            Some(j) => 0 <= j < ms.len() && ms[j].name == name && forall|k: int|
                0 <= k < j ==> #[trigger] ms[k].name != name,
            None => forall|k: int| 0 <= k < ms.len() ==> #[trigger] ms[k].name != name,
        },
{
    lemma_find_method_from(ms, name, 0);
}

/// Whether an operator compares its operands.
pub open spec fn is_comparison(op: TokenKind) -> bool {
    op == TokenKind::EqualsEquals || op == TokenKind::ExclamationMarkEquals || op == TokenKind::LessThan
        || op == TokenKind::LessThanEquals || op == TokenKind::GreaterThan || op
        == TokenKind::GreaterThanEquals
}

/// A comparison that typechecks compares operands of one type, and is a boolean.
pub proof fn law_comparisons_are_booleans(tc: TypecheckerView, e: ParsedExprView)
    requires
        e.kind is InfixOp,
        is_comparison(e.kind->InfixOp_op),
        check_expr(tc, e) is Ok,
    ensures
        check_expr(tc, e)->Ok_0.type_id == BOOL_TYPE_ID,
        check_expr(tc, *e.kind->InfixOp_lhs) is Ok,
        check_expr(tc, *e.kind->InfixOp_rhs) is Ok,
        check_expr(tc, *e.kind->InfixOp_lhs)->Ok_0.type_id == check_expr(tc, *e.kind->InfixOp_rhs)->Ok_0.type_id,
{
}

/// The condition of an `if` or a `while` that typechecks is a boolean.
pub proof fn law_conditions_are_booleans(tc: TypecheckerView, s: ParsedStmtView, ret: TypeId)
    requires
        check_stmt(tc, s, ret).1 is Ok,
    ensures
        match s {
            ParsedStmtView::If { condition, .. } => check_expr(tc, condition) matches Ok(c) && c.type_id
                == BOOL_TYPE_ID,
            ParsedStmtView::While { condition, .. } => check_expr(tc, condition) matches Ok(c) && c.type_id
                == BOOL_TYPE_ID,
            _ => true,
        },
{
}

proof fn lemma_first_mismatch(params: Seq<(Seq<char>, TypeId)>, args: Seq<CheckedExprView>, k: int)
    requires
        0 <= k,
        args.len() == params.len(),
        first_mismatch(params, args, k) is None,
    ensures
        forall|j: int| k <= j < args.len() ==> #[trigger] args[j].type_id == params[j].1,
    decreases args.len() - k,
{
    if k < args.len() {
        lemma_first_mismatch(params, args, k + 1);
    }
}

/// A call that typechecks names a declared function, has as many arguments as the function has
/// parameters, and each argument has its parameter's type.
pub proof fn law_calls_match_parameters(tc: TypecheckerView, e: ParsedExprView)
    requires
        e.kind is FnCall,
        check_expr(tc, e) is Ok,
    ensures
        find_function(tc.functions, e.kind->FnCall_0.name, 0) matches Some(i) && check_exprs(
            tc,
            e.kind->FnCall_0.args,
        ) matches Ok(cs) && cs.len() == tc.functions[i].parameters.len() && forall|j: int|
            0 <= j < cs.len() ==> #[trigger] cs[j].type_id == tc.functions[i].parameters[j].1,
{
    let call = e.kind->FnCall_0;
    let i = find_function(tc.functions, call.name, 0)->Some_0;
    let cs = check_exprs(tc, call.args)->Ok_0;
    lemma_first_mismatch(tc.functions[i].parameters, cs, 0);
}

/// `to_string` applies to every value type: on a receiver of type `int`, `float`, `string` or
/// `bool` for which no extension defines a `to_string` of its own, `e.to_string()` typechecks,
/// as a string. `append` applies to strings only, takes one string and gives nothing.
pub proof fn law_builtin_methods_apply(tc: TypecheckerView, e: ParsedExprView)
    requires
        e.kind is MethodCall,
        e.kind->MethodCall_call.name == "to_string"@,
        e.kind->MethodCall_call.args.len() == 0,
        check_expr(tc, *e.kind->MethodCall_expr) is Ok,
        ({
            let t = check_expr(tc, *e.kind->MethodCall_expr)->Ok_0.type_id;
            t == INT_TYPE_ID || t == FLOAT_TYPE_ID || t == STRING_TYPE_ID || t == BOOL_TYPE_ID
        }),
        find_method(
            methods_of(tc.types, check_expr(tc, *e.kind->MethodCall_expr)->Ok_0.type_id),
            "to_string"@,
            0,
        ) is None,
    ensures
        check_expr(tc, e) is Ok,
        check_expr(tc, e)->Ok_0.type_id == STRING_TYPE_ID,
        check_expr(tc, e)->Ok_0.kind is BuiltinMethodCall,
        check_expr(tc, e)->Ok_0.kind->BuiltinMethodCall_method == BuiltinMethod::ToString,
{
    reveal_strlit("to_string");
    reveal_strlit("append");
    let call = e.kind->MethodCall_call;
    assert("to_string"@.len() == 9);
    assert("append"@.len() == 6);
    assert(call.name != crate::builtins::builtin_method_name(BuiltinMethod::Append));
    assert(call.name == crate::builtins::builtin_method_name(BuiltinMethod::ToString));
    assert(builtin_method_named(call.name) == Some(BuiltinMethod::ToString));
    assert(check_exprs(tc, call.args) == Ok::<Seq<CheckedExprView>, TypecheckerErrorView>(Seq::empty()));
}

/// Which value types each builtin method applies to, and what it gives.
pub proof fn law_builtin_method_types(t: TypeId)
    ensures
        builtin_applies(BuiltinMethod::ToString, t) <==> (t == INT_TYPE_ID || t == FLOAT_TYPE_ID || t
            == STRING_TYPE_ID || t == BOOL_TYPE_ID),
        builtin_applies(BuiltinMethod::Append, t) <==> t == STRING_TYPE_ID,
        builtin_method_type(BuiltinMethod::ToString) == STRING_TYPE_ID,
        builtin_method_type(BuiltinMethod::Append) == VOID_TYPE_ID,
        builtin_method_params(BuiltinMethod::ToString).len() == 0,
        builtin_method_params(BuiltinMethod::Append).len() == 1,
        builtin_method_params(BuiltinMethod::Append)[0].1 == STRING_TYPE_ID,
{
}

/// An infix expression whose operands typecheck: operands of different types are refused with
/// a type mismatch; operands of one type give a boolean for a comparison and their own type
/// for every other operator.
pub proof fn law_infix_types(tc: TypecheckerView, e: ParsedExprView)
    requires
        e.kind is InfixOp,
        check_expr(tc, *e.kind->InfixOp_lhs) is Ok,
        check_expr(tc, *e.kind->InfixOp_rhs) is Ok,
    ensures
        ({
            let l = check_expr(tc, *e.kind->InfixOp_lhs)->Ok_0.type_id;
            let r = check_expr(tc, *e.kind->InfixOp_rhs)->Ok_0.type_id;
            &&& l != r ==> check_expr(tc, e) is Err && check_expr(tc, e)->Err_0.kind is TypeMismatch
            &&& l == r ==> check_expr(tc, e) is Ok && check_expr(tc, e)->Ok_0.type_id == if is_comparison(
                e.kind->InfixOp_op,
            ) {
                BOOL_TYPE_ID
            } else {
                l
            }
        }),
{
}

} // verus!
