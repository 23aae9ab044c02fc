//! What holds of variables and scopes whatever the program.
use vstd::prelude::*;

use crate::interpreter::scope::{find_var, put_var, ControlFlowView, ScopeView};

use crate::interpreter::semantics::{
    assign, bind_values, eval, eval_args, infix_value, lookup, run_block, run_function, run_loop,
    run_stmt, run_stmts, run_while, scope_with, MachineView, prefix_value,
};
use crate::builtins::BuiltinMethod;
use crate::interpreter::error::ExecutionErrorKindView;
use crate::interpreter::value::ValueView;
use crate::parser::ast::BlockKind;
use crate::tokenizer::token::TokenKind;
use crate::typechecker::checked::{
    TypeId,
    CheckedExprKindView, CheckedExprView, CheckedFunctionView, CheckedStmtView,
};

verus! {

/// `find_var` gives the first index at or after `i` with the name.
pub proof fn lemma_find_var(vars: Seq<(Seq<char>, ValueView)>, name: Seq<char>, i: int)
    requires
        0 <= i,
    ensures
        match find_var(vars, name, i) {
            Some(j) => i <= j < vars.len() && vars[j].0 == name && forall|k: int|
                i <= k < j ==> #[trigger] vars[k].0 != name,
            None => forall|k: int| i <= k < vars.len() ==> #[trigger] vars[k].0 != name,
        },
    decreases vars.len() - i,
{
    if i < vars.len() && vars[i].0 != name {
        lemma_find_var(vars, name, i + 1);
    }
}

/// Whether a scope has a variable with the name.
pub open spec fn has_var(s: ScopeView, name: Seq<char>) -> bool {
    exists|j: int| 0 <= j < s.variables.len() && #[trigger] s.variables[j].0 == name
}

proof fn lemma_has_var(s: ScopeView, name: Seq<char>)
    ensures
        has_var(s, name) == (find_var(s.variables, name, 0) is Some),
{
    lemma_find_var(s.variables, name, 0);
}

/// `scope_with` gives the innermost scope at or below `k` that has the name.
pub proof fn lemma_scope_with(scopes: Seq<ScopeView>, name: Seq<char>, k: int)
    requires
        k < scopes.len(),
    ensures
        match scope_with(scopes, name, k) {
            Some(j) => 0 <= j <= k && has_var(scopes[j], name) && forall|m: int|
                j < m <= k ==> !has_var(#[trigger] scopes[m], name),
            None => forall|m: int| 0 <= m <= k ==> !has_var(#[trigger] scopes[m], name),
        },
    decreases k + 1,
{
    if k >= 0 {
        lemma_has_var(scopes[k], name);
        if find_var(scopes[k].variables, name, 0) is None {
            lemma_scope_with(scopes, name, k - 1);
        }
    }
}

/// The innermost scope with a name is where `scope_with` finds it.
proof fn lemma_scope_with_unique(scopes: Seq<ScopeView>, name: Seq<char>, k: int, j: int)
    requires
        0 <= j <= k < scopes.len(),
        has_var(scopes[j], name),
        forall|m: int| j < m <= k ==> !has_var(#[trigger] scopes[m], name),
    ensures
        scope_with(scopes, name, k) == Some(j),
    decreases k - j,
{
    lemma_has_var(scopes[k], name);
    if k > j {
        lemma_scope_with_unique(scopes, name, k - 1, j);
    }
}

/// Putting a variable makes the first entry with its name hold the value.
proof fn lemma_put_var_same(vars: Seq<(Seq<char>, ValueView)>, name: Seq<char>, v: ValueView)
    ensures
        find_var(put_var(vars, name, v), name, 0) matches Some(j) && put_var(vars, name, v)[j].1 == v,
{
    let p = put_var(vars, name, v);
    lemma_find_var(vars, name, 0);
    lemma_find_var(p, name, 0);
    match find_var(vars, name, 0) {
        Some(i) => {
            assert(p[i].0 == name);
            if find_var(p, name, 0) != Some(i) {
                assert(!(forall|k: int| 0 <= k < p.len() ==> #[trigger] p[k].0 != name));
            }
        },
        None => {
            assert(p[vars.len() as int].0 == name);
            assert forall|k: int| 0 <= k < vars.len() implies #[trigger] p[k].0 != name by {
                assert(p[k] == vars[k]);
            }
        },
    }
}

/// Putting a variable leaves the entries of other names as they were.
proof fn lemma_put_var_other(vars: Seq<(Seq<char>, ValueView)>, name: Seq<char>, other: Seq<char>, v: ValueView)
    requires
        other != name,
    ensures
        match find_var(vars, other, 0) {
            Some(j) => find_var(put_var(vars, name, v), other, 0) == Some(j) && put_var(vars, name, v)[j]
                == vars[j],
            None => find_var(put_var(vars, name, v), other, 0) is None,
        },
{
    let p = put_var(vars, name, v);
    lemma_find_var(vars, other, 0);
    lemma_find_var(p, other, 0);
    lemma_find_var(vars, name, 0);
    assert forall|k: int| 0 <= k < vars.len() implies (#[trigger] p[k]).0 == other <==> vars[k].0 == other by {
        if let Some(i) = find_var(vars, name, 0) {
            if k == i {
                assert(p[k].0 == name);
            } else {
                assert(p[k] == vars[k]);
            }
        } else {
            assert(p[k] == vars[k]);
        }
    }
    if find_var(vars, name, 0) is None {
        assert(p[vars.len() as int].0 == name);
    }
    match find_var(vars, other, 0) {
        Some(j) => {
            if let Some(i) = find_var(vars, name, 0) {
                assert(i != j);
            }
            assert(p[j] == vars[j]);
            if find_var(p, other, 0) != Some(j) {
                assert(p[j].0 == other);
            }
        },
        None => {},
    }
}

/// A read gives back what a write wrote: once a scope is open, looking a variable up right
/// after setting it gives the value it was set to.
pub proof fn law_lookup_after_assign(scopes: Seq<ScopeView>, name: Seq<char>, v: ValueView)
    requires
        scopes.len() > 0,
    ensures
        lookup(assign(scopes, name, v), name) == Some(v),
{
    let n = scopes.len() - 1;
    let a = assign(scopes, name, v);
    lemma_scope_with(scopes, name, n);
    let k = match scope_with(scopes, name, n) {
        Some(k) => k,
        None => n,
    };
    let s2 = ScopeView { variables: put_var(scopes[k].variables, name, v), ..scopes[k] };
    assert(a == scopes.update(k, s2));
    lemma_put_var_same(scopes[k].variables, name, v);
    lemma_has_var(s2, name);
    assert forall|m: int| k < m <= n implies !has_var(#[trigger] a[m], name) by {
        assert(a[m] == scopes[m]);
    }
    lemma_scope_with_unique(a, name, n, k);
}

/// Setting a variable leaves every other variable as it was.
pub proof fn law_assign_keeps_others(scopes: Seq<ScopeView>, name: Seq<char>, other: Seq<char>, v: ValueView)
    requires
        other != name,
    ensures
        lookup(assign(scopes, name, v), other) == lookup(scopes, other),
{
    let n = scopes.len() - 1;
    let a = assign(scopes, name, v);
    if scopes.len() == 0 {
        return;
    }
    lemma_scope_with(scopes, name, n);
    let k = match scope_with(scopes, name, n) {
        Some(k) => k,
        None => n,
    };
    lemma_put_var_other(scopes[k].variables, name, other, v);
    assert(a.len() == scopes.len());
    assert forall|m: int| 0 <= m <= n implies has_var(#[trigger] a[m], other) == has_var(scopes[m], other) by {
        lemma_has_var(a[m], other);
        lemma_has_var(scopes[m], other);
    }
    lemma_scope_with(scopes, other, n);
    lemma_scope_with(a, other, n);
    match scope_with(scopes, other, n) {
        Some(j) => {
            lemma_scope_with_unique(a, other, n, j);
            if j == k {
                lemma_put_var_other(scopes[k].variables, name, other, v);
            }
        },
        None => {},
    }
}

/// Setting a variable opens and closes no scope.
pub proof fn lemma_assign_len(scopes: Seq<ScopeView>, name: Seq<char>, v: ValueView)
    ensures
        assign(scopes, name, v).len() == scopes.len(),
{
    if scopes.len() > 0 {
        lemma_scope_with(scopes, name, scopes.len() - 1);
    }
}

/// The value of the variable with the given name, if there is one.
pub open spec fn var_value(vars: Seq<(Seq<char>, ValueView)>, name: Seq<char>) -> Option<ValueView> {
    match find_var(vars, name, 0) {
        Some(j) => Some(vars[j].1),
        None => None,
    }
}

/// Whether no two parameters share a name.
pub open spec fn distinct_names(params: Seq<(Seq<char>, TypeId)>) -> bool {
    forall|a: int, b: int| 0 <= a < b < params.len() ==> #[trigger] params[a].0 != #[trigger] params[b].0
}

proof fn lemma_bind_keeps(
    params: Seq<(Seq<char>, TypeId)>,
    args: Seq<ValueView>,
    i: int,
    vars: Seq<(Seq<char>, ValueView)>,
    name: Seq<char>,
)
    requires
        0 <= i,
        forall|k: int| i <= k < params.len() ==> #[trigger] params[k].0 != name,
    ensures
        var_value(bind_values(params, args, i, vars), name) == var_value(vars, name),
    decreases params.len() - i,
{
    if i < params.len() && i < args.len() {
        lemma_put_var_other(vars, params[i].0, name, args[i]);
        lemma_bind_keeps(params, args, i + 1, put_var(vars, params[i].0, args[i]), name);
    }
}

proof fn lemma_bind_gives(
    params: Seq<(Seq<char>, TypeId)>,
    args: Seq<ValueView>,
    i: int,
    vars: Seq<(Seq<char>, ValueView)>,
    j: int,
)
    requires
        0 <= i <= j < params.len(),
        params.len() == args.len(),
        distinct_names(params),
    ensures
        var_value(bind_values(params, args, i, vars), params[j].0) == Some(args[j]),
    decreases params.len() - i,
{
    let vars2 = put_var(vars, params[i].0, args[i]);
    if i == j {
        lemma_put_var_same(vars, params[i].0, args[i]);
        assert forall|k: int| i + 1 <= k < params.len() implies #[trigger] params[k].0 != params[j].0 by {
            assert(params[j].0 != params[k].0);
        }
        lemma_bind_keeps(params, args, i + 1, vars2, params[j].0);
    } else {
        lemma_bind_gives(params, args, i + 1, vars2, j);
    }
}

/// A function starts with each of its parameters holding its argument, when the parameters
/// have distinct names and there are as many arguments as parameters.
pub proof fn law_parameters_hold_arguments(params: Seq<(Seq<char>, TypeId)>, args: Seq<ValueView>, j: int)
    requires
        params.len() == args.len(),
        distinct_names(params),
        0 <= j < params.len(),
    ensures
        var_value(bind_values(params, args, 0, Seq::empty()), params[j].0) == Some(args[j]),
{
    lemma_bind_gives(params, args, 0, Seq::empty(), j);
}

/// After `x op= e`, where `e` gives `b` and then `x` holds `a`, `x` holds `a op b`.
pub proof fn law_compound_assignment(
    m: MachineView,
    name: Seq<char>,
    op: TokenKind,
    expr: CheckedExprView,
    a: ValueView,
    b: ValueView,
    c: ValueView,
)
    requires
        eval(m, expr).1 == Ok::<Option<ValueView>, ExecutionErrorKindView>(Some(b)),
        lookup(eval(m, expr).0.scopes, name) == Some(a),
        infix_value(op, Some(a), Some(b)) == Ok::<Option<ValueView>, ExecutionErrorKindView>(Some(c)),
    ensures
        run_stmt(m, CheckedStmtView::CompoundAssignment { name, op, expr }).1 is Ok,
        lookup(run_stmt(m, CheckedStmtView::CompoundAssignment { name, op, expr }).0.scopes, name) == Some(c),
{
    let m1 = eval(m, expr).0;
    lemma_scope_with(m1.scopes, name, m1.scopes.len() - 1);
    law_lookup_after_assign(m1.scopes, name, c);
}

/// `b` starts with `a`.
pub open spec fn extends_output(a: Seq<Option<ValueView>>, b: Seq<Option<ValueView>>) -> bool {
    a.len() <= b.len() && forall|i: int| 0 <= i < a.len() ==> b[i] == a[i]
}

/// What every step keeps: fuel only goes down, the functions stay, and output is only added
/// to.
pub open spec fn frame(m: MachineView, m2: MachineView) -> bool {
    &&& m2.fuel <= m.fuel
    &&& m2.functions == m.functions
    &&& extends_output(m.output, m2.output)
}

/// Evaluating an expression keeps the frame, and one that gives a value leaves as many scopes
/// open as it found.
pub proof fn law_eval_frame(m: MachineView, e: CheckedExprView)
    ensures
        frame(m, eval(m, e).0),
        eval(m, e).1 is Ok ==> eval(m, e).0.scopes.len() == m.scopes.len(),
    decreases m.fuel, e, 0int,
{
    match e.kind {
        CheckedExprKindView::FnCall { name, args } => {
            if let Some(i) = crate::interpreter::semantics::function_index(m.functions, name, 0) {
                law_eval_args_frame(m, args, 0, Seq::empty());
                let m1 = eval_args(m, args, 0, Seq::empty()).0;
                let r = eval_args(m, args, 0, Seq::empty()).1;
                if r is Ok && m1.fuel > 0 && m1.fuel <= m.fuel {
                    law_run_function_frame(MachineView { fuel: (m1.fuel - 1) as nat, ..m1 }, m.functions[i], r->Ok_0);
                }
            }
        },
        CheckedExprKindView::MethodCall { method, args } => {
            law_eval_args_frame(m, args, 0, Seq::empty());
            let m1 = eval_args(m, args, 0, Seq::empty()).0;
            let r = eval_args(m, args, 0, Seq::empty()).1;
            if r is Ok && m1.fuel > 0 && m1.fuel <= m.fuel {
                law_run_function_frame(MachineView { fuel: (m1.fuel - 1) as nat, ..m1 }, *method, r->Ok_0);
            }
        },
        CheckedExprKindView::BuiltinMethodCall { method, receiver, args } => {
            if method == BuiltinMethod::Append {
                if receiver.kind is Identifier && args.len() == 1 {
                    let n = receiver.kind->Identifier_0;
                    law_eval_frame(m, args[0]);
                    let m1 = eval(m, args[0]).0;
                    let r = eval(m, args[0]).1;
                    if let Ok(Some(ValueView::String(t))) = r {
                        if let Some(ValueView::String(x)) = lookup(m1.scopes, n) {
                            lemma_assign_len(m1.scopes, n, ValueView::String(x + t));
                        }
                    }
                }
            } else {
                law_eval_frame(m, *receiver);
            }
        },
        CheckedExprKindView::BuiltinFnCall { function, args } => {
            if args.len() > 0 {
                law_eval_frame(m, args[0]);
            }
        },
        CheckedExprKindView::PrefixOp { op, expr } => {
            law_eval_frame(m, *expr);
        },
        CheckedExprKindView::InfixOp { op, lhs, rhs } => {
            law_eval_frame(m, *lhs);
            let m1 = eval(m, *lhs).0;
            if eval(m, *lhs).1 is Ok && m1.fuel <= m.fuel {
                law_eval_frame(m1, *rhs);
            }
        },
        _ => {},
    }
}

/// Evaluating arguments keeps the frame, and arguments that all give values leave as many
/// scopes open as they found.
pub proof fn law_eval_args_frame(m: MachineView, args: Seq<CheckedExprView>, i: int, acc: Seq<ValueView>)
    ensures
        frame(m, eval_args(m, args, i, acc).0),
        eval_args(m, args, i, acc).1 is Ok ==> eval_args(m, args, i, acc).0.scopes.len() == m.scopes.len(),
    decreases m.fuel, args, args.len() - i,
{
    if 0 <= i < args.len() {
        law_eval_frame(m, args[i]);
        let m1 = eval(m, args[i]).0;
        let r = eval(m, args[i]).1;
        if r is Ok && r->Ok_0 is Some && m1.fuel <= m.fuel {
            law_eval_args_frame(m1, args, i + 1, acc.push(r->Ok_0->Some_0));
        }
    }
}

/// Running a function keeps the frame, and one that completes leaves as many scopes open as it
/// found.
pub proof fn law_run_function_frame(m: MachineView, f: CheckedFunctionView, args: Seq<ValueView>)
    ensures
        frame(m, run_function(m, f, args).0),
        run_function(m, f, args).1 is Ok ==> run_function(m, f, args).0.scopes.len() == m.scopes.len(),
    decreases m.fuel, f, 0int,
{
    let m0 = MachineView {
        scopes: m.scopes.push(
            ScopeView {
                control_flow: None,
                block_kind: BlockKind::Regular,
                variables: bind_values(f.parameters, args, 0, Seq::empty()),
            },
        ),
        ..m
    };
    law_run_block_frame(m0, f.body);
}

/// Running a block keeps the frame, and one that completes closes the scope it opened.
pub proof fn law_run_block_frame(m: MachineView, s: CheckedStmtView)
    ensures
        frame(m, run_block(m, s).0),
        run_block(m, s).1 is Ok ==> run_block(m, s).0.scopes.len() == m.scopes.len(),
    decreases m.fuel, s, 0int,
{
    if let CheckedStmtView::Block { block_kind, statements } = s {
        let m0 = MachineView {
            scopes: m.scopes.push(ScopeView { control_flow: None, block_kind, variables: Seq::empty() }),
            ..m
        };
        law_run_stmts_frame(m0, statements, 0);
    }
}

/// Running statements keeps the frame, and statements that complete leave as many scopes open
/// as they found.
pub proof fn law_run_stmts_frame(m: MachineView, ss: Seq<CheckedStmtView>, i: int)
    ensures
        frame(m, run_stmts(m, ss, i).0),
        run_stmts(m, ss, i).1 is Ok ==> run_stmts(m, ss, i).0.scopes.len() == m.scopes.len(),
    decreases m.fuel, ss, ss.len() - i,
{
    if 0 <= i < ss.len() {
        law_run_stmt_frame(m, ss[i]);
        let m1 = run_stmt(m, ss[i]).0;
        if run_stmt(m, ss[i]).1 is Ok && m1.fuel <= m.fuel {
            law_run_stmts_frame(m1, ss, i + 1);
        }
    }
}

/// Running a statement keeps the frame, and one that completes leaves as many scopes open as
/// it found.
pub proof fn law_run_stmt_frame(m: MachineView, s: CheckedStmtView)
    ensures
        frame(m, run_stmt(m, s).0),
        run_stmt(m, s).1 is Ok ==> run_stmt(m, s).0.scopes.len() == m.scopes.len(),
    decreases m.fuel, s, 1int,
{
    match s {
        CheckedStmtView::Let { name, expr, .. } => {
            law_eval_frame(m, expr);
            let m1 = eval(m, expr).0;
            let r = eval(m, expr).1;
            if r is Ok && r->Ok_0 is Some {
                let v = r->Ok_0->Some_0;
                lemma_assign_len(m1.scopes, name, v);
                }
        },
        CheckedStmtView::Assignment { name, expr } => {
            law_eval_frame(m, expr);
            if let (m1, Ok(Some(v))) = eval(m, expr) {
                lemma_assign_len(m1.scopes, name, v);
            }
        },
        CheckedStmtView::If { condition, then_branch, else_branch } => {
            law_eval_frame(m, condition);
            let m1 = eval(m, condition).0;
            if m1.fuel <= m.fuel {
                law_run_stmt_frame(m1, *then_branch);
                if let Some(b) = else_branch {
                    law_run_stmt_frame(m1, *b);
                }
            }
        },
        CheckedStmtView::Block { .. } => {
            law_run_block_frame(m, s);
        },
        CheckedStmtView::Loop { body } => {
            law_run_loop_frame(m, *body);
        },
        CheckedStmtView::While { condition, body } => {
            law_run_while_frame(m, condition, *body);
        },
        CheckedStmtView::CompoundAssignment { name, op, expr } => {
            law_eval_frame(m, expr);
            let m1 = eval(m, expr).0;
            if let Ok(Some(v)) = eval(m, expr).1 {
                if let Some(cur) = lookup(m1.scopes, name) {
                    if let Ok(Some(nv)) = infix_value(op, Some(cur), Some(v)) {
                        lemma_assign_len(m1.scopes, name, nv);
                    }
                }
            }
        },
        CheckedStmtView::Return { expr } => {
            if let Some(e) = expr {
                law_eval_frame(m, e);
            }
        },
        CheckedStmtView::Expression { expr } => {
            law_eval_frame(m, expr);
        },
        _ => {
            lemma_loop_scope(m.scopes, m.scopes.len() - 1);
        },
    }
}

/// `loop_scope` gives a scope at or below `k`.
pub proof fn lemma_loop_scope(scopes: Seq<ScopeView>, k: int)
    ensures
        crate::interpreter::semantics::loop_scope(scopes, k) matches Some(j) ==> 0 <= j <= k && j < scopes.len(),
    decreases k + 1,
{
    if 0 <= k < scopes.len() && scopes[k].block_kind != crate::parser::ast::BlockKind::Loop {
        lemma_loop_scope(scopes, k - 1);
    }
}

/// Running a loop keeps the frame, and one that completes leaves as many scopes open as it
/// found.
pub proof fn law_run_loop_frame(m: MachineView, body: CheckedStmtView)
    ensures
        frame(m, run_loop(m, body).0),
        run_loop(m, body).1 is Ok ==> run_loop(m, body).0.scopes.len() == m.scopes.len(),
    decreases m.fuel, body, 0int,
{
    if m.fuel > 0 {
        let m0 = MachineView { fuel: (m.fuel - 1) as nat, ..m };
        law_run_block_frame(m0, body);
        let m1 = run_block(m0, body).0;
        if run_block(m0, body).1 is Ok && m1.fuel < m.fuel {
            law_run_loop_frame(m1, body);
        }
    }
}

/// Running a `while` loop keeps the frame, and one that completes leaves as many scopes open
/// as it found.
pub proof fn law_run_while_frame(m: MachineView, condition: CheckedExprView, body: CheckedStmtView)
    ensures
        frame(m, run_while(m, condition, body).0),
        run_while(m, condition, body).1 is Ok ==> run_while(m, condition, body).0.scopes.len() == m.scopes.len(),
    decreases m.fuel, body, 0int,
{
    if m.fuel > 0 {
        let m0 = MachineView { fuel: (m.fuel - 1) as nat, ..m };
        law_eval_frame(m0, condition);
        let m1 = eval(m0, condition).0;
        if eval(m0, condition).1 == Ok::<Option<ValueView>, ExecutionErrorKindView>(Some(ValueView::Bool(true)))
            && m1.fuel <= m0.fuel {
            law_run_block_frame(m1, body);
            let m2 = run_block(m1, body).0;
            if run_block(m1, body).1 is Ok && m2.fuel < m.fuel {
                law_run_while_frame(m2, condition, body);
            }
        }
    }
}

/// Integer division and remainder fit together as Rust's do: the quotient rounds toward zero,
/// `a == b * q + r`, the remainder is smaller than the divisor in size, and it has the sign of
/// `a` unless it is zero.
pub proof fn law_division(a: int, b: int)
    requires
        b != 0,
    ensures
        a == b * crate::interpreter::semantics::trunc_div(a, b) + crate::interpreter::semantics::trunc_rem(a, b),
        crate::interpreter::semantics::abs(crate::interpreter::semantics::trunc_rem(a, b))
            < crate::interpreter::semantics::abs(b),
        crate::interpreter::semantics::trunc_rem(a, b) == 0 || ((crate::interpreter::semantics::trunc_rem(a, b) < 0) == (a < 0)),
{
    let x = crate::interpreter::semantics::abs(a) as int;
    let y = crate::interpreter::semantics::abs(b) as int;
    let q = x / y;
    let r = x % y;
    vstd::arithmetic::div_mod::lemma_fundamental_div_mod(x, y);
    vstd::arithmetic::div_mod::lemma_mod_bound(x, y);
    assert(x == y * q + r);
    if a < 0 && b < 0 {
        assert(a == b * q - r) by (nonlinear_arith)
            requires x == -a, y == -b, x == y * q + r;
    } else if a < 0 {
        assert(a == b * (-q) - r) by (nonlinear_arith)
            requires x == -a, y == b, x == y * q + r;
    } else if b < 0 {
        assert(a == b * (-q) + r) by (nonlinear_arith)
            requires x == a, y == -b, x == y * q + r;
    } else {
        assert(a == b * q + r);
    }
}

/// The integer operators: `+`, `-` and `*` give the exact result where it fits in an `i64`
/// and an overflow error where it does not; each comparison gives whether it holds of the two
/// numbers.
pub proof fn law_integer_operators(a: i64, b: i64)
    ensures
        infix_value(TokenKind::Plus, Some(ValueView::Int(a)), Some(ValueView::Int(b))) == if i64::MIN <= a
            + b <= i64::MAX {
            Ok::<Option<ValueView>, ExecutionErrorKindView>(Some(ValueView::Int((a + b) as i64)))
        } else {
            Err(ExecutionErrorKindView::IntegerOverflow(TokenKind::Plus))
        },
        infix_value(TokenKind::Minus, Some(ValueView::Int(a)), Some(ValueView::Int(b))) == if i64::MIN <= a
            - b <= i64::MAX {
            Ok::<Option<ValueView>, ExecutionErrorKindView>(Some(ValueView::Int((a - b) as i64)))
        } else {
            Err(ExecutionErrorKindView::IntegerOverflow(TokenKind::Minus))
        },
        infix_value(TokenKind::Asterisk, Some(ValueView::Int(a)), Some(ValueView::Int(b))) == if i64::MIN <= a
            * b <= i64::MAX {
            Ok::<Option<ValueView>, ExecutionErrorKindView>(Some(ValueView::Int((a * b) as i64)))
        } else {
            Err(ExecutionErrorKindView::IntegerOverflow(TokenKind::Asterisk))
        },
        infix_value(TokenKind::LessThan, Some(ValueView::Int(a)), Some(ValueView::Int(b)))
            == Ok::<Option<ValueView>, ExecutionErrorKindView>(Some(ValueView::Bool(a < b))),
        infix_value(TokenKind::LessThanEquals, Some(ValueView::Int(a)), Some(ValueView::Int(b)))
            == Ok::<Option<ValueView>, ExecutionErrorKindView>(Some(ValueView::Bool(a <= b))),
        infix_value(TokenKind::GreaterThan, Some(ValueView::Int(a)), Some(ValueView::Int(b)))
            == Ok::<Option<ValueView>, ExecutionErrorKindView>(Some(ValueView::Bool(a > b))),
        infix_value(TokenKind::GreaterThanEquals, Some(ValueView::Int(a)), Some(ValueView::Int(b)))
            == Ok::<Option<ValueView>, ExecutionErrorKindView>(Some(ValueView::Bool(a >= b))),
        infix_value(TokenKind::EqualsEquals, Some(ValueView::Int(a)), Some(ValueView::Int(b)))
            == Ok::<Option<ValueView>, ExecutionErrorKindView>(Some(ValueView::Bool(a == b))),
        infix_value(TokenKind::ExclamationMarkEquals, Some(ValueView::Int(a)), Some(ValueView::Int(b)))
            == Ok::<Option<ValueView>, ExecutionErrorKindView>(Some(ValueView::Bool(a != b))),
{
}

/// Integer `/` and `%` by zero are errors; otherwise, but for the one quotient that overflows
/// (`i64::MIN / -1`), they give a quotient `q` and remainder `r` with `a == b * q + r`, the
/// remainder smaller than the divisor in size and of the sign of `a` unless zero.
pub proof fn law_integer_division(a: i64, b: i64)
    ensures
        b == 0 ==> infix_value(TokenKind::Slash, Some(ValueView::Int(a)), Some(ValueView::Int(b)))
            == Err::<Option<ValueView>, ExecutionErrorKindView>(ExecutionErrorKindView::DivisionByZero(TokenKind::Slash)),
        b == 0 ==> infix_value(TokenKind::Percent, Some(ValueView::Int(a)), Some(ValueView::Int(b)))
            == Err::<Option<ValueView>, ExecutionErrorKindView>(ExecutionErrorKindView::DivisionByZero(TokenKind::Percent)),
        b != 0 && !(a == i64::MIN && b == -1) ==> (infix_value(
            TokenKind::Slash,
            Some(ValueView::Int(a)),
            Some(ValueView::Int(b)),
        ) matches Ok(Some(ValueView::Int(q))) && infix_value(
            TokenKind::Percent,
            Some(ValueView::Int(a)),
            Some(ValueView::Int(b)),
        ) matches Ok(Some(ValueView::Int(r))) && a == b * q + r && (if r < 0 {
            -r
        } else {
            r as int
        }) < (if b < 0 {
            -b
        } else {
            b as int
        }) && (r == 0 || (r < 0) == (a < 0))),
{
    if b != 0 && !(a == i64::MIN && b == -1) {
        law_division(a as int, b as int);
        let x = crate::interpreter::semantics::abs(a as int) as int;
        let y = crate::interpreter::semantics::abs(b as int) as int;
        if y >= 2 {
            vstd::arithmetic::div_mod::lemma_div_is_ordered_by_denominator(x, 2, y);
            assert(x / 2 <= 0x4000_0000_0000_0000);
        } else {
            assert(y == 1);
            vstd::arithmetic::div_mod::lemma_div_basics(x);
            assert(x / y == x);
        }
        vstd::arithmetic::div_mod::lemma_mod_bound(x, y);
    }
}

/// `&&` and `||` on booleans, `==` and `!=` on booleans and on strings, and `+` on strings.
pub proof fn law_boolean_and_string_operators(p: bool, q: bool, s: Seq<char>, t: Seq<char>)
    ensures
        infix_value(TokenKind::AmpersandAmpersand, Some(ValueView::Bool(p)), Some(ValueView::Bool(q)))
            == Ok::<Option<ValueView>, ExecutionErrorKindView>(Some(ValueView::Bool(p && q))),
        infix_value(TokenKind::PipePipe, Some(ValueView::Bool(p)), Some(ValueView::Bool(q)))
            == Ok::<Option<ValueView>, ExecutionErrorKindView>(Some(ValueView::Bool(p || q))),
        infix_value(TokenKind::EqualsEquals, Some(ValueView::Bool(p)), Some(ValueView::Bool(q)))
            == Ok::<Option<ValueView>, ExecutionErrorKindView>(Some(ValueView::Bool(p == q))),
        infix_value(TokenKind::ExclamationMarkEquals, Some(ValueView::Bool(p)), Some(ValueView::Bool(q)))
            == Ok::<Option<ValueView>, ExecutionErrorKindView>(Some(ValueView::Bool(p != q))),
        infix_value(TokenKind::EqualsEquals, Some(ValueView::String(s)), Some(ValueView::String(t)))
            == Ok::<Option<ValueView>, ExecutionErrorKindView>(Some(ValueView::Bool(s == t))),
        infix_value(TokenKind::ExclamationMarkEquals, Some(ValueView::String(s)), Some(ValueView::String(t)))
            == Ok::<Option<ValueView>, ExecutionErrorKindView>(Some(ValueView::Bool(s != t))),
        infix_value(TokenKind::Plus, Some(ValueView::String(s)), Some(ValueView::String(t)))
            == Ok::<Option<ValueView>, ExecutionErrorKindView>(Some(ValueView::String(s + t))),
{
}

/// Prefix `-` negates an integer (an error only for `i64::MIN`), `+` keeps it, and `!` negates
/// a boolean.
pub proof fn law_prefix_operators(a: i64, p: bool)
    ensures
        prefix_value(TokenKind::Minus, Some(ValueView::Int(a))) == if a == i64::MIN {
            Err::<Option<ValueView>, ExecutionErrorKindView>(ExecutionErrorKindView::IntegerOverflow(TokenKind::Minus))
        } else {
            Ok(Some(ValueView::Int((-a) as i64)))
        },
        prefix_value(TokenKind::Plus, Some(ValueView::Int(a)))
            == Ok::<Option<ValueView>, ExecutionErrorKindView>(Some(ValueView::Int(a))),
        prefix_value(TokenKind::ExclamationMark, Some(ValueView::Bool(p)))
            == Ok::<Option<ValueView>, ExecutionErrorKindView>(Some(ValueView::Bool(!p))),
{
}

/// `to_string` gives the text of its receiver's value: a float as it was written, a string as it
/// is, a boolean as `true` or `false`, an integer in decimal; and it changes nothing more than
/// evaluating the receiver does.
pub proof fn law_to_string_gives_text(m: MachineView, e: CheckedExprView, v: ValueView)
    requires
        e.kind is BuiltinMethodCall,
        e.kind->BuiltinMethodCall_method == BuiltinMethod::ToString,
        eval(m, *e.kind->BuiltinMethodCall_receiver).1 == Ok::<Option<ValueView>, ExecutionErrorKindView>(Some(v)),
    ensures
        eval(m, e).0 == eval(m, *e.kind->BuiltinMethodCall_receiver).0,
        eval(m, e).1 == Ok::<Option<ValueView>, ExecutionErrorKindView>(
            Some(
                ValueView::String(
                    match v {
                        ValueView::Float(t) => t,
                        ValueView::String(s) => s,
                        ValueView::Bool(b) => if b {
                            "true"@
                        } else {
                            "false"@
                        },
                        ValueView::Int(i) => crate::messages::decimal(i as int),
                    },
                ),
            ),
        ),
{
}

/// Arithmetic and comparisons on two floats end the run with an error naming the operator; an
/// operand with no value is an error for every infix operator; `+` on an integer and a string
/// (in either order) is refused as an invalid pair of operands.
pub proof fn law_unsupported_operands(op: TokenKind, x: Seq<char>, y: Seq<char>, v: Option<ValueView>, a: i64)
    ensures
        (op == TokenKind::Plus || op == TokenKind::Minus || op == TokenKind::Asterisk || op == TokenKind::Slash
            || op == TokenKind::LessThan || op == TokenKind::LessThanEquals || op == TokenKind::GreaterThan
            || op == TokenKind::GreaterThanEquals || op == TokenKind::EqualsEquals || op
            == TokenKind::ExclamationMarkEquals) ==> infix_value(
            op,
            Some(ValueView::Float(x)),
            Some(ValueView::Float(y)),
        ) == Err::<Option<ValueView>, ExecutionErrorKindView>(ExecutionErrorKindView::FloatOperation(op)),
        infix_value(op, None, v) == Err::<Option<ValueView>, ExecutionErrorKindView>(
            ExecutionErrorKindView::VoidOperand,
        ),
        infix_value(op, v, None) == Err::<Option<ValueView>, ExecutionErrorKindView>(
            ExecutionErrorKindView::VoidOperand,
        ),
        infix_value(TokenKind::Plus, Some(ValueView::Int(a)), Some(ValueView::String(x))) == Err::<
            Option<ValueView>,
            ExecutionErrorKindView,
        >(ExecutionErrorKindView::InvalidOperands(TokenKind::Plus)),
        infix_value(TokenKind::Plus, Some(ValueView::String(x)), Some(ValueView::Int(a))) == Err::<
            Option<ValueView>,
            ExecutionErrorKindView,
        >(ExecutionErrorKindView::InvalidOperands(TokenKind::Plus)),
{
}

/// `if` runs the branch its condition picks: the `then` branch on `true`, the `else` branch (or
/// nothing) on `false`; a condition that is no boolean is an error.
pub proof fn law_if_picks_a_branch(
    m: MachineView,
    condition: CheckedExprView,
    then_branch: CheckedStmtView,
    else_branch: Option<CheckedStmtView>,
    v: Option<ValueView>,
)
    requires
        eval(m, condition).1 == Ok::<Option<ValueView>, ExecutionErrorKindView>(v),
    ensures
        ({
            let s = CheckedStmtView::If {
                condition,
                then_branch: Box::new(then_branch),
                else_branch: match else_branch {
                    Some(b) => Some(Box::new(b)),
                    None => None,
                },
            };
            let m1 = eval(m, condition).0;
            &&& v == Some(ValueView::Bool(true)) ==> run_stmt(m, s) == run_stmt(m1, then_branch)
            &&& v == Some(ValueView::Bool(false)) ==> run_stmt(m, s) == match else_branch {
                Some(b) => run_stmt(m1, b),
                None => (m1, Ok::<(), ExecutionErrorKindView>(())),
            }
            &&& !(v matches Some(ValueView::Bool(_))) ==> run_stmt(m, s) == (
                m1,
                Err::<(), ExecutionErrorKindView>(ExecutionErrorKindView::NonBooleanCondition(v)),
            )
        }),
{
    law_eval_frame(m, condition);
}

/// A `while` loop takes one unit of fuel a turn and tests its condition first: when the
/// condition is `false` the loop ends there, having run the body no time; when it is `true` the
/// body runs, and unless it broke out or returned, the loop goes on from the state it left.
pub proof fn law_while_tests_first(m: MachineView, condition: CheckedExprView, body: CheckedStmtView)
    requires
        m.fuel > 0,
    ensures
        ({
            let m0 = MachineView { fuel: (m.fuel - 1) as nat, ..m };
            let m1 = eval(m0, condition).0;
            let r = eval(m0, condition).1;
            let s = CheckedStmtView::While { condition, body: Box::new(body) };
            &&& r == Ok::<Option<ValueView>, ExecutionErrorKindView>(Some(ValueView::Bool(false))) ==> run_stmt(m, s)
                == (m1, Ok::<(), ExecutionErrorKindView>(()))
            &&& r == Ok::<Option<ValueView>, ExecutionErrorKindView>(Some(ValueView::Bool(true)))
                && run_block(m1, body).1 == Ok::<Option<ControlFlowView>, ExecutionErrorKindView>(None) ==> run_stmt(
                m,
                s,
            ) == run_stmt(run_block(m1, body).0, s)
            &&& r == Ok::<Option<ValueView>, ExecutionErrorKindView>(Some(ValueView::Bool(true)))
                && run_block(m1, body).1 == Ok::<Option<ControlFlowView>, ExecutionErrorKindView>(
                Some(ControlFlowView::Break),
            ) ==> run_stmt(m, s) == (run_block(m1, body).0, Ok::<(), ExecutionErrorKindView>(()))
        }),
{
    let m0 = MachineView { fuel: (m.fuel - 1) as nat, ..m };
    law_eval_frame(m0, condition);
    let m1 = eval(m0, condition).0;
    law_run_block_frame(m1, body);
    let s = CheckedStmtView::While { condition, body: Box::new(body) };
    assert(run_stmt(m, s) == run_while(m, condition, body));
    let m2 = run_block(m1, body).0;
    assert(run_stmt(m2, s) == run_while(m2, condition, body));
}

/// After `let x = e` or `x = e` where `e` gives a value, `x` holds that value.
pub proof fn law_let_and_assignment_bind(m: MachineView, name: Seq<char>, t: TypeId, expr: CheckedExprView, v: ValueView)
    requires
        eval(m, expr).1 == Ok::<Option<ValueView>, ExecutionErrorKindView>(Some(v)),
        eval(m, expr).0.scopes.len() > 0,
    ensures
        run_stmt(m, CheckedStmtView::Let { name, var_type: t, expr }).1 is Ok,
        lookup(run_stmt(m, CheckedStmtView::Let { name, var_type: t, expr }).0.scopes, name) == Some(v),
        run_stmt(m, CheckedStmtView::Assignment { name, expr }).1 is Ok,
        lookup(run_stmt(m, CheckedStmtView::Assignment { name, expr }).0.scopes, name) == Some(v),
{
    law_lookup_after_assign(eval(m, expr).0.scopes, name, v);
}

} // verus!
