//! What running a checked program does, as spec functions over views.
//!
//! Every function call and every turn of a loop takes one unit of fuel; a program that runs out
//! of fuel stops with an error. Each function gives the state after it and its result.
use vstd::prelude::*;

use crate::builtins::{BuiltinFunction, BuiltinMethod};
use crate::messages::value_text;
use crate::interpreter::error::ExecutionErrorKindView;
use crate::interpreter::scope::{find_var, put_var, ControlFlowView, ScopeView};
use crate::interpreter::value::ValueView;
use crate::parser::ast::{BlockKind, LiteralView};
use crate::tokenizer::token::TokenKind;
use crate::typechecker::checked::{
    CheckedExprKindView, CheckedExprView, CheckedFunctionView, CheckedStmtView,
};

verus! {

/// The functions a program can call, the scopes of the blocks being run (the innermost last),
/// what `print` was given, in order, and the fuel left.
pub struct MachineView {
    pub functions: Seq<CheckedFunctionView>,
    pub scopes: Seq<ScopeView>,
    pub output: Seq<Option<ValueView>>,
    pub fuel: nat,
}

pub type Outcome<T> = Result<T, ExecutionErrorKindView>;

/// The index of the innermost scope at or below `k` that has a variable with the given name.
pub open spec fn scope_with(scopes: Seq<ScopeView>, name: Seq<char>, k: int) -> Option<int>
    decreases k + 1,
{
    if k < 0 || k >= scopes.len() {
        None
    } else if find_var(scopes[k].variables, name, 0) is Some {
        Some(k)
    } else {
        scope_with(scopes, name, k - 1)
    }
}

/// The value of a variable, looked up from the innermost scope out.
pub open spec fn lookup(scopes: Seq<ScopeView>, name: Seq<char>) -> Option<ValueView> {
    match scope_with(scopes, name, scopes.len() - 1) {
        Some(k) => match find_var(scopes[k].variables, name, 0) {
            Some(i) => Some(scopes[k].variables[i].1),
            None => None,
        },
        None => None,
    }
}

/// Sets a variable in the innermost scope that has it, or else adds it to the innermost scope.
pub open spec fn assign(scopes: Seq<ScopeView>, name: Seq<char>, v: ValueView) -> Seq<ScopeView> {
    match scope_with(scopes, name, scopes.len() - 1) {
        Some(k) => scopes.update(k, ScopeView { variables: put_var(scopes[k].variables, name, v), ..scopes[k] }),
        None => if scopes.len() > 0 {
            let k = scopes.len() - 1;
            scopes.update(k, ScopeView { variables: put_var(scopes[k].variables, name, v), ..scopes[k] })
        } else {
            scopes
        },
    }
}

/// The index of the innermost loop scope at or below `k`.
pub open spec fn loop_scope(scopes: Seq<ScopeView>, k: int) -> Option<int>
    decreases k + 1,
{
    if k < 0 || k >= scopes.len() {
        None
    } else if scopes[k].block_kind == BlockKind::Loop {
        Some(k)
    } else {
        loop_scope(scopes, k - 1)
    }
}

/// Records how control leaves: `break` and `continue` on the innermost loop scope (if there is
/// one), `return` on the innermost scope.
pub open spec fn set_control_flow(scopes: Seq<ScopeView>, cf: ControlFlowView) -> Seq<ScopeView> {
    match cf {
        ControlFlowView::Return(_) => if scopes.len() > 0 {
            let k = scopes.len() - 1;
            scopes.update(k, ScopeView { control_flow: Some(cf), ..scopes[k] })
        } else {
            scopes
        },
        _ => match loop_scope(scopes, scopes.len() - 1) {
            Some(k) => scopes.update(k, ScopeView { control_flow: Some(cf), ..scopes[k] }),
            None => scopes,
        },
    }
}

/// Whether the innermost scope is being left.
pub open spec fn should_break(scopes: Seq<ScopeView>) -> bool {
    scopes.len() > 0 && scopes.last().control_flow is Some
}

/// The index of the function with the given name.
pub open spec fn function_index(functions: Seq<CheckedFunctionView>, name: Seq<char>, i: int) -> Option<int>
    decreases functions.len() - i,
{
    if i < 0 || i >= functions.len() {
        None
    } else if functions[i].name == name {
        Some(i)
    } else {
        function_index(functions, name, i + 1)
    }
}

/// The value of a literal.
pub open spec fn literal_value(l: LiteralView) -> ValueView {
    match l {
        LiteralView::Int(v) => ValueView::Int(v),
        LiteralView::Float(t) => ValueView::Float(t),
        LiteralView::String(s) => ValueView::String(s),
        LiteralView::Bool(b) => ValueView::Bool(b),
    }
}

pub open spec fn abs(a: int) -> nat {
    if a < 0 {
        (-a) as nat
    } else {
        a as nat
    }
}

/// Integer division rounding toward zero, as Rust's `/` does.
pub open spec fn trunc_div(a: int, b: int) -> int {
    let q = (abs(a) / abs(b)) as int;
    if (a < 0) != (b < 0) {
        -q
    } else {
        q
    }
}

/// The remainder of `trunc_div`, with the sign of `a`, as Rust's `%` does.
pub open spec fn trunc_rem(a: int, b: int) -> int {
    let r = (abs(a) % abs(b)) as int;
    if a < 0 {
        -r
    } else {
        r
    }
}

/// An integer result, or an overflow error when it does not fit in an `i64`.
pub open spec fn int_result(op: TokenKind, v: int) -> Outcome<Option<ValueView>> {
    if i64::MIN <= v <= i64::MAX {
        Ok(Some(ValueView::Int(v as i64)))
    } else {
        Err(ExecutionErrorKindView::IntegerOverflow(op))
    }
}

/// A prefix operator applied to a value.
pub open spec fn prefix_value(op: TokenKind, v: Option<ValueView>) -> Outcome<Option<ValueView>> {
    match op {
        TokenKind::Plus => Ok(v),
        TokenKind::Minus => match v {
            Some(ValueView::Int(i)) => int_result(op, -(i as int)),
            Some(ValueView::Float(_)) => Err(ExecutionErrorKindView::FloatOperation(op)),
            _ => Err(ExecutionErrorKindView::InvalidNegation),
        },
        TokenKind::ExclamationMark => match v {
            Some(ValueView::Bool(b)) => Ok(Some(ValueView::Bool(!b))),
            _ => Err(ExecutionErrorKindView::InvalidNot),
        },
        _ => Err(ExecutionErrorKindView::InvalidPrefixOperator(op)),
    }
}

/// How two integers compare under a comparison operator.
pub open spec fn compare(op: TokenKind, a: int, b: int) -> bool {
    match op {
        TokenKind::LessThan => a < b,
        TokenKind::LessThanEquals => a <= b,
        TokenKind::GreaterThan => a > b,
        _ => a >= b,
    }
}

/// An infix operator applied to two values. Integer arithmetic that overflows, and division by
/// zero, are errors; so is any arithmetic or comparison on floats.
pub open spec fn infix_value(op: TokenKind, a: Option<ValueView>, b: Option<ValueView>) -> Outcome<Option<ValueView>> {
    if a is None || b is None {
        Err(ExecutionErrorKindView::VoidOperand)
    } else {
        let x = a->0;
        let y = b->0;
        match op {
            TokenKind::Plus => match (x, y) {
                (ValueView::Int(i), ValueView::Int(j)) => int_result(op, i + j),
                (ValueView::Float(_), ValueView::Float(_)) => Err(ExecutionErrorKindView::FloatOperation(op)),
                (ValueView::String(s), ValueView::String(t)) => Ok(Some(ValueView::String(s + t))),
                _ => Err(ExecutionErrorKindView::InvalidOperands(op)),
            },
            TokenKind::Minus | TokenKind::Asterisk => match (x, y) {
                (ValueView::Int(i), ValueView::Int(j)) => int_result(
                    op,
                    if op == TokenKind::Minus {
                        i - j
                    } else {
                        i * j
                    },
                ),
                (ValueView::Float(_), ValueView::Float(_)) => Err(ExecutionErrorKindView::FloatOperation(op)),
                _ => Err(ExecutionErrorKindView::InvalidOperands(op)),
            },
            TokenKind::Slash => match (x, y) {
                (ValueView::Int(i), ValueView::Int(j)) => if j == 0 {
                    Err(ExecutionErrorKindView::DivisionByZero(op))
                } else {
                    int_result(op, trunc_div(i as int, j as int))
                },
                (ValueView::Float(_), ValueView::Float(_)) => Err(ExecutionErrorKindView::FloatOperation(op)),
                _ => Err(ExecutionErrorKindView::InvalidOperands(op)),
            },
            TokenKind::Percent => match (x, y) {
                (ValueView::Int(i), ValueView::Int(j)) => if j == 0 {
                    Err(ExecutionErrorKindView::DivisionByZero(op))
                } else if i == i64::MIN && j == -1 {
                    Err(ExecutionErrorKindView::IntegerOverflow(op))
                } else {
                    Ok(Some(ValueView::Int(trunc_rem(i as int, j as int) as i64)))
                },
                _ => Err(ExecutionErrorKindView::InvalidOperands(op)),
            },
            TokenKind::EqualsEquals | TokenKind::ExclamationMarkEquals => match (x, y) {
                (ValueView::Float(_), ValueView::Float(_)) => Err(ExecutionErrorKindView::FloatOperation(op)),
                _ => Ok(Some(ValueView::Bool((x == y) == (op == TokenKind::EqualsEquals)))),
            },
            TokenKind::LessThan
            | TokenKind::LessThanEquals
            | TokenKind::GreaterThan
            | TokenKind::GreaterThanEquals => match (x, y) {
                (ValueView::Int(i), ValueView::Int(j)) => Ok(
                    Some(ValueView::Bool(compare(op, i as int, j as int))),
                ),
                (ValueView::Float(_), ValueView::Float(_)) => Err(ExecutionErrorKindView::FloatOperation(op)),
                _ => Err(ExecutionErrorKindView::InvalidOperands(op)),
            },
            TokenKind::AmpersandAmpersand | TokenKind::PipePipe => match (x, y) {
                (ValueView::Bool(p), ValueView::Bool(q)) => Ok(
                    Some(
                        ValueView::Bool(
                            if op == TokenKind::AmpersandAmpersand {
                                p && q
                            } else {
                                p || q
                            },
                        ),
                    ),
                ),
                _ => Err(ExecutionErrorKindView::InvalidOperands(op)),
            },
            _ => Err(ExecutionErrorKindView::InvalidInfixOperator(op)),
        }
    }
}

pub open spec fn with_scopes(m: MachineView, scopes: Seq<ScopeView>) -> MachineView {
    MachineView { scopes, ..m }
}

/// Evaluates an expression: the state after it and its value, if it has one.
pub open spec fn eval(m: MachineView, e: CheckedExprView) -> (MachineView, Outcome<Option<ValueView>>)
    decreases m.fuel, e, 0int,
{
    match e.kind {
        CheckedExprKindView::Literal(l) => (m, Ok(Some(literal_value(l)))),
        CheckedExprKindView::Identifier(n) => match lookup(m.scopes, n) {
            Some(v) => (m, Ok(Some(v))),
            None => (m, Err(ExecutionErrorKindView::UnknownVariable(n))),
        },
        CheckedExprKindView::FnCall { name, args } => match function_index(m.functions, name, 0) {
            None => (m, Err(ExecutionErrorKindView::UnknownFunction(name))),
            Some(i) => {
                let (m1, r) = eval_args(m, args, 0, Seq::empty());
                match r {
                    Err(err) => (m1, Err(err)),
                    Ok(vs) => if m1.fuel == 0 || m1.fuel > m.fuel {
                        (m1, Err(ExecutionErrorKindView::OutOfFuel))
                    } else {
                        run_function(MachineView { fuel: (m1.fuel - 1) as nat, ..m1 }, m.functions[i], vs)
                    },
                }
            },
        },
        CheckedExprKindView::MethodCall { method, args } => {
            let (m1, r) = eval_args(m, args, 0, Seq::empty());
            match r {
                Err(err) => (m1, Err(err)),
                Ok(vs) => if m1.fuel == 0 || m1.fuel > m.fuel {
                    (m1, Err(ExecutionErrorKindView::OutOfFuel))
                } else {
                    run_function(MachineView { fuel: (m1.fuel - 1) as nat, ..m1 }, *method, vs)
                },
            }
        },
        CheckedExprKindView::BuiltinMethodCall { method, receiver, args } => match method {
            BuiltinMethod::Append => match receiver.kind {
                CheckedExprKindView::Identifier(n) => if args.len() != 1 {
                    (m, Err(ExecutionErrorKindView::InvalidMethodCall(method)))
                } else {
                    let (m1, r) = eval(m, args[0]);
                    match r {
                        Err(err) => (m1, Err(err)),
                        Ok(Some(ValueView::String(t))) => match lookup(m1.scopes, n) {
                            Some(ValueView::String(s)) => (
                                with_scopes(m1, assign(m1.scopes, n, ValueView::String(s + t))),
                                Ok(None),
                            ),
                            Some(_) => (m1, Err(ExecutionErrorKindView::InvalidMethodCall(method))),
                            None => (m1, Err(ExecutionErrorKindView::UnknownVariable(n))),
                        },
                        Ok(_) => (m1, Err(ExecutionErrorKindView::InvalidMethodCall(method))),
                    }
                },
                _ => (m, Err(ExecutionErrorKindView::InvalidMethodCall(method))),
            },
            BuiltinMethod::ToString => {
                let (m1, r) = eval(m, *receiver);
                match r {
                    Err(err) => (m1, Err(err)),
                    Ok(Some(v)) => (m1, Ok(Some(ValueView::String(value_text(Some(v)))))),
                    Ok(None) => (m1, Err(ExecutionErrorKindView::InvalidMethodCall(method))),
                }
            },
        },
        CheckedExprKindView::BuiltinFnCall { function, args } => match function {
            BuiltinFunction::Print => if args.len() == 0 {
                (m, Err(ExecutionErrorKindView::MissingArgument(function)))
            } else {
                let (m1, r) = eval(m, args[0]);
                match r {
                    Err(err) => (m1, Err(err)),
                    Ok(v) => (MachineView { output: m1.output.push(v), ..m1 }, Ok(None)),
                }
            },
        },
        CheckedExprKindView::PrefixOp { op, expr } => {
            let (m1, r) = eval(m, *expr);
            match r {
                Err(err) => (m1, Err(err)),
                Ok(v) => (m1, prefix_value(op, v)),
            }
        },
        CheckedExprKindView::InfixOp { op, lhs, rhs } => {
            let (m1, r1) = eval(m, *lhs);
            match r1 {
                Err(err) => (m1, Err(err)),
                Ok(a) => if m1.fuel <= m.fuel {
                    let (m2, r2) = eval(m1, *rhs);
                    match r2 {
                        Err(err) => (m2, Err(err)),
                        Ok(b) => (m2, infix_value(op, a, b)),
                    }
                } else {
                    (m1, Err(ExecutionErrorKindView::OutOfFuel))
                },
            }
        },
        CheckedExprKindView::PostfixOp { .. } => (m, Err(ExecutionErrorKindView::PostfixNotImplemented)),
    }
}

/// Evaluates arguments from index `i` on, left to right, after the values in `acc`; each
/// must have a value.
pub open spec fn eval_args(m: MachineView, args: Seq<CheckedExprView>, i: int, acc: Seq<ValueView>) -> (
    MachineView,
    Outcome<Seq<ValueView>>,
)
    decreases m.fuel, args, args.len() - i,
{
    if i < 0 || i >= args.len() {
        (m, Ok(acc))
    } else {
        let (m1, r) = eval(m, args[i]);
        match r {
            Err(err) => (m1, Err(err)),
            Ok(None) => (m1, Err(ExecutionErrorKindView::VoidArgument)),
            Ok(Some(v)) => if m1.fuel <= m.fuel {
                eval_args(m1, args, i + 1, acc.push(v))
            } else {
                (m1, Err(ExecutionErrorKindView::OutOfFuel))
            },
        }
    }
}

/// The variables with each parameter from index `i` on holding its argument.
pub open spec fn bind_values(
    params: Seq<(Seq<char>, crate::typechecker::checked::TypeId)>,
    args: Seq<ValueView>,
    i: int,
    vars: Seq<(Seq<char>, ValueView)>,
) -> Seq<(Seq<char>, ValueView)>
    decreases params.len() - i,
{
    if i < 0 || i >= params.len() || i >= args.len() {
        vars
    } else {
        bind_values(params, args, i + 1, put_var(vars, params[i].0, args[i]))
    }
}

/// Runs a function with the given arguments: its parameters in a scope of their own, then its
/// body, which must be a block; gives what it returned.
pub open spec fn run_function(m: MachineView, f: CheckedFunctionView, args: Seq<ValueView>) -> (
    MachineView,
    Outcome<Option<ValueView>>,
)
    decreases m.fuel, f, 0int,
{
    let m0 = with_scopes(
        m,
        m.scopes.push(
            ScopeView {
                control_flow: None,
                block_kind: BlockKind::Regular,
                variables: bind_values(f.parameters, args, 0, Seq::empty()),
            },
        ),
    );
    let (m1, r) = run_block(m0, f.body);
    match r {
        Err(err) => (m1, Err(err)),
        Ok(cf) => {
            let m2 = if m1.scopes.len() > 0 {
                with_scopes(m1, m1.scopes.drop_last())
            } else {
                m1
            };
            match cf {
                Some(ControlFlowView::Return(v)) => (m2, Ok(v)),
                _ => (m2, Ok(None)),
            }
        },
    }
}

/// Runs a block in a scope of its own, and gives how control left it; a `return` is passed on
/// to the scope around the block.
pub open spec fn run_block(m: MachineView, s: CheckedStmtView) -> (MachineView, Outcome<Option<ControlFlowView>>)
    decreases m.fuel, s, 0int,
{
    match s {
        CheckedStmtView::Block { block_kind, statements } => {
            let m0 = with_scopes(
                m,
                m.scopes.push(ScopeView { control_flow: None, block_kind, variables: Seq::empty() }),
            );
            let (m1, r) = run_stmts(m0, statements, 0);
            match r {
                Err(err) => (m1, Err(err)),
                Ok(_) => if m1.scopes.len() > 0 {
                    let cf = m1.scopes.last().control_flow;
                    let outer = m1.scopes.drop_last();
                    match cf {
                        Some(ControlFlowView::Return(v)) => (
                            with_scopes(m1, set_control_flow(outer, ControlFlowView::Return(v))),
                            Ok(cf),
                        ),
                        _ => (with_scopes(m1, outer), Ok(cf)),
                    }
                } else {
                    (m1, Ok(None))
                },
            }
        },
        _ => (m, Err(ExecutionErrorKindView::BodyNotBlock)),
    }
}

/// Runs the statements from index `i` on, until one leaves the innermost scope.
pub open spec fn run_stmts(m: MachineView, ss: Seq<CheckedStmtView>, i: int) -> (MachineView, Outcome<()>)
    decreases m.fuel, ss, ss.len() - i,
{
    if i < 0 || i >= ss.len() {
        (m, Ok(()))
    } else {
        let (m1, r) = run_stmt(m, ss[i]);
        match r {
            Err(err) => (m1, Err(err)),
            Ok(_) => if should_break(m1.scopes) {
                (m1, Ok(()))
            } else if m1.fuel <= m.fuel {
                run_stmts(m1, ss, i + 1)
            } else {
                (m1, Err(ExecutionErrorKindView::OutOfFuel))
            },
        }
    }
}

/// Runs a statement.
pub open spec fn run_stmt(m: MachineView, s: CheckedStmtView) -> (MachineView, Outcome<()>)
    decreases m.fuel, s, 1int,
{
    match s {
        CheckedStmtView::Let { name, expr, .. } => {
            let (m1, r) = eval(m, expr);
            match r {
                Err(err) => (m1, Err(err)),
                Ok(Some(v)) => (with_scopes(m1, assign(m1.scopes, name, v)), Ok(())),
                Ok(None) => (m1, Err(ExecutionErrorKindView::VoidInitializer)),
            }
        },
        CheckedStmtView::Assignment { name, expr } => {
            let (m1, r) = eval(m, expr);
            match r {
                Err(err) => (m1, Err(err)),
                Ok(Some(v)) => (with_scopes(m1, assign(m1.scopes, name, v)), Ok(())),
                Ok(None) => (m1, Err(ExecutionErrorKindView::VoidAssignment)),
            }
        },
        CheckedStmtView::If { condition, then_branch, else_branch } => {
            let (m1, r) = eval(m, condition);
            match r {
                Err(err) => (m1, Err(err)),
                Ok(Some(ValueView::Bool(true))) => if m1.fuel <= m.fuel {
                    run_stmt(m1, *then_branch)
                } else {
                    (m1, Err(ExecutionErrorKindView::OutOfFuel))
                },
                Ok(Some(ValueView::Bool(false))) => match else_branch {
                    Some(b) => if m1.fuel <= m.fuel {
                        run_stmt(m1, *b)
                    } else {
                        (m1, Err(ExecutionErrorKindView::OutOfFuel))
                    },
                    None => (m1, Ok(())),
                },
                Ok(v) => (m1, Err(ExecutionErrorKindView::NonBooleanCondition(v))),
            }
        },
        CheckedStmtView::Block { .. } => {
            let (m1, r) = run_block(m, s);
            match r {
                Err(err) => (m1, Err(err)),
                Ok(_) => (m1, Ok(())),
            }
        },
        CheckedStmtView::Loop { body } => run_loop(m, *body),
        CheckedStmtView::While { condition, body } => run_while(m, condition, *body),
        CheckedStmtView::CompoundAssignment { name, op, expr } => {
            let (m1, r) = eval(m, expr);
            match r {
                Err(err) => (m1, Err(err)),
                Ok(None) => (m1, Err(ExecutionErrorKindView::VoidAssignment)),
                Ok(Some(v)) => match lookup(m1.scopes, name) {
                    None => (m1, Err(ExecutionErrorKindView::UnknownVariable(name))),
                    Some(cur) => match infix_value(op, Some(cur), Some(v)) {
                        Err(err) => (m1, Err(err)),
                        Ok(Some(nv)) => (with_scopes(m1, assign(m1.scopes, name, nv)), Ok(())),
                        Ok(None) => (m1, Err(ExecutionErrorKindView::VoidAssignment)),
                    },
                },
            }
        },
        CheckedStmtView::Return { expr } => match expr {
            None => (m, Ok(())),
            Some(e) => {
                let (m1, r) = eval(m, e);
                match r {
                    Err(err) => (m1, Err(err)),
                    Ok(v) => (with_scopes(m1, set_control_flow(m1.scopes, ControlFlowView::Return(v))), Ok(())),
                }
            },
        },
        CheckedStmtView::Continue => (with_scopes(m, set_control_flow(m.scopes, ControlFlowView::Continue)), Ok(())),
        CheckedStmtView::Break => (with_scopes(m, set_control_flow(m.scopes, ControlFlowView::Break)), Ok(())),
        CheckedStmtView::Expression { expr } => {
            let (m1, r) = eval(m, expr);
            match r {
                Err(err) => (m1, Err(err)),
                Ok(_) => (m1, Ok(())),
            }
        },
    }
}

/// Runs a loop body over and over, one unit of fuel a turn, until it breaks or returns.
pub open spec fn run_loop(m: MachineView, body: CheckedStmtView) -> (MachineView, Outcome<()>)
    decreases m.fuel, body, 0int,
{
    if m.fuel == 0 {
        (m, Err(ExecutionErrorKindView::OutOfFuel))
    } else {
        let (m1, r) = run_block(MachineView { fuel: (m.fuel - 1) as nat, ..m }, body);
        match r {
            Err(err) => (m1, Err(err)),
            Ok(Some(ControlFlowView::Break)) => (m1, Ok(())),
            Ok(Some(ControlFlowView::Return(_))) => (m1, Ok(())),
            Ok(_) => if m1.fuel < m.fuel {
                run_loop(m1, body)
            } else {
                (m1, Err(ExecutionErrorKindView::OutOfFuel))
            },
        }
    }
}

/// Runs a `while` loop: one unit of fuel a turn, the condition, which must be a boolean, and
/// while it holds, the body, until the body breaks or returns.
pub open spec fn run_while(m: MachineView, condition: CheckedExprView, body: CheckedStmtView) -> (
    MachineView,
    Outcome<()>,
)
    decreases m.fuel, body, 0int,
{
    if m.fuel == 0 {
        (m, Err(ExecutionErrorKindView::OutOfFuel))
    } else {
        let m0 = MachineView { fuel: (m.fuel - 1) as nat, ..m };
        let (m1, r) = eval(m0, condition);
        match r {
            Err(err) => (m1, Err(err)),
            Ok(Some(ValueView::Bool(true))) => if m1.fuel <= m0.fuel {
                let (m2, rb) = run_block(m1, body);
                match rb {
                    Err(err) => (m2, Err(err)),
                    Ok(Some(ControlFlowView::Break)) => (m2, Ok(())),
                    Ok(Some(ControlFlowView::Return(_))) => (m2, Ok(())),
                    Ok(_) => if m2.fuel < m.fuel {
                        run_while(m2, condition, body)
                    } else {
                        (m2, Err(ExecutionErrorKindView::OutOfFuel))
                    },
                }
            } else {
                (m1, Err(ExecutionErrorKindView::OutOfFuel))
            },
            Ok(Some(ValueView::Bool(false))) => (m1, Ok(())),
            Ok(v) => (m1, Err(ExecutionErrorKindView::NonBooleanCondition(v))),
        }
    }
}

/// Runs a program's `main` function with no scopes open.
pub open spec fn run_main(m: MachineView) -> (MachineView, Outcome<Option<ValueView>>) {
    match function_index(m.functions, "main"@, 0) {
        None => (m, Err(ExecutionErrorKindView::MainFunctionNotFound)),
        Some(i) => run_function(m, m.functions[i], Seq::empty()),
    }
}

} // verus!
