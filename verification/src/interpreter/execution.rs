//! Running statements and evaluating expressions.
use vstd::prelude::*;

use crate::builtins::{BuiltinFunction, BuiltinMethod};
use crate::messages::value_to_text;
use crate::interpreter::error::{ExecutionError, ExecutionErrorKind, ExecutionResult};
use crate::interpreter::scope::{cf_view, ControlFlow, ControlFlowView};
use crate::interpreter::semantics::{
    abs, bind_values, eval, eval_args, infix_value, literal_value, prefix_value, run_block, run_function, run_loop,
    run_main, run_while, run_stmt, run_stmts, trunc_div, trunc_rem, Outcome,
};
use crate::interpreter::scope::{Scope, ScopeView};
use crate::interpreter::value::{duplicate_opt, opt_view, values_view, Value, ValueView};
use crate::interpreter::Interpreter;
use crate::parser::ast::{BlockKind, Literal};
use crate::text::{push_str, str_eq};
use crate::tokenizer::token::TokenKind;
use crate::typechecker::checked::{
    cexpr_view, cexprs_view, cstmts_view, CheckedExpr, CheckedExprKindView, CheckedExprKind, CheckedFunctionItem, CheckedStmt, CheckedStmtView,
};

verus! {

/// A result holding an optional value, by its view.
pub open spec fn value_outcome(r: ExecutionResult<Option<Value>>) -> Outcome<Option<ValueView>> {
    match r {
        Ok(v) => Ok(opt_view(v)),
        Err(e) => Err(e@),
    }
}

/// A result holding a list of values, by its view.
pub open spec fn values_outcome(r: ExecutionResult<Vec<Value>>) -> Outcome<Seq<ValueView>> {
    match r {
        Ok(v) => Ok(values_view(v@)),
        Err(e) => Err(e@),
    }
}

/// A result holding nothing, by its view.
pub open spec fn unit_outcome(r: ExecutionResult<()>) -> Outcome<()> {
    match r {
        Ok(_) => Ok(()),
        Err(e) => Err(e@),
    }
}

/// A result holding how control left a block, by its view.
pub open spec fn cf_outcome(r: ExecutionResult<Option<ControlFlow>>) -> Outcome<Option<ControlFlowView>> {
    match r {
        Ok(c) => Ok(cf_view(c)),
        Err(e) => Err(e@),
    }
}

fn fail<T>(kind: ExecutionErrorKind) -> (r: ExecutionResult<T>)
    ensures
        r matches Err(e) && e.kind == kind,
{
    Err(ExecutionError::new(kind))
}

/// An `i64` result, or an overflow error.
fn int_value(op: TokenKind, v: Option<i64>) -> (r: ExecutionResult<Option<Value>>)
    ensures
        v matches Some(x) ==> value_outcome(r) == Ok::<Option<ValueView>, crate::interpreter::error::ExecutionErrorKindView>(Some(ValueView::Int(x))),
        v is None ==> value_outcome(r) == Err::<Option<ValueView>, crate::interpreter::error::ExecutionErrorKindView>(crate::interpreter::error::ExecutionErrorKindView::IntegerOverflow(op)),
{
    match v {
        Some(x) => Ok(Some(Value::Int(x))),
        None => fail(ExecutionErrorKind::IntegerOverflow(op)),
    }
}

/// The magnitude of an `i64`.
fn magnitude(a: i64) -> (m: u64)
    ensures
        m as nat == abs(a as int),
{
    if a < 0 {
        (0i128 - a as i128) as u64
    } else {
        a as u64
    }
}

/// Division rounding toward zero.
fn int_div(a: i64, b: i64) -> (q: i64)
    requires
        b != 0,
        !(a == i64::MIN && b == -1),
    ensures
        q as int == trunc_div(a as int, b as int),
{
    let ua = magnitude(a);
    let ub = magnitude(b);
    let q = ua / ub;
    proof {
        if ub >= 2 {
            vstd::arithmetic::div_mod::lemma_div_is_ordered_by_denominator(ua as int, 2, ub as int);
        }
        assert(q <= ua);
    }
    if (a < 0) != (b < 0) {
        (0i128 - q as i128) as i64
    } else {
        q as i64
    }
}

/// The remainder of division rounding toward zero.
fn int_rem(a: i64, b: i64) -> (r: i64)
    requires
        b != 0,
    ensures
        r as int == trunc_rem(a as int, b as int),
{
    let ua = magnitude(a);
    let ub = magnitude(b);
    let r = ua % ub;
    if a < 0 {
        (0i128 - r as i128) as i64
    } else {
        r as i64
    }
}

/// Whether two values are equal.
fn values_equal(a: &Value, b: &Value) -> (r: bool)
    ensures
        r == (a@ == b@),
{
    match (a, b) {
        (Value::Int(x), Value::Int(y)) => *x == *y,
        (Value::Float(x), Value::Float(y)) => str_eq(x.as_str(), y.as_str()),
        (Value::String(x), Value::String(y)) => str_eq(x.as_str(), y.as_str()),
        (Value::Bool(x), Value::Bool(y)) => *x == *y,
        _ => false,
    }
}

/// A prefix operator applied to a value.
pub fn apply_prefix(op: TokenKind, value: Option<Value>) -> (r: ExecutionResult<Option<Value>>)
    ensures
        value_outcome(r) == prefix_value(op, opt_view(value)),
{
    match op {
        TokenKind::Plus => Ok(value),
        TokenKind::Minus => match value {
            Some(Value::Int(i)) => {
                if i == i64::MIN {
                    fail(ExecutionErrorKind::IntegerOverflow(op))
                } else {
                    Ok(Some(Value::Int(-i)))
                }
            },
            Some(Value::Float(_)) => fail(ExecutionErrorKind::FloatOperation(op)),
            _ => fail(ExecutionErrorKind::InvalidNegation),
        },
        TokenKind::ExclamationMark => match value {
            Some(Value::Bool(b)) => Ok(Some(Value::Bool(!b))),
            _ => fail(ExecutionErrorKind::InvalidNot),
        },
        _ => fail(ExecutionErrorKind::InvalidPrefixOperator(op)),
    }
}

/// An infix operator applied to two values.
pub fn apply_infix(op: TokenKind, lhs: Option<Value>, rhs: Option<Value>) -> (r: ExecutionResult<Option<Value>>)
    ensures
        value_outcome(r) == infix_value(op, opt_view(lhs), opt_view(rhs)),
{
    let (a, b) = match (lhs, rhs) {
        (Some(a), Some(b)) => (a, b),
        _ => return fail(ExecutionErrorKind::VoidOperand),
    };
    match op {
        TokenKind::Plus => match (a, b) {
            (Value::Int(i), Value::Int(j)) => int_value(op, i.checked_add(j)),
            (Value::Float(_), Value::Float(_)) => fail(ExecutionErrorKind::FloatOperation(op)),
            (Value::String(s), Value::String(t)) => {
                let mut joined = s;
                push_str(&mut joined, t.as_str());
                Ok(Some(Value::String(joined)))
            },
            _ => fail(ExecutionErrorKind::InvalidOperands(op)),
        },
        TokenKind::Minus => match (a, b) {
            (Value::Int(i), Value::Int(j)) => int_value(op, i.checked_sub(j)),
            (Value::Float(_), Value::Float(_)) => fail(ExecutionErrorKind::FloatOperation(op)),
            _ => fail(ExecutionErrorKind::InvalidOperands(op)),
        },
        TokenKind::Asterisk => match (a, b) {
            (Value::Int(i), Value::Int(j)) => int_value(op, i.checked_mul(j)),
            (Value::Float(_), Value::Float(_)) => fail(ExecutionErrorKind::FloatOperation(op)),
            _ => fail(ExecutionErrorKind::InvalidOperands(op)),
        },
        TokenKind::Slash => match (a, b) {
            (Value::Int(i), Value::Int(j)) => {
                if j == 0 {
                    fail(ExecutionErrorKind::DivisionByZero(op))
                } else if i == i64::MIN && j == -1 {
                    proof {
                        vstd::arithmetic::div_mod::lemma_div_basics(9223372036854775808);
                        assert(abs(i as int) == 9223372036854775808 && abs(j as int) == 1);
                        assert(trunc_div(i as int, j as int) == 9223372036854775808);
                    }
                    fail(ExecutionErrorKind::IntegerOverflow(op))
                } else {
                    Ok(Some(Value::Int(int_div(i, j))))
                }
            },
            (Value::Float(_), Value::Float(_)) => fail(ExecutionErrorKind::FloatOperation(op)),
            _ => fail(ExecutionErrorKind::InvalidOperands(op)),
        },
        TokenKind::Percent => match (a, b) {
            (Value::Int(i), Value::Int(j)) => {
                if j == 0 {
                    fail(ExecutionErrorKind::DivisionByZero(op))
                } else if i == i64::MIN && j == -1 {
                    fail(ExecutionErrorKind::IntegerOverflow(op))
                } else {
                    Ok(Some(Value::Int(int_rem(i, j))))
                }
            },
            _ => fail(ExecutionErrorKind::InvalidOperands(op)),
        },
        TokenKind::EqualsEquals | TokenKind::ExclamationMarkEquals => {
            if let (Value::Float(_), Value::Float(_)) = (&a, &b) {
                return fail(ExecutionErrorKind::FloatOperation(op));
            }
            let equal = values_equal(&a, &b);
            Ok(Some(Value::Bool(equal == (op == TokenKind::EqualsEquals))))
        },
        TokenKind::LessThan
        | TokenKind::LessThanEquals
        | TokenKind::GreaterThan
        | TokenKind::GreaterThanEquals => match (a, b) {
            (Value::Int(i), Value::Int(j)) => {
                let result = match op {
                    TokenKind::LessThan => i < j,
                    TokenKind::LessThanEquals => i <= j,
                    TokenKind::GreaterThan => i > j,
                    _ => i >= j,
                };
                Ok(Some(Value::Bool(result)))
            },
            (Value::Float(_), Value::Float(_)) => fail(ExecutionErrorKind::FloatOperation(op)),
            _ => fail(ExecutionErrorKind::InvalidOperands(op)),
        },
        TokenKind::AmpersandAmpersand | TokenKind::PipePipe => match (a, b) {
            (Value::Bool(p), Value::Bool(q)) => {
                let result = if op == TokenKind::AmpersandAmpersand {
                    p && q
                } else {
                    p || q
                };
                Ok(Some(Value::Bool(result)))
            },
            _ => fail(ExecutionErrorKind::InvalidOperands(op)),
        },
        _ => fail(ExecutionErrorKind::InvalidInfixOperator(op)),
    }
}

/// The value of a literal.
pub fn literal_to_value(literal: &Literal) -> (v: Value)
    ensures
        v@ == literal_value(literal@),
{
    match literal {
        Literal::Int(v) => Value::Int(*v),
        Literal::Float(t) => Value::Float(t.clone()),
        Literal::String(s) => Value::String(s.clone()),
        Literal::Bool(b) => Value::Bool(*b),
    }
}

/// The views of a list of checked statements, one for each.
proof fn lemma_cstmts_view(s: Seq<CheckedStmt>)
    ensures
        cstmts_view(s).len() == s.len(),
        forall|j: int| 0 <= j < s.len() ==> #[trigger] cstmts_view(s)[j] == s[j]@,
    decreases s.len(),
{
    if s.len() > 0 {
        lemma_cstmts_view(s.drop_last());
        assert forall|j: int| 0 <= j < s.len() implies #[trigger] cstmts_view(s)[j] == s[j]@ by {
            if j < s.len() - 1 {
                assert(s.drop_last()[j] == s[j]);
            }
        }
    }
}

/// The views of a list of checked expressions, one for each.
pub(crate) proof fn lemma_cexprs_view(s: Seq<CheckedExpr>)
    ensures
        crate::typechecker::checked::cexprs_view(s).len() == s.len(),
        forall|j: int| 0 <= j < s.len() ==> #[trigger] crate::typechecker::checked::cexprs_view(s)[j] == s[j]@,
    decreases s.len(),
{
    if s.len() > 0 {
        lemma_cexprs_view(s.drop_last());
        assert forall|j: int| 0 <= j < s.len() implies #[trigger] crate::typechecker::checked::cexprs_view(s)[j] == s[j]@ by {
            if j < s.len() - 1 {
                assert(s.drop_last()[j] == s[j]);
            }
        }
    }
}

impl Interpreter {
    /// Runs the function called `main`, with no arguments.
    pub fn execute_main(&mut self) -> (r: ExecutionResult<Option<Value>>)
        ensures
            (final(self)@, value_outcome(r)) == run_main(old(self)@),
    {
        let main = match self.main_function() {
            Some(f) => f.duplicate(),
            None => return fail(ExecutionErrorKind::MainFunctionNotFound),
        };
        let args: Vec<Value> = Vec::new();
        assert(values_view(args@) =~= Seq::<ValueView>::empty());
        self.execute_function(&main, args)
    }

    /// Runs a function with the given arguments: its parameters in a scope of their own, then
    /// its body; gives what it returned.
    pub fn execute_function(&mut self, function: &CheckedFunctionItem, args: Vec<Value>) -> (r: ExecutionResult<Option<Value>>)
        ensures
            (final(self)@, value_outcome(r)) == run_function(old(self)@, function@, values_view(args@)),
            final(self)@.fuel <= old(self)@.fuel,
            final(self)@.functions == old(self)@.functions,
        decreases old(self)@.fuel, function, 0int,
    {
        let ghost params = function@.parameters;
        let ghost vals = values_view(args@);
        let mut scope = Scope::new(BlockKind::Regular);
        let n = args.len();
        let parameters = function.parameters();
        let mut i: usize = 0;
        while i < parameters.len() && i < n
            invariant
                i <= parameters@.len(),
                i <= n,
                n == args@.len(),
                params == crate::typechecker::checked::params_view(parameters@),
                vals == values_view(args@),
                scope@.block_kind == BlockKind::Regular,
                scope@.control_flow is None,
                bind_values(params, vals, 0, Seq::empty()) == bind_values(params, vals, i as int, scope@.variables),
            decreases parameters@.len() - i,
        {
            proof {
                assert(vals[i as int] == args@[i as int]@);
                assert(params[i as int] == (parameters@[i as int].0@, parameters@[i as int].1));
            }
            scope.set_variable_value(parameters[i].0.as_str(), args[i].duplicate());
            i = i + 1;
        }
        proof {
            assert(bind_values(params, vals, i as int, scope@.variables) == scope@.variables);
            assert(scope@ == (ScopeView {
                control_flow: None,
                block_kind: BlockKind::Regular,
                variables: bind_values(params, vals, 0, Seq::empty()),
            }));
        }
        self.enter_scope(scope);
        let outcome = self.execute_block_statement(&function.body);
        match outcome {
            Err(e) => Err(e),
            Ok(cf) => {
                if self.scope_stack.len() > 0 {
                    self.pop_scope();
                }
                match cf {
                    Some(ControlFlow::Return(value)) => Ok(value),
                    _ => Ok(None),
                }
            },
        }
    }

    /// Evaluates arguments left to right; each must have a value.
    pub fn execute_arguments(&mut self, args: &Vec<CheckedExpr>) -> (r: ExecutionResult<Vec<Value>>)
        ensures
            (final(self)@, values_outcome(r)) == eval_args(old(self)@, cexprs_view(args@), 0, Seq::empty()),
            final(self)@.fuel <= old(self)@.fuel,
            final(self)@.functions == old(self)@.functions,
        decreases old(self)@.fuel, args, 0int,
    {
        let ghost es = cexprs_view(args@);
        proof {
            lemma_cexprs_view(args@);
        }
        let mut values: Vec<Value> = Vec::new();
        let mut i: usize = 0;
        proof {
            assert(values_view(values@) =~= Seq::<ValueView>::empty());
        }
        while i < args.len()
            invariant
                i <= args@.len(),
                es == cexprs_view(args@),
                es.len() == args@.len(),
                forall|j: int| 0 <= j < es.len() ==> #[trigger] es[j] == args@[j]@,
                self@.fuel <= old(self)@.fuel,
                self@.functions == old(self)@.functions,
                eval_args(old(self)@, es, 0, Seq::empty()) == eval_args(self@, es, i as int, values_view(values@)),
            decreases args@.len() - i,
        {
            assert(decreases_to!(args => args@[i as int]));
            let ghost before = values@;
            match self.execute_expression(&args[i]) {
                Err(e) => return Err(e),
                Ok(None) => return fail(ExecutionErrorKind::VoidArgument),
                Ok(Some(v)) => {
                    let ghost w = v@;
                    values.push(v);
                    proof {
                        assert(values_view(values@) =~= values_view(before).push(w));
                    }
                },
            }
            i = i + 1;
        }
        Ok(values)
    }

    /// Runs a statement.
    pub fn execute_statement(&mut self, statement: &CheckedStmt) -> (r: ExecutionResult<()>)
        ensures
            (final(self)@, unit_outcome(r)) == run_stmt(old(self)@, statement@),
            final(self)@.fuel <= old(self)@.fuel,
            final(self)@.functions == old(self)@.functions,
        decreases old(self)@.fuel, statement, 1int,
    {
        match statement {
            CheckedStmt::Let { .. } => self.execute_let_statement(statement),
            CheckedStmt::Assignment { .. } => self.execute_assignment_statement(statement),
            CheckedStmt::If { .. } => self.execute_if_statement(statement),
            CheckedStmt::Block { .. } => match self.execute_block_statement(statement) {
                Ok(_) => Ok(()),
                Err(e) => Err(e),
            },
            CheckedStmt::Loop { .. } => self.execute_loop_statement(statement),
            CheckedStmt::While { .. } => self.execute_while_statement(statement),
            CheckedStmt::CompoundAssignment { .. } => self.execute_compound_assignment_statement(statement),
            CheckedStmt::Return { .. } => self.execute_return_statement(statement),
            CheckedStmt::Continue => self.execute_continue_statement(),
            CheckedStmt::Break => self.execute_break_statement(),
            CheckedStmt::Expression { .. } => self.execute_expression_statement(statement),
        }
    }

    /// `let`: the variable takes the expression's value, which must not be `void`.
    pub fn execute_let_statement(&mut self, statement: &CheckedStmt) -> (r: ExecutionResult<()>)
        requires
            statement is Let,
        ensures
            (final(self)@, unit_outcome(r)) == run_stmt(old(self)@, statement@),
            final(self)@.fuel <= old(self)@.fuel,
            final(self)@.functions == old(self)@.functions,
        decreases old(self)@.fuel, statement, 0int,
    {
        match statement {
            CheckedStmt::Let { name, expr, .. } => match self.execute_expression(expr) {
                Err(e) => Err(e),
                Ok(Some(value)) => {
                    self.set_variable_value(name.as_str(), value);
                    Ok(())
                },
                Ok(None) => fail(ExecutionErrorKind::VoidInitializer),
            },
            _ => fail(ExecutionErrorKind::BodyNotBlock),
        }
    }

    /// An assignment: the variable takes the expression's value, which must not be `void`.
    pub fn execute_assignment_statement(&mut self, statement: &CheckedStmt) -> (r: ExecutionResult<()>)
        requires
            statement is Assignment,
        ensures
            (final(self)@, unit_outcome(r)) == run_stmt(old(self)@, statement@),
            final(self)@.fuel <= old(self)@.fuel,
            final(self)@.functions == old(self)@.functions,
        decreases old(self)@.fuel, statement, 0int,
    {
        match statement {
            CheckedStmt::Assignment { name, expr } => match self.execute_expression(expr) {
                Err(e) => Err(e),
                Ok(Some(value)) => {
                    self.set_variable_value(name.as_str(), value);
                    Ok(())
                },
                Ok(None) => fail(ExecutionErrorKind::VoidAssignment),
            },
            _ => fail(ExecutionErrorKind::BodyNotBlock),
        }
    }

    /// `if`: the condition must be a boolean.
    pub fn execute_if_statement(&mut self, statement: &CheckedStmt) -> (r: ExecutionResult<()>)
        requires
            statement is If,
        ensures
            (final(self)@, unit_outcome(r)) == run_stmt(old(self)@, statement@),
            final(self)@.fuel <= old(self)@.fuel,
            final(self)@.functions == old(self)@.functions,
        decreases old(self)@.fuel, statement, 0int,
    {
        match statement {
            CheckedStmt::If { condition, then_branch, else_branch } => {
                let value = match self.execute_expression(condition) {
                    Ok(v) => v,
                    Err(e) => return Err(e),
                };
                match value {
                    Some(Value::Bool(true)) => self.execute_statement(then_branch),
                    Some(Value::Bool(false)) => match else_branch {
                        Some(b) => self.execute_statement(b),
                        None => Ok(()),
                    },
                    other => fail(ExecutionErrorKind::NonBooleanCondition(other)),
                }
            },
            _ => fail(ExecutionErrorKind::BodyNotBlock),
        }
    }

    /// Runs a block in a scope of its own, and gives how control left it; a `return` is passed
    /// on to the scope around the block.
    pub fn execute_block_statement(&mut self, statement: &CheckedStmt) -> (r: ExecutionResult<Option<ControlFlow>>)
        ensures
            (final(self)@, cf_outcome(r)) == run_block(old(self)@, statement@),
            final(self)@.fuel <= old(self)@.fuel,
            final(self)@.functions == old(self)@.functions,
        decreases old(self)@.fuel, statement, 0int,
    {
        match statement {
            CheckedStmt::Block { statements, block_kind } => {
                self.push_scope(*block_kind);
                match self.execute_statements(statements) {
                    Ok(()) => {},
                    Err(e) => return Err(e),
                }
                if self.scope_stack.len() > 0 {
                    let cf = self.pop_scope();
                    if let Some(ControlFlow::Return(v)) = &cf {
                        self.set_control_flow(ControlFlow::Return(duplicate_opt(v)));
                    }
                    Ok(cf)
                } else {
                    Ok(None)
                }
            },
            _ => fail(ExecutionErrorKind::BodyNotBlock),
        }
    }

    /// Runs statements in order until one leaves the innermost scope.
    fn execute_statements(&mut self, statements: &Vec<CheckedStmt>) -> (r: ExecutionResult<()>)
        ensures
            (final(self)@, unit_outcome(r)) == run_stmts(old(self)@, cstmts_view(statements@), 0),
            final(self)@.fuel <= old(self)@.fuel,
            final(self)@.functions == old(self)@.functions,
        decreases old(self)@.fuel, statements, 0int,
    {
        let ghost ss = cstmts_view(statements@);
        proof {
            lemma_cstmts_view(statements@);
        }
        let mut i: usize = 0;
        while i < statements.len()
            invariant
                i <= statements@.len(),
                ss == cstmts_view(statements@),
                ss.len() == statements@.len(),
                forall|j: int| 0 <= j < ss.len() ==> #[trigger] ss[j] == statements@[j]@,
                self@.fuel <= old(self)@.fuel,
                self@.functions == old(self)@.functions,
                run_stmts(old(self)@, ss, 0) == run_stmts(self@, ss, i as int),
            decreases statements@.len() - i,
        {
            assert(decreases_to!(statements => statements@[i as int]));
            match self.execute_statement(&statements[i]) {
                Ok(()) => {},
                Err(e) => return Err(e),
            }
            if self.control_flow_should_break() {
                return Ok(());
            }
            i = i + 1;
        }
        Ok(())
    }

    /// `loop`: runs the body over and over, one unit of fuel a turn, until it breaks or
    /// returns.
    pub fn execute_loop_statement(&mut self, statement: &CheckedStmt) -> (r: ExecutionResult<()>)
        requires
            statement is Loop,
        ensures
            (final(self)@, unit_outcome(r)) == run_stmt(old(self)@, statement@),
            final(self)@.fuel <= old(self)@.fuel,
            final(self)@.functions == old(self)@.functions,
        decreases old(self)@.fuel, statement, 0int,
    {
        match statement {
            CheckedStmt::Loop { body } => {
                loop
                    invariant
                        self@.fuel <= old(self)@.fuel,
                        self@.functions == old(self)@.functions,
                        run_stmt(old(self)@, statement@) == run_loop(self@, (**body)@),
                    decreases self@.fuel,
                {
                    if self.fuel == 0 {
                        return fail(ExecutionErrorKind::OutOfFuel);
                    }
                    self.fuel = self.fuel - 1;
                    match self.execute_block_statement(body) {
                        Err(e) => return Err(e),
                        Ok(Some(ControlFlow::Break)) => return Ok(()),
                        Ok(Some(ControlFlow::Return(_))) => return Ok(()),
                        Ok(_) => {},
                    }
                }
            },
            _ => fail(ExecutionErrorKind::BodyNotBlock),
        }
    }

    /// `while`: one unit of fuel a turn, the condition, which must be a boolean, and while it
    /// holds, the body, until the body breaks or returns.
    pub fn execute_while_statement(&mut self, statement: &CheckedStmt) -> (r: ExecutionResult<()>)
        requires
            statement is While,
        ensures
            (final(self)@, unit_outcome(r)) == run_stmt(old(self)@, statement@),
            final(self)@.fuel <= old(self)@.fuel,
            final(self)@.functions == old(self)@.functions,
        decreases old(self)@.fuel, statement, 0int,
    {
        match statement {
            CheckedStmt::While { condition, body } => {
                loop
                    invariant
                        self@.fuel <= old(self)@.fuel,
                        self@.functions == old(self)@.functions,
                        run_stmt(old(self)@, statement@) == run_while(self@, condition@, (**body)@),
                    decreases self@.fuel,
                {
                    if self.fuel == 0 {
                        return fail(ExecutionErrorKind::OutOfFuel);
                    }
                    self.fuel = self.fuel - 1;
                    let value = match self.execute_expression(condition) {
                        Ok(v) => v,
                        Err(e) => return Err(e),
                    };
                    match value {
                        Some(Value::Bool(true)) => match self.execute_block_statement(body) {
                            Err(e) => return Err(e),
                            Ok(Some(ControlFlow::Break)) => return Ok(()),
                            Ok(Some(ControlFlow::Return(_))) => return Ok(()),
                            Ok(_) => {},
                        },
                        Some(Value::Bool(false)) => return Ok(()),
                        other => return fail(ExecutionErrorKind::NonBooleanCondition(other)),
                    }
                }
            },
            _ => fail(ExecutionErrorKind::BodyNotBlock),
        }
    }

    /// A compound assignment: the variable takes its value combined with the expression's by
    /// the operator.
    pub fn execute_compound_assignment_statement(&mut self, statement: &CheckedStmt) -> (r: ExecutionResult<()>)
        requires
            statement is CompoundAssignment,
        ensures
            (final(self)@, unit_outcome(r)) == run_stmt(old(self)@, statement@),
            final(self)@.fuel <= old(self)@.fuel,
            final(self)@.functions == old(self)@.functions,
        decreases old(self)@.fuel, statement, 0int,
    {
        match statement {
            CheckedStmt::CompoundAssignment { name, op, expr } => {
                let value = match self.execute_expression(expr) {
                    Ok(Some(v)) => v,
                    Ok(None) => return fail(ExecutionErrorKind::VoidAssignment),
                    Err(e) => return Err(e),
                };
                let current = match self.get_variable_value(name.as_str()) {
                    Ok(v) => v,
                    Err(e) => return Err(e),
                };
                match apply_infix(*op, Some(current), Some(value)) {
                    Err(e) => Err(e),
                    Ok(Some(v)) => {
                        self.set_variable_value(name.as_str(), v);
                        Ok(())
                    },
                    Ok(None) => fail(ExecutionErrorKind::VoidAssignment),
                }
            },
            _ => fail(ExecutionErrorKind::BodyNotBlock),
        }
    }

    /// `return`: with a value, records it on the innermost scope; without one, does nothing.
    pub fn execute_return_statement(&mut self, statement: &CheckedStmt) -> (r: ExecutionResult<()>)
        requires
            statement is Return,
        ensures
            (final(self)@, unit_outcome(r)) == run_stmt(old(self)@, statement@),
            final(self)@.fuel <= old(self)@.fuel,
            final(self)@.functions == old(self)@.functions,
        decreases old(self)@.fuel, statement, 0int,
    {
        match statement {
            CheckedStmt::Return { expr } => match expr {
                None => Ok(()),
                Some(e) => {
                    let value = match self.execute_expression(e) {
                        Ok(v) => v,
                        Err(err) => return Err(err),
                    };
                    self.set_control_flow(ControlFlow::Return(value));
                    Ok(())
                },
            },
            _ => fail(ExecutionErrorKind::BodyNotBlock),
        }
    }

    /// `continue`: recorded on the innermost loop scope.
    pub fn execute_continue_statement(&mut self) -> (r: ExecutionResult<()>)
        ensures
            (final(self)@, unit_outcome(r)) == run_stmt(old(self)@, CheckedStmtView::Continue),
            final(self)@.fuel == old(self)@.fuel,
            final(self)@.functions == old(self)@.functions,
    {
        self.set_control_flow(ControlFlow::Continue);
        Ok(())
    }

    /// `break`: recorded on the innermost loop scope.
    pub fn execute_break_statement(&mut self) -> (r: ExecutionResult<()>)
        ensures
            (final(self)@, unit_outcome(r)) == run_stmt(old(self)@, CheckedStmtView::Break),
            final(self)@.fuel == old(self)@.fuel,
            final(self)@.functions == old(self)@.functions,
    {
        self.set_control_flow(ControlFlow::Break);
        Ok(())
    }

    /// An expression statement: its value is dropped.
    pub fn execute_expression_statement(&mut self, statement: &CheckedStmt) -> (r: ExecutionResult<()>)
        requires
            statement is Expression,
        ensures
            (final(self)@, unit_outcome(r)) == run_stmt(old(self)@, statement@),
            final(self)@.fuel <= old(self)@.fuel,
            final(self)@.functions == old(self)@.functions,
        decreases old(self)@.fuel, statement, 0int,
    {
        match statement {
            CheckedStmt::Expression { expr } => match self.execute_expression(expr) {
                Ok(_) => Ok(()),
                Err(e) => Err(e),
            },
            _ => fail(ExecutionErrorKind::BodyNotBlock),
        }
    }

    /// Evaluates an expression.
    pub fn execute_expression(&mut self, expr: &CheckedExpr) -> (r: ExecutionResult<Option<Value>>)
        ensures
            (final(self)@, value_outcome(r)) == eval(old(self)@, expr@),
            final(self)@.fuel <= old(self)@.fuel,
            final(self)@.functions == old(self)@.functions,
        decreases old(self)@.fuel, expr, 1int,
    {
        match expr.kind() {
            CheckedExprKind::Literal(literal) => self.execute_literal_expression(literal),
            CheckedExprKind::Identifier(identifier) => self.execute_identifier_expression(identifier.as_str()),
            CheckedExprKind::FnCall { .. } => self.execute_function_call_expression(expr),
            CheckedExprKind::PrefixOp { .. } => self.execute_prefix_operator_expression(expr),
            CheckedExprKind::InfixOp { .. } => self.execute_infix_operator_expression(expr),
            CheckedExprKind::PostfixOp { .. } => fail(ExecutionErrorKind::PostfixNotImplemented),
            CheckedExprKind::BuiltinFnCall { .. } => self.execute_builtin_call_expression(expr),
            CheckedExprKind::MethodCall { .. } => self.execute_method_call_expression(expr),
            CheckedExprKind::BuiltinMethodCall { .. } => self.execute_builtin_method_call_expression(expr),
        }
    }

    /// The value of a literal.
    pub fn execute_literal_expression(&mut self, literal: &Literal) -> (r: ExecutionResult<Option<Value>>)
        ensures
            final(self)@ == old(self)@,
            value_outcome(r) == Ok::<Option<ValueView>, crate::interpreter::error::ExecutionErrorKindView>(Some(literal_value(literal@))),
    {
        Ok(Some(literal_to_value(literal)))
    }

    /// The value of a variable.
    pub fn execute_identifier_expression(&mut self, ident: &str) -> (r: ExecutionResult<Option<Value>>)
        ensures
            final(self)@ == old(self)@,
            match crate::interpreter::semantics::lookup(old(self)@.scopes, ident@) {
                Some(v) => value_outcome(r) == Ok::<Option<ValueView>, crate::interpreter::error::ExecutionErrorKindView>(Some(v)),
                None => value_outcome(r) == Err::<Option<ValueView>, crate::interpreter::error::ExecutionErrorKindView>(
                    crate::interpreter::error::ExecutionErrorKindView::UnknownVariable(ident@),
                ),
            },
    {
        match self.get_variable_value(ident) {
            Ok(v) => Ok(Some(v)),
            Err(e) => Err(e),
        }
    }

    /// A call of a function by name: one unit of fuel, then its body.
    pub fn execute_function_call_expression(&mut self, function_call: &CheckedExpr) -> (r: ExecutionResult<Option<Value>>)
        requires
            function_call.kind is FnCall,
        ensures
            (final(self)@, value_outcome(r)) == eval(old(self)@, function_call@),
            final(self)@.fuel <= old(self)@.fuel,
            final(self)@.functions == old(self)@.functions,
        decreases old(self)@.fuel, function_call, 0int,
    {
        match function_call.kind() {
            CheckedExprKind::FnCall(call) => {
                let function = match self.function(call.name()) {
                    Some(f) => f.duplicate(),
                    None => return fail(ExecutionErrorKind::UnknownFunction(call.name.clone())),
                };
                let values = match self.execute_arguments(call.args()) {
                    Ok(v) => v,
                    Err(e) => return Err(e),
                };
                if self.fuel == 0 {
                    return fail(ExecutionErrorKind::OutOfFuel);
                }
                self.fuel = self.fuel - 1;
                self.execute_function(&function, values)
            },
            _ => fail(ExecutionErrorKind::PostfixNotImplemented),
        }
    }

    /// A call of a method of an extension: its arguments, one unit of fuel, then its body.
    pub fn execute_method_call_expression(&mut self, expr: &CheckedExpr) -> (r: ExecutionResult<Option<Value>>)
        requires
            expr.kind is MethodCall,
        ensures
            (final(self)@, value_outcome(r)) == eval(old(self)@, expr@),
            final(self)@.fuel <= old(self)@.fuel,
            final(self)@.functions == old(self)@.functions,
        decreases old(self)@.fuel, expr, 0int,
    {
        match expr.kind() {
            CheckedExprKind::MethodCall { method, args } => {
                let values = match self.execute_arguments(args) {
                    Ok(v) => v,
                    Err(e) => return Err(e),
                };
                if self.fuel == 0 {
                    return fail(ExecutionErrorKind::OutOfFuel);
                }
                self.fuel = self.fuel - 1;
                self.execute_function(method, values)
            },
            _ => fail(ExecutionErrorKind::PostfixNotImplemented),
        }
    }

    /// A call of a builtin method: `append` adds a string to a string variable; `to_string`
    /// gives the text of a value.
    pub fn execute_builtin_method_call_expression(&mut self, expr: &CheckedExpr) -> (r: ExecutionResult<Option<Value>>)
        requires
            expr.kind is BuiltinMethodCall,
        ensures
            (final(self)@, value_outcome(r)) == eval(old(self)@, expr@),
            final(self)@.fuel <= old(self)@.fuel,
            final(self)@.functions == old(self)@.functions,
        decreases old(self)@.fuel, expr, 0int,
    {
        match expr.kind() {
            CheckedExprKind::BuiltinMethodCall { method, receiver, args } => match method {
                BuiltinMethod::Append => {
                    proof {
                        lemma_cexprs_view(args@);
                    }
                    assert(receiver@ == cexpr_view(**receiver));
                    let name = match receiver.kind() {
                        CheckedExprKind::Identifier(n) => n,
                        _ => {
                            assert(!(receiver@.kind is Identifier));
                            return fail(ExecutionErrorKind::InvalidMethodCall(*method));
                        },
                    };
                    assert(receiver@.kind == CheckedExprKindView::Identifier(name@));
                    if args.len() != 1 {
                        return fail(ExecutionErrorKind::InvalidMethodCall(*method));
                    }
                    assert(decreases_to!(args => args@[0]));
                    let value = match self.execute_expression(&args[0]) {
                        Ok(v) => v,
                        Err(e) => return Err(e),
                    };
                    let tail = match value {
                        Some(Value::String(t)) => t,
                        _ => return fail(ExecutionErrorKind::InvalidMethodCall(*method)),
                    };
                    let current = match self.get_variable_value(name.as_str()) {
                        Ok(v) => v,
                        Err(e) => return Err(e),
                    };
                    match current {
                        Value::String(s) => {
                            let mut joined = s;
                            push_str(&mut joined, tail.as_str());
                            self.set_variable_value(name.as_str(), Value::String(joined));
                            Ok(None)
                        },
                        _ => fail(ExecutionErrorKind::InvalidMethodCall(*method)),
                    }
                },
                BuiltinMethod::ToString => {
                    let value = match self.execute_expression(receiver) {
                        Ok(v) => v,
                        Err(e) => return Err(e),
                    };
                    match value {
                        Some(v) => {
                            let text = value_to_text(&Some(v));
                            Ok(Some(Value::String(text)))
                        },
                        None => fail(ExecutionErrorKind::InvalidMethodCall(*method)),
                    }
                },
            },
            _ => fail(ExecutionErrorKind::PostfixNotImplemented),
        }
    }

    /// A call of a builtin.
    fn execute_builtin_call_expression(&mut self, expr: &CheckedExpr) -> (r: ExecutionResult<Option<Value>>)
        requires
            expr.kind is BuiltinFnCall,
        ensures
            (final(self)@, value_outcome(r)) == eval(old(self)@, expr@),
            final(self)@.fuel <= old(self)@.fuel,
            final(self)@.functions == old(self)@.functions,
        decreases old(self)@.fuel, expr, 0int,
    {
        match expr.kind() {
            CheckedExprKind::BuiltinFnCall { function, args } => match function {
                BuiltinFunction::Print => {
                    proof {
                        lemma_cexprs_view(args@);
                    }
                    if args.len() == 0 {
                        return fail(ExecutionErrorKind::MissingArgument(*function));
                    }
                    assert(decreases_to!(args => args@[0]));
                    let value = match self.execute_expression(&args[0]) {
                        Ok(v) => v,
                        Err(e) => return Err(e),
                    };
                    let ghost before = self.output@;
                    self.output.push(value);
                    proof {
                        assert(crate::interpreter::output_view(self.output@) =~= crate::interpreter::output_view(
                            before,
                        ).push(opt_view(value)));
                    }
                    Ok(None)
                },
            },
            _ => fail(ExecutionErrorKind::PostfixNotImplemented),
        }
    }

    /// A prefix operator applied to an expression.
    pub fn execute_prefix_operator_expression(&mut self, prefix_op: &CheckedExpr) -> (r: ExecutionResult<Option<Value>>)
        requires
            prefix_op.kind is PrefixOp,
        ensures
            (final(self)@, value_outcome(r)) == eval(old(self)@, prefix_op@),
            final(self)@.fuel <= old(self)@.fuel,
            final(self)@.functions == old(self)@.functions,
        decreases old(self)@.fuel, prefix_op, 0int,
    {
        match prefix_op.kind() {
            CheckedExprKind::PrefixOp { op, expr } => {
                let value = match self.execute_expression(expr) {
                    Ok(v) => v,
                    Err(e) => return Err(e),
                };
                apply_prefix(*op, value)
            },
            _ => fail(ExecutionErrorKind::PostfixNotImplemented),
        }
    }

    /// An infix operator applied to two expressions, both evaluated, left first.
    pub fn execute_infix_operator_expression(&mut self, infix_op: &CheckedExpr) -> (r: ExecutionResult<Option<Value>>)
        requires
            infix_op.kind is InfixOp,
        ensures
            (final(self)@, value_outcome(r)) == eval(old(self)@, infix_op@),
            final(self)@.fuel <= old(self)@.fuel,
            final(self)@.functions == old(self)@.functions,
        decreases old(self)@.fuel, infix_op, 0int,
    {
        match infix_op.kind() {
            CheckedExprKind::InfixOp { op, lhs, rhs } => {
                let a = match self.execute_expression(lhs) {
                    Ok(v) => v,
                    Err(e) => return Err(e),
                };
                let b = match self.execute_expression(rhs) {
                    Ok(v) => v,
                    Err(e) => return Err(e),
                };
                apply_infix(*op, a, b)
            },
            _ => fail(ExecutionErrorKind::PostfixNotImplemented),
        }
    }
}

} // verus!
