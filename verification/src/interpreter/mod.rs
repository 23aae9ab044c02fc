//! The interpreter: runs a checked program.
//!
//! What each function does is stated by the spec functions of `semantics`.
use vstd::prelude::*;

pub mod error;
pub mod execution;
pub mod laws;
pub mod scope;
pub mod semantics;
pub mod value;

use crate::parser::ast::BlockKind;
use crate::text::str_eq;
use crate::typechecker::checked::{
    cfunction_view, cfunctions_view, CheckedFunctionItem, CheckedFunctionView,
};
use crate::typechecker::Typechecker;

use self::error::{ExecutionError, ExecutionErrorKind, ExecutionResult};
use self::scope::{cf_view, ControlFlow, Scope, ScopeView};
use self::semantics::{
    assign, function_index, lookup, loop_scope, scope_with, set_control_flow, should_break,
    MachineView,
};
use self::value::{opt_view, Value, ValueView};

verus! {

pub open spec fn scopes_view(s: Seq<Scope>) -> Seq<ScopeView> {
    s.map_values(|x: Scope| x@)
}

pub open spec fn output_view(s: Seq<Option<Value>>) -> Seq<Option<ValueView>> {
    s.map_values(|v: Option<Value>| opt_view(v))
}

/// The functions with `f` added, replacing one of the same name.
pub open spec fn put_function(fs: Seq<CheckedFunctionView>, f: CheckedFunctionView) -> Seq<CheckedFunctionView> {
    match function_index(fs, f.name, 0) {
        Some(i) => fs.update(i, f),
        None => fs.push(f),
    }
}

/// The functions with those of `new` from index `i` on added in order, each replacing one of
/// the same name.
pub open spec fn put_functions(fs: Seq<CheckedFunctionView>, new: Seq<CheckedFunctionView>, i: int) -> Seq<
    CheckedFunctionView,
>
    decreases new.len() - i,
{
    if i < 0 || i >= new.len() {
        fs
    } else {
        put_functions(put_function(fs, new[i]), new, i + 1)
    }
}

/// The fuel an interpreter starts with.
pub open spec fn default_fuel() -> nat {
    u64::MAX as nat
}

pub struct Interpreter {
    functions: Vec<CheckedFunctionItem>,
    scope_stack: Vec<Scope>,
    output: Vec<Option<Value>>,
    fuel: u64,
}

impl View for Interpreter {
    type V = MachineView;

    closed spec fn view(&self) -> MachineView {
        MachineView {
            functions: cfunctions_view(self.functions@),
            scopes: scopes_view(self.scope_stack@),
            output: output_view(self.output@),
            fuel: self.fuel as nat,
        }
    }
}

impl Interpreter {
    /// An interpreter with no functions, no scopes, and as much fuel as a `u64` holds.
    pub fn new() -> (i: Self)
        ensures
            i@ == (MachineView {
                functions: Seq::empty(),
                scopes: Seq::empty(),
                output: Seq::empty(),
                fuel: default_fuel(),
            }),
    {
        Self::with_fuel(u64::MAX)
    }

    /// An interpreter with no functions, no scopes, and the given fuel.
    pub fn with_fuel(fuel: u64) -> (i: Self)
        ensures
            i@ == (MachineView {
                functions: Seq::empty(),
                scopes: Seq::empty(),
                output: Seq::empty(),
                fuel: fuel as nat,
            }),
    {
        let i = Interpreter { functions: Vec::new(), scope_stack: Vec::new(), output: Vec::new(), fuel };
        proof {
            assert(cfunctions_view(i.functions@) =~= Seq::<CheckedFunctionView>::empty());
            assert(scopes_view(i.scope_stack@) =~= Seq::<ScopeView>::empty());
            assert(output_view(i.output@) =~= Seq::<Option<ValueView>>::empty());
        }
        i
    }

    /// What `print` was given so far, in order.
    pub fn output(&self) -> (o: &Vec<Option<Value>>)
        ensures
            output_view(o@) == self@.output,
    {
        &self.output
    }

    /// The fuel left.
    pub fn fuel(&self) -> (f: u64)
        ensures
            f as nat == self@.fuel,
    {
        self.fuel
    }

    /// The index of the function with the given name.
    fn function_position(&self, name: &str) -> (r: Option<usize>)
        ensures
            r matches Some(i) ==> i < self.functions@.len() && function_index(self@.functions, name@, 0)
                == Some(i as int),
            r is None ==> function_index(self@.functions, name@, 0) is None,
    {
        let mut i: usize = 0;
        while i < self.functions.len()
            invariant
                i <= self.functions@.len(),
                function_index(self@.functions, name@, 0) == function_index(self@.functions, name@, i as int),
            decreases self.functions@.len() - i,
        {
            assert(self@.functions[i as int] == cfunction_view(self.functions@[i as int]));
            if str_eq(self.functions[i].name(), name) {
                return Some(i);
            }
            i = i + 1;
        }
        None
    }

    /// The function called `main`, if there is one.
    pub fn main_function(&self) -> (f: Option<&CheckedFunctionItem>)
        ensures
            match function_index(self@.functions, "main"@, 0) {
                Some(i) => f matches Some(g) && g@ == self@.functions[i],
                None => f is None,
            },
    {
        match self.function_position("main") {
            Some(i) => {
                assert(self@.functions[i as int] == cfunction_view(self.functions@[i as int]));
                Some(&self.functions[i])
            },
            None => None,
        }
    }

    /// The function with the given name, if there is one.
    pub fn function(&self, name: &str) -> (f: Option<&CheckedFunctionItem>)
        ensures
            match function_index(self@.functions, name@, 0) {
                Some(i) => f matches Some(g) && g@ == self@.functions[i],
                None => f is None,
            },
    {
        match self.function_position(name) {
            Some(i) => {
                assert(self@.functions[i as int] == cfunction_view(self.functions@[i as int]));
                Some(&self.functions[i])
            },
            None => None,
        }
    }

    /// Makes a function callable, replacing one of the same name.
    pub fn register_function(&mut self, function: CheckedFunctionItem)
        ensures
            final(self)@ == (MachineView { functions: put_function(old(self)@.functions, function@), ..old(self)@ }),
    {
        let ghost before = self.functions@;
        match self.function_position(function.name()) {
            Some(i) => {
                self.functions.set(i, function);
                proof {
                    assert(cfunctions_view(self.functions@) =~= cfunctions_view(before).update(i as int, function@));
                }
            },
            None => {
                self.functions.push(function);
                proof {
                    assert(cfunctions_view(self.functions@) =~= cfunctions_view(before).push(function@));
                }
            },
        }
    }

    /// Makes every function the typechecker checked callable.
    pub fn register_functions(&mut self, typechecker: &Typechecker)
        ensures
            final(self)@ == (MachineView {
                functions: put_functions(old(self)@.functions, typechecker@.functions, 0),
                ..old(self)@
            }),
    {
        let functions = typechecker.functions();
        let ghost fs = typechecker@.functions;
        let mut i: usize = 0;
        while i < functions.len()
            invariant
                i <= functions@.len(),
                fs == cfunctions_view(functions@),
                fs == typechecker@.functions,
                put_functions(old(self)@.functions, fs, 0) == put_functions(self@.functions, fs, i as int),
                self@ == (MachineView { functions: self@.functions, ..old(self)@ }),
            decreases functions@.len() - i,
        {
            assert(fs[i as int] == cfunction_view(functions@[i as int]));
            self.register_function(functions[i].duplicate());
            i = i + 1;
        }
    }

    /// The innermost scope.
    pub fn current_scope(&self) -> (s: &Scope)
        requires
            self@.scopes.len() > 0,
        ensures
            s@ == self@.scopes.last(),
    {
        let n = self.scope_stack.len();
        &self.scope_stack[n - 1]
    }

    /// The innermost loop scope, if there is one.
    pub fn current_loop_scope(&self) -> (s: Option<&Scope>)
        ensures
            match loop_scope(self@.scopes, self@.scopes.len() - 1) {
                Some(k) => s matches Some(x) && x@ == self@.scopes[k],
                None => s is None,
            },
    {
        match self.loop_scope_position() {
            Some(k) => Some(&self.scope_stack[k]),
            None => None,
        }
    }

    fn loop_scope_position(&self) -> (r: Option<usize>)
        ensures
            r matches Some(k) ==> k < self.scope_stack@.len() && loop_scope(self@.scopes, self@.scopes.len() - 1)
                == Some(k as int),
            r is None ==> loop_scope(self@.scopes, self@.scopes.len() - 1) is None,
    {
        let mut k = self.scope_stack.len();
        while k > 0
            invariant
                k <= self.scope_stack@.len(),
                loop_scope(self@.scopes, self@.scopes.len() - 1) == loop_scope(self@.scopes, k - 1),
            decreases k,
        {
            assert(self@.scopes[k - 1] == self.scope_stack@[k - 1]@);
            if self.scope_stack[k - 1].block_kind == BlockKind::Loop {
                return Some(k - 1);
            }
            k = k - 1;
        }
        None
    }

    /// Records how control leaves: `break` and `continue` on the innermost loop scope,
    /// `return` on the innermost scope.
    pub fn set_control_flow(&mut self, control_flow: ControlFlow)
        ensures
            final(self)@ == semantics::with_scopes(old(self)@, set_control_flow(old(self)@.scopes, control_flow@)),
    {
        let ghost before = self.scope_stack@;
        match control_flow {
            ControlFlow::Return(_) => {
                let n = self.scope_stack.len();
                if n > 0 {
                    let ghost cf = control_flow@;
                    self.scope_stack[n - 1].control_flow = Some(control_flow);
                    proof {
                        assert(scopes_view(self.scope_stack@) =~= scopes_view(before).update(
                            n - 1,
                            ScopeView { control_flow: Some(cf), ..scopes_view(before)[n - 1] },
                        ));
                    }
                }
            },
            _ => match self.loop_scope_position() {
                Some(k) => {
                    let ghost cf = control_flow@;
                    self.scope_stack[k].control_flow = Some(control_flow);
                    proof {
                        assert(scopes_view(self.scope_stack@) =~= scopes_view(before).update(
                            k as int,
                            ScopeView { control_flow: Some(cf), ..scopes_view(before)[k as int] },
                        ));
                    }
                },
                None => {},
            },
        }
    }

    /// Whether the innermost scope is being left.
    pub fn control_flow_should_break(&mut self) -> (b: bool)
        ensures
            final(self)@ == old(self)@,
            b == should_break(old(self)@.scopes),
    {
        let n = self.scope_stack.len();
        if n == 0 {
            return false;
        }
        assert(self@.scopes.last() == self.scope_stack@[n - 1]@);
        self.scope_stack[n - 1].control_flow.is_some()
    }

    fn scope_position(&self, name: &str) -> (r: Option<usize>)
        ensures
            r matches Some(k) ==> k < self.scope_stack@.len() && scope_with(self@.scopes, name@, self@.scopes.len() - 1)
                == Some(k as int),
            r is None ==> scope_with(self@.scopes, name@, self@.scopes.len() - 1) is None,
    {
        let mut k = self.scope_stack.len();
        while k > 0
            invariant
                k <= self.scope_stack@.len(),
                scope_with(self@.scopes, name@, self@.scopes.len() - 1) == scope_with(self@.scopes, name@, k - 1),
            decreases k,
        {
            assert(self@.scopes[k - 1] == self.scope_stack@[k - 1]@);
            if self.scope_stack[k - 1].variable_exists(name) {
                return Some(k - 1);
            }
            k = k - 1;
        }
        None
    }

    /// The value of a variable, looked up from the innermost scope out.
    pub fn get_variable_value(&self, name: &str) -> (r: ExecutionResult<Value>)
        ensures
            match lookup(self@.scopes, name@) {
                Some(v) => r matches Ok(x) && x@ == v,
                None => r matches Err(e) && e@ == error::ExecutionErrorKindView::UnknownVariable(name@),
            },
    {
        match self.scope_position(name) {
            Some(k) => {
                assert(self@.scopes[k as int] == self.scope_stack@[k as int]@);
                self.scope_stack[k].get_variable_value(name)
            },
            None => Err(ExecutionError::new(ExecutionErrorKind::UnknownVariable(name.to_string()))),
        }
    }

    /// Sets a variable in the innermost scope that has it, or else adds it to the innermost
    /// scope.
    pub fn set_variable_value(&mut self, name: &str, value: Value)
        ensures
            final(self)@ == semantics::with_scopes(old(self)@, assign(old(self)@.scopes, name@, value@)),
    {
        let ghost before = self.scope_stack@;
        let ghost v = value@;
        let target = match self.scope_position(name) {
            Some(k) => Some(k),
            None => if self.scope_stack.len() > 0 {
                Some(self.scope_stack.len() - 1)
            } else {
                None
            },
        };
        match target {
            Some(k) => {
                assert(scopes_view(before)[k as int] == before[k as int]@);
                self.scope_stack[k].set_variable_value(name, value);
                proof {
                    assert(scopes_view(self.scope_stack@) =~= scopes_view(before).update(
                        k as int,
                        ScopeView {
                            variables: scope::put_var(scopes_view(before)[k as int].variables, name@, v),
                            ..scopes_view(before)[k as int]
                        },
                    ));
                }
            },
            None => {},
        }
    }

    /// Opens a scope of the given kind.
    pub fn push_scope(&mut self, block_kind: BlockKind)
        ensures
            final(self)@ == semantics::with_scopes(
                old(self)@,
                old(self)@.scopes.push(ScopeView { control_flow: None, block_kind, variables: Seq::empty() }),
            ),
    {
        let ghost before = self.scope_stack@;
        let s = Scope::new(block_kind);
        self.scope_stack.push(s);
        proof {
            assert(scopes_view(self.scope_stack@) =~= scopes_view(before).push(s@));
        }
    }

    /// Opens the given scope as the innermost one.
    pub fn enter_scope(&mut self, scope: Scope)
        ensures
            final(self)@ == semantics::with_scopes(old(self)@, old(self)@.scopes.push(scope@)),
    {
        let ghost before = self.scope_stack@;
        let ghost v = scope@;
        self.scope_stack.push(scope);
        proof {
            assert(scopes_view(self.scope_stack@) =~= scopes_view(before).push(v));
        }
    }

    /// Closes the innermost scope and gives how control left it.
    pub fn pop_scope(&mut self) -> (cf: Option<ControlFlow>)
        requires
            old(self)@.scopes.len() > 0,
        ensures
            final(self)@ == semantics::with_scopes(old(self)@, old(self)@.scopes.drop_last()),
            cf_view(cf) == old(self)@.scopes.last().control_flow,
    {
        let ghost before = self.scope_stack@;
        let s = self.scope_stack.pop().unwrap();
        proof {
            assert(scopes_view(self.scope_stack@) =~= scopes_view(before).drop_last());
        }
        s.control_flow
    }
}

} // verus!
