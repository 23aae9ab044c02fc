//! Scopes: the variables of a block and how control leaves it.
use vstd::prelude::*;

use crate::interpreter::error::{ExecutionError, ExecutionErrorKind, ExecutionResult};
use crate::interpreter::value::{opt_view, Value, ValueView};
use crate::parser::ast::BlockKind;
use crate::text::str_eq;

verus! {

/// How control leaves a block early.
#[derive(Debug, PartialEq)]
pub enum ControlFlow {
    Continue,
    Break,
    Return(Option<Value>),
}

pub enum ControlFlowView {
    Continue,
    Break,
    Return(Option<ValueView>),
}

impl View for ControlFlow {
    type V = ControlFlowView;

    open spec fn view(&self) -> ControlFlowView {
        match self {
            ControlFlow::Continue => ControlFlowView::Continue,
            ControlFlow::Break => ControlFlowView::Break,
            ControlFlow::Return(v) => ControlFlowView::Return(opt_view(*v)),
        }
    }
}

pub open spec fn cf_view(c: Option<ControlFlow>) -> Option<ControlFlowView> {
    match c {
        Some(x) => Some(x@),
        None => None,
    }
}

/// A block being run: how control leaves it, if it does, what kind of block it is, and its
/// variables (one entry per name).
#[derive(Debug)]
pub struct Scope {
    pub control_flow: Option<ControlFlow>,
    pub block_kind: BlockKind,
    pub variables: Vec<(String, Value)>,
}

pub struct ScopeView {
    pub control_flow: Option<ControlFlowView>,
    pub block_kind: BlockKind,
    pub variables: Seq<(Seq<char>, ValueView)>,
}

pub open spec fn vars_view(v: Seq<(String, Value)>) -> Seq<(Seq<char>, ValueView)> {
    v.map_values(|p: (String, Value)| (p.0@, p.1@))
}

impl View for Scope {
    type V = ScopeView;

    open spec fn view(&self) -> ScopeView {
        ScopeView {
            control_flow: cf_view(self.control_flow),
            block_kind: self.block_kind,
            variables: vars_view(self.variables@),
        }
    }
}

/// The index of the first variable at or after `i` with the given name.
pub open spec fn find_var(vars: Seq<(Seq<char>, ValueView)>, name: Seq<char>, i: int) -> Option<int>
    decreases vars.len() - i,
{
    if i < 0 || i >= vars.len() {
        None
    } else if vars[i].0 == name {
        Some(i)
    } else {
        find_var(vars, name, i + 1)
    }
}

/// The variables with `name` set to `v`: replaced where it is, added where it is not.
pub open spec fn put_var(vars: Seq<(Seq<char>, ValueView)>, name: Seq<char>, v: ValueView) -> Seq<
    (Seq<char>, ValueView),
> {
    match find_var(vars, name, 0) {
        Some(i) => vars.update(i, (name, v)),
        None => vars.push((name, v)),
    }
}

impl Scope {
    /// An empty scope of the given kind.
    pub fn new(block_kind: BlockKind) -> (s: Self)
        ensures
            s@ == (ScopeView { control_flow: None, block_kind, variables: Seq::empty() }),
    {
        let s = Scope { control_flow: None, block_kind, variables: Vec::new() };
        assert(vars_view(s.variables@) =~= Seq::<(Seq<char>, ValueView)>::empty());
        s
    }

    /// The index of the variable with the given name.
    pub fn find_variable(&self, name: &str) -> (r: Option<usize>)
        ensures
            r matches Some(i) ==> i < self.variables@.len() && find_var(self@.variables, name@, 0)
                == Some(i as int),
            r is None ==> find_var(self@.variables, name@, 0) is None,
    {
        let mut i: usize = 0;
        while i < self.variables.len()
            invariant
                i <= self.variables@.len(),
                find_var(self@.variables, name@, 0) == find_var(self@.variables, name@, i as int),
            decreases self.variables@.len() - i,
        {
            assert(self@.variables[i as int] == (self.variables@[i as int].0@, self.variables@[i as int].1@));
            if str_eq(self.variables[i].0.as_str(), name) {
                return Some(i);
            }
            i = i + 1;
        }
        None
    }

    pub fn variable_exists(&self, name: &str) -> (b: bool)
        ensures
            b == find_var(self@.variables, name@, 0) is Some,
    {
        self.find_variable(name).is_some()
    }

    /// The value of the variable with the given name.
    pub fn get_variable_value(&self, name: &str) -> (r: ExecutionResult<Value>)
        ensures
            match find_var(self@.variables, name@, 0) {
                Some(i) => r matches Ok(v) && v@ == self@.variables[i].1,
                None => r matches Err(e) && e@ == crate::interpreter::error::ExecutionErrorKindView::UnknownVariable(name@),
            },
    {
        match self.find_variable(name) {
            Some(i) => {
                assert(self@.variables[i as int] == (self.variables@[i as int].0@, self.variables@[i as int].1@));
                Ok(self.variables[i].1.duplicate())
            },
            None => Err(ExecutionError::new(ExecutionErrorKind::UnknownVariable(name.to_string()))),
        }
    }

    /// Sets the variable with the given name, adding it if the scope does not have it.
    pub fn set_variable_value(&mut self, name: &str, value: Value)
        ensures
            final(self)@ == (ScopeView { variables: put_var(old(self)@.variables, name@, value@), ..old(self)@ }),
    {
        let ghost before = self.variables@;
        match self.find_variable(name) {
            Some(i) => {
                self.variables.set(i, (name.to_string(), value));
                proof {
                    assert(vars_view(self.variables@) =~= vars_view(before).update(i as int, (name@, value@)));
                }
            },
            None => {
                self.variables.push((name.to_string(), value));
                proof {
                    assert(vars_view(self.variables@) =~= vars_view(before).push((name@, value@)));
                }
            },
        }
    }
}

} // verus!
