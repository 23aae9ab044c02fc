//! Runtime values.
use vstd::prelude::*;

verus! {

/// A value. A float is kept as the text of the literal it came from.
#[derive(Debug, PartialEq)]
pub enum Value {
    Int(i64),
    Float(String),
    String(String),
    Bool(bool),
}

pub enum ValueView {
    Int(i64),
    Float(Seq<char>),
    String(Seq<char>),
    Bool(bool),
}

impl View for Value {
    type V = ValueView;

    open spec fn view(&self) -> ValueView {
        match self {
            Value::Int(v) => ValueView::Int(*v),
            Value::Float(t) => ValueView::Float(t@),
            Value::String(s) => ValueView::String(s@),
            Value::Bool(b) => ValueView::Bool(*b),
        }
    }
}

/// An optional value, by its view.
pub open spec fn opt_view(v: Option<Value>) -> Option<ValueView> {
    match v {
        Some(x) => Some(x@),
        None => None,
    }
}

/// A list of values, by their views.
pub open spec fn values_view(s: Seq<Value>) -> Seq<ValueView> {
    s.map_values(|v: Value| v@)
}

impl Value {
    /// A copy of the value.
    pub fn duplicate(&self) -> (v: Value)
        ensures
            v@ == self@,
    {
        match self {
            Value::Int(v) => Value::Int(*v),
            Value::Float(t) => Value::Float(t.clone()),
            Value::String(s) => Value::String(s.clone()),
            Value::Bool(b) => Value::Bool(*b),
        }
    }
}

/// A copy of an optional value.
pub fn duplicate_opt(v: &Option<Value>) -> (r: Option<Value>)
    ensures
        opt_view(r) == opt_view(*v),
{
    match v {
        Some(x) => Some(x.duplicate()),
        None => None,
    }
}

} // verus!
