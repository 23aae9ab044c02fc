//! Functions that every program can call without defining them.
use vstd::prelude::*;

use crate::text::{chars_of, same_chars};

verus! {

#[derive(Debug, Clone, Copy, PartialEq, Eq, Hash, Structural)]
pub enum BuiltinFunction {
    /// Writes its argument's value, or `void`, on a line of its own.
    Print,
}

/// The name a builtin is called by.
pub open spec fn builtin_name(f: BuiltinFunction) -> Seq<char> {
    match f {
        BuiltinFunction::Print => "print"@,
    }
}

/// The builtin with the given name, if there is one.
pub open spec fn builtin_named(name: Seq<char>) -> Option<BuiltinFunction> {
    if name == builtin_name(BuiltinFunction::Print) {
        Some(BuiltinFunction::Print)
    } else {
        None
    }
}

impl BuiltinFunction {
    pub fn name(&self) -> (s: &'static str)
        ensures
            s@ == builtin_name(*self),
    {
        match self {
            BuiltinFunction::Print => "print",
        }
    }
}

/// The builtin with the given name, if there is one.
pub fn from_name(name: &str) -> (f: Option<BuiltinFunction>)
    ensures
        f == builtin_named(name@),
{
    let print = BuiltinFunction::Print;
    if same_chars(&chars_of(name), &chars_of(print.name())) {
        Some(print)
    } else {
        None
    }
}

/// Methods that values have without an extension.
#[derive(Debug, Clone, Copy, PartialEq, Eq, Hash, Structural)]
pub enum BuiltinMethod {
    /// `s.append(t)`: the string variable `s` becomes `s` followed by `t`.
    Append,
    /// `v.to_string()`: the value as text.
    ToString,
}

/// The name a builtin method is called by.
pub open spec fn builtin_method_name(m: BuiltinMethod) -> Seq<char> {
    match m {
        BuiltinMethod::Append => "append"@,
        BuiltinMethod::ToString => "to_string"@,
    }
}

/// The builtin method with the given name, if there is one.
pub open spec fn builtin_method_named(name: Seq<char>) -> Option<BuiltinMethod> {
    if name == builtin_method_name(BuiltinMethod::Append) {
        Some(BuiltinMethod::Append)
    } else if name == builtin_method_name(BuiltinMethod::ToString) {
        Some(BuiltinMethod::ToString)
    } else {
        None
    }
}

impl BuiltinMethod {
    pub fn name(&self) -> (s: &'static str)
        ensures
            s@ == builtin_method_name(*self),
    {
        match self {
            BuiltinMethod::Append => "append",
            BuiltinMethod::ToString => "to_string",
        }
    }
}

/// The builtin method with the given name, if there is one.
pub fn method_from_name(name: &str) -> (m: Option<BuiltinMethod>)
    ensures
        m == builtin_method_named(name@),
{
    let chars = chars_of(name);
    let append = BuiltinMethod::Append;
    if same_chars(&chars, &chars_of(append.name())) {
        return Some(append);
    }
    let to_string = BuiltinMethod::ToString;
    if same_chars(&chars, &chars_of(to_string.name())) {
        return Some(to_string);
    }
    None
}

} // verus!
