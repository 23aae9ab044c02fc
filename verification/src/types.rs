//! Types and the methods that extensions give them.
use vstd::prelude::*;

use crate::source::Span;
use crate::typechecker::checked::{cfunction_view, CheckedFunctionItem, CheckedFunctionView};
use crate::typechecker::error::{
    TypecheckerError, TypecheckerErrorKind, TypecheckerErrorKindView, TypecheckerErrorView,
};

verus! {

/// A type: its name and its methods.
#[derive(Debug)]
pub struct Type {
    name: String,
    methods: Vec<CheckedFunctionItem>,
}

pub struct TypeView {
    pub name: Seq<char>,
    pub methods: Seq<CheckedFunctionView>,
}

impl View for Type {
    type V = TypeView;

    closed spec fn view(&self) -> TypeView {
        TypeView {
            name: self.name@,
            methods: self.methods@.map_values(|m: CheckedFunctionItem| cfunction_view(m)),
        }
    }
}

/// The index of the first method at or after `i` with the given name.
pub open spec fn find_method(methods: Seq<CheckedFunctionView>, name: Seq<char>, i: int) -> Option<int>
    decreases methods.len() - i,
{
    if i < 0 || i >= methods.len() {
        None
    } else if methods[i].name == name {
        Some(i)
    } else {
        find_method(methods, name, i + 1)
    }
}

impl Type {
    pub fn new(name: &str, methods: Vec<CheckedFunctionItem>) -> (t: Self)
        ensures
            t@.name == name@,
            t@.methods == methods@.map_values(|m: CheckedFunctionItem| cfunction_view(m)),
    {
        Type { name: name.to_string(), methods }
    }

    pub fn name(&self) -> (n: &str)
        ensures
            n@ == self@.name,
    {
        self.name.as_str()
    }

    pub fn methods(&self) -> (m: &Vec<CheckedFunctionItem>)
        ensures
            m@.map_values(|f: CheckedFunctionItem| cfunction_view(f)) == self@.methods,
    {
        &self.methods
    }

    /// Adds a method; a type cannot have two methods of the same name.
    pub fn add_method(&mut self, method: CheckedFunctionItem) -> (r: Result<(), TypecheckerError>)
        ensures
            find_method(old(self)@.methods, method@.name, 0) is None ==> r is Ok && final(self)@
                == (TypeView { name: old(self)@.name, methods: old(self)@.methods.push(method@) }),
            find_method(old(self)@.methods, method@.name, 0) is Some ==> (final(self)@ == old(self)@
                && (r matches Err(e) && e@ == (TypecheckerErrorView {
                kind: TypecheckerErrorKindView::DuplicateMethod {
                    name: method@.name,
                    on_type: old(self)@.name,
                },
                span: Span { start: 0, end: 0 },
            }))),
    {
        let ghost methods = self@.methods;
        let mut i: usize = 0;
        while i < self.methods.len()
            invariant
                i <= self.methods@.len(),
                methods == self@.methods,
                find_method(methods, method@.name, 0) == find_method(methods, method@.name, i as int),
            decreases self.methods@.len() - i,
        {
            if crate::text::same_chars(
                &crate::text::chars_of(self.methods[i].name.as_str()),
                &crate::text::chars_of(method.name.as_str()),
            ) {
                return Err(
                    TypecheckerError::new(
                        TypecheckerErrorKind::DuplicateMethod {
                            name: method.name.clone(),
                            on_type: self.name.clone(),
                        },
                        Span::new(0, 0),
                    ),
                );
            }
            i = i + 1;
        }
        let ghost before = self.methods@;
        self.methods.push(method);
        proof {
            assert(self.methods@.map_values(|m: CheckedFunctionItem| cfunction_view(m)) =~= before.map_values(
                |m: CheckedFunctionItem| cfunction_view(m),
            ).push(cfunction_view(method)));
        }
        Ok(())
    }
}

} // verus!
