//! A small statically typed language: a tokenizer, a parser, a typechecker and an interpreter,
//! each stated as spec functions over views and proved to compute them.
use vstd::prelude::*;

pub mod builtins;
pub mod error;
pub mod interpreter;
pub mod messages;
pub mod parser;
pub mod report;
pub mod semantic_tokens;
pub mod source;
pub mod text;
pub mod tokenizer;
pub mod typechecker;
pub mod types;

use crate::error::{BauError, BauErrorView, BauResult};

use crate::interpreter::semantics::{run_main, MachineView};
use crate::interpreter::value::{opt_view, Value, ValueView};
use crate::interpreter::{default_fuel, output_view, put_functions, Interpreter};
use crate::parser::grammar::parse_program;

use crate::parser::{parse_input_of, Parser};
use crate::source::Source;
use crate::typechecker::rules::{builtin_types, check_program, TypecheckerView};
use crate::typechecker::Typechecker;

verus! {

/// What running a program gives: its result or the first error, and what it printed.
pub open spec fn run_program(text: Seq<char>) -> (Result<Option<ValueView>, BauErrorView>, Seq<Option<ValueView>>) {
    match parse_program(parse_input_of(text)) {
        Err(e) => (Err(BauErrorView::ParserError(e)), Seq::empty()),
        Ok(items) => {
            let tc0 = TypecheckerView { variables: Seq::empty(), functions: Seq::empty(), types: builtin_types() };
            let (tc, r) = check_program(tc0, items);
            match r {
                Err(e) => (Err(BauErrorView::TypecheckerError(e)), Seq::empty()),
                Ok(_) => {
                    let m0 = MachineView {
                        functions: put_functions(Seq::empty(), tc.functions, 0),
                        scopes: Seq::empty(),
                        output: Seq::empty(),
                        fuel: default_fuel(),
                    };
                    let (m, r2) = run_main(m0);
                    match r2 {
                        Err(e) => (Err(BauErrorView::ExecutionError(e)), m.output),
                        Ok(v) => (Ok(v), m.output),
                    }
                },
            }
        },
    }
}

/// A result of a run, by its view.
pub open spec fn run_result_view(r: BauResult<Option<Value>>) -> Result<Option<ValueView>, BauErrorView> {
    match r {
        Ok(v) => Ok(opt_view(v)),
        Err(e) => Err(e@),
    }
}

/// Parses, checks and runs programs.
pub struct Bau {}

impl Bau {
    pub fn new() -> (b: Self) {
        Bau {}
    }

    /// Runs the program in `source` and gives what its `main` returned, or the first error.
    pub fn run(&self, source: &Source) -> (r: BauResult<Option<Value>>)
        requires
            2 * source@.text.len() + 4 <= usize::MAX,
        ensures
            run_result_view(r) == run_program(source@.text).0,
    {
        self.run_with_output(source).0
    }

    /// Runs the program in `source`; gives what its `main` returned, or the first error, and
    /// the values it printed, in order (`None` for `void`).
    pub fn run_with_output(&self, source: &Source) -> (r: (BauResult<Option<Value>>, Vec<Option<Value>>))
        requires
            2 * source@.text.len() + 4 <= usize::MAX,
        ensures
            (run_result_view(r.0), output_view(r.1@)) == run_program(source@.text),
    {
        let mut parser = Parser::new(source);
        let top_level = match parser.parse_top_level() {
            Ok(items) => items,
            Err(e) => {
                let out: Vec<Option<Value>> = Vec::new();
                assert(output_view(out@) =~= Seq::<Option<ValueView>>::empty());
                return (Err(BauError::ParserError(e)), out);
            },
        };
        let mut typechecker = Typechecker::new();
        match typechecker.check_top_level(&top_level) {
            Ok(()) => {},
            Err(e) => {
                let out: Vec<Option<Value>> = Vec::new();
                assert(output_view(out@) =~= Seq::<Option<ValueView>>::empty());
                return (Err(BauError::TypecheckerError(e)), out);
            },
        }
        let mut interpreter = Interpreter::new();
        interpreter.register_functions(&typechecker);
        let result = interpreter.execute_main();
        let mut output: Vec<Option<Value>> = Vec::new();
        let printed = interpreter.output();
        let mut i: usize = 0;
        while i < printed.len()
            invariant
                i <= printed@.len(),
                output_view(output@) =~= output_view(printed@.take(i as int)),
            decreases printed@.len() - i,
        {
            let v = crate::interpreter::value::duplicate_opt(&printed[i]);
            let ghost before = output@;
            output.push(v);
            proof {
                assert(printed@.take(i + 1) =~= printed@.take(i as int).push(printed@[i as int]));
                assert(output_view(output@) =~= output_view(before).push(opt_view(v)));
                assert(output_view(printed@.take(i + 1)) =~= output_view(printed@.take(i as int)).push(opt_view(printed@[i as int])));
            }
            i = i + 1;
        }
        proof {
            assert(printed@.take(printed@.len() as int) =~= printed@);
        }
        match result {
            Ok(v) => (Ok(v), output),
            Err(e) => (Err(BauError::ExecutionError(e)), output),
        }
    }
}

} // verus!
