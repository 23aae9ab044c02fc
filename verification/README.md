# bau

A small statically typed language — functions with typed parameters, `extend` blocks that add
methods to types, `let`, assignment and compound assignment (`+=`, `-=`, `*=`, `%=`), `if`,
`loop`, `while`, `break`, `continue`, `return`, the builtin `print` and the builtin methods
`append` and `to_string`, over `int`, `float`, `string` and `bool` — with a tokenizer, a parser,
a typechecker and an interpreter, verified with Verus.

Each stage is stated as spec functions over views and the executable code is proved to compute
exactly them:

- `src/tokenizer`: `fresh`/`step`/`remaining_tokens`; the rules, and the regular expressions they
  use through the `regex` crate.
- `src/parser`: `grammar` (recursive descent with a Pratt parser for infix operators), with the
  parsing functions in `expr`, `stmt` and `item`.
- `src/typechecker`: `rules`; `src/types.rs` holds types and their methods.
- `src/interpreter`: `semantics`, a big-step semantics with fuel; every call and every turn of a
  loop takes one unit.
- `src/lib.rs`: `run_program`, the whole pipeline.
- `src/messages.rs`, `src/report.rs`: error messages and what an error report shows;
  `src/semantic_tokens.rs`: semantic tokens for an editor.

The laws (the public proof functions named `law_*`, and the tiling lemmas of the tokenizer) state
what holds of every input: tokens tile the text, a parse that succeeds reads to the end of the
file, a variable reads back what was written to it, no type gets two methods of one name, and so
on.

`app/` is the command line (`bau <file>`), which prints what a program prints or its error
report in color, and the semantic-token handlers of the language server.

Floating-point values are kept as the text of their literals; arithmetic and comparisons on them
end a run with an error, and the command line prints them as `f64` does.
