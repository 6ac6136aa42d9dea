# rusty

The front end of a structured-text (IEC 61131-3) compiler, verified with Verus.

- `src/ast.rs` — the syntax tree: source ranges, POUs, variables, declared
  types, statements, ids, and the evaluation of constant integer expressions.
- `src/ast/pre_processor.rs` — gives every type defined in place a name and a
  declaration of its own, resolves generic parameters and assigns values to
  enumeration elements; its laws say what every variable refers to afterwards.
- `src/ast/literals.rs` — literal kinds, their types and their text.
- `src/ast/debug_text.rs`, `src/ast/declaration_text.rs` — the text that
  `{:?}` shows for statements and declarations.
- `src/builtins.rs` — the statements that the built-in arithmetic and
  comparison functions stand for.
- `src/cli.rs` — compile options, output format and output file name.
- `src/codegen/` — the parts of code generation that compute on plain values:
  array dimensions, date and time constants (through chrono), instance names,
  and the layout of the global offset table for online change.
- `src/text.rs` — decimal text of integers.
- `app/main.rs` — the command line (structopt, encoding_rs) and the
  floating-point duration helpers.
