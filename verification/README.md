# snekplusplus

A compiler for Snek++, a small typed language, to C++: lexer, parser, semantic checker and
C++ generator, each verified with Verus against a mathematical model of what it computes.

- `src/` is the verified library.
  - `lexer.rs`: source text to tokens, with line and column.
  - `cursor.rs`, `grammar.rs`: the model of the parser over token sequences.
  - `parser.rs`: tokens to a program, proved to follow `grammar.rs`.
  - `typing.rs`: the model of the semantic check; `checker.rs` implements it.
  - `emit.rs`: the model of the generated C++; `codegen.rs` implements it (functions are
    generated in parallel with rayon).
  - `error.rs`, `color.rs`, `report.rs`: error codes, colour placeholders, and the text of
    error reports and explanations.
  - `import.rs`: recognising `import "file"` lines.
  - `ast.rs`, `text.rs`: the syntax tree with its models, and text helpers.
- `app/` is the command-line program: arguments, reading files and their imports, printing,
  and invoking `clang++`.
- `tests/` runs the library on concrete programs.
