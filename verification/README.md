# C code generation, verified

A small library for building C source text from Rust: types, statement
blocks with nested control statements, functions, and whole compilation
units (includes, macros, enums, structs, functions), serialized to C.

Every builder operation and every serializer states in its contract the
exact text it produces, as a function over `Seq<char>`; Verus proves the
code against those statements.

- `src/text.rs` — concatenation, joining, decimal notation, prefix tests
- `src/ctype.rs` — `CType` and how a type or declarator is written
- `src/block.rs` — `Block`, the lines of a function body
- `src/unit.rs` — `CMacro`, `CStruct`, `CEnum`, `CFunction`, `CModule` and `generate`
- `src/basic.rs` — the compact builder with flat function bodies and raw definitions
- `src/laws.rs` — properties of the generated text across operations
- `app/main.rs` — compilation of generated units by piping them to `tcc`
