# codegen_clr

Verified pieces of a Rust-to-.NET code generator.

- `src/text.rs` — appending UTF-8 text and decimal numerals to a byte buffer; laws on
  decimal numerals (they read back, they are injective).
- `src/types.rs` — the data the emitters read: types, type definitions, methods, and the
  stack-machine IR.
- `src/ilasm_op.rs` — how types and instructions are spelled in ILASM text.
- `src/ilasm_exporter.rs` — `ILASMExporter`, `type_def_cli`, `method_cil`, and what goes
  into and comes out of the `ilasm` assembler; every emitter's contract names the exact
  bytes it appends.
- `src/arithmetics.rs` — lowering of binary and unary operators to the IR, with laws on
  operand order, unchecked forms and negated comparisons.
- `src/layout.rs` — an alignment from its power-of-two exponent.
- `src/cil.rs` — the CIL instructions of the rvalue lowering, and their view.
- `src/rvalue.rs` — `lower_rvalue`: the instruction sequence of each MIR rvalue kind, from
  the values the compiler's queries produced; a law that every temporary it opens is
  freed.
- `app/` — the `io::Write` and exporter-trait plumbing, the file and process handling of
  `finalize`, and the compiler queries of the rvalue lowering, which need the compiler's
  own crates.
