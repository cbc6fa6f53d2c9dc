//! Emission of textual CIL (the input language of the `ilasm` assembler) and the
//! lowering of Rust's primitive operators to a small stack-machine IR.
//!
//! Every emitting function appends exactly the bytes that its contract names; the
//! contracts are stated over byte-sequence spec functions (`text`, `decimal`,
//! `type_cil`, `op_cli`, ...), so that a reader can see the exact shape of the output.

pub mod text;
pub mod types;
pub mod ilasm_op;
pub mod ilasm_exporter;
pub mod arithmetics;
pub mod layout;
pub mod cil;
pub mod rvalue;
