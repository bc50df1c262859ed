//! An in-memory assembler for a chunk-based virtual-machine module format:
//! atom, import and export tables, a compact tagged operand encoding, a
//! per-function instruction builder, and the nested chunk container layout.

pub mod atom;
pub mod bytes;
pub mod chunk;
pub mod code;
pub mod context;
pub mod export;
pub mod import;
pub mod opcode;
pub mod search;
pub mod string_table;
pub mod tag;
