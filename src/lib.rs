//! A two-pass assembler for the CHIP-8 virtual machine: source text in,
//! big-endian two-byte instruction words out.
pub mod isa;
pub mod text;
pub mod classify;
pub mod symbols;
pub mod parse;
pub mod assembler;

pub use assembler::{assemble, AssembleError};
pub use classify::{classify_line, LineKind};
pub use isa::{assemble_instruction, construct_byte, Addr, AssembledInstruction, Instruction, Vx};
pub use parse::{parse_instruction, ParseErr};
pub use symbols::{build_symbol_table, SymbolTable};
