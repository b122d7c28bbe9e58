//! Bytecode: the instruction set and the disassembler.

pub mod disassembler;
pub mod encoding;
pub mod instruction;
