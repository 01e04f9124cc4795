//! A disassembler for the x86 instructions that shapes use, and a machine
//! that runs them.

pub mod bytecode;
pub mod driver;
pub mod error;
pub mod instr;
pub mod interp;
pub mod laws;
pub mod machine;
pub mod memory;
pub mod operand;
pub mod symbols;
pub mod table;
