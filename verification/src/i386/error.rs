//! Errors of the disassembler.

use vstd::prelude::*;

verus! {

/// The read at which the code ran out.
#[derive(Clone, Copy, Debug, PartialEq, Eq, Structural)]
pub enum DecodePhase {
    /// The opcode byte.
    ReadOp,
    /// The ModR/M byte that selects among the opcodes that share a byte.
    DecodeOpExt,
    /// The ModR/M byte of an operand.
    ReadModrm,
    /// One byte of an operand.
    Read1,
    /// Two bytes of an operand.
    Read2,
    /// Four bytes of an operand.
    Read4,
}

/// Why the bytes at some place are not an instruction that the
/// disassembler knows.
#[derive(Clone, Copy, Debug, PartialEq, Eq, Structural)]
pub enum DisassemblyError {
    /// No entry of the opcode table fits the opcode byte at `offset` and
    /// its extension.
    UnknownOpcode { offset: usize, opcode: u8, extension: u8 },
    /// The code ended in the middle of an instruction.
    TruncatedInstruction { phase: DecodePhase },
    /// The opcode is known, but not this way of addressing its operand.
    UnsupportedAddressingForm,
}

} // verus!
