//! The opcode table: which instruction an opcode byte stands for, and what
//! operands it takes.

use super::operand::{AddressingMethod, OperandDef, OperandType};
use vstd::prelude::*;

verus! {

/// A flag of the processor.
#[derive(Clone, Copy, Debug, PartialEq, Eq, Structural)]
pub enum FlagKind {
    /// The zero flag.
    ZF,
}

/// The condition of a conditional jump.
#[derive(Clone, Copy, Debug, PartialEq, Eq, Structural)]
pub enum ConditionCode {
    /// The flag has the given value.
    Check(FlagKind, bool),
}

/// What an instruction does.
#[derive(Clone, Copy, Debug, PartialEq, Eq, Structural)]
pub enum Mnemonic {
    Add,
    Call,
    Compare,
    Jcc(ConditionCode),
    Move,
    Pop,
    Push,
    Return,
    Sar,
}

/// An entry of the opcode table.
pub struct OpCodeDef {
    pub mnemonic: Mnemonic,
    pub operands: Vec<OperandDef>,
}

/// An entry of the opcode table, as a value of specifications.
pub struct OpCodeDefView {
    pub mnemonic: Mnemonic,
    pub operands: Seq<OperandDef>,
}

impl View for OpCodeDef {
    type V = OpCodeDefView;

    open spec fn view(&self) -> OpCodeDefView {
        OpCodeDefView { mnemonic: self.mnemonic, operands: self.operands@ }
    }
}

/// An operand description.
pub open spec fn spec_operand_def(method: AddressingMethod, ty: OperandType) -> OperandDef {
    OperandDef { method, ty }
}

/// The opcodes that share their byte with others: the reg field of the
/// ModR/M byte that follows says which of them is meant.
pub open spec fn spec_uses_extension(op: u8) -> bool {
    ||| 0x80 <= op <= 0x83
    ||| op == 0x8F
    ||| op == 0xC0
    ||| op == 0xC1
    ||| op == 0xC6
    ||| op == 0xC7
    ||| 0xD0 <= op <= 0xD3
    ||| 0xD8 <= op <= 0xDF
    ||| op == 0xF6
    ||| op == 0xF7
    ||| op == 0xFE
    ||| op == 0xFF
}

/// The entry of the opcode table for the opcode byte `op` with the
/// extension `ext`, if there is one.
pub open spec fn spec_opcode_table(op: u8, ext: u8) -> Option<OpCodeDefView> {
    if op == 0x58 && ext == 0 {
        Some(
            OpCodeDefView {
                mnemonic: Mnemonic::Pop,
                operands: seq![spec_operand_def(AddressingMethod::Z, OperandType::v)],
            },
        )
    } else if op == 0x68 && ext == 0 {
        Some(
            OpCodeDefView {
                mnemonic: Mnemonic::Push,
                operands: seq![spec_operand_def(AddressingMethod::I, OperandType::vs)],
            },
        )
    } else if op == 0x75 && ext == 0 {
        Some(
            OpCodeDefView {
                mnemonic: Mnemonic::Jcc(ConditionCode::Check(FlagKind::ZF, false)),
                operands: seq![spec_operand_def(AddressingMethod::J, OperandType::bs)],
            },
        )
    } else if op == 0x81 && ext == 0 {
        Some(
            OpCodeDefView {
                mnemonic: Mnemonic::Add,
                operands: seq![
                    spec_operand_def(AddressingMethod::E, OperandType::v),
                    spec_operand_def(AddressingMethod::I, OperandType::v),
                ],
            },
        )
    } else if op == 0x83 && ext == 7 {
        Some(
            OpCodeDefView {
                mnemonic: Mnemonic::Compare,
                operands: seq![
                    spec_operand_def(AddressingMethod::E, OperandType::v),
                    spec_operand_def(AddressingMethod::I, OperandType::bs),
                ],
            },
        )
    } else if op == 0x89 && ext == 0 {
        Some(
            OpCodeDefView {
                mnemonic: Mnemonic::Move,
                operands: seq![
                    spec_operand_def(AddressingMethod::E, OperandType::v),
                    spec_operand_def(AddressingMethod::G, OperandType::v),
                ],
            },
        )
    } else if op == 0xA1 && ext == 0 {
        Some(
            OpCodeDefView {
                mnemonic: Mnemonic::Move,
                operands: seq![
                    spec_operand_def(AddressingMethod::Imp, OperandType::eAX),
                    spec_operand_def(AddressingMethod::O, OperandType::v),
                ],
            },
        )
    } else if op == 0xC3 && ext == 0 {
        Some(OpCodeDefView { mnemonic: Mnemonic::Return, operands: seq![] })
    } else if op == 0xD1 && ext == 7 {
        Some(
            OpCodeDefView {
                mnemonic: Mnemonic::Sar,
                operands: seq![
                    spec_operand_def(AddressingMethod::E, OperandType::v),
                    spec_operand_def(AddressingMethod::Imp, OperandType::const1),
                ],
            },
        )
    } else if op == 0xE8 && ext == 0 {
        Some(
            OpCodeDefView {
                mnemonic: Mnemonic::Call,
                operands: seq![spec_operand_def(AddressingMethod::J, OperandType::v)],
            },
        )
    } else {
        None
    }
}

/// The opcode byte `op` with its low three bits cleared. Where an
/// instruction names a register in the low three bits of its opcode, this
/// is the byte that the table lists it under.
pub open spec fn spec_base_opcode(op: u8) -> u8 {
    (op - op % 8) as u8
}

/// The description of the opcode `op` with the extension `ext`: the entry
/// of the table for the pair or, where the table has none, the entry for
/// the base opcode with the extension 0.
pub open spec fn spec_lookup_op(op: u8, ext: u8) -> Option<OpCodeDefView> {
    if spec_opcode_table(op, ext) is Some {
        spec_opcode_table(op, ext)
    } else {
        spec_opcode_table(spec_base_opcode(op), 0)
    }
}

/// Whether the opcode byte `op` shares its byte with other opcodes.
pub fn uses_extension(op: u8) -> (r: bool)
    ensures
        r == spec_uses_extension(op),
{
    (0x80 <= op && op <= 0x83) || op == 0x8F || op == 0xC0 || op == 0xC1 || op == 0xC6 || op
        == 0xC7 || (0xD0 <= op && op <= 0xD3) || (0xD8 <= op && op <= 0xDF) || op == 0xF6 || op
        == 0xF7 || op == 0xFE || op == 0xFF
}

fn operand_def(method: AddressingMethod, ty: OperandType) -> (r: OperandDef)
    ensures
        r == spec_operand_def(method, ty),
{
    OperandDef { method, ty }
}

fn entry0(mnemonic: Mnemonic) -> (r: OpCodeDef)
    ensures
        r@ == (OpCodeDefView { mnemonic, operands: seq![] }),
{
    let r = OpCodeDef { mnemonic, operands: Vec::new() };
    assert(r.operands@ =~= seq![]);
    r
}

fn entry1(mnemonic: Mnemonic, first: OperandDef) -> (r: OpCodeDef)
    ensures
        r@ == (OpCodeDefView { mnemonic, operands: seq![first] }),
{
    let mut operands: Vec<OperandDef> = Vec::new();
    operands.push(first);
    assert(operands@ =~= seq![first]);
    OpCodeDef { mnemonic, operands }
}

fn entry2(mnemonic: Mnemonic, first: OperandDef, second: OperandDef) -> (r: OpCodeDef)
    ensures
        r@ == (OpCodeDefView { mnemonic, operands: seq![first, second] }),
{
    let mut operands: Vec<OperandDef> = Vec::new();
    operands.push(first);
    operands.push(second);
    assert(operands@ =~= seq![first, second]);
    OpCodeDef { mnemonic, operands }
}

/// The entry of the opcode table for the opcode byte `op` with the
/// extension `ext`, if there is one.
pub fn opcode_table(op: u8, ext: u8) -> (r: Option<OpCodeDef>)
    ensures
        r is Some <==> spec_opcode_table(op, ext) is Some,
        r matches Some(def) ==> spec_opcode_table(op, ext) == Some(def@),
{
    if op == 0x58 && ext == 0 {
        Some(entry1(Mnemonic::Pop, operand_def(AddressingMethod::Z, OperandType::v)))
    } else if op == 0x68 && ext == 0 {
        Some(entry1(Mnemonic::Push, operand_def(AddressingMethod::I, OperandType::vs)))
    } else if op == 0x75 && ext == 0 {
        Some(
            entry1(
                Mnemonic::Jcc(ConditionCode::Check(FlagKind::ZF, false)),
                operand_def(AddressingMethod::J, OperandType::bs),
            ),
        )
    } else if op == 0x81 && ext == 0 {
        Some(
            entry2(
                Mnemonic::Add,
                operand_def(AddressingMethod::E, OperandType::v),
                operand_def(AddressingMethod::I, OperandType::v),
            ),
        )
    } else if op == 0x83 && ext == 7 {
        Some(
            entry2(
                Mnemonic::Compare,
                operand_def(AddressingMethod::E, OperandType::v),
                operand_def(AddressingMethod::I, OperandType::bs),
            ),
        )
    } else if op == 0x89 && ext == 0 {
        Some(
            entry2(
                Mnemonic::Move,
                operand_def(AddressingMethod::E, OperandType::v),
                operand_def(AddressingMethod::G, OperandType::v),
            ),
        )
    } else if op == 0xA1 && ext == 0 {
        Some(
            entry2(
                Mnemonic::Move,
                operand_def(AddressingMethod::Imp, OperandType::eAX),
                operand_def(AddressingMethod::O, OperandType::v),
            ),
        )
    } else if op == 0xC3 && ext == 0 {
        Some(entry0(Mnemonic::Return))
    } else if op == 0xD1 && ext == 7 {
        Some(
            entry2(
                Mnemonic::Sar,
                operand_def(AddressingMethod::E, OperandType::v),
                operand_def(AddressingMethod::Imp, OperandType::const1),
            ),
        )
    } else if op == 0xE8 && ext == 0 {
        Some(entry1(Mnemonic::Call, operand_def(AddressingMethod::J, OperandType::v)))
    } else {
        None
    }
}

/// An opcode that the table does not list with its extension, but whose
/// base opcode it lists with the extension 0, has the description of the
/// base opcode.
pub proof fn lemma_lookup_falls_back(op: u8, ext: u8)
    requires
        spec_opcode_table(op, ext) is None,
        spec_opcode_table(spec_base_opcode(op), 0) is Some,
    ensures
        spec_lookup_op(op, ext) == spec_opcode_table(spec_base_opcode(op), 0),
{
}

/// The base opcode is the opcode with the three register bits masked off.
pub proof fn lemma_base_opcode_masks(op: u8)
    ensures
        spec_base_opcode(op) == op & 0xF8,
        op % 8 == op & 0x07,
{
    assert(op - op % 8 == op & 0xF8) by (bit_vector);
    assert(op % 8 == op & 0x07) by (bit_vector);
}

/// Every opcode from `0x58` to `0x5F` is a pop of one operand: the
/// register that its low three bits name.
pub proof fn lemma_pop_opcodes(r: u8)
    requires
        r < 8,
    ensures
        spec_lookup_op((0x58 + r) as u8, 0) == Some(
            OpCodeDefView {
                mnemonic: Mnemonic::Pop,
                operands: seq![spec_operand_def(AddressingMethod::Z, OperandType::v)],
            },
        ),
        (0x58 + r) as u8 == 0x58u8 | r,
        ((0x58 + r) as u8) % 8 == r,
{
    assert((0x58 + r) as u8 == 0x58u8 | r) by (bit_vector)
        requires
            r < 8,
    ;
}

} // verus!
