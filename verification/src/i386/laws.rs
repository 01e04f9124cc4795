//! What holds of the machine in general.

use super::bytecode::ByteCodeView;
use super::error::DisassemblyError;
use super::instr::{Instr, InstrView};
use super::machine::{
    spec_ends_at, spec_exec, spec_locate, spec_reg_set, spec_run, spec_step, spec_top,
    spec_trap, spec_value, spec_wrap_add, ExitView, MachineView, OutcomeView,
};
use super::memory::{spec_find, Fetch, RegionView, RuntimeError};
use super::machine::{spec_assign, spec_is_wide};
use super::memory::spec_load;
use super::operand::{Operand, OperandDecodeState, OperandDef, Reg};
use super::table::{spec_lookup_op, Mnemonic};
use vstd::prelude::*;

verus! {

/// A trampoline is mapped at the address `a`.
pub open spec fn spec_trampoline_at(m: MachineView, a: u32) -> bool {
    spec_find(m.memory, a) matches Some(t) && m.memory[t].region is Trampoline
}

/// A call into a trampoline hands control back with the name and the
/// arguments of the trampoline, and the machine can be run on behind the
/// call.
///
/// The machine stands at a call, the last instruction of a block. The
/// target of the call is mapped as a trampoline with the name `name`, and
/// the stack holds the words that it takes. Then the machine hands control
/// back in one step, with that name and with those words as arguments, and
/// stands behind the call. When the caller has written any value to EAX and
/// runs the machine on from there, the machine runs out of instructions:
/// it does not enter the trampoline again.
pub proof fn lemma_trampoline_round_trip(
    code: Seq<ByteCodeView>,
    m: MachineView,
    b: int,
    i: int,
    rel: u32,
    t: int,
    name: Seq<char>,
    arity: usize,
    eax: u32,
    steps: nat,
)
    requires
        !spec_trampoline_at(m, m.eip),
        spec_locate(code, m.eip, 0) == Some((b, i)),
        code[b].instrs[i] == (InstrView {
            mnemonic: Mnemonic::Call,
            operands: seq![Operand::Imm32(rel)],
        }),
        spec_find(m.memory, spec_wrap_add(code[b].spec_next(i), rel)) == Some(t),
        m.memory[t].region == RegionView::Trampoline(name, arity),
        m.stack.len() >= arity,
        spec_locate(code, code[b].spec_next(i), 0) is None,
        spec_ends_at(code, code[b].spec_next(i), 0),
        !spec_trampoline_at(m, code[b].spec_next(i)),
        steps > 0,
    ensures
        ({
            let behind = MachineView {
                stack: m.stack.take(m.stack.len() - arity),
                eip: code[b].spec_next(i),
                ..m
            };
            let resumed = MachineView {
                registers: spec_reg_set(behind.registers, Reg::EAX, eax),
                ..behind
            };
            &&& spec_run(code, m, steps) == Ok::<(MachineView, Option<ExitView>), RuntimeError>(
                (behind, Some(ExitView::Trampoline(name, spec_top(m.stack, arity as int)))),
            )
            &&& spec_run(code, resumed, steps) == Ok::<
                (MachineView, Option<ExitView>),
                RuntimeError,
            >((resumed, Some(ExitView::OutOfInstructions)))
        }),
{
    reveal(spec_step);
    reveal(spec_exec);
    let next = code[b].spec_next(i);
    let ops = seq![Operand::Imm32(rel)];
    assert(ops.len() == 1);
    assert(ops[0] == Operand::Imm32(rel));
    assert(spec_value(m, ops[0], true) == Ok::<Fetch, RuntimeError>(Fetch::Value(rel)));
    let behind = MachineView { stack: m.stack.take(m.stack.len() - arity), eip: next, ..m };
    assert(spec_trap(m, t, next, m.eip) == Ok::<(MachineView, OutcomeView), RuntimeError>(
        (behind, OutcomeView::Exit(ExitView::Trampoline(name, spec_top(m.stack, arity as int)))),
    ));
    assert(spec_step(code, m) == spec_trap(m, t, next, m.eip));
    let resumed = MachineView {
        registers: spec_reg_set(behind.registers, Reg::EAX, eax),
        ..behind
    };
    assert(resumed.memory == m.memory);
    assert(spec_step(code, resumed) == Ok::<(MachineView, OutcomeView), RuntimeError>(
        (resumed, OutcomeView::Exit(ExitView::OutOfInstructions)),
    ));
}

/// The operand can be written to: it is a register or a place in memory.
pub open spec fn spec_place(op: Operand) -> bool {
    op is Register || op is Memory
}

/// The instruction has the operands that its mnemonic asks for: two for
/// `Move`, `Add`, `Compare` and `Sar`, of which the first is a place for
/// all but `Compare` and the second is the immediate 1 for `Sar`; one for
/// `Jcc`, `Push`, `Call` and `Pop`, a place for `Pop`; and none for
/// `Return`.
pub open spec fn spec_legal(instr: InstrView) -> bool {
    let ops = instr.operands;
    match instr.mnemonic {
        Mnemonic::Move => ops.len() == 2 && spec_place(ops[0]),
        Mnemonic::Add => ops.len() == 2 && spec_place(ops[0]),
        Mnemonic::Compare => ops.len() == 2,
        Mnemonic::Sar => ops.len() == 2 && spec_place(ops[0]) && ops[1] == Operand::Imm32(1),
        Mnemonic::Jcc(_) => ops.len() == 1,
        Mnemonic::Push => ops.len() == 1,
        Mnemonic::Call => ops.len() == 1,
        Mnemonic::Pop => ops.len() == 1 && spec_place(ops[0]),
        Mnemonic::Return => ops.len() == 0,
    }
}

/// Every instruction that the disassembler decodes has the operands that
/// its mnemonic asks for.
pub proof fn lemma_decoded_is_legal(code: Seq<u8>, ip: int)
    requires
        0 <= ip <= code.len(),
    ensures
        Instr::spec_decode_one(code, ip) matches Ok((instr, _)) ==> spec_legal(instr),
{
    reveal(Instr::spec_decode_one);
    reveal_with_fuel(Instr::spec_operands, 4);
}

/// An instruction that has the operands that its mnemonic asks for is
/// never illegal to the machine. So code that the disassembler decoded
/// runs without that fault.
pub proof fn lemma_legal_runs(m: MachineView, instr: InstrView, at: u32, next: u32)
    requires
        spec_legal(instr),
    ensures
        !(spec_exec(m, instr, at, next) matches Err(RuntimeError::IllegalInstruction { .. })),
{
    reveal(spec_exec);
}

} // verus!
