//! What the machine does, as mathematics: the state of the machine, and
//! the state that one instruction leads to.

use super::bytecode::ByteCodeView;
use super::instr::InstrView;
use super::memory::{
    spec_find, spec_load, spec_low16, spec_store, Fetch, MappingView, RegionView, RuntimeError,
};
use super::operand::{MemRef, Operand, Reg};
use super::table::{ConditionCode, FlagKind, Mnemonic};
use vstd::prelude::*;

verus! {

/// The state of the machine.
pub struct MachineView {
    /// The eight registers, in the order of their numbers: EAX, ECX, EDX,
    /// EBX, ESP, EBP, ESI, EDI.
    pub registers: Seq<u32>,
    /// The zero flag.
    pub zf: bool,
    /// The stack. Its last element is its top.
    pub stack: Seq<u32>,
    pub memory: Seq<MappingView>,
    /// The address of the instruction that is carried out next.
    pub eip: u32,
}

/// Why the machine handed control back.
pub enum ExitView {
    OutOfInstructions,
    Trampoline(Seq<char>, Seq<u32>),
}

/// What a step ended with.
pub enum OutcomeView {
    /// The machine can go on.
    Running,
    /// The machine hands control back.
    Exit(ExitView),
}

/// The state after a step and what the step ended with, or the fault.
pub type StepView = Result<(MachineView, OutcomeView), RuntimeError>;

/// The number of the register that `r` is or is a part of.
pub open spec fn spec_reg_index(r: Reg) -> int {
    match r {
        Reg::AX => 0,
        Reg::EAX => 0,
        Reg::ECX => 1,
        Reg::EDX => 2,
        Reg::EBX => 3,
        Reg::ESP => 4,
        Reg::EBP => 5,
        Reg::ESI => 6,
        Reg::EDI => 7,
    }
}

/// The value of the register `r`. AX is the low half of EAX.
pub open spec fn spec_reg_get(registers: Seq<u32>, r: Reg) -> u32 {
    if r == Reg::AX {
        spec_low16(registers[0])
    } else {
        registers[spec_reg_index(r)]
    }
}

/// The registers after `v` is written to `r`. A write to AX takes the low
/// half of `v` and leaves the high half of EAX as it is.
pub open spec fn spec_reg_set(registers: Seq<u32>, r: Reg, v: u32) -> Seq<u32> {
    if r == Reg::AX {
        registers.update(0, (registers[0] - registers[0] % 65536 + v % 65536) as u32)
    } else {
        registers.update(spec_reg_index(r), v)
    }
}

/// The sum of `a` and `b` in 32 bits.
pub open spec fn spec_wrap_add(a: u32, b: u32) -> u32 {
    ((a + b) % 0x1_0000_0000) as u32
}

/// The word with the bit pattern of the signed number `v`.
pub open spec fn spec_bits(v: i32) -> u32 {
    if v >= 0 {
        v as u32
    } else {
        (v + 0x1_0000_0000) as u32
    }
}

/// `v` cut to the width of the operation: to 32 bits where `wide`, else to
/// 16.
pub open spec fn spec_cut(v: u32, wide: bool) -> u32 {
    if wide {
        v
    } else {
        spec_low16(v)
    }
}

/// The address that the memory reference `r` names: the displacement, and
/// the base and the scaled index where there are any, summed in 32 bits.
pub open spec fn spec_address(registers: Seq<u32>, r: MemRef) -> u32 {
    let base = match r.base {
        Some(reg) => spec_reg_get(registers, reg),
        None => 0u32,
    };
    let index = match r.index {
        Some(reg) => spec_reg_get(registers, reg),
        None => 0u32,
    };
    ((spec_bits(r.displacement) + base + index * r.scale) % 0x1_0000_0000) as u32
}

/// An operation is 16 bits wide where one of its operands is AX, and 32
/// bits wide else.
pub open spec fn spec_is_wide(operands: Seq<Operand>) -> bool {
    forall|i: int| 0 <= i < operands.len() ==> operands[i] != Operand::Register(Reg::AX)
}

/// The value of the operand `op`.
pub open spec fn spec_value(m: MachineView, op: Operand, wide: bool) -> Result<
    Fetch,
    RuntimeError,
> {
    match op {
        Operand::Imm32(v) => Ok(Fetch::Value(v)),
        Operand::Imm32s(v) => Ok(Fetch::Value(spec_bits(v))),
        Operand::Imm8(v) => Ok(Fetch::Value(v as u32)),
        Operand::Register(r) => Ok(Fetch::Value(spec_reg_get(m.registers, r))),
        Operand::Memory(r) => spec_load(m.memory, spec_address(m.registers, r), wide),
    }
}

/// The state after `v` is written to the operand `op`. An immediate cannot
/// be written to: the instruction at `at` is then illegal.
pub open spec fn spec_assign(m: MachineView, op: Operand, v: u32, wide: bool, at: u32) -> Result<
    MachineView,
    RuntimeError,
> {
    match op {
        Operand::Register(r) => Ok(
            MachineView { registers: spec_reg_set(m.registers, r, v), ..m },
        ),
        Operand::Memory(r) => match spec_store(
            m.memory,
            spec_address(m.registers, r),
            v,
            wide,
        ) {
            Ok(memory) => Ok(MachineView { memory, ..m }),
            Err(e) => Err(e),
        },
        _ => Err(RuntimeError::IllegalInstruction { address: at }),
    }
}

/// The top `n` words of the stack, the top first.
pub open spec fn spec_top(stack: Seq<u32>, n: int) -> Seq<u32> {
    Seq::new(n as nat, |i: int| stack[stack.len() - 1 - i])
}

/// The machine runs into the trampoline that mapping `index` holds.
///
/// The outside function takes as many words from the stack as its arity
/// says, the top first, and they are handed out as its arguments. The
/// machine then stands at `resume`. Where the stack holds too few words
/// the instruction at `at` fails.
pub open spec fn spec_trap(m: MachineView, index: int, resume: u32, at: u32) -> StepView {
    match m.memory[index].region {
        RegionView::Trampoline(name, arity) => if m.stack.len() < arity {
            Err(RuntimeError::StackUnderflow { address: at })
        } else {
            Ok(
                (
                    MachineView {
                        stack: m.stack.take(m.stack.len() - arity),
                        eip: resume,
                        ..m
                    },
                    OutcomeView::Exit(ExitView::Trampoline(name, spec_top(m.stack, arity as int))),
                ),
            )
        },
        _ => Err(RuntimeError::IllegalInstruction { address: at }),
    }
}

/// The half of `v` in the sense of an arithmetic shift to the right by
/// one: the sign bit stays.
pub open spec fn spec_sar1(v: u32, wide: bool) -> u32 {
    if wide {
        if v < 0x8000_0000 {
            (v / 2) as u32
        } else {
            (v / 2 + 0x8000_0000) as u32
        }
    } else {
        let low = spec_low16(v);
        if low < 0x8000 {
            (low / 2) as u32
        } else {
            (low / 2 + 0x8000) as u32
        }
    }
}

/// What the instruction `instr` does to the state `m`. The instruction
/// stands at the address `at`, and `next` is the address behind it.
///
/// - `Move` writes the value of its second operand to its first.
/// - `Add` adds the value of its second operand to its first, and sets the
///   zero flag where the sum, cut to the width of the operation, is 0.
/// - `Compare` sets the zero flag where its operands, cut to the width of
///   the operation, are equal.
/// - `Sar` halves its first operand; its second operand must be the
///   immediate 1.
/// - `Jcc` goes on at `next` plus its operand where the zero flag has the
///   value that the condition asks for, and at `next` else.
/// - `Push` puts the value of its operand on the stack; `Pop` takes the
///   top of the stack and writes it to its operand.
/// - `Call` goes on at `next` plus its operand, with `next` on the
///   stack; where a trampoline is mapped at the target, the machine hands
///   control to it instead, and then stands at `next`.
/// - `Return` takes the top of the stack and goes on there.
///
/// A read that runs into a trampoline hands control to it; the machine
/// then stands at `next`. An instruction with other operands than these
/// is illegal.
#[verifier::opaque]
pub open spec fn spec_exec(m: MachineView, instr: InstrView, at: u32, next: u32) -> StepView {
    let ops = instr.operands;
    let wide = spec_is_wide(ops);
    let illegal = Err::<(MachineView, OutcomeView), RuntimeError>(
        RuntimeError::IllegalInstruction { address: at },
    );
    match instr.mnemonic {
        Mnemonic::Move => if ops.len() != 2 {
            illegal
        } else {
            match spec_value(m, ops[1], wide) {
                Err(e) => Err(e),
                Ok(Fetch::Trap(t)) => spec_trap(m, t, next, at),
                Ok(Fetch::Value(v)) => match spec_assign(m, ops[0], v, wide, at) {
                    Err(e) => Err(e),
                    Ok(after) => Ok((MachineView { eip: next, ..after }, OutcomeView::Running)),
                },
            }
        },
        Mnemonic::Add => if ops.len() != 2 {
            illegal
        } else {
            match spec_value(m, ops[0], wide) {
                Err(e) => Err(e),
                Ok(Fetch::Trap(t)) => spec_trap(m, t, next, at),
                Ok(Fetch::Value(a)) => match spec_value(m, ops[1], wide) {
                    Err(e) => Err(e),
                    Ok(Fetch::Trap(t)) => spec_trap(m, t, next, at),
                    Ok(Fetch::Value(b)) => match spec_assign(
                        m,
                        ops[0],
                        spec_wrap_add(a, b),
                        wide,
                        at,
                    ) {
                        Err(e) => Err(e),
                        Ok(after) => Ok(
                            (
                                MachineView {
                                    eip: next,
                                    zf: spec_cut(spec_wrap_add(a, b), wide) == 0,
                                    ..after
                                },
                                OutcomeView::Running,
                            ),
                        ),
                    },
                },
            }
        },
        Mnemonic::Compare => if ops.len() != 2 {
            illegal
        } else {
            match spec_value(m, ops[0], wide) {
                Err(e) => Err(e),
                Ok(Fetch::Trap(t)) => spec_trap(m, t, next, at),
                Ok(Fetch::Value(a)) => match spec_value(m, ops[1], wide) {
                    Err(e) => Err(e),
                    Ok(Fetch::Trap(t)) => spec_trap(m, t, next, at),
                    Ok(Fetch::Value(b)) => Ok(
                        (
                            MachineView {
                                eip: next,
                                zf: spec_cut(a, wide) == spec_cut(b, wide),
                                ..m
                            },
                            OutcomeView::Running,
                        ),
                    ),
                },
            }
        },
        Mnemonic::Sar => if ops.len() != 2 || ops[1] != Operand::Imm32(1) {
            illegal
        } else {
            match spec_value(m, ops[0], wide) {
                Err(e) => Err(e),
                Ok(Fetch::Trap(t)) => spec_trap(m, t, next, at),
                Ok(Fetch::Value(a)) => match spec_assign(m, ops[0], spec_sar1(a, wide), wide, at) {
                    Err(e) => Err(e),
                    Ok(after) => Ok((MachineView { eip: next, ..after }, OutcomeView::Running)),
                },
            }
        },
        Mnemonic::Jcc(ConditionCode::Check(FlagKind::ZF, expected)) => if ops.len() != 1 {
            illegal
        } else {
            match spec_value(m, ops[0], true) {
                Err(e) => Err(e),
                Ok(Fetch::Trap(t)) => spec_trap(m, t, next, at),
                Ok(Fetch::Value(rel)) => Ok(
                    (
                        MachineView {
                            eip: if m.zf == expected {
                                spec_wrap_add(next, rel)
                            } else {
                                next
                            },
                            ..m
                        },
                        OutcomeView::Running,
                    ),
                ),
            }
        },
        Mnemonic::Push => if ops.len() != 1 {
            illegal
        } else {
            match spec_value(m, ops[0], wide) {
                Err(e) => Err(e),
                Ok(Fetch::Trap(t)) => spec_trap(m, t, next, at),
                Ok(Fetch::Value(v)) => Ok(
                    (MachineView { eip: next, stack: m.stack.push(v), ..m }, OutcomeView::Running),
                ),
            }
        },
        Mnemonic::Pop => if ops.len() != 1 {
            illegal
        } else if m.stack.len() == 0 {
            Err(RuntimeError::StackUnderflow { address: at })
        } else {
            match spec_assign(
                MachineView { stack: m.stack.drop_last(), ..m },
                ops[0],
                m.stack.last(),
                wide,
                at,
            ) {
                Err(e) => Err(e),
                Ok(after) => Ok((MachineView { eip: next, ..after }, OutcomeView::Running)),
            }
        },
        Mnemonic::Call => if ops.len() != 1 {
            illegal
        } else {
            match spec_value(m, ops[0], true) {
                Err(e) => Err(e),
                Ok(Fetch::Trap(t)) => spec_trap(m, t, next, at),
                Ok(Fetch::Value(rel)) => match spec_find(m.memory, spec_wrap_add(next, rel)) {
                    Some(t) if m.memory[t].region is Trampoline => spec_trap(m, t, next, at),
                    _ => Ok(
                        (
                            MachineView {
                                eip: spec_wrap_add(next, rel),
                                stack: m.stack.push(next),
                                ..m
                            },
                            OutcomeView::Running,
                        ),
                    ),
                },
            }
        },
        Mnemonic::Return => if ops.len() != 0 {
            illegal
        } else if m.stack.len() == 0 {
            Err(RuntimeError::StackUnderflow { address: at })
        } else {
            Ok(
                (
                    MachineView { eip: m.stack.last(), stack: m.stack.drop_last(), ..m },
                    OutcomeView::Running,
                ),
            )
        },
    }
}

/// The index of the first instruction of `block` at or after `from` that
/// stands at the address `a`.
pub open spec fn spec_index_in(block: ByteCodeView, a: u32, from: int) -> Option<int>
    decreases block.offsets.len() - from,
{
    if from < 0 || from >= block.offsets.len() {
        None
    } else if block.start_addr + block.offsets[from] == a {
        Some(from)
    } else {
        spec_index_in(block, a, from + 1)
    }
}

/// The block and the index in it of the instruction that stands at the
/// address `a`: the first such in the blocks from `from` on.
pub open spec fn spec_locate(code: Seq<ByteCodeView>, a: u32, from: int) -> Option<(int, int)>
    decreases code.len() - from,
{
    if from < 0 || from >= code.len() {
        None
    } else {
        match spec_index_in(code[from], a, 0) {
            Some(i) => Some((from, i)),
            None => spec_locate(code, a, from + 1),
        }
    }
}

/// A block from `from` on ends at the address `a`.
pub open spec fn spec_ends_at(code: Seq<ByteCodeView>, a: u32, from: int) -> bool
    decreases code.len() - from,
{
    if from < 0 || from >= code.len() {
        false
    } else if code[from].start_addr + code[from].size == a {
        true
    } else {
        spec_ends_at(code, a, from + 1)
    }
}

/// One step of the machine.
///
/// Where a trampoline is mapped at the instruction pointer, control goes
/// to it, and the machine stays where it stands. Else the instruction at
/// the instruction pointer is carried out. Where there is none, the
/// machine has run out of instructions if a block ends there, and has
/// left the code if not.
#[verifier::opaque]
pub open spec fn spec_step(code: Seq<ByteCodeView>, m: MachineView) -> StepView {
    match spec_find(m.memory, m.eip) {
        Some(t) if m.memory[t].region is Trampoline => spec_trap(m, t, m.eip, m.eip),
        _ => match spec_locate(code, m.eip, 0) {
            Some((b, i)) => spec_exec(m, code[b].instrs[i], m.eip, code[b].spec_next(i)),
            None => if spec_ends_at(code, m.eip, 0) {
                Ok((m, OutcomeView::Exit(ExitView::OutOfInstructions)))
            } else {
                Err(RuntimeError::UnmappedMemoryAccess { address: m.eip })
            },
        },
    }
}

/// The state after at most `steps` steps from `m`, and why the machine
/// handed control back; `None` where it did not within `steps` steps.
pub open spec fn spec_run(code: Seq<ByteCodeView>, m: MachineView, steps: nat) -> Result<
    (MachineView, Option<ExitView>),
    RuntimeError,
>
    decreases steps,
{
    if steps == 0 {
        Ok((m, None))
    } else {
        match spec_step(code, m) {
            Err(e) => Err(e),
            Ok((after, OutcomeView::Exit(exit))) => Ok((after, Some(exit))),
            Ok((after, OutcomeView::Running)) => spec_run(code, after, (steps - 1) as nat),
        }
    }
}

} // verus!
