//! The machine that runs disassembled code.

use super::bytecode::{ByteCode, ByteCodeView};
use super::machine::{
    spec_address, spec_assign, spec_bits, spec_cut, spec_ends_at, spec_exec, spec_index_in,
    spec_is_wide, spec_locate, spec_reg_get, spec_reg_index, spec_reg_set, spec_run, spec_sar1,
    spec_step, spec_top, spec_trap, spec_value, spec_wrap_add, ExitView, MachineView,
    OutcomeView,
};
use super::memory::{
    find, load, spec_memory, store, Fetch, Fetched, Mapping, Region, RuntimeError,
};
use super::operand::{MemRef, Operand, Reg};
use super::table::{ConditionCode, FlagKind, Mnemonic};
use vstd::prelude::*;

verus! {

/// Why the machine handed control back.
pub enum ExitInfo {
    /// The instruction pointer stands behind the last instruction of a
    /// block of code.
    OutOfInstructions,
    /// The machine ran into a trampoline: the name of the outside
    /// function, and the words it takes from the stack, the top first.
    Trampoline(String, Vec<u32>),
}

impl View for ExitInfo {
    type V = ExitView;

    open spec fn view(&self) -> ExitView {
        match self {
            ExitInfo::OutOfInstructions => ExitView::OutOfInstructions,
            ExitInfo::Trampoline(name, args) => ExitView::Trampoline(name@, args@),
        }
    }
}

/// What a step ended with.
pub enum Outcome {
    /// The machine can go on.
    Running,
    /// The machine hands control back.
    Exit(ExitInfo),
}

impl View for Outcome {
    type V = OutcomeView;

    open spec fn view(&self) -> OutcomeView {
        match self {
            Outcome::Running => OutcomeView::Running,
            Outcome::Exit(e) => OutcomeView::Exit(e@),
        }
    }
}

/// The blocks of `v` as values of specifications.
pub open spec fn spec_code(v: Seq<ByteCode>) -> Seq<ByteCodeView> {
    v.map_values(|b: ByteCode| b@)
}

/// An exit, if there is one, as a value of specifications.
pub open spec fn spec_exit(e: Option<ExitInfo>) -> Option<ExitView> {
    match e {
        Some(x) => Some(x@),
        None => None,
    }
}

/// The machine: registers, the zero flag, a stack, the memory map and the
/// code.
pub struct Interpreter {
    /// EAX, ECX, EDX, EBX, ESP, EBP, ESI, EDI.
    pub registers: [u32; 8],
    pub zf: bool,
    /// The stack; its last element is its top.
    pub stack: Vec<u32>,
    pub memory: Vec<Mapping>,
    pub code: Vec<ByteCode>,
    /// The address of the instruction that is carried out next.
    pub eip: u32,
}

impl View for Interpreter {
    type V = MachineView;

    open spec fn view(&self) -> MachineView {
        MachineView {
            registers: self.registers@,
            zf: self.zf,
            stack: self.stack@,
            memory: spec_memory(self.memory@),
            eip: self.eip,
        }
    }
}

fn reg_index(r: Reg) -> (i: usize)
    ensures
        i == spec_reg_index(r),
        i < 8,
{
    match r {
        Reg::AX => 0,
        Reg::EAX => 0,
        Reg::ECX => 1,
        Reg::EDX => 2,
        Reg::EBX => 3,
        Reg::ESP => 4,
        Reg::EBP => 5,
        Reg::ESI => 6,
        Reg::EDI => 7,
    }
}

fn reg_get(registers: &[u32; 8], r: Reg) -> (v: u32)
    ensures
        v == spec_reg_get(registers@, r),
{
    match r {
        Reg::AX => registers[0] % 65536,
        _ => registers[reg_index(r)],
    }
}

fn reg_set(registers: &mut [u32; 8], r: Reg, v: u32)
    ensures
        final(registers)@ == spec_reg_set(old(registers)@, r, v),
{
    match r {
        Reg::AX => {
            let whole: u32 = registers[0];
            registers[0] = whole - whole % 65536 + v % 65536;
        },
        _ => {
            registers[reg_index(r)] = v;
        },
    }
    assert(registers@ =~= spec_reg_set(old(registers)@, r, v));
}

fn bits(v: i32) -> (r: u32)
    ensures
        r == spec_bits(v),
{
    if v >= 0 {
        v as u32
    } else {
        (v as i64 + 0x1_0000_0000) as u32
    }
}

fn wrap_add(a: u32, b: u32) -> (r: u32)
    ensures
        r == spec_wrap_add(a, b),
{
    ((a as u64 + b as u64) % 0x1_0000_0000) as u32
}

fn cut(v: u32, wide: bool) -> (r: u32)
    ensures
        r == spec_cut(v, wide),
{
    if wide {
        v
    } else {
        v % 65536
    }
}

fn sar1(v: u32, wide: bool) -> (r: u32)
    ensures
        r == spec_sar1(v, wide),
{
    if wide {
        if v < 0x8000_0000 {
            v / 2
        } else {
            v / 2 + 0x8000_0000
        }
    } else {
        let low: u32 = v % 65536;
        if low < 0x8000 {
            low / 2
        } else {
            low / 2 + 0x8000
        }
    }
}

fn address(registers: &[u32; 8], r: &MemRef) -> (a: u32)
    ensures
        a == spec_address(registers@, *r),
{
    let base: u64 = match r.base {
        Some(reg) => reg_get(registers, reg) as u64,
        None => 0,
    };
    let index: u64 = match r.index {
        Some(reg) => reg_get(registers, reg) as u64,
        None => 0,
    };
    let scale: u64 = r.scale as u64;
    assert(index * scale <= 0xFFFF_FFFF * 255) by (nonlinear_arith)
        requires
            index <= 0xFFFF_FFFF,
            scale <= 255,
    ;
    ((bits(r.displacement) as u64 + base + index * scale) % 0x1_0000_0000) as u32
}

fn is_wide(operands: &Vec<Operand>) -> (r: bool)
    ensures
        r == spec_is_wide(operands@),
{
    let mut i: usize = 0;
    while i < operands.len()
        invariant
            i <= operands@.len(),
            forall|j: int| 0 <= j < i ==> operands@[j] != Operand::Register(Reg::AX),
        decreases operands@.len() - i,
    {
        match operands[i] {
            Operand::Register(Reg::AX) => {
                return false;
            },
            _ => {},
        }
        i += 1;
    }
    true
}

fn index_in(block: &ByteCode, a: u32) -> (r: Option<usize>)
    ensures
        r matches Some(i) ==> i < block.offsets@.len() && spec_index_in(block@, a, 0) == Some(
            i as int,
        ),
        r is None ==> spec_index_in(block@, a, 0) is None,
{
    let mut i: usize = 0;
    while i < block.offsets.len()
        invariant
            i <= block.offsets@.len(),
            spec_index_in(block@, a, i as int) == spec_index_in(block@, a, 0),
        decreases block.offsets@.len() - i,
    {
        if block.start_addr as u64 + block.offsets[i] as u64 == a as u64 {
            return Some(i);
        }
        i += 1;
    }
    None
}

fn locate(code: &Vec<ByteCode>, a: u32) -> (r: Option<(usize, usize)>)
    ensures
        r matches Some((b, i)) ==> b < code@.len() && i < code@[b as int].offsets@.len()
            && spec_locate(spec_code(code@), a, 0) == Some((b as int, i as int)),
        r is None ==> spec_locate(spec_code(code@), a, 0) is None,
{
    let mut b: usize = 0;
    while b < code.len()
        invariant
            b <= code@.len(),
            spec_locate(spec_code(code@), a, b as int) == spec_locate(spec_code(code@), a, 0),
        decreases code@.len() - b,
    {
        assert(spec_code(code@)[b as int] == code@[b as int]@);
        if let Some(i) = index_in(&code[b], a) {
            return Some((b, i));
        }
        b += 1;
    }
    None
}

fn ends_at(code: &Vec<ByteCode>, a: u32) -> (r: bool)
    ensures
        r == spec_ends_at(spec_code(code@), a, 0),
{
    let mut b: usize = 0;
    while b < code.len()
        invariant
            b <= code@.len(),
            spec_ends_at(spec_code(code@), a, b as int) == spec_ends_at(spec_code(code@), a, 0),
        decreases code@.len() - b,
    {
        assert(spec_code(code@)[b as int] == code@[b as int]@);
        if code[b].start_addr as u64 + code[b].size as u64 == a as u64 {
            return true;
        }
        b += 1;
    }
    false
}

impl Interpreter {
    /// Every block of code is well-formed.
    pub open spec fn wf(&self) -> bool {
        forall|b: int| 0 <= b < self.code@.len() ==> (#[trigger] self.code@[b])@.wf()
    }

    /// A machine with nothing mapped, no code, an empty stack and all
    /// registers 0.
    pub fn new() -> (r: Self)
        ensures
            r.wf(),
            r@.registers == Seq::new(8, |i: int| 0u32),
            !r@.zf,
            r@.stack.len() == 0,
            r@.memory.len() == 0,
            r@.eip == 0,
            r.code@.len() == 0,
    {
        let r = Interpreter {
            registers: [0u32; 8],
            zf: false,
            stack: Vec::new(),
            memory: Vec::new(),
            code: Vec::new(),
            eip: 0,
        };
        assert(r@.registers =~= Seq::new(8, |i: int| 0u32));
        assert(r@.memory =~= Seq::empty());
        r
    }

    fn map(&mut self, mapping: Mapping)
        ensures
            final(self)@ == (MachineView {
                memory: old(self)@.memory.push(mapping@),
                ..old(self)@
            }),
            final(self).code == old(self).code,
    {
        self.memory.push(mapping);
        assert(spec_memory(self.memory@) =~= spec_memory(old(self).memory@).push(mapping@));
    }

    /// Maps a trampoline at `address`: the entry of the outside function
    /// `name`, which takes `arity` words from the stack. The mappings that
    /// were made before it come first when an address is looked up.
    pub fn add_trampoline(&mut self, address: u32, name: &str, arity: usize)
        ensures
            final(self)@ == (MachineView {
                memory: old(self)@.memory.push(
                    super::memory::MappingView {
                        address,
                        region: super::memory::RegionView::Trampoline(name@, arity),
                    },
                ),
                ..old(self)@
            }),
            final(self).code == old(self).code,
    {
        self.map(Mapping { address, region: Region::Trampoline(name.to_owned(), arity) });
    }

    /// Maps the constant word `value` at `address`.
    pub fn map_value(&mut self, address: u32, value: u32)
        ensures
            final(self)@ == (MachineView {
                memory: old(self)@.memory.push(
                    super::memory::MappingView {
                        address,
                        region: super::memory::RegionView::Constant(value),
                    },
                ),
                ..old(self)@
            }),
            final(self).code == old(self).code,
    {
        self.map(Mapping { address, region: Region::Constant(value) });
    }

    /// Maps the bytes `data` at `address`, to be read and written.
    pub fn map_writable(&mut self, address: u32, data: Vec<u8>)
        ensures
            final(self)@ == (MachineView {
                memory: old(self)@.memory.push(
                    super::memory::MappingView {
                        address,
                        region: super::memory::RegionView::Writable(data@),
                    },
                ),
                ..old(self)@
            }),
            final(self).code == old(self).code,
    {
        self.map(Mapping { address, region: Region::Writable(data) });
    }

    /// Adds a block of code.
    pub fn add_code(&mut self, block: ByteCode)
        requires
            old(self).wf(),
            block@.wf(),
        ensures
            final(self).wf(),
            final(self)@ == old(self)@,
            final(self).code@ == old(self).code@.push(block),
    {
        self.code.push(block);
        assert forall|b: int| 0 <= b < self.code@.len() implies (#[trigger] self.code@[b])@.wf() by {
            if b < old(self).code@.len() {
                assert(self.code@[b] == old(self).code@[b]);
            }
        }
    }

    /// Writes `value` to the register `reg`.
    pub fn set_register_value(&mut self, reg: Reg, value: u32)
        ensures
            final(self)@ == (MachineView {
                registers: spec_reg_set(old(self)@.registers, reg, value),
                ..old(self)@
            }),
            final(self).code == old(self).code,
    {
        reg_set(&mut self.registers, reg, value);
    }

    /// The value of the register `reg`.
    pub fn register_value(&self, reg: Reg) -> (v: u32)
        ensures
            v == spec_reg_get(self@.registers, reg),
    {
        reg_get(&self.registers, reg)
    }

    /// Puts `value` on the stack.
    pub fn push_stack_value(&mut self, value: u32)
        ensures
            final(self)@ == (MachineView { stack: old(self)@.stack.push(value), ..old(self)@ }),
            final(self).code == old(self).code,
    {
        self.stack.push(value);
    }

    /// The address of the instruction that is carried out next. After a
    /// call ran into a trampoline this is the address behind the call:
    /// where to go on once the outside function is done.
    pub fn eip(&self) -> (a: u32)
        ensures
            a == self@.eip,
    {
        self.eip
    }

    fn value(&self, op: Operand, wide: bool) -> (r: Result<Fetched, RuntimeError>)
        ensures
            match spec_value(self@, op, wide) {
                Ok(f) => r matches Ok(g) && g@ == f && (f matches Fetch::Trap(i) ==> 0 <= i
                    < self.memory@.len() && self.memory@[i].region is Trampoline),
                Err(e) => r matches Err(f) && f == e,
            },
    {
        match op {
            Operand::Imm32(v) => Ok(Fetched::Value(v)),
            Operand::Imm32s(v) => Ok(Fetched::Value(bits(v))),
            Operand::Imm8(v) => Ok(Fetched::Value(v as u32)),
            Operand::Register(r) => Ok(Fetched::Value(reg_get(&self.registers, r))),
            Operand::Memory(r) => load(&self.memory, address(&self.registers, &r), wide),
        }
    }

    fn assign(&mut self, op: Operand, v: u32, wide: bool, at: u32) -> (r: Result<
        (),
        RuntimeError,
    >)
        ensures
            final(self).code == old(self).code,
            match spec_assign(old(self)@, op, v, wide, at) {
                Ok(after) => r is Ok && final(self)@ == after,
                Err(e) => r matches Err(f) && f == e,
            },
    {
        match op {
            Operand::Register(r) => {
                reg_set(&mut self.registers, r, v);
                Ok(())
            },
            Operand::Memory(r) => {
                let a: u32 = address(&self.registers, &r);
                store(&mut self.memory, a, v, wide)
            },
            _ => Err(RuntimeError::IllegalInstruction { address: at }),
        }
    }

    fn trap(&mut self, index: usize, resume: u32, at: u32) -> (r: Result<Outcome, RuntimeError>)
        requires
            index < old(self).memory@.len(),
        ensures
            final(self).code == old(self).code,
            match spec_trap(old(self)@, index as int, resume, at) {
                Ok((after, outcome)) => r matches Ok(o) && o@ == outcome && final(self)@ == after,
                Err(e) => r matches Err(f) && f == e,
            },
    {
        assert(spec_memory(self.memory@)[index as int] == self.memory@[index as int]@);
        match &self.memory[index].region {
            Region::Trampoline(name, arity) => {
                let arity: usize = *arity;
                if self.stack.len() < arity {
                    return Err(RuntimeError::StackUnderflow { address: at });
                }
                let name: String = name.clone();
                let mut args: Vec<u32> = Vec::new();
                let ghost before = self.stack@;
                let mut i: usize = 0;
                while i < arity
                    invariant
                        i <= arity <= before.len(),
                        self.stack@ == before.take(before.len() - i),
                        args@ == spec_top(before, i as int),
                        self.registers == old(self).registers,
                        self.zf == old(self).zf,
                        self.memory == old(self).memory,
                        self.code == old(self).code,
                    decreases arity - i,
                {
                    let v: u32 = self.stack.pop().unwrap();
                    args.push(v);
                    i += 1;
                    assert(self.stack@ =~= before.take(before.len() - i));
                    assert(args@ =~= spec_top(before, i as int));
                }
                self.eip = resume;
                Ok(Outcome::Exit(ExitInfo::Trampoline(name, args)))
            },
            _ => Err(RuntimeError::IllegalInstruction { address: at }),
        }
    }

    fn is_trampoline(&self, index: usize) -> (r: bool)
        requires
            index < self.memory@.len(),
        ensures
            r == (self@.memory[index as int].region is Trampoline),
    {
        assert(spec_memory(self.memory@)[index as int] == self.memory@[index as int]@);
        match &self.memory[index].region {
            Region::Trampoline(_, _) => true,
            _ => false,
        }
    }

    fn exec(&mut self, mnemonic: Mnemonic, operands: &Vec<Operand>, at: u32, next: u32) -> (r:
        Result<Outcome, RuntimeError>)
        ensures
            final(self).code == old(self).code,
            match spec_exec(
                old(self)@,
                super::instr::InstrView { mnemonic, operands: operands@ },
                at,
                next,
            ) {
                Ok((after, outcome)) => r matches Ok(o) && o@ == outcome && final(self)@ == after,
                Err(e) => r matches Err(f) && f == e,
            },
    {
        reveal(spec_exec);
        let wide: bool = is_wide(operands);
        let n: usize = operands.len();
        match mnemonic {
            Mnemonic::Move => {
                if n != 2 {
                    return Err(RuntimeError::IllegalInstruction { address: at });
                }
                match self.value(operands[1], wide)? {
                    Fetched::Trap(t) => self.trap(t, next, at),
                    Fetched::Value(v) => {
                        self.assign(operands[0], v, wide, at)?;
                        self.eip = next;
                        Ok(Outcome::Running)
                    },
                }
            },
            Mnemonic::Add => {
                if n != 2 {
                    return Err(RuntimeError::IllegalInstruction { address: at });
                }
                match self.value(operands[0], wide)? {
                    Fetched::Trap(t) => self.trap(t, next, at),
                    Fetched::Value(a) => match self.value(operands[1], wide)? {
                        Fetched::Trap(t) => self.trap(t, next, at),
                        Fetched::Value(b) => {
                            let sum: u32 = wrap_add(a, b);
                            self.assign(operands[0], sum, wide, at)?;
                            self.zf = cut(sum, wide) == 0;
                            self.eip = next;
                            Ok(Outcome::Running)
                        },
                    },
                }
            },
            Mnemonic::Compare => {
                if n != 2 {
                    return Err(RuntimeError::IllegalInstruction { address: at });
                }
                match self.value(operands[0], wide)? {
                    Fetched::Trap(t) => self.trap(t, next, at),
                    Fetched::Value(a) => match self.value(operands[1], wide)? {
                        Fetched::Trap(t) => self.trap(t, next, at),
                        Fetched::Value(b) => {
                            self.zf = cut(a, wide) == cut(b, wide);
                            self.eip = next;
                            Ok(Outcome::Running)
                        },
                    },
                }
            },
            Mnemonic::Sar => {
                if n != 2 {
                    return Err(RuntimeError::IllegalInstruction { address: at });
                }
                match operands[1] {
                    Operand::Imm32(1) => {},
                    _ => {
                        return Err(RuntimeError::IllegalInstruction { address: at });
                    },
                }
                match self.value(operands[0], wide)? {
                    Fetched::Trap(t) => self.trap(t, next, at),
                    Fetched::Value(a) => {
                        self.assign(operands[0], sar1(a, wide), wide, at)?;
                        self.eip = next;
                        Ok(Outcome::Running)
                    },
                }
            },
            Mnemonic::Jcc(ConditionCode::Check(FlagKind::ZF, expected)) => {
                if n != 1 {
                    return Err(RuntimeError::IllegalInstruction { address: at });
                }
                match self.value(operands[0], true)? {
                    Fetched::Trap(t) => self.trap(t, next, at),
                    Fetched::Value(rel) => {
                        self.eip = if self.zf == expected {
                            wrap_add(next, rel)
                        } else {
                            next
                        };
                        Ok(Outcome::Running)
                    },
                }
            },
            Mnemonic::Push => {
                if n != 1 {
                    return Err(RuntimeError::IllegalInstruction { address: at });
                }
                match self.value(operands[0], wide)? {
                    Fetched::Trap(t) => self.trap(t, next, at),
                    Fetched::Value(v) => {
                        self.stack.push(v);
                        self.eip = next;
                        Ok(Outcome::Running)
                    },
                }
            },
            Mnemonic::Pop => {
                if n != 1 {
                    return Err(RuntimeError::IllegalInstruction { address: at });
                }
                match self.stack.pop() {
                    None => Err(RuntimeError::StackUnderflow { address: at }),
                    Some(v) => {
                        self.assign(operands[0], v, wide, at)?;
                        self.eip = next;
                        Ok(Outcome::Running)
                    },
                }
            },
            Mnemonic::Call => {
                if n != 1 {
                    return Err(RuntimeError::IllegalInstruction { address: at });
                }
                match self.value(operands[0], true)? {
                    Fetched::Trap(t) => self.trap(t, next, at),
                    Fetched::Value(rel) => {
                        let target: u32 = wrap_add(next, rel);
                        if let Some(t) = find(&self.memory, target) {
                            if self.is_trampoline(t) {
                                return self.trap(t, next, at);
                            }
                        }
                        self.stack.push(next);
                        self.eip = target;
                        Ok(Outcome::Running)
                    },
                }
            },
            Mnemonic::Return => {
                if n != 0 {
                    return Err(RuntimeError::IllegalInstruction { address: at });
                }
                match self.stack.pop() {
                    None => Err(RuntimeError::StackUnderflow { address: at }),
                    Some(target) => {
                        self.eip = target;
                        Ok(Outcome::Running)
                    },
                }
            },
        }
    }

    /// Carries out one step: the instruction at the instruction pointer,
    /// or the entry into the trampoline that is mapped there. After a
    /// fault the state of the machine is not defined.
    pub fn step(&mut self) -> (r: Result<Outcome, RuntimeError>)
        requires
            old(self).wf(),
        ensures
            final(self).code == old(self).code,
            match spec_step(spec_code(old(self).code@), old(self)@) {
                Ok((after, outcome)) => r matches Ok(o) && o@ == outcome && final(self)@ == after,
                Err(e) => r matches Err(f) && f == e,
            },
    {
        reveal(spec_step);
        let at: u32 = self.eip;
        if let Some(t) = find(&self.memory, at) {
            if self.is_trampoline(t) {
                return self.trap(t, at, at);
            }
        }
        match locate(&self.code, at) {
            Some((b, i)) => {
                assert(self.code@[b as int]@.wf());
                assert(spec_code(self.code@)[b as int] == self.code@[b as int]@);
                let block = &self.code[b];
                let mnemonic: Mnemonic = block.instrs[i].mnemonic;
                let operands: Vec<Operand> = copy_operands(&block.instrs[i].operands);
                let next: u32 = block.next_address(i);
                assert(block@.instrs[i as int] == (super::instr::InstrView {
                    mnemonic,
                    operands: operands@,
                }));
                self.exec(mnemonic, &operands, at, next)
            },
            None => {
                if ends_at(&self.code, at) {
                    Ok(Outcome::Exit(ExitInfo::OutOfInstructions))
                } else {
                    Err(RuntimeError::UnmappedMemoryAccess { address: at })
                }
            },
        }
    }

    /// Runs the machine from the address `at` until it hands control back,
    /// for at most `max_steps` steps.
    ///
    /// Returns why the machine handed control back, or `None` where it did
    /// not within `max_steps` steps: the machine then stands at `eip()`
    /// and can be run on from there. After a trampoline, the caller does
    /// the work of the outside function, writes what it returns to a
    /// register, and runs the machine on from `eip()`. After a fault the
    /// state of the machine is not defined.
    pub fn interpret(&mut self, at: u32, max_steps: usize) -> (r: Result<
        Option<ExitInfo>,
        RuntimeError,
    >)
        requires
            old(self).wf(),
        ensures
            final(self).code == old(self).code,
            match spec_run(
                spec_code(old(self).code@),
                MachineView { eip: at, ..old(self)@ },
                max_steps as nat,
            ) {
                Ok((after, exit)) => r matches Ok(x) && spec_exit(x) == exit && final(self)@
                    == after,
                Err(e) => r matches Err(f) && f == e,
            },
    {
        self.eip = at;
        let ghost code = spec_code(self.code@);
        let ghost whole = spec_run(code, self@, max_steps as nat);
        let mut steps: usize = 0;
        while steps < max_steps
            invariant
                steps <= max_steps,
                self.wf(),
                self.code == old(self).code,
                code == spec_code(self.code@),
                whole == spec_run(
                    spec_code(old(self).code@),
                    MachineView { eip: at, ..old(self)@ },
                    max_steps as nat,
                ),
                spec_run(code, self@, (max_steps - steps) as nat) == whole,
            decreases max_steps - steps,
        {
            match self.step()? {
                Outcome::Running => {},
                Outcome::Exit(exit) => {
                    return Ok(Some(exit));
                },
            }
            steps += 1;
        }
        Ok(None)
    }
}

fn copy_operands(operands: &Vec<Operand>) -> (r: Vec<Operand>)
    ensures
        r@ == operands@,
{
    let mut out: Vec<Operand> = Vec::new();
    let mut i: usize = 0;
    while i < operands.len()
        invariant
            i <= operands@.len(),
            out@ == operands@.take(i as int),
        decreases operands@.len() - i,
    {
        out.push(operands[i]);
        i += 1;
        assert(out@ =~= operands@.take(i as int));
    }
    assert(operands@.take(operands@.len() as int) =~= operands@);
    out
}

} // verus!
