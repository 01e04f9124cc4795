//! Operands: registers, memory references and immediates, and how each is
//! read from the bytes of an instruction.

use super::error::{DecodePhase, DisassemblyError};
use crate::bytes::{
    read_u16_le, read_u32_le, signed16, signed32, signed8, spec_signed16, spec_signed32,
    spec_signed8, spec_u16_le, spec_u32_le,
};
use vstd::prelude::*;

verus! {

/// A register. `AX` is the low half of `EAX`.
#[derive(Clone, Copy, Debug, PartialEq, Eq, Structural)]
pub enum Reg {
    AX,
    EAX,
    ECX,
    EDX,
    EBX,
    ESP,
    EBP,
    ESI,
    EDI,
}

/// A place in memory: `[index * scale + base + displacement]`.
#[derive(Clone, Copy, Debug, PartialEq, Eq, Structural)]
pub struct MemRef {
    pub displacement: i32,
    pub base: Option<Reg>,
    pub index: Option<Reg>,
    pub scale: u8,
}

impl MemRef {
    /// The place `[base + displacement]`.
    pub open spec fn spec_base_plus_displacement(base: Reg, displacement: i32) -> MemRef {
        MemRef { displacement, base: Some(base), index: None, scale: 1 }
    }

    /// The place `[displacement]`.
    pub open spec fn spec_displacement(displacement: i32) -> MemRef {
        MemRef { displacement, base: None, index: None, scale: 1 }
    }

    /// The place `[base + displacement]`.
    pub fn base_plus_displacement(base: Reg, displacement: i32) -> (r: Self)
        ensures
            r == Self::spec_base_plus_displacement(base, displacement),
    {
        MemRef { displacement, base: Some(base), index: None, scale: 1 }
    }

    /// The place `[displacement]`.
    pub fn displacement(displacement: i32) -> (r: Self)
        ensures
            r == Self::spec_displacement(displacement),
    {
        MemRef { displacement, base: None, index: None, scale: 1 }
    }
}

/// Where an operand is found.
#[derive(Clone, Copy, Debug, PartialEq, Eq, Structural)]
pub enum AddressingMethod {
    /// A ModR/M byte follows the opcode and names a register or a place in
    /// memory.
    E,
    /// The reg field of the ModR/M byte names a register.
    G,
    /// The value stands in the bytes of the instruction.
    I,
    /// An offset relative to the instruction pointer stands in the bytes of
    /// the instruction.
    J,
    /// The address of the operand stands in the bytes of the instruction;
    /// there is no ModR/M byte.
    O,
    /// The low three bits of the opcode byte name a register.
    Z,
    /// The operand is a fixed register or constant, named by the operand
    /// type.
    Imp,
}

/// How wide an operand is.
#[allow(non_camel_case_types)]
#[derive(Clone, Copy, Debug, PartialEq, Eq, Structural)]
pub enum OperandType {
    /// A byte, sign-extended.
    bs,
    /// A word or a double word, as the operand size says.
    v,
    /// A word or a double word, sign-extended.
    vs,
    /// The register EAX, or AX where the operand size is 16 bits.
    eAX,
    /// The constant 1.
    const1,
}

/// What the opcode table says of one operand.
#[derive(Clone, Copy, Debug, PartialEq, Eq, Structural)]
pub struct OperandDef {
    pub method: AddressingMethod,
    pub ty: OperandType,
}

/// The prefixes that change how an instruction is decoded.
#[derive(Clone, Copy, Debug, PartialEq, Eq, Structural)]
pub struct OpPrefix {
    pub toggle_address_size: bool,
    pub toggle_operand_size: bool,
}

impl OpPrefix {
    /// The bytes that are prefixes.
    pub open spec fn spec_is_prefix(b: u8) -> bool {
        ||| b == 0x26
        ||| b == 0x2E
        ||| b == 0x36
        ||| b == 0x3E
        ||| b == 0x64
        ||| b == 0x65
        ||| b == 0x66
        ||| b == 0x67
        ||| b == 0x9B
        ||| b == 0xF0
        ||| b == 0xF2
        ||| b == 0xF3
    }

    /// No prefix seen.
    pub open spec fn spec_default() -> OpPrefix {
        OpPrefix { toggle_address_size: false, toggle_operand_size: false }
    }

    /// The prefix state after the prefix byte `b`: `0x66` toggles the
    /// operand size and `0x67` the address size. The other prefix bytes
    /// change nothing.
    pub open spec fn spec_apply(self, b: u8) -> OpPrefix {
        if b == 0x66 {
            OpPrefix { toggle_operand_size: true, ..self }
        } else if b == 0x67 {
            OpPrefix { toggle_address_size: true, ..self }
        } else {
            self
        }
    }

    /// The prefix state and the index behind the prefix bytes, where
    /// `prefix` is the state at `ip`.
    pub open spec fn spec_scan(code: Seq<u8>, ip: int, prefix: OpPrefix) -> (OpPrefix, int)
        decreases code.len() - ip,
    {
        if 0 <= ip < code.len() && Self::spec_is_prefix(code[ip]) {
            Self::spec_scan(code, ip + 1, prefix.spec_apply(code[ip]))
        } else {
            (prefix, ip)
        }
    }

    /// The prefix state and the index behind the prefix bytes that stand at
    /// `ip`.
    pub open spec fn spec_from_bytes(code: Seq<u8>, ip: int) -> (OpPrefix, int) {
        Self::spec_scan(code, ip, Self::spec_default())
    }

    /// Whether `b` is a prefix byte.
    pub fn is_prefix(b: u8) -> (r: bool)
        ensures
            r == Self::spec_is_prefix(b),
    {
        b == 0x26 || b == 0x2E || b == 0x36 || b == 0x3E || b == 0x64 || b == 0x65 || b == 0x66
            || b == 0x67 || b == 0x9B || b == 0xF0 || b == 0xF2 || b == 0xF3
    }

    /// No prefix seen.
    pub fn default() -> (r: Self)
        ensures
            r == Self::spec_default(),
    {
        OpPrefix { toggle_address_size: false, toggle_operand_size: false }
    }

    /// The state after the prefix byte `b`.
    pub fn apply(self, b: u8) -> (r: Self)
        ensures
            r == self.spec_apply(b),
    {
        let mut out = self;
        if b == 0x66 {
            out.toggle_operand_size = true;
        } else if b == 0x67 {
            out.toggle_address_size = true;
        }
        out
    }

    /// Reads the prefix bytes at `ip` and moves `ip` behind them.
    pub fn from_bytes(code: &[u8], ip: &mut usize) -> (r: Self)
        ensures
            (r, *final(ip) as int) == Self::spec_from_bytes(code@, *old(ip) as int),
            *old(ip) <= *final(ip),
            *old(ip) <= code@.len() ==> *final(ip) <= code@.len(),
    {
        let mut prefix = Self::default();
        while *ip < code.len() && Self::is_prefix(code[*ip])
            invariant
                *old(ip) <= *ip,
                *old(ip) <= code@.len() ==> *ip <= code@.len(),
                Self::spec_scan(code@, *ip as int, prefix) == Self::spec_from_bytes(
                    code@,
                    *old(ip) as int,
                ),
            decreases code@.len() - *ip,
        {
            prefix = prefix.apply(code[*ip]);
            *ip += 1;
        }
        prefix
    }
}

/// What has been read of an instruction when its operands are decoded: the
/// prefixes, the opcode, and the ModR/M byte once an operand has asked for
/// it. The operands of an instruction share one ModR/M byte.
#[derive(Clone, Copy, Debug, PartialEq, Eq, Structural)]
pub struct OperandDecodeState {
    pub prefix: OpPrefix,
    pub op: u8,
    pub modrm: Option<u8>,
}

impl OperandDecodeState {
    /// The state before any operand is decoded.
    pub open spec fn spec_initial(prefix: OpPrefix, op: u8) -> OperandDecodeState {
        OperandDecodeState { prefix, op, modrm: None }
    }

    /// The ModR/M byte, the index behind it and the state after it was
    /// asked for: the byte at `ip` on the first request, the same byte and
    /// the same `ip` on every later one.
    pub open spec fn spec_read_modrm(self, code: Seq<u8>, ip: int) -> Result<
        (u8, int, OperandDecodeState),
        DisassemblyError,
    > {
        match self.modrm {
            Some(b) => Ok((b, ip, self)),
            None => if 0 <= ip < code.len() {
                Ok((code[ip], ip + 1, OperandDecodeState { modrm: Some(code[ip]), ..self }))
            } else {
                Err(DisassemblyError::TruncatedInstruction { phase: DecodePhase::ReadModrm })
            },
        }
    }

    /// The state before any operand is decoded.
    pub fn initial(prefix: OpPrefix, op: u8) -> (r: Self)
        ensures
            r == Self::spec_initial(prefix, op),
    {
        OperandDecodeState { prefix, op, modrm: None }
    }

    /// The three fields of the ModR/M byte of the instruction. The byte is
    /// read at `ip` when it is first asked for, and `ip` then moves behind
    /// it. On failure nothing changes.
    pub fn read_modrm(&mut self, code: &[u8], ip: &mut usize) -> (r: Result<
        (u8, u8, u8),
        DisassemblyError,
    >)
        ensures
            match old(self).spec_read_modrm(code@, *old(ip) as int) {
                Ok((b, next, state)) => r == Ok::<(u8, u8, u8), DisassemblyError>(Operand::spec_modrm(b))
                    && *final(ip) == next && *final(self) == state,
                Err(e) => r == Err::<(u8, u8, u8), DisassemblyError>(e) && *final(ip) == *old(ip)
                    && *final(self) == *old(self),
            },
    {
        if let Some(b) = self.modrm {
            return Ok(Operand::modrm(b));
        }
        if *ip >= code.len() {
            return Err(DisassemblyError::TruncatedInstruction { phase: DecodePhase::ReadModrm });
        }
        let b: u8 = code[*ip];
        *ip += 1;
        self.modrm = Some(b);
        Ok(Operand::modrm(b))
    }
}

/// An operand of an instruction.
#[derive(Clone, Copy, Debug, PartialEq, Eq, Structural)]
pub enum Operand {
    Imm32(u32),
    Imm32s(i32),
    Imm8(u8),
    Memory(MemRef),
    Register(Reg),
}

impl Operand {
    /// The fields of a ModR/M byte: the mode in the high two bits, the
    /// register in the three bits below them, and the register or memory
    /// selector in the low three bits.
    pub open spec fn spec_modrm(b: u8) -> (u8, u8, u8) {
        (b / 64, (b / 8) % 8, b % 8)
    }

    /// The 32-bit register with the number `b`.
    pub open spec fn spec_register(b: u8) -> Reg {
        if b == 0 {
            Reg::EAX
        } else if b == 1 {
            Reg::ECX
        } else if b == 2 {
            Reg::EDX
        } else if b == 3 {
            Reg::EBX
        } else if b == 4 {
            Reg::ESP
        } else if b == 5 {
            Reg::EBP
        } else if b == 6 {
            Reg::ESI
        } else {
            Reg::EDI
        }
    }

    /// The register that `reg` stands for under the operand size: itself,
    /// or for EAX under a toggled size its low half AX. No other register
    /// has a 16-bit name here.
    pub open spec fn spec_maybe_toggle_reg_size(reg: Reg, toggle_operand_size: bool) -> Result<
        Reg,
        DisassemblyError,
    > {
        if !toggle_operand_size {
            Ok(reg)
        } else if reg == Reg::EAX {
            Ok(Reg::AX)
        } else {
            Err(DisassemblyError::UnsupportedAddressingForm)
        }
    }

    /// The byte at `ip`, and the index behind it.
    pub open spec fn spec_read1(code: Seq<u8>, ip: int) -> Result<(u8, int), DisassemblyError> {
        if 0 <= ip < code.len() {
            Ok((code[ip], ip + 1))
        } else {
            Err(DisassemblyError::TruncatedInstruction { phase: DecodePhase::Read1 })
        }
    }

    /// The little-endian word at `ip`, and the index behind it.
    pub open spec fn spec_read2(code: Seq<u8>, ip: int) -> Result<(u16, int), DisassemblyError> {
        if 0 <= ip && ip + 2 <= code.len() {
            Ok((spec_u16_le(code, ip) as u16, ip + 2))
        } else {
            Err(DisassemblyError::TruncatedInstruction { phase: DecodePhase::Read2 })
        }
    }

    /// The little-endian double word at `ip`, and the index behind it.
    pub open spec fn spec_read4(code: Seq<u8>, ip: int) -> Result<(u32, int), DisassemblyError> {
        if 0 <= ip && ip + 4 <= code.len() {
            Ok((spec_u32_le(code, ip) as u32, ip + 4))
        } else {
            Err(DisassemblyError::TruncatedInstruction { phase: DecodePhase::Read4 })
        }
    }

    /// An immediate of the operand size at `ip`: two bytes where the size
    /// is toggled, else four; taken as signed where `sign_extend` says so.
    pub open spec fn spec_read_n_32(
        code: Seq<u8>,
        ip: int,
        toggle_size: bool,
        sign_extend: bool,
    ) -> Result<(Operand, int), DisassemblyError> {
        if toggle_size {
            match Self::spec_read2(code, ip) {
                Ok((uw, next)) => Ok(
                    (
                        if sign_extend {
                            Operand::Imm32s(spec_signed16(uw as int) as i32)
                        } else {
                            Operand::Imm32(uw as u32)
                        },
                        next,
                    ),
                ),
                Err(e) => Err(e),
            }
        } else {
            match Self::spec_read4(code, ip) {
                Ok((ud, next)) => Ok(
                    (
                        if sign_extend {
                            Operand::Imm32s(spec_signed32(ud as int) as i32)
                        } else {
                            Operand::Imm32(ud)
                        },
                        next,
                    ),
                ),
                Err(e) => Err(e),
            }
        }
    }

    /// A byte at `ip`, sign-extended to 32 bits.
    pub open spec fn spec_read_bs(code: Seq<u8>, ip: int) -> Result<
        (Operand, int),
        DisassemblyError,
    > {
        match Self::spec_read1(code, ip) {
            Ok((b, next)) => Ok((Operand::Imm32s(spec_signed8(b as int) as i32), next)),
            Err(e) => Err(e),
        }
    }

    /// A place in memory whose address stands in the four bytes at `ip`.
    pub open spec fn spec_read_direct(code: Seq<u8>, ip: int) -> Result<
        (Operand, int),
        DisassemblyError,
    > {
        match Self::spec_read4(code, ip) {
            Ok((ud, next)) => Ok(
                (
                    Operand::Memory(MemRef::spec_displacement(spec_signed32(ud as int) as i32)),
                    next,
                ),
            ),
            Err(e) => Err(e),
        }
    }

    /// The register or the place in memory that a ModR/M byte with the
    /// fields `mode` and `rm` names, read with the bytes at `ip`.
    ///
    /// Three forms are decoded: a direct address (mode 0, `rm` 5, and the
    /// address size not toggled), a base register with a displacement of
    /// one byte (mode 1, but not `rm` 4, which announces a scale-index-base
    /// byte), and a register (mode 3). Every other form is unsupported.
    pub open spec fn spec_rm(
        code: Seq<u8>,
        ip: int,
        mode: u8,
        rm: u8,
        prefix: OpPrefix,
    ) -> Result<(Operand, int), DisassemblyError> {
        if mode == 0 {
            if rm == 5 && !prefix.toggle_address_size {
                Self::spec_read_direct(code, ip)
            } else {
                Err(DisassemblyError::UnsupportedAddressingForm)
            }
        } else if mode == 1 {
            if rm == 4 {
                Err(DisassemblyError::UnsupportedAddressingForm)
            } else {
                match Self::spec_read1(code, ip) {
                    Ok((disp8, next)) => Ok(
                        (
                            Operand::Memory(
                                MemRef::spec_base_plus_displacement(
                                    Self::spec_register(rm),
                                    spec_signed8(disp8 as int) as i32,
                                ),
                            ),
                            next,
                        ),
                    ),
                    Err(e) => Err(e),
                }
            }
        } else if mode == 3 {
            match Self::spec_maybe_toggle_reg_size(
                Self::spec_register(rm),
                prefix.toggle_operand_size,
            ) {
                Ok(reg) => Ok((Operand::Register(reg), ip)),
                Err(e) => Err(e),
            }
        } else {
            Err(DisassemblyError::UnsupportedAddressingForm)
        }
    }

    /// The operand that `desc` describes, the index behind it, and the
    /// decode state after it, where the bytes of the operand start at `ip`
    /// of `code` and `state` is the decode state before it.
    pub open spec fn spec_from_bytes(
        code: Seq<u8>,
        ip: int,
        desc: OperandDef,
        state: OperandDecodeState,
    ) -> Result<(Operand, int, OperandDecodeState), DisassemblyError> {
        match desc.method {
            AddressingMethod::E => match state.spec_read_modrm(code, ip) {
                Err(e) => Err(e),
                Ok((b, at, after)) => match Self::spec_rm(
                    code,
                    at,
                    Self::spec_modrm(b).0,
                    Self::spec_modrm(b).2,
                    state.prefix,
                ) {
                    Ok((operand, next)) => Ok((operand, next, after)),
                    Err(e) => Err(e),
                },
            },
            AddressingMethod::G => match state.spec_read_modrm(code, ip) {
                Err(e) => Err(e),
                Ok((b, at, after)) => match Self::spec_maybe_toggle_reg_size(
                    Self::spec_register(Self::spec_modrm(b).1),
                    state.prefix.toggle_operand_size,
                ) {
                    Ok(reg) => Ok((Operand::Register(reg), at, after)),
                    Err(e) => Err(e),
                },
            },
            AddressingMethod::I => match (
                match desc.ty {
                    OperandType::bs => Self::spec_read_bs(code, ip),
                    OperandType::v => Self::spec_read_n_32(
                        code,
                        ip,
                        state.prefix.toggle_operand_size,
                        false,
                    ),
                    OperandType::vs => Self::spec_read_n_32(
                        code,
                        ip,
                        state.prefix.toggle_operand_size,
                        true,
                    ),
                    _ => Err(DisassemblyError::UnsupportedAddressingForm),
                }
            ) {
                Ok((operand, next)) => Ok((operand, next, state)),
                Err(e) => Err(e),
            },
            AddressingMethod::J => match (
                match desc.ty {
                    OperandType::bs => Self::spec_read_bs(code, ip),
                    OperandType::v => Self::spec_read_n_32(
                        code,
                        ip,
                        state.prefix.toggle_operand_size,
                        false,
                    ),
                    _ => Err(DisassemblyError::UnsupportedAddressingForm),
                }
            ) {
                Ok((operand, next)) => Ok((operand, next, state)),
                Err(e) => Err(e),
            },
            AddressingMethod::O => match (
                match desc.ty {
                    OperandType::v => Self::spec_read_direct(code, ip),
                    _ => Err(DisassemblyError::UnsupportedAddressingForm),
                }
            ) {
                Ok((operand, next)) => Ok((operand, next, state)),
                Err(e) => Err(e),
            },
            AddressingMethod::Z => Ok(
                (Operand::Register(Self::spec_register(state.op % 8)), ip, state),
            ),
            AddressingMethod::Imp => match desc.ty {
                OperandType::eAX => match Self::spec_maybe_toggle_reg_size(
                    Reg::EAX,
                    state.prefix.toggle_operand_size,
                ) {
                    Ok(reg) => Ok((Operand::Register(reg), ip, state)),
                    Err(e) => Err(e),
                },
                OperandType::const1 => Ok((Operand::Imm32(1), ip, state)),
                _ => Err(DisassemblyError::UnsupportedAddressingForm),
            },
        }
    }

    /// Splits a ModR/M byte into its mode, register and r/m fields.
    pub fn modrm(b: u8) -> (r: (u8, u8, u8))
        ensures
            r == Self::spec_modrm(b),
            r.0 < 4,
            r.1 < 8,
            r.2 < 8,
    {
        (b / 64, (b / 8) % 8, b % 8)
    }

    /// The 32-bit register with the number `b`.
    pub fn register(b: u8) -> (r: Reg)
        requires
            b < 8,
        ensures
            r == Self::spec_register(b),
    {
        match b {
            0 => Reg::EAX,
            1 => Reg::ECX,
            2 => Reg::EDX,
            3 => Reg::EBX,
            4 => Reg::ESP,
            5 => Reg::EBP,
            6 => Reg::ESI,
            _ => Reg::EDI,
        }
    }

    /// The register that `reg` stands for under the operand size. A
    /// toggled size is supported for EAX alone.
    pub fn maybe_toggle_reg_size(reg: Reg, toggle_operand_size: bool) -> (r: Result<
        Reg,
        DisassemblyError,
    >)
        ensures
            r == Self::spec_maybe_toggle_reg_size(reg, toggle_operand_size),
    {
        if !toggle_operand_size {
            Ok(reg)
        } else {
            match reg {
                Reg::EAX => Ok(Reg::AX),
                _ => Err(DisassemblyError::UnsupportedAddressingForm),
            }
        }
    }

    /// Reads one byte at `ip` and moves `ip` behind it. On failure `ip`
    /// stays.
    pub fn read1(code: &[u8], ip: &mut usize) -> (r: Result<u8, DisassemblyError>)
        ensures
            match Self::spec_read1(code@, *old(ip) as int) {
                Ok((b, next)) => r == Ok::<u8, DisassemblyError>(b) && *final(ip) == next,
                Err(e) => r == Err::<u8, DisassemblyError>(e) && *final(ip) == *old(ip),
            },
    {
        match crate::bytes::read_u8(code, *ip) {
            Some(b) => {
                *ip += 1;
                Ok(b)
            },
            None => Err(DisassemblyError::TruncatedInstruction { phase: DecodePhase::Read1 }),
        }
    }

    /// Reads a little-endian word at `ip` and moves `ip` behind it. On
    /// failure `ip` stays.
    pub fn read2(code: &[u8], ip: &mut usize) -> (r: Result<u16, DisassemblyError>)
        ensures
            match Self::spec_read2(code@, *old(ip) as int) {
                Ok((w, next)) => r == Ok::<u16, DisassemblyError>(w) && *final(ip) == next,
                Err(e) => r == Err::<u16, DisassemblyError>(e) && *final(ip) == *old(ip),
            },
    {
        match read_u16_le(code, *ip) {
            Some(w) => {
                *ip += 2;
                Ok(w)
            },
            None => Err(DisassemblyError::TruncatedInstruction { phase: DecodePhase::Read2 }),
        }
    }

    /// Reads a little-endian double word at `ip` and moves `ip` behind it.
    /// On failure `ip` stays.
    pub fn read4(code: &[u8], ip: &mut usize) -> (r: Result<u32, DisassemblyError>)
        ensures
            match Self::spec_read4(code@, *old(ip) as int) {
                Ok((d, next)) => r == Ok::<u32, DisassemblyError>(d) && *final(ip) == next,
                Err(e) => r == Err::<u32, DisassemblyError>(e) && *final(ip) == *old(ip),
            },
    {
        match read_u32_le(code, *ip) {
            Some(d) => {
                *ip += 4;
                Ok(d)
            },
            None => Err(DisassemblyError::TruncatedInstruction { phase: DecodePhase::Read4 }),
        }
    }

    /// Reads an immediate of the operand size at `ip` and moves `ip` behind
    /// it. On failure `ip` stays.
    pub fn read_n_32(code: &[u8], ip: &mut usize, toggle_size: bool, sign_extend: bool) -> (r:
        Result<Operand, DisassemblyError>)
        ensures
            match Self::spec_read_n_32(code@, *old(ip) as int, toggle_size, sign_extend) {
                Ok((operand, next)) => r == Ok::<Operand, DisassemblyError>(operand) && *final(ip)
                    == next,
                Err(e) => r == Err::<Operand, DisassemblyError>(e) && *final(ip) == *old(ip),
            },
    {
        if toggle_size {
            let uw: u16 = Self::read2(code, ip)?;
            if sign_extend {
                Ok(Operand::Imm32s(signed16(uw) as i32))
            } else {
                Ok(Operand::Imm32(uw as u32))
            }
        } else {
            let ud: u32 = Self::read4(code, ip)?;
            if sign_extend {
                Ok(Operand::Imm32s(signed32(ud)))
            } else {
                Ok(Operand::Imm32(ud))
            }
        }
    }

    fn read_bs(code: &[u8], ip: &mut usize) -> (r: Result<Operand, DisassemblyError>)
        ensures
            match Self::spec_read_bs(code@, *old(ip) as int) {
                Ok((operand, next)) => r == Ok::<Operand, DisassemblyError>(operand) && *final(ip)
                    == next,
                Err(e) => r == Err::<Operand, DisassemblyError>(e) && *final(ip) == *old(ip),
            },
    {
        let b: u8 = Self::read1(code, ip)?;
        Ok(Operand::Imm32s(signed8(b) as i32))
    }

    fn read_direct(code: &[u8], ip: &mut usize) -> (r: Result<Operand, DisassemblyError>)
        ensures
            match Self::spec_read_direct(code@, *old(ip) as int) {
                Ok((operand, next)) => r == Ok::<Operand, DisassemblyError>(operand) && *final(ip)
                    == next,
                Err(e) => r == Err::<Operand, DisassemblyError>(e) && *final(ip) == *old(ip),
            },
    {
        let ud: u32 = Self::read4(code, ip)?;
        Ok(Operand::Memory(MemRef::displacement(signed32(ud))))
    }

    fn read_rm(code: &[u8], ip: &mut usize, mode: u8, rm: u8, prefix: OpPrefix) -> (r: Result<
        Operand,
        DisassemblyError,
    >)
        requires
            rm < 8,
        ensures
            match Self::spec_rm(code@, *old(ip) as int, mode, rm, prefix) {
                Ok((operand, next)) => r == Ok::<Operand, DisassemblyError>(operand) && *final(ip)
                    == next,
                Err(e) => r == Err::<Operand, DisassemblyError>(e) && *final(ip) == *old(ip),
            },
    {
        if mode == 0 {
            if rm == 5 && !prefix.toggle_address_size {
                Self::read_direct(code, ip)
            } else {
                Err(DisassemblyError::UnsupportedAddressingForm)
            }
        } else if mode == 1 {
            if rm == 4 {
                Err(DisassemblyError::UnsupportedAddressingForm)
            } else {
                let base = Self::register(rm);
                let disp8: u8 = Self::read1(code, ip)?;
                Ok(Operand::Memory(MemRef::base_plus_displacement(base, signed8(disp8) as i32)))
            }
        } else if mode == 3 {
            let reg = Self::maybe_toggle_reg_size(Self::register(rm), prefix.toggle_operand_size)?;
            Ok(Operand::Register(reg))
        } else {
            Err(DisassemblyError::UnsupportedAddressingForm)
        }
    }

    /// Decodes the operand that `desc` describes from the bytes at `ip`,
    /// and moves `ip` behind them.
    ///
    /// `state` holds the prefixes and the opcode of the instruction, and
    /// its ModR/M byte once an operand has read it. On failure `ip` and
    /// `state` stay as they were.
    pub fn from_bytes(
        code: &[u8],
        ip: &mut usize,
        desc: &OperandDef,
        state: &mut OperandDecodeState,
    ) -> (r: Result<Operand, DisassemblyError>)
        ensures
            match Self::spec_from_bytes(code@, *old(ip) as int, *desc, *old(state)) {
                Ok((operand, next, after)) => r == Ok::<Operand, DisassemblyError>(operand)
                    && *final(ip) == next && *final(state) == after,
                Err(e) => r == Err::<Operand, DisassemblyError>(e) && *final(ip) == *old(ip)
                    && *final(state) == *old(state),
            },
    {
        let mut at: usize = *ip;
        let mut after: OperandDecodeState = *state;
        let prefix: OpPrefix = state.prefix;
        let operand: Operand = match desc.method {
            AddressingMethod::E => {
                let (mode, _reg, rm) = after.read_modrm(code, &mut at)?;
                Self::read_rm(code, &mut at, mode, rm, prefix)?
            },
            AddressingMethod::G => {
                let (_mode, reg, _rm) = after.read_modrm(code, &mut at)?;
                Operand::Register(
                    Self::maybe_toggle_reg_size(Self::register(reg), prefix.toggle_operand_size)?,
                )
            },
            AddressingMethod::I => match desc.ty {
                OperandType::bs => Self::read_bs(code, &mut at)?,
                OperandType::v => Self::read_n_32(
                    code,
                    &mut at,
                    prefix.toggle_operand_size,
                    false,
                )?,
                OperandType::vs => Self::read_n_32(
                    code,
                    &mut at,
                    prefix.toggle_operand_size,
                    true,
                )?,
                _ => {
                    return Err(DisassemblyError::UnsupportedAddressingForm);
                },
            },
            AddressingMethod::J => match desc.ty {
                OperandType::bs => Self::read_bs(code, &mut at)?,
                OperandType::v => Self::read_n_32(
                    code,
                    &mut at,
                    prefix.toggle_operand_size,
                    false,
                )?,
                _ => {
                    return Err(DisassemblyError::UnsupportedAddressingForm);
                },
            },
            AddressingMethod::O => match desc.ty {
                OperandType::v => Self::read_direct(code, &mut at)?,
                _ => {
                    return Err(DisassemblyError::UnsupportedAddressingForm);
                },
            },
            AddressingMethod::Z => Operand::Register(Self::register(state.op % 8)),
            AddressingMethod::Imp => match desc.ty {
                OperandType::eAX => Operand::Register(
                    Self::maybe_toggle_reg_size(Reg::EAX, prefix.toggle_operand_size)?,
                ),
                OperandType::const1 => Operand::Imm32(1),
                _ => {
                    return Err(DisassemblyError::UnsupportedAddressingForm);
                },
            },
        };
        *ip = at;
        *state = after;
        Ok(operand)
    }
}

} // verus!
