//! Instructions, and how a run of bytes is taken apart into them.

use super::error::{DecodePhase, DisassemblyError};
use super::operand::{OpPrefix, Operand, OperandDecodeState, OperandDef};
use super::table::{
    opcode_table, spec_base_opcode, spec_lookup_op, spec_uses_extension, uses_extension,
    Mnemonic, OpCodeDef,
};
use vstd::prelude::*;

verus! {

/// A decoded instruction: what it does, and its operands in order.
#[derive(Debug)]
pub struct Instr {
    pub mnemonic: Mnemonic,
    pub operands: Vec<Operand>,
}

/// An instruction as a value of specifications.
pub struct InstrView {
    pub mnemonic: Mnemonic,
    pub operands: Seq<Operand>,
}

impl View for Instr {
    type V = InstrView;

    open spec fn view(&self) -> InstrView {
        InstrView { mnemonic: self.mnemonic, operands: self.operands@ }
    }
}

/// The instructions of `v` as values of specifications.
pub open spec fn spec_views(v: Seq<Instr>) -> Seq<InstrView> {
    v.map_values(|i: Instr| i@)
}

/// `first`, and then what `rest` holds.
pub open spec fn spec_after<T>(first: Seq<T>, rest: Result<(Seq<T>, int), DisassemblyError>)
    -> Result<(Seq<T>, int), DisassemblyError> {
    match rest {
        Ok((items, end)) => Ok((first + items, end)),
        Err(e) => Err(e),
    }
}

impl Instr {
    /// The opcode byte at `ip` with its extension, and the index behind the
    /// opcode byte. The extension is the reg field of the byte after the
    /// opcode where the opcode shares its byte with others, and is 0 for
    /// every other opcode. The byte after the opcode is looked at, not
    /// passed over.
    pub open spec fn spec_read_op(code: Seq<u8>, ip: int) -> Result<
        ((u8, u8), int),
        DisassemblyError,
    > {
        if !(0 <= ip < code.len()) {
            Err(DisassemblyError::TruncatedInstruction { phase: DecodePhase::ReadOp })
        } else if !spec_uses_extension(code[ip]) {
            Ok(((code[ip], 0), ip + 1))
        } else if ip + 1 < code.len() {
            Ok(((code[ip], Operand::spec_modrm(code[ip + 1]).1), ip + 1))
        } else {
            Err(DisassemblyError::TruncatedInstruction { phase: DecodePhase::DecodeOpExt })
        }
    }

    /// The operands that `defs` describes from index `k` on, and the index
    /// behind the last of them, where the bytes of operand `k` start at
    /// `ip` and `state` is the decode state before it.
    pub open spec fn spec_operands(
        code: Seq<u8>,
        ip: int,
        defs: Seq<OperandDef>,
        k: int,
        state: OperandDecodeState,
    ) -> Result<(Seq<Operand>, int), DisassemblyError>
        decreases defs.len() - k,
    {
        if k < 0 || k >= defs.len() {
            Ok((Seq::empty(), ip))
        } else {
            match Operand::spec_from_bytes(code, ip, defs[k], state) {
                Err(e) => Err(e),
                Ok((operand, next, after)) => spec_after(
                    seq![operand],
                    Self::spec_operands(code, next, defs, k + 1, after),
                ),
            }
        }
    }

    /// The instruction at `ip` of `code`, and the index behind it: the
    /// prefix bytes, the opcode byte, and the operands that the opcode
    /// table gives the opcode.
    #[verifier::opaque]
    pub open spec fn spec_decode_one(code: Seq<u8>, ip: int) -> Result<
        (InstrView, int),
        DisassemblyError,
    > {
        let (prefix, at) = OpPrefix::spec_from_bytes(code, ip);
        match Self::spec_read_op(code, at) {
            Err(e) => Err(e),
            Ok(((op, ext), behind)) => match spec_lookup_op(op, ext) {
                None => Err(
                    DisassemblyError::UnknownOpcode {
                        offset: at as usize,
                        opcode: op,
                        extension: ext,
                    },
                ),
                Some(def) => match Self::spec_operands(
                    code,
                    behind,
                    def.operands,
                    0,
                    OperandDecodeState::spec_initial(prefix, op),
                ) {
                    Err(e) => Err(e),
                    Ok((operands, end)) => Ok(
                        (InstrView { mnemonic: def.mnemonic, operands }, end),
                    ),
                },
            },
        }
    }

    /// The instructions of `code` from `ip` to its end, or the failure of
    /// the first that cannot be decoded.
    pub open spec fn spec_disassemble(code: Seq<u8>, ip: int) -> Result<
        Seq<InstrView>,
        DisassemblyError,
    >
        decreases code.len() - ip,
    {
        if ip < 0 || ip >= code.len() {
            Ok(Seq::empty())
        } else {
            match Self::spec_decode_one(code, ip) {
                Err(e) => Err(e),
                Ok((instr, next)) => {
                    proof {
                        lemma_decode_one_advances(code, ip);
                    }
                    match Self::spec_disassemble(code, next) {
                        Ok(rest) => Ok(seq![instr] + rest),
                        Err(e) => Err(e),
                    }
                },
            }
        }
    }

    /// Reads the opcode byte at `ip` and moves `ip` behind it. The
    /// extension comes with it: see `spec_read_op`. On failure `ip` stays.
    pub fn read_op(code: &[u8], ip: &mut usize) -> (r: Result<(u8, u8), DisassemblyError>)
        ensures
            match Self::spec_read_op(code@, *old(ip) as int) {
                Ok((op, next)) => r == Ok::<(u8, u8), DisassemblyError>(op) && *final(ip) == next,
                Err(e) => r == Err::<(u8, u8), DisassemblyError>(e) && *final(ip) == *old(ip),
            },
    {
        if *ip >= code.len() {
            return Err(DisassemblyError::TruncatedInstruction { phase: DecodePhase::ReadOp });
        }
        let op: u8 = code[*ip];
        let ext: u8 = if uses_extension(op) {
            if code.len() - *ip < 2 {
                return Err(
                    DisassemblyError::TruncatedInstruction { phase: DecodePhase::DecodeOpExt },
                );
            }
            Operand::modrm(code[*ip + 1]).1
        } else {
            0
        };
        *ip += 1;
        Ok((op, ext))
    }

    /// Looks up the description of the opcode `op.0` with the extension
    /// `op.1`. Where the table does not list the pair, the opcode may hold
    /// a register in its low three bits: the lookup is tried again with
    /// those bits cleared and the extension 0.
    ///
    /// `at` is the offset of the opcode byte; the error carries it.
    pub fn lookup_op(op: (u8, u8), at: usize) -> (r: Result<OpCodeDef, DisassemblyError>)
        ensures
            r is Ok <==> spec_lookup_op(op.0, op.1) is Some,
            r matches Ok(def) ==> spec_lookup_op(op.0, op.1) == Some(def@),
            r matches Err(e) ==> e == (DisassemblyError::UnknownOpcode {
                offset: at,
                opcode: op.0,
                extension: op.1,
            }),
    {
        if let Some(def) = opcode_table(op.0, op.1) {
            return Ok(def);
        }
        let base_op: u8 = op.0 - op.0 % 8;
        if let Some(def) = opcode_table(base_op, 0) {
            return Ok(def);
        }
        Err(DisassemblyError::UnknownOpcode { offset: at, opcode: op.0, extension: op.1 })
    }

    /// Decodes the instruction at `ip` and moves `ip` behind it. On failure
    /// `ip` stays.
    pub fn decode_one(code: &[u8], ip: &mut usize) -> (r: Result<Instr, DisassemblyError>)
        ensures
            match Self::spec_decode_one(code@, *old(ip) as int) {
                Ok((instr, next)) => r matches Ok(i) && i@ == instr && *final(ip) == next,
                Err(e) => r matches Err(f) && f == e && *final(ip) == *old(ip),
            },
    {
        reveal(Instr::spec_decode_one);
        let mut at: usize = *ip;
        let prefix = OpPrefix::from_bytes(code, &mut at);
        let op_at: usize = at;
        let op = Self::read_op(code, &mut at)?;
        let def = Self::lookup_op(op, op_at)?;
        let mut operands: Vec<Operand> = Vec::new();
        let mut state = OperandDecodeState::initial(prefix, op.0);
        let ghost whole = Self::spec_operands(code@, at as int, def.operands@, 0, state);
        let ghost goal = Self::spec_decode_one(code@, *old(ip) as int);
        let mut k: usize = 0;
        while k < def.operands.len()
            invariant
                k <= def.operands@.len(),
                *ip == *old(ip),
                goal == Self::spec_decode_one(code@, *old(ip) as int),
                goal == match whole {
                    Ok((items, end)) => Ok::<(InstrView, int), DisassemblyError>(
                        (InstrView { mnemonic: def.mnemonic, operands: items }, end),
                    ),
                    Err(e) => Err::<(InstrView, int), DisassemblyError>(e),
                },
                spec_after(
                    operands@,
                    Self::spec_operands(code@, at as int, def.operands@, k as int, state),
                ) == whole,
            decreases def.operands@.len() - k,
        {
            let ghost before = operands@;
            let ghost rest = Self::spec_operands(code@, at as int, def.operands@, k as int, state);
            let operand = Operand::from_bytes(code, &mut at, &def.operands[k], &mut state)?;
            operands.push(operand);
            k += 1;
            proof {
                let tail = Self::spec_operands(code@, at as int, def.operands@, k as int, state);
                assert(rest == spec_after(seq![operand], tail));
                if let Ok((items, end)) = tail {
                    assert(before + (seq![operand] + items) =~= operands@ + items);
                }
            }
        }
        proof {
            assert(operands@ + Seq::<Operand>::empty() =~= operands@);
        }
        *ip = at;
        Ok(Instr { mnemonic: def.mnemonic, operands })
    }

    /// Decodes all of `code` into instructions, one after another from the
    /// first byte. Fails with the failure of the first instruction that
    /// cannot be decoded.
    pub fn disassemble(code: &[u8]) -> (r: Result<Vec<Instr>, DisassemblyError>)
        ensures
            match Self::spec_disassemble(code@, 0) {
                Ok(instrs) => r matches Ok(v) && spec_views(v@) == instrs,
                Err(e) => r matches Err(f) && f == e,
            },
    {
        let mut instrs: Vec<Instr> = Vec::new();
        let mut ip: usize = 0;
        let ghost whole = Self::spec_disassemble(code@, 0);
        while ip < code.len()
            invariant
                ip <= code@.len(),
                whole == Self::spec_disassemble(code@, 0),
                match Self::spec_disassemble(code@, ip as int) {
                    Ok(rest) => whole == Ok::<Seq<InstrView>, DisassemblyError>(
                        spec_views(instrs@) + rest,
                    ),
                    Err(e) => whole == Err::<Seq<InstrView>, DisassemblyError>(e),
                },
            decreases code@.len() - ip,
        {
            let ghost before = spec_views(instrs@);
            let ghost start = ip as int;
            proof {
                lemma_decode_one_advances(code@, start);
            }
            let instr = Self::decode_one(code, &mut ip)?;
            let ghost view = instr@;
            instrs.push(instr);
            proof {
                assert(spec_views(instrs@) =~= before + seq![view]);
                if let Ok(rest) = Self::spec_disassemble(code@, ip as int) {
                    assert(before + (seq![view] + rest) =~= (before + seq![view]) + rest);
                }
            }
        }
        proof {
            assert(spec_views(instrs@) + Seq::<InstrView>::empty() =~= spec_views(instrs@));
        }
        Ok(instrs)
    }
}

/// The prefix scan ends at or behind the index it starts at, and within
/// the code.
pub proof fn lemma_prefix_scan_bounds(code: Seq<u8>, ip: int, prefix: OpPrefix)
    requires
        0 <= ip <= code.len(),
    ensures
        ip <= OpPrefix::spec_scan(code, ip, prefix).1 <= code.len(),
    decreases code.len() - ip,
{
    if ip < code.len() && OpPrefix::spec_is_prefix(code[ip]) {
        lemma_prefix_scan_bounds(code, ip + 1, prefix.spec_apply(code[ip]));
    }
}

/// Reading an operand never moves back, and never moves beyond the code.
pub proof fn lemma_operand_advances(
    code: Seq<u8>,
    ip: int,
    desc: OperandDef,
    state: OperandDecodeState,
)
    requires
        0 <= ip <= code.len(),
    ensures
        Operand::spec_from_bytes(code, ip, desc, state) matches Ok((_, next, _)) ==> ip <= next
            <= code.len(),
{
}

/// Reading operands never moves back, and never moves beyond the code.
pub proof fn lemma_operands_advance(
    code: Seq<u8>,
    ip: int,
    defs: Seq<OperandDef>,
    k: int,
    state: OperandDecodeState,
)
    requires
        0 <= ip <= code.len(),
    ensures
        Instr::spec_operands(code, ip, defs, k, state) matches Ok((_, end)) ==> ip <= end
            <= code.len(),
    decreases defs.len() - k,
{
    if 0 <= k < defs.len() {
        lemma_operand_advances(code, ip, defs[k], state);
        if let Ok((_, next, after)) = Operand::spec_from_bytes(code, ip, defs[k], state) {
            lemma_operands_advance(code, next, defs, k + 1, after);
        }
    }
}

/// An instruction takes at least one byte, and ends within the code.
pub proof fn lemma_decode_one_advances(code: Seq<u8>, ip: int)
    requires
        0 <= ip <= code.len(),
    ensures
        Instr::spec_decode_one(code, ip) matches Ok((_, next)) ==> ip < next <= code.len(),
{
    reveal(Instr::spec_decode_one);
    let (prefix, at) = OpPrefix::spec_from_bytes(code, ip);
    lemma_prefix_scan_bounds(code, ip, OpPrefix::spec_default());
    if let Ok(((op, ext), behind)) = Instr::spec_read_op(code, at) {
        if let Some(def) = spec_lookup_op(op, ext) {
            lemma_operands_advance(
                code,
                behind,
                def.operands,
                0,
                OperandDecodeState::spec_initial(prefix, op),
            );
        }
    }
}

/// Each of the eight bytes from `0x58` on decodes as a pop of the register
/// that its low three bits name, though the opcode table lists the first
/// of them alone.
pub proof fn lemma_pop_decodes(code: Seq<u8>, ip: int, r: u8)
    requires
        0 <= ip < code.len(),
        r < 8,
        code[ip] == 0x58 + r,
    ensures
        Instr::spec_decode_one(code, ip) == Ok::<(InstrView, int), DisassemblyError>(
            (
                InstrView {
                    mnemonic: Mnemonic::Pop,
                    operands: seq![Operand::Register(Operand::spec_register(r))],
                },
                ip + 1,
            ),
        ),
{
    reveal(Instr::spec_decode_one);
    reveal_with_fuel(Instr::spec_operands, 3);
    let op = code[ip];
    assert(!OpPrefix::spec_is_prefix(op));
    assert(!spec_uses_extension(op));
    assert(spec_base_opcode(op) == 0x58);
    assert(op % 8 == r);
    let def = spec_lookup_op(op, 0)->0;
    assert(def.operands.len() == 1);
    let state = OperandDecodeState::spec_initial(OpPrefix::spec_default(), op);
    let operands = Instr::spec_operands(code, ip + 1, def.operands, 0, state);
    assert(operands matches Ok((items, end)) && end == ip + 1 && items
        =~= seq![Operand::Register(Operand::spec_register(r))]);
}

/// Two results of disassembling the same bytes hold the same instructions,
/// or the same failure.
pub proof fn lemma_disassemble_deterministic(
    code: Seq<u8>,
    first: Result<Vec<Instr>, DisassemblyError>,
    second: Result<Vec<Instr>, DisassemblyError>,
)
    requires
        match Instr::spec_disassemble(code, 0) {
            Ok(instrs) => first matches Ok(v) && spec_views(v@) == instrs,
            Err(e) => first matches Err(f) && f == e,
        },
        match Instr::spec_disassemble(code, 0) {
            Ok(instrs) => second matches Ok(v) && spec_views(v@) == instrs,
            Err(e) => second matches Err(f) && f == e,
        },
    ensures
        first is Ok <==> second is Ok,
        first matches Ok(a) ==> second matches Ok(b) && spec_views(a@) == spec_views(b@),
        first matches Err(e) ==> second == Err::<Vec<Instr>, DisassemblyError>(e),
{
}

} // verus!
