//! A block of disassembled code with the address of each instruction.

use super::error::DisassemblyError;
use super::instr::{lemma_decode_one_advances, spec_views, Instr, InstrView};
use vstd::prelude::*;

verus! {

/// The instructions of one fragment of code, which starts at the address
/// `start_addr` and is `size` bytes long.
pub struct ByteCode {
    pub start_addr: u32,
    pub size: u32,
    pub instrs: Vec<Instr>,
    /// For each instruction the offset of its first byte in the fragment.
    pub offsets: Vec<u32>,
}

/// A block of code as a value of specifications.
pub struct ByteCodeView {
    pub start_addr: u32,
    pub size: u32,
    pub instrs: Seq<InstrView>,
    pub offsets: Seq<u32>,
}

impl View for ByteCode {
    type V = ByteCodeView;

    open spec fn view(&self) -> ByteCodeView {
        ByteCodeView {
            start_addr: self.start_addr,
            size: self.size,
            instrs: spec_views(self.instrs@),
            offsets: self.offsets@,
        }
    }
}

impl ByteCodeView {
    /// The offset behind instruction `i`: the offset of the next
    /// instruction, or the size of the block behind the last.
    pub open spec fn spec_end_of(self, i: int) -> int {
        if i + 1 < self.offsets.len() {
            self.offsets[i + 1] as int
        } else {
            self.size as int
        }
    }

    /// The address behind instruction `i`.
    pub open spec fn spec_next(self, i: int) -> u32 {
        (self.start_addr + self.spec_end_of(i)) as u32
    }

    /// Every instruction has its offset, the offsets lie in the block, and
    /// the block lies in the address space.
    pub open spec fn wf(self) -> bool {
        &&& self.offsets.len() == self.instrs.len()
        &&& self.start_addr + self.size <= u32::MAX
        &&& forall|i: int| 0 <= i < self.offsets.len() ==> (#[trigger] self.offsets[i]) < self.size
    }

    /// The block is what `code` disassembles to: instruction `i` is the
    /// one that `code` holds at offset `i`, the first starts at 0, each
    /// starts where the one before it ends, and the last ends with `code`.
    pub open spec fn spec_decodes(self, code: Seq<u8>) -> bool {
        &&& self.size == code.len()
        &&& self.offsets.len() == self.instrs.len()
        &&& self.instrs.len() > 0 ==> self.offsets[0] == 0
        &&& forall|i: int|
            0 <= i < self.instrs.len() ==> Instr::spec_decode_one(code, self.offsets[i] as int)
                == Ok::<(InstrView, int), DisassemblyError>(
                (#[trigger] self.instrs[i], self.spec_end_of(i)),
            )
    }
}

impl ByteCode {
    /// Disassembles `code`, which is to stand at the address `start_addr`.
    /// Fails with the failure of the first instruction that cannot be
    /// decoded.
    pub fn disassemble(code: &[u8], start_addr: u32) -> (r: Result<ByteCode, DisassemblyError>)
        requires
            start_addr + code@.len() <= u32::MAX,
        ensures
            match Instr::spec_disassemble(code@, 0) {
                Ok(instrs) => r matches Ok(bc) && bc@.instrs == instrs && bc@.wf()
                    && bc@.spec_decodes(code@) && bc.start_addr == start_addr,
                Err(e) => r matches Err(f) && f == e,
            },
    {
        let mut instrs: Vec<Instr> = Vec::new();
        let mut offsets: Vec<u32> = Vec::new();
        let mut ip: usize = 0;
        let ghost whole = Instr::spec_disassemble(code@, 0);
        while ip < code.len()
            invariant
                ip <= code@.len(),
                start_addr + code@.len() <= u32::MAX,
                whole == Instr::spec_disassemble(code@, 0),
                match Instr::spec_disassemble(code@, ip as int) {
                    Ok(rest) => whole == Ok::<Seq<InstrView>, DisassemblyError>(
                        spec_views(instrs@) + rest,
                    ),
                    Err(e) => whole == Err::<Seq<InstrView>, DisassemblyError>(e),
                },
                offsets@.len() == instrs@.len(),
                instrs@.len() > 0 ==> offsets@[0] == 0,
                instrs@.len() == 0 ==> ip == 0,
                forall|i: int| 0 <= i < offsets@.len() ==> (#[trigger] offsets@[i]) < ip,
                forall|i: int|
                    0 <= i < instrs@.len() ==> Instr::spec_decode_one(
                        code@,
                        offsets@[i] as int,
                    ) == Ok::<(InstrView, int), DisassemblyError>(
                        (
                            (#[trigger] instrs@[i])@,
                            if i + 1 < offsets@.len() {
                                offsets@[i + 1] as int
                            } else {
                                ip as int
                            },
                        ),
                    ),
            decreases code@.len() - ip,
        {
            let ghost before = spec_views(instrs@);
            let ghost old_instrs = instrs@;
            let ghost old_offsets = offsets@;
            let start: usize = ip;
            proof {
                lemma_decode_one_advances(code@, start as int);
            }
            let instr = Instr::decode_one(code, &mut ip)?;
            let ghost view = instr@;
            instrs.push(instr);
            offsets.push(start as u32);
            proof {
                assert(spec_views(instrs@) =~= before + seq![view]);
                if let Ok(rest) = Instr::spec_disassemble(code@, ip as int) {
                    assert(before + (seq![view] + rest) =~= (before + seq![view]) + rest);
                }
                assert forall|i: int| 0 <= i < instrs@.len() implies Instr::spec_decode_one(
                    code@,
                    offsets@[i] as int,
                ) == Ok::<(InstrView, int), DisassemblyError>(
                    (
                        (#[trigger] instrs@[i])@,
                        if i + 1 < offsets@.len() {
                            offsets@[i + 1] as int
                        } else {
                            ip as int
                        },
                    ),
                ) by {
                    if i < old_instrs.len() {
                        assert(instrs@[i] == old_instrs[i]);
                        assert(offsets@[i] == old_offsets[i]);
                    }
                }
            }
        }
        proof {
            assert(spec_views(instrs@) + Seq::<InstrView>::empty() =~= spec_views(instrs@));
        }
        let bc = ByteCode { start_addr, size: code.len() as u32, instrs, offsets };
        proof {
            assert forall|i: int| 0 <= i < bc@.instrs.len() implies Instr::spec_decode_one(
                code@,
                bc@.offsets[i] as int,
            ) == Ok::<(InstrView, int), DisassemblyError>(
                (#[trigger] bc@.instrs[i], bc@.spec_end_of(i)),
            ) by {
                assert(bc@.instrs[i] == bc.instrs@[i]@);
            }
        }
        Ok(bc)
    }

    /// The address of instruction `i`.
    pub fn address_of(&self, i: usize) -> (r: u32)
        requires
            self@.wf(),
            i < self.instrs@.len(),
        ensures
            r == self.start_addr + self.offsets@[i as int],
    {
        self.start_addr + self.offsets[i]
    }

    /// The address behind instruction `i`.
    pub fn next_address(&self, i: usize) -> (r: u32)
        requires
            self@.wf(),
            i < self.instrs@.len(),
        ensures
            r == self@.spec_next(i as int),
    {
        let end: u32 = if i < self.offsets.len() - 1 {
            self.offsets[i + 1]
        } else {
            self.size
        };
        proof {
            if i + 1 < self.offsets@.len() {
                assert(self@.offsets[i + 1] < self.size);
            }
        }
        self.start_addr + end
    }
}

} // verus!
