//! A decoded shape: the records of a code buffer, in order, each with the
//! offset it stands at.

use super::error::{DecodeError, DecodeErrorKind};
use super::instr::{lemma_record_length, Instr};
use super::unknown::TrailerUnknown;
use vstd::prelude::*;

verus! {

/// The offset of the first record that cannot be decoded when the records
/// of `code` are taken one after another from `at` on; `None` where they
/// can all be decoded, up to the end of `code`.
pub open spec fn spec_first_fault(code: Seq<u8>, at: int) -> Option<int>
    decreases code.len() - at,
{
    if at < 0 || at >= code.len() {
        None
    } else if Instr::spec_fault(code.skip(at)) is Some {
        Some(at)
    } else {
        proof {
            lemma_record_length(code.skip(at));
        }
        spec_first_fault(code, at + Instr::spec_len(code.skip(at)))
    }
}

/// The records of a shape, for taking a shape apart and looking at it.
pub struct CpuShape {
    /// The name of the file that the shape was made from. Decoding leaves
    /// it empty.
    pub source: String,
    /// The records, in the order in which they stand in the code.
    pub instrs: Vec<Instr>,
    /// For each record the offset of its tag byte in the code.
    pub offsets: Vec<usize>,
}

impl CpuShape {
    /// Where record `i` has to start: at 0, or where the record before it
    /// ends.
    pub open spec fn spec_start(&self, i: int) -> int {
        if i <= 0 {
            0
        } else {
            self.offsets@[i - 1] as int + self.instrs@[i - 1].spec_size()
        }
    }

    /// Record `i` stands where the one before it ends, lies within `code`,
    /// and is what `code` holds there.
    pub open spec fn spec_placed(&self, code: Seq<u8>, i: int) -> bool {
        &&& self.offsets@[i] as int == self.spec_start(i)
        &&& self.offsets@[i] < code.len()
        &&& self.instrs@[i].spec_decodes(code.skip(self.offsets@[i] as int))
        &&& 1 <= self.instrs@[i].spec_size()
        &&& self.offsets@[i] + self.instrs@[i].spec_size() <= code.len()
    }

    /// The records are those of `code`, from offset 0 on, without a gap and
    /// without an overlap.
    pub open spec fn wf(&self, code: Seq<u8>) -> bool {
        &&& self.offsets@.len() == self.instrs@.len()
        &&& forall|i: int| 0 <= i < self.instrs@.len() ==> #[trigger] self.spec_placed(code, i)
    }

    /// The offset behind the last record.
    pub open spec fn spec_end(&self) -> int {
        self.spec_start(self.instrs@.len() as int)
    }

    /// No record is a trailer.
    pub open spec fn spec_strict(&self) -> bool {
        forall|i: int|
            0 <= i < self.instrs@.len() ==> !(#[trigger] self.instrs@[i] is TrailerUnknown)
    }

    /// A shape without records.
    pub fn empty() -> (r: Self)
        ensures
            r.instrs@.len() == 0,
            r.offsets@.len() == 0,
            r.source@.len() == 0,
    {
        CpuShape { source: String::new(), instrs: Vec::new(), offsets: Vec::new() }
    }

    /// The offset behind the last record.
    fn end(&self) -> (r: usize)
        requires
            self.offsets@.len() == self.instrs@.len(),
            self.spec_end() <= usize::MAX,
        ensures
            r == self.spec_end(),
    {
        let n: usize = self.instrs.len();
        if n == 0 {
            0
        } else {
            self.offsets[n - 1] + self.instrs[n - 1].size()
        }
    }

    /// Adds `instr` behind the last record.
    fn push(&mut self, instr: Instr, offset: usize, Ghost(code): Ghost<Seq<u8>>)
        requires
            old(self).wf(code),
            offset == old(self).spec_end(),
            offset < code.len(),
            instr.spec_decodes(code.skip(offset as int)),
            1 <= instr.spec_size(),
            offset + instr.spec_size() <= code.len(),
        ensures
            final(self).wf(code),
            final(self).source == old(self).source,
            final(self).instrs@ == old(self).instrs@.push(instr),
            final(self).offsets@ == old(self).offsets@.push(offset),
            final(self).spec_end() == offset + instr.spec_size(),
    {
        let ghost before = *self;
        self.instrs.push(instr);
        self.offsets.push(offset);
        proof {
            let n = before.instrs@.len() as int;
            assert forall|i: int| 0 <= i < self.instrs@.len() implies #[trigger] self.spec_placed(
                code,
                i,
            ) by {
                if i < n {
                    assert(before.spec_placed(code, i));
                    assert(self.instrs@[i] == before.instrs@[i]);
                    assert(self.offsets@[i] == before.offsets@[i]);
                    if i > 0 {
                        assert(self.instrs@[i - 1] == before.instrs@[i - 1]);
                        assert(self.offsets@[i - 1] == before.offsets@[i - 1]);
                    }
                } else {
                    if n > 0 {
                        assert(self.instrs@[n - 1] == before.instrs@[n - 1]);
                        assert(self.offsets@[n - 1] == before.offsets@[n - 1]);
                    }
                }
            }
        }
    }

    /// Decodes the records of `code` from offset 0 on and stops at the
    /// first that cannot be decoded, or at the end of `code`.
    ///
    /// The shape holds the records before that place; the second part says
    /// what failed there, and is `None` where the end of `code` was
    /// reached. So the records that were decoded before a failure can still
    /// be looked at.
    pub fn decode_prefix(code: &[u8]) -> (r: (CpuShape, Option<DecodeError>))
        ensures
            r.0.wf(code@),
            r.0.spec_strict(),
            r.0.source@.len() == 0,
            r.1 is None <==> spec_first_fault(code@, 0) is None,
            r.1 is None ==> r.0.spec_end() == code@.len(),
            r.1 matches Some(e) ==> {
                &&& e.offset == r.0.spec_end()
                &&& e.offset < code@.len()
                &&& spec_first_fault(code@, 0) == Some(e.offset as int)
                &&& e.tag == code@[e.offset as int]
                &&& Instr::spec_fault(code@.skip(e.offset as int)) == Some(e.kind)
            },
    {
        let mut shape = CpuShape::empty();
        let mut offset: usize = 0;
        while offset < code.len()
            invariant
                offset <= code@.len(),
                shape.wf(code@),
                shape.spec_strict(),
                shape.source@.len() == 0,
                shape.spec_end() == offset,
                spec_first_fault(code@, offset as int) == spec_first_fault(code@, 0),
            decreases code@.len() - offset,
        {
            let data = vstd::slice::slice_subrange(code, offset, code.len());
            assert(data@ =~= code@.skip(offset as int));
            match Instr::from_bytes(data) {
                Err(kind) => {
                    return (shape, Some(DecodeError { offset, tag: code[offset], kind }));
                },
                Ok(instr) => {
                    let size: usize = instr.size();
                    shape.push(instr, offset, Ghost(code@));
                    offset = offset + size;
                },
            }
        }
        (shape, None)
    }

    /// Decodes all of `code` into records.
    ///
    /// Succeeds where every record can be decoded, up to the end of
    /// `code`. Fails at the first record that cannot be, with its offset,
    /// its tag byte and the fault; nothing of what was decoded before it is
    /// returned.
    pub fn decode(code: &[u8]) -> (r: Result<CpuShape, DecodeError>)
        ensures
            r is Ok <==> spec_first_fault(code@, 0) is None,
            r matches Ok(shape) ==> {
                &&& shape.wf(code@)
                &&& shape.spec_strict()
                &&& shape.spec_end() == code@.len()
                &&& shape.source@.len() == 0
            },
            r matches Err(e) ==> {
                &&& spec_first_fault(code@, 0) == Some(e.offset as int)
                &&& e.offset < code@.len()
                &&& e.tag == code@[e.offset as int]
                &&& Instr::spec_fault(code@.skip(e.offset as int)) == Some(e.kind)
            },
    {
        let (shape, failure) = Self::decode_prefix(code);
        match failure {
            None => Ok(shape),
            Some(e) => Err(e),
        }
    }

    /// Decodes `code` as `decode` does, but keeps what follows a tag byte
    /// of no known kind as a trailer, the last record of the shape.
    ///
    /// Fails where a record of a known kind cannot be decoded.
    pub fn decode_with_trailer(code: &[u8]) -> (r: Result<CpuShape, DecodeError>)
        ensures
            r is Ok <==> (spec_first_fault(code@, 0) matches Some(at) ==> Instr::spec_fault(
                code@.skip(at),
            ) == Some(DecodeErrorKind::UnknownRecordTag)),
            r matches Ok(shape) ==> {
                &&& shape.wf(code@)
                &&& shape.spec_end() == code@.len()
                &&& shape.source@.len() == 0
                &&& shape.spec_strict() <==> spec_first_fault(code@, 0) is None
            },
            r matches Err(e) ==> {
                &&& spec_first_fault(code@, 0) == Some(e.offset as int)
                &&& e.offset < code@.len()
                &&& e.tag == code@[e.offset as int]
                &&& Instr::spec_fault(code@.skip(e.offset as int)) == Some(e.kind)
            },
    {
        let (mut shape, failure) = Self::decode_prefix(code);
        match failure {
            None => Ok(shape),
            Some(e) => {
                if e.kind == DecodeErrorKind::UnknownRecordTag {
                    let data = vstd::slice::slice_subrange(code, e.offset, code.len());
                    assert(data@ =~= code@.skip(e.offset as int));
                    let trailer = TrailerUnknown { data: vstd::slice::slice_to_vec(data) };
                    let ghost n = shape.instrs@.len() as int;
                    shape.push(Instr::TrailerUnknown(trailer), e.offset, Ghost(code@));
                    assert(shape.instrs@[n] is TrailerUnknown);
                    Ok(shape)
                } else {
                    Err(e)
                }
            },
        }
    }

    /// The number of records.
    pub fn len(&self) -> (n: usize)
        ensures
            n == self.instrs@.len(),
    {
        self.instrs.len()
    }

    /// The index of the record whose tag byte stands at `offset` of the
    /// code, or `None` where no record starts there.
    pub fn bytes_to_index(&self, offset: usize) -> (r: Option<usize>)
        requires
            self.offsets@.len() == self.instrs@.len(),
        ensures
            r matches Some(i) ==> i < self.instrs@.len() && self.offsets@[i as int] == offset,
            r is None ==> forall|i: int| 0 <= i < self.offsets@.len() ==> self.offsets@[i] != offset,
    {
        let mut i: usize = 0;
        while i < self.offsets.len()
            invariant
                i <= self.offsets@.len(),
                self.offsets@.len() == self.instrs@.len(),
                forall|j: int| 0 <= j < i ==> self.offsets@[j] != offset,
            decreases self.offsets@.len() - i,
        {
            if self.offsets[i] == offset {
                return Some(i);
            }
            i += 1;
        }
        None
    }
}

/// Each record starts where the one before it ends: the offset of record
/// `i + 1` is the offset of record `i` plus the size of record `i`. The
/// first record starts at 0.
pub proof fn lemma_records_abut(shape: CpuShape, code: Seq<u8>, i: int)
    requires
        shape.wf(code),
        0 <= i < shape.instrs@.len(),
    ensures
        i == 0 ==> shape.offsets@[i] == 0,
        i + 1 < shape.instrs@.len() ==> shape.offsets@[i + 1] == shape.offsets@[i]
            + shape.instrs@[i].spec_size(),
        shape.instrs@[i].spec_size() == Instr::spec_len(code.skip(shape.offsets@[i] as int)),
{
    assert(shape.spec_placed(code, i));
    if i + 1 < shape.instrs@.len() {
        assert(shape.spec_placed(code, i + 1));
    }
}

/// The offsets of the records grow strictly.
pub proof fn lemma_offsets_increase(shape: CpuShape, code: Seq<u8>, i: int, j: int)
    requires
        shape.wf(code),
        0 <= i < j < shape.instrs@.len(),
    ensures
        shape.offsets@[i] + shape.instrs@[i].spec_size() <= shape.offsets@[j],
    decreases j - i,
{
    assert(shape.spec_placed(code, i));
    assert(shape.spec_placed(code, j));
    if i + 1 < j {
        lemma_offsets_increase(shape, code, i, j - 1);
        assert(shape.spec_placed(code, j - 1));
    }
}

/// A buffer whose first byte is the tag of no known record has its first
/// fault at offset 0, an unknown tag, and no record before it.
pub proof fn lemma_unknown_first_tag(code: Seq<u8>, shape: CpuShape)
    requires
        code.len() > 0,
        !Instr::spec_known_tag(code[0]),
        shape.wf(code),
        shape.spec_strict(),
    ensures
        spec_first_fault(code, 0) == Some(0int),
        Instr::spec_fault(code.skip(0)) == Some(DecodeErrorKind::UnknownRecordTag),
        shape.instrs@.len() == 0,
{
    assert(code.skip(0) =~= code);
    if shape.instrs@.len() > 0 {
        assert(shape.spec_placed(code, 0));
        assert(shape.instrs@[0] is TrailerUnknown);
    }
}

} // verus!
