//! The record that holds a fragment of x86 machine code.

use super::error::DecodeErrorKind;
use crate::bytes::{read_u16_le, spec_u16_le};
use vstd::prelude::*;

verus! {

/// A fragment of machine code, as the bytes that the record holds after
/// its two-byte header.
pub struct X86Code {
    pub code: Vec<u8>,
}

impl X86Code {
    pub const MAGIC: u8 = 0xF0;

    /// How far the scan moves over the byte `b`: over the five bytes of a
    /// push of a double word, the six bytes of an operation with a 32-bit
    /// immediate, and over any other byte alone.
    pub open spec fn spec_step(b: u8) -> int {
        if b == 0x68 {
            5
        } else if b == 0x81 {
            6
        } else {
            1
        }
    }

    /// The words after a return opcode that do not end the fragment.
    pub open spec fn spec_continues(word: int) -> bool {
        word == 0x0048 || word == 0x0000 || word == 0x0566 || word == 0x05EB || word == 0xE850
            || word == 0x8966
    }

    /// Where the scan over `buf` ends when it stands at `end`.
    ///
    /// The scan looks for a return opcode, `0xC3`. The word after it
    /// decides: on one of six words the scan skips the word and goes on
    /// with the byte after it, which it does not take for a return; on any
    /// other word, or where fewer than two bytes follow, the fragment ends
    /// behind the return. The scan also ends at the end of `buf`. A result
    /// beyond `buf.len()` says that a step ran over the end.
    pub open spec fn spec_scan(buf: Seq<u8>, end: int) -> int
        decreases buf.len() - end,
    {
        if end < 0 || end >= buf.len() {
            end
        } else if buf[end] == 0xC3 {
            if end + 3 > buf.len() || !Self::spec_continues(spec_u16_le(buf, end + 1)) {
                end + 1
            } else if end + 3 >= buf.len() {
                end + 3
            } else if end + 3 + Self::spec_step(buf[end + 3]) > buf.len() {
                end + 3 + Self::spec_step(buf[end + 3])
            } else {
                Self::spec_scan(buf, end + 3 + Self::spec_step(buf[end + 3]))
            }
        } else if end + Self::spec_step(buf[end]) > buf.len() {
            end + Self::spec_step(buf[end])
        } else {
            Self::spec_scan(buf, end + Self::spec_step(buf[end]))
        }
    }

    /// The length of the code record at the start of `data`.
    pub open spec fn spec_len(data: Seq<u8>) -> int {
        2 + Self::spec_scan(data.skip(2), 0)
    }

    /// Why `data` does not start with a code record, or `None` where it
    /// does.
    pub open spec fn spec_fault(data: Seq<u8>) -> Option<DecodeErrorKind> {
        if data.len() < 2 {
            Some(DecodeErrorKind::RecordLengthOverflow)
        } else if data[0] != 0xF0 || data[1] != 0 {
            Some(DecodeErrorKind::MalformedRecord)
        } else if data.len() < Self::spec_len(data) {
            Some(DecodeErrorKind::RecordLengthOverflow)
        } else {
            None
        }
    }

    /// This value is what the record at the start of `data` holds.
    pub open spec fn spec_decodes(&self, data: Seq<u8>) -> bool {
        self.code@ == data.subrange(2, Self::spec_len(data))
    }

    /// The record's length: the code and the two bytes before it.
    pub open spec fn spec_size(&self) -> int {
        self.code@.len() as int + 2
    }

    fn step(b: u8) -> (n: usize)
        ensures
            n == Self::spec_step(b),
    {
        if b == 0x68 {
            5
        } else if b == 0x81 {
            6
        } else {
            1
        }
    }

    fn continues(word: u16) -> (r: bool)
        ensures
            r == Self::spec_continues(word as int),
    {
        word == 0x0048 || word == 0x0000 || word == 0x0566 || word == 0x05EB || word == 0xE850
            || word == 0x8966
    }

    /// Decodes the record at the start of `data`: the tag, a zero byte, and
    /// machine code up to where `spec_scan` ends.
    ///
    /// The record states no length. The end is found by the scan, a
    /// heuristic that the decoding of everything after the record rests
    /// on.
    pub fn from_bytes(data: &[u8]) -> (r: Result<Self, DecodeErrorKind>)
        ensures
            r is Ok <==> Self::spec_fault(data@) is None,
            r matches Ok(c) ==> c.spec_decodes(data@) && c.spec_size() == Self::spec_len(data@) && 2
                <= c.spec_size() <= data@.len(),
            r matches Err(k) ==> Self::spec_fault(data@) == Some(k),
    {
        if data.len() < 2 {
            return Err(DecodeErrorKind::RecordLengthOverflow);
        }
        if data[0] != Self::MAGIC || data[1] != 0 {
            return Err(DecodeErrorKind::MalformedRecord);
        }
        let buf = vstd::slice::slice_subrange(data, 2, data.len());
        assert(buf@ =~= data@.skip(2));
        let mut end: usize = 0;
        let mut done: bool = false;
        while !done && end < buf.len()
            invariant
                end <= buf@.len(),
                data@.len() >= 2,
                data@[0] == 0xF0,
                data@[1] == 0,
                buf@ == data@.skip(2),
                !done ==> Self::spec_scan(buf@, end as int) == Self::spec_scan(buf@, 0),
                done ==> end == Self::spec_scan(buf@, 0),
            decreases buf@.len() - end + if done { 0int } else { 1int },
        {
            let b: u8 = buf[end];
            if b == 0xC3 {
                let behind: usize = end + 1;
                if buf.len() - behind < 2 || !Self::continues(
                    read_u16_le(buf, behind).unwrap(),
                ) {
                    end = behind;
                    done = true;
                } else {
                    let next: usize = behind + 2;
                    if next >= buf.len() {
                        end = next;
                        done = true;
                    } else {
                        let step: usize = Self::step(buf[next]);
                        if buf.len() - next < step {
                            return Err(DecodeErrorKind::RecordLengthOverflow);
                        }
                        end = next + step;
                    }
                }
            } else {
                let step: usize = Self::step(b);
                if buf.len() - end < step {
                    return Err(DecodeErrorKind::RecordLengthOverflow);
                }
                end = end + step;
            }
        }
        let code = vstd::slice::slice_to_vec(vstd::slice::slice_subrange(buf, 0, end));
        assert(code@ =~= data@.subrange(2, 2 + end));
        Ok(X86Code { code })
    }

    /// The length of the record in bytes.
    pub fn size(&self) -> (n: usize)
        requires
            self.spec_size() <= usize::MAX,
        ensures
            n == self.spec_size(),
    {
        self.code.len() + 2
    }
}

/// The scan never goes back.
pub proof fn lemma_scan_bounds(buf: Seq<u8>, end: int)
    requires
        0 <= end,
    ensures
        end <= X86Code::spec_scan(buf, end),
    decreases buf.len() - end,
{
    if end >= buf.len() {
    } else if buf[end] == 0xC3 {
        if end + 3 > buf.len() || !X86Code::spec_continues(spec_u16_le(buf, end + 1)) {
        } else if end + 3 >= buf.len() {
        } else if end + 3 + X86Code::spec_step(buf[end + 3]) > buf.len() {
        } else {
            lemma_scan_bounds(buf, end + 3 + X86Code::spec_step(buf[end + 3]));
        }
    } else if end + X86Code::spec_step(buf[end]) > buf.len() {
    } else {
        lemma_scan_bounds(buf, end + X86Code::spec_step(buf[end]));
    }
}

} // verus!
