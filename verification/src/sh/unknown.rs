//! Records of unknown meaning that have a layout of their own, the pad
//! byte, and the trailer.

use super::error::DecodeErrorKind;
use crate::bytes::{read_u16_le, spec_u16_le};
use vstd::prelude::*;

verus! {

/// A record whose third byte selects one of four lengths.
pub struct UnkBC {
    pub flags: u8,
    pub unk0: u8,
    pub length: usize,
    pub data: Vec<u8>,
}

impl UnkBC {
    pub const MAGIC: u8 = 0xBC;

    /// The length that the flag byte `flags` selects, if it is known.
    pub open spec fn spec_length_of(flags: u8) -> Option<int> {
        if flags == 0x96 {
            Some(8)
        } else if flags == 0x72 {
            Some(6)
        } else if flags == 0x68 {
            Some(10)
        } else if flags == 0x08 {
            Some(6)
        } else {
            None
        }
    }

    /// Why `data` does not start with this record, or `None` where it
    /// does.
    pub open spec fn spec_fault(data: Seq<u8>) -> Option<DecodeErrorKind> {
        if data.len() < 4 {
            Some(DecodeErrorKind::RecordLengthOverflow)
        } else if data[0] != 0xBC || Self::spec_length_of(data[2]) is None {
            Some(DecodeErrorKind::MalformedRecord)
        } else if data.len() < Self::spec_len(data) {
            Some(DecodeErrorKind::RecordLengthOverflow)
        } else {
            None
        }
    }

    /// The length of the record at the start of `data`.
    pub open spec fn spec_len(data: Seq<u8>) -> int {
        Self::spec_length_of(data[2])->0
    }

    /// This value is what the record at the start of `data` holds.
    pub open spec fn spec_decodes(&self, data: Seq<u8>) -> bool {
        &&& self.flags == data[2]
        &&& self.unk0 == data[3]
        &&& self.length == Self::spec_len(data)
        &&& self.data@ == data.subrange(4, Self::spec_len(data))
    }

    pub open spec fn spec_size(&self) -> int {
        self.length as int
    }

    fn length_of(flags: u8) -> (r: Option<usize>)
        ensures
            r is Some <==> Self::spec_length_of(flags) is Some,
            r matches Some(n) ==> Self::spec_length_of(flags) == Some(n as int),
    {
        match flags {
            0x96 => Some(8),
            0x72 => Some(6),
            0x68 => Some(10),
            0x08 => Some(6),
            _ => None,
        }
    }

    /// Decodes the record at the start of `data`: the tag, a byte that is
    /// not looked at, the flag byte that selects the length, one more
    /// byte, and the payload. A flag byte that selects no length makes the
    /// record malformed.
    pub fn from_bytes(data: &[u8]) -> (r: Result<Self, DecodeErrorKind>)
        ensures
            r is Ok <==> Self::spec_fault(data@) is None,
            r matches Ok(v) ==> v.spec_decodes(data@) && 1 <= v.spec_size() <= data@.len(),
            r matches Err(k) ==> Self::spec_fault(data@) == Some(k),
    {
        if data.len() < 4 {
            return Err(DecodeErrorKind::RecordLengthOverflow);
        }
        if data[0] != Self::MAGIC {
            return Err(DecodeErrorKind::MalformedRecord);
        }
        let flags: u8 = data[2];
        let unk0: u8 = data[3];
        match Self::length_of(flags) {
            None => Err(DecodeErrorKind::MalformedRecord),
            Some(length) => {
                if data.len() < length {
                    Err(DecodeErrorKind::RecordLengthOverflow)
                } else {
                    let payload = vstd::slice::slice_to_vec(
                        vstd::slice::slice_subrange(data, 4, length),
                    );
                    Ok(UnkBC { flags, unk0, length, data: payload })
                }
            },
        }
    }

    /// The length of the record in bytes.
    pub fn size(&self) -> (n: usize)
        ensures
            n == self.spec_size(),
    {
        self.length
    }
}

/// A counted table of 16-bit words.
pub struct Unk40 {
    pub count: usize,
    pub length: usize,
    pub data: Vec<u16>,
}

impl Unk40 {
    pub const MAGIC: u8 = 0x40;

    /// The number of words that the table at the start of `data` declares.
    pub open spec fn spec_count(data: Seq<u8>) -> int {
        spec_u16_le(data, 2)
    }

    /// The length of the record at the start of `data`: four bytes and two
    /// for each word.
    pub open spec fn spec_len(data: Seq<u8>) -> int {
        4 + 2 * Self::spec_count(data)
    }

    /// Why `data` does not start with this record, or `None` where it
    /// does.
    pub open spec fn spec_fault(data: Seq<u8>) -> Option<DecodeErrorKind> {
        if data.len() < 4 {
            Some(DecodeErrorKind::RecordLengthOverflow)
        } else if data[0] != 0x40 || data[1] != 0 {
            Some(DecodeErrorKind::MalformedRecord)
        } else if data.len() < Self::spec_len(data) {
            Some(DecodeErrorKind::RecordLengthOverflow)
        } else {
            None
        }
    }

    /// This value is what the record at the start of `data` holds.
    pub open spec fn spec_decodes(&self, data: Seq<u8>) -> bool {
        &&& self.count == Self::spec_count(data)
        &&& self.length == Self::spec_len(data)
        &&& self.data@.len() == Self::spec_count(data)
        &&& forall|i: int|
            0 <= i < self.data@.len() ==> (#[trigger] self.data@[i]) as int == spec_u16_le(
                data,
                4 + 2 * i,
            )
    }

    pub open spec fn spec_size(&self) -> int {
        self.length as int
    }

    /// Decodes the record at the start of `data`: the tag, a zero byte, the
    /// count as a little-endian word, and that many little-endian words.
    pub fn from_bytes(data: &[u8]) -> (r: Result<Self, DecodeErrorKind>)
        ensures
            r is Ok <==> Self::spec_fault(data@) is None,
            r matches Ok(v) ==> v.spec_decodes(data@) && 1 <= v.spec_size() <= data@.len(),
            r matches Err(k) ==> Self::spec_fault(data@) == Some(k),
    {
        if data.len() < 4 {
            return Err(DecodeErrorKind::RecordLengthOverflow);
        }
        if data[0] != Self::MAGIC || data[1] != 0 {
            return Err(DecodeErrorKind::MalformedRecord);
        }
        let count: usize = read_u16_le(data, 2).unwrap() as usize;
        let length: usize = 4 + count * 2;
        if data.len() < length {
            return Err(DecodeErrorKind::RecordLengthOverflow);
        }
        let mut words: Vec<u16> = Vec::new();
        let mut i: usize = 0;
        while i < count
            invariant
                i <= count,
                count < 65536,
                4 + 2 * count <= data@.len(),
                words@.len() == i,
                forall|j: int|
                    0 <= j < i ==> (#[trigger] words@[j]) as int == spec_u16_le(data@, 4 + 2 * j),
            decreases count - i,
        {
            words.push(read_u16_le(data, 4 + 2 * i).unwrap());
            i += 1;
        }
        Ok(Unk40 { count, length, data: words })
    }

    /// The length of the record in bytes.
    pub fn size(&self) -> (n: usize)
        ensures
            n == self.spec_size(),
    {
        self.length
    }
}

/// A record of seven bytes: the tag and six bytes of payload.
pub struct UnkF6 {
    pub data: [u8; 6],
}

impl UnkF6 {
    pub const MAGIC: u8 = 0xF6;

    pub const SIZE: usize = 7;

    /// Why `data` does not start with this record, or `None` where it
    /// does.
    pub open spec fn spec_fault(data: Seq<u8>) -> Option<DecodeErrorKind> {
        if data.len() < 7 {
            Some(DecodeErrorKind::RecordLengthOverflow)
        } else if data[0] != 0xF6 {
            Some(DecodeErrorKind::MalformedRecord)
        } else {
            None
        }
    }

    /// This value is what the record at the start of `data` holds.
    pub open spec fn spec_decodes(&self, data: Seq<u8>) -> bool {
        self.data@ == data.subrange(1, 7)
    }

    pub open spec fn spec_size(&self) -> int {
        7
    }

    /// Decodes the record at the start of `data`.
    pub fn from_bytes(data: &[u8]) -> (r: Result<Self, DecodeErrorKind>)
        ensures
            r is Ok <==> Self::spec_fault(data@) is None,
            r matches Ok(v) ==> v.spec_decodes(data@) && 1 <= v.spec_size() <= data@.len(),
            r matches Err(k) ==> Self::spec_fault(data@) == Some(k),
    {
        if data.len() < Self::SIZE {
            return Err(DecodeErrorKind::RecordLengthOverflow);
        }
        if data[0] != Self::MAGIC {
            return Err(DecodeErrorKind::MalformedRecord);
        }
        let payload: [u8; 6] = [data[1], data[2], data[3], data[4], data[5], data[6]];
        assert(payload@ =~= data@.subrange(1, 7));
        Ok(UnkF6 { data: payload })
    }

    /// The length of the record in bytes.
    pub fn size(&self) -> (n: usize)
        ensures
            n == self.spec_size(),
    {
        Self::SIZE
    }
}

/// A record of three bytes: the tag and two bytes of payload.
pub struct Unk38 {
    pub data: [u8; 2],
}

impl Unk38 {
    pub const MAGIC: u8 = 0x38;

    pub const SIZE: usize = 3;

    /// Why `data` does not start with this record, or `None` where it
    /// does.
    pub open spec fn spec_fault(data: Seq<u8>) -> Option<DecodeErrorKind> {
        if data.len() < 3 {
            Some(DecodeErrorKind::RecordLengthOverflow)
        } else if data[0] != 0x38 {
            Some(DecodeErrorKind::MalformedRecord)
        } else {
            None
        }
    }

    /// This value is what the record at the start of `data` holds.
    pub open spec fn spec_decodes(&self, data: Seq<u8>) -> bool {
        self.data@ == data.subrange(1, 3)
    }

    pub open spec fn spec_size(&self) -> int {
        3
    }

    /// Decodes the record at the start of `data`.
    pub fn from_bytes(data: &[u8]) -> (r: Result<Self, DecodeErrorKind>)
        ensures
            r is Ok <==> Self::spec_fault(data@) is None,
            r matches Ok(v) ==> v.spec_decodes(data@) && 1 <= v.spec_size() <= data@.len(),
            r matches Err(k) ==> Self::spec_fault(data@) == Some(k),
    {
        if data.len() < Self::SIZE {
            return Err(DecodeErrorKind::RecordLengthOverflow);
        }
        if data[0] != Self::MAGIC {
            return Err(DecodeErrorKind::MalformedRecord);
        }
        let payload: [u8; 2] = [data[1], data[2]];
        assert(payload@ =~= data@.subrange(1, 3));
        Ok(Unk38 { data: payload })
    }

    /// The length of the record in bytes.
    pub fn size(&self) -> (n: usize)
        ensures
            n == self.spec_size(),
    {
        Self::SIZE
    }
}

/// A single byte, `0x1E`, that fills the space between two records.
#[derive(Clone, Copy, Debug, PartialEq, Eq, Structural)]
pub struct Pad1E {}

impl Pad1E {
    pub const MAGIC: u8 = 0x1E;

    pub const SIZE: usize = 1;

    /// Why `data` does not start with a pad byte, or `None` where it does.
    pub open spec fn spec_fault(data: Seq<u8>) -> Option<DecodeErrorKind> {
        if data.len() < 1 {
            Some(DecodeErrorKind::RecordLengthOverflow)
        } else if data[0] != 0x1E {
            Some(DecodeErrorKind::MalformedRecord)
        } else {
            None
        }
    }

    pub open spec fn spec_size(&self) -> int {
        1
    }

    /// Decodes the pad byte at the start of `data`.
    pub fn from_bytes(data: &[u8]) -> (r: Result<Self, DecodeErrorKind>)
        ensures
            r is Ok <==> Self::spec_fault(data@) is None,
            r matches Err(k) ==> Self::spec_fault(data@) == Some(k),
    {
        if data.len() < Self::SIZE {
            return Err(DecodeErrorKind::RecordLengthOverflow);
        }
        if data[0] != Self::MAGIC {
            return Err(DecodeErrorKind::MalformedRecord);
        }
        Ok(Pad1E {  })
    }

    /// The length of the record in bytes.
    pub fn size(&self) -> (n: usize)
        ensures
            n == self.spec_size(),
    {
        Self::SIZE
    }
}

/// What is left of a buffer from the first byte that starts no known
/// record.
pub struct TrailerUnknown {
    pub data: Vec<u8>,
}

impl TrailerUnknown {
    /// This value holds all of `data`.
    pub open spec fn spec_decodes(&self, data: Seq<u8>) -> bool {
        self.data@ == data
    }

    /// The trailer is as long as what it holds.
    pub open spec fn spec_size(&self) -> int {
        self.data@.len() as int
    }

    /// Takes all of `data`. This cannot fail.
    pub fn from_bytes(data: &[u8]) -> (r: Result<Self, DecodeErrorKind>)
        ensures
            r matches Ok(t) && t.spec_decodes(data@),
    {
        Ok(TrailerUnknown { data: vstd::slice::slice_to_vec(data) })
    }

    /// The length of the record in bytes.
    pub fn size(&self) -> (n: usize)
        ensures
            n == self.spec_size(),
    {
        self.data.len()
    }
}

} // verus!
