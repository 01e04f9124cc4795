//! Records that name a resource: a texture file, a source file.

use super::error::DecodeErrorKind;
use super::name::{lemma_name_end, read_name, spec_name_end, spec_name_fault, spec_name_text};
use vstd::prelude::*;
use vstd::utf8::*;

verus! {

/// Names the texture that the facets after it are painted with.
pub struct TextureRef {
    pub filename: String,
}

impl TextureRef {
    pub const MAGIC: u8 = 0xE2;

    pub const SIZE: usize = 16;

    /// Why `data` does not start with a texture reference, or `None` where
    /// it does.
    pub open spec fn spec_fault(data: Seq<u8>) -> Option<DecodeErrorKind> {
        if data.len() < 16 {
            Some(DecodeErrorKind::RecordLengthOverflow)
        } else if data[0] != 0xE2 || data[1] != 0 {
            Some(DecodeErrorKind::MalformedRecord)
        } else {
            spec_name_fault(data.subrange(2, 16))
        }
    }

    /// This value is what the record at the start of `data` holds.
    pub open spec fn spec_decodes(&self, data: Seq<u8>) -> bool {
        self.filename@ == spec_name_text(data.subrange(2, 16))
    }

    pub open spec fn spec_size(&self) -> int {
        16
    }

    /// Decodes the record at the start of `data`: the tag, a zero byte, and
    /// a NUL-terminated file name in the 14 bytes that follow.
    pub fn from_bytes(data: &[u8]) -> (r: Result<Self, DecodeErrorKind>)
        ensures
            r is Ok <==> Self::spec_fault(data@) is None,
            r matches Ok(t) ==> t.spec_decodes(data@),
            r matches Err(k) ==> Self::spec_fault(data@) == Some(k),
    {
        if data.len() < Self::SIZE {
            return Err(DecodeErrorKind::RecordLengthOverflow);
        }
        if data[0] != Self::MAGIC || data[1] != 0 {
            return Err(DecodeErrorKind::MalformedRecord);
        }
        match read_name(vstd::slice::slice_subrange(data, 2, Self::SIZE)) {
            Ok(filename) => Ok(TextureRef { filename }),
            Err(k) => Err(k),
        }
    }

    /// The length of the record in bytes.
    pub fn size(&self) -> (n: usize)
        ensures
            n == self.spec_size(),
    {
        Self::SIZE
    }
}

/// Names the file that the shape was built from.
pub struct SourceRef {
    pub unk0: u8,
    pub source: String,
}

impl SourceRef {
    pub const MAGIC: u8 = 0x42;

    /// Why `data` does not start with a source reference, or `None` where
    /// it does.
    pub open spec fn spec_fault(data: Seq<u8>) -> Option<DecodeErrorKind> {
        if data.len() < 2 {
            Some(DecodeErrorKind::RecordLengthOverflow)
        } else if data[0] != 0x42 {
            Some(DecodeErrorKind::MalformedRecord)
        } else {
            spec_name_fault(data.skip(2))
        }
    }

    /// The length of the source reference at the start of `data`: the tag,
    /// one byte, the name and its terminator.
    pub open spec fn spec_len(data: Seq<u8>) -> int {
        3 + spec_name_end(data.skip(2), 0)
    }

    /// This value is what the record at the start of `data` holds.
    pub open spec fn spec_decodes(&self, data: Seq<u8>) -> bool {
        &&& self.unk0 == data[1]
        &&& self.source@ == spec_name_text(data.skip(2))
        &&& self.spec_size() == Self::spec_len(data)
    }

    /// The record's length: the bytes of the name, and three more.
    pub open spec fn spec_size(&self) -> int {
        3 + encode_utf8(self.source@).len() as int
    }

    /// Decodes the record at the start of `data`: the tag, one byte of
    /// unknown meaning, and a NUL-terminated name.
    pub fn from_bytes(data: &[u8]) -> (r: Result<Self, DecodeErrorKind>)
        ensures
            r is Ok <==> Self::spec_fault(data@) is None,
            r matches Ok(t) ==> t.spec_decodes(data@) && 3 <= t.spec_size() <= data@.len(),
            r matches Err(k) ==> Self::spec_fault(data@) == Some(k),
    {
        if data.len() < 2 {
            return Err(DecodeErrorKind::RecordLengthOverflow);
        }
        if data[0] != Self::MAGIC {
            return Err(DecodeErrorKind::MalformedRecord);
        }
        let rest = vstd::slice::slice_subrange(data, 2, data.len());
        proof {
            assert(rest@ =~= data@.skip(2));
            lemma_name_end(rest@, 0);
        }
        match read_name(rest) {
            Ok(source) => Ok(SourceRef { unk0: data[1], source }),
            Err(k) => Err(k),
        }
    }

    /// The length of the record in bytes.
    pub fn size(&self) -> (n: usize)
        requires
            self.spec_size() <= usize::MAX,
        ensures
            n == self.spec_size(),
    {
        2 + self.source.as_str().len() + 1
    }
}

} // verus!
