//! The vertex buffer record.

use super::error::DecodeErrorKind;
use crate::bytes::{read_u16_le, signed16, spec_signed16, spec_u16_le};
use vstd::prelude::*;

verus! {

/// A run of vertices. Each coordinate is a signed 16-bit number.
pub struct VertexBuf {
    pub unk0: u16,
    pub verts: Vec<[i16; 3]>,
}

impl VertexBuf {
    pub const MAGIC: u8 = 0x82;

    /// The number of vertices that the buffer at the start of `data`
    /// declares.
    pub open spec fn spec_count(data: Seq<u8>) -> int {
        spec_u16_le(data, 2)
    }

    /// The length of the vertex buffer at the start of `data`: six bytes of
    /// header and six bytes for each vertex.
    pub open spec fn spec_len(data: Seq<u8>) -> int {
        6 + 6 * Self::spec_count(data)
    }

    /// Coordinate `k` of vertex `i` of the buffer at the start of `data`.
    pub open spec fn spec_coord(data: Seq<u8>, i: int, k: int) -> int {
        spec_signed16(spec_u16_le(data, 6 + 6 * i + 2 * k))
    }

    /// Why `data` does not start with a vertex buffer, or `None` where it
    /// does.
    pub open spec fn spec_fault(data: Seq<u8>) -> Option<DecodeErrorKind> {
        if data.len() < 6 {
            Some(DecodeErrorKind::RecordLengthOverflow)
        } else if data[0] != 0x82 || data[1] != 0 {
            Some(DecodeErrorKind::MalformedRecord)
        } else if data.len() < Self::spec_len(data) {
            Some(DecodeErrorKind::RecordLengthOverflow)
        } else {
            None
        }
    }

    /// This value is what the record at the start of `data` holds.
    pub open spec fn spec_decodes(&self, data: Seq<u8>) -> bool {
        &&& self.unk0 as int == spec_u16_le(data, 4)
        &&& self.verts@.len() == Self::spec_count(data)
        &&& forall|i: int, k: int|
            0 <= i < self.verts@.len() && 0 <= k < 3 ==> (#[trigger] self.verts@[i][k]) as int
                == Self::spec_coord(data, i, k)
    }

    /// The record's length: six bytes for each vertex, and six more.
    pub open spec fn spec_size(&self) -> int {
        6 + 6 * (self.verts@.len() as int)
    }

    /// Decodes the record at the start of `data`: the tag, a zero byte, the
    /// vertex count and one more word, both little-endian, and then three
    /// little-endian signed words for each vertex.
    pub fn from_bytes(data: &[u8]) -> (r: Result<Self, DecodeErrorKind>)
        ensures
            r is Ok <==> Self::spec_fault(data@) is None,
            r matches Ok(v) ==> v.spec_decodes(data@) && v.spec_size() == Self::spec_len(data@) && 6
                <= v.spec_size() <= data@.len(),
            r matches Err(k) ==> Self::spec_fault(data@) == Some(k),
    {
        if data.len() < 6 {
            return Err(DecodeErrorKind::RecordLengthOverflow);
        }
        if data[0] != Self::MAGIC || data[1] != 0 {
            return Err(DecodeErrorKind::MalformedRecord);
        }
        let nverts: usize = read_u16_le(data, 2).unwrap() as usize;
        let unk0: u16 = read_u16_le(data, 4).unwrap();
        if data.len() < 6 + 6 * nverts {
            return Err(DecodeErrorKind::RecordLengthOverflow);
        }
        let mut verts: Vec<[i16; 3]> = Vec::new();
        let mut i: usize = 0;
        while i < nverts
            invariant
                i <= nverts,
                nverts == Self::spec_count(data@),
                6 + 6 * nverts <= data@.len(),
                verts@.len() == i,
                forall|j: int, k: int|
                    0 <= j < i && 0 <= k < 3 ==> (#[trigger] verts@[j][k]) as int
                        == Self::spec_coord(data@, j, k),
            decreases nverts - i,
        {
            let at: usize = 6 + 6 * i;
            let x: i16 = signed16(read_u16_le(data, at).unwrap());
            let y: i16 = signed16(read_u16_le(data, at + 2).unwrap());
            let z: i16 = signed16(read_u16_le(data, at + 4).unwrap());
            verts.push([x, y, z]);
            i += 1;
        }
        Ok(VertexBuf { unk0, verts })
    }

    /// The length of the record in bytes.
    pub fn size(&self) -> (n: usize)
        requires
            self.spec_size() <= usize::MAX,
        ensures
            n == self.spec_size(),
    {
        6 + self.verts.len() * 6
    }
}

} // verus!
