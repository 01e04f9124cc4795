//! The facet record: one polygon of a shape.

use super::error::DecodeErrorKind;
use crate::bytes::{read_u16_le, spec_u16_le};
use vstd::prelude::*;

verus! {

/// The flag word of a facet.
#[derive(Clone, Copy, Debug, PartialEq, Eq, Structural)]
pub struct FacetFlags {
    pub bits: u16,
}

impl FacetFlags {
    /// The material field is long: 11 or 14 bytes rather than 2.
    pub const HAVE_MATERIAL: u16 = 0x4000;

    /// A pair of texture coordinates follows the indices, one per index.
    pub const HAVE_TEXCOORDS: u16 = 0x0400;

    /// Indices take two bytes rather than one.
    pub const USE_SHORT_INDICES: u16 = 0x0004;

    /// A long material field takes 11 bytes rather than 14.
    pub const USE_SHORT_MATERIAL: u16 = 0x0002;

    /// Texture coordinates take one byte rather than two.
    pub const USE_BYTE_TEXCOORDS: u16 = 0x0001;

    /// The bits that no facet sets.
    pub const RESERVED: u16 = 0x00F0;

    /// All bits of `mask` are set in `bits`.
    pub open spec fn spec_has(bits: u16, mask: u16) -> bool {
        bits & mask == mask
    }

    /// The width of the material field.
    pub open spec fn spec_material_size(bits: u16) -> int {
        if Self::spec_has(bits, Self::HAVE_MATERIAL) {
            if Self::spec_has(bits, Self::USE_SHORT_MATERIAL) {
                11
            } else {
                14
            }
        } else {
            2
        }
    }

    /// The width of one index.
    pub open spec fn spec_index_size(bits: u16) -> int {
        if Self::spec_has(bits, Self::USE_SHORT_INDICES) {
            2
        } else {
            1
        }
    }

    /// The width of one texture coordinate.
    pub open spec fn spec_tc_size(bits: u16) -> int {
        if Self::spec_has(bits, Self::USE_BYTE_TEXCOORDS) {
            1
        } else {
            2
        }
    }

    /// The flags that the word `flags` holds.
    pub fn from_u16(flags: u16) -> (r: FacetFlags)
        ensures
            r.bits == flags,
    {
        FacetFlags { bits: flags }
    }

    /// The flags as a word.
    pub fn to_u16(&self) -> (r: u16)
        ensures
            r == self.bits,
    {
        self.bits
    }

    /// Whether all bits of `mask` are set.
    pub fn contains(&self, mask: u16) -> (r: bool)
        ensures
            r == Self::spec_has(self.bits, mask),
    {
        self.bits & mask == mask
    }

    /// The width of the material field in bytes: 2, 11 or 14.
    pub fn material_size(&self) -> (n: usize)
        ensures
            n == Self::spec_material_size(self.bits),
    {
        if self.contains(Self::HAVE_MATERIAL) {
            if self.contains(Self::USE_SHORT_MATERIAL) {
                11
            } else {
                14
            }
        } else {
            2
        }
    }

    /// The width of one index in bytes: 1 or 2.
    pub fn index_size(&self) -> (n: usize)
        ensures
            n == Self::spec_index_size(self.bits),
    {
        if self.contains(Self::USE_SHORT_INDICES) {
            2
        } else {
            1
        }
    }

    /// The width of one texture coordinate in bytes: 1 or 2.
    pub fn tc_size(&self) -> (n: usize)
        ensures
            n == Self::spec_tc_size(self.bits),
    {
        if self.contains(Self::USE_BYTE_TEXCOORDS) {
            1
        } else {
            2
        }
    }
}

/// `m` is the greatest element of `s`, or `floor` where `s` is empty.
pub open spec fn spec_is_max(s: Seq<u16>, floor: u16, m: u16) -> bool {
    &&& forall|i: int| 0 <= i < s.len() ==> s[i] <= m
    &&& if s.len() == 0 {
        m == floor
    } else {
        exists|i: int| 0 <= i < s.len() && s[i] == m
    }
}

/// `m` is the least element of `s`, or `ceiling` where `s` is empty.
pub open spec fn spec_is_min(s: Seq<u16>, ceiling: u16, m: u16) -> bool {
    &&& forall|i: int| 0 <= i < s.len() ==> s[i] >= m
    &&& if s.len() == 0 {
        m == ceiling
    } else {
        exists|i: int| 0 <= i < s.len() && s[i] == m
    }
}

/// One polygon: indices into the vertex pool, a colour, and where the flags
/// say so a pair of texture coordinates for each index.
pub struct Facet {
    /// The length of the record in bytes.
    pub length: usize,
    pub flags: FacetFlags,
    /// The first byte of the material field: the palette index of the face.
    pub color: u8,
    /// The material field as it stands in the record.
    pub material: Vec<u8>,
    pub indices: Vec<u16>,
    /// Empty where the record holds no texture coordinates.
    pub tex_coords: Vec<[u16; 2]>,
    /// The greatest index, or 0 where there is no index.
    pub max_index: u16,
    /// The least index, or 0xFFFF where there is no index.
    pub min_index: u16,
}

impl Facet {
    pub const MAGIC: u8 = 0xFC;

    /// The flag word of the facet at the start of `data`: the byte after
    /// the tag is its high half.
    pub open spec fn spec_flags(data: Seq<u8>) -> u16 {
        (256 * (data[1] as int) + data[2] as int) as u16
    }

    /// The number of indices of the facet at the start of `data`.
    pub open spec fn spec_count(data: Seq<u8>) -> int {
        data[3 + FacetFlags::spec_material_size(Self::spec_flags(data))] as int
    }

    /// Where the indices start.
    pub open spec fn spec_index_base(data: Seq<u8>) -> int {
        4 + FacetFlags::spec_material_size(Self::spec_flags(data))
    }

    /// Where the texture coordinates start, or would start.
    pub open spec fn spec_tc_base(data: Seq<u8>) -> int {
        Self::spec_index_base(data) + if FacetFlags::spec_has(
            Self::spec_flags(data),
            FacetFlags::USE_SHORT_INDICES,
        ) {
            2 * Self::spec_count(data)
        } else {
            Self::spec_count(data)
        }
    }

    /// The length of the facet at the start of `data`.
    pub open spec fn spec_len(data: Seq<u8>) -> int {
        let flags = Self::spec_flags(data);
        Self::spec_tc_base(data) + if !FacetFlags::spec_has(flags, FacetFlags::HAVE_TEXCOORDS) {
            0
        } else if FacetFlags::spec_has(flags, FacetFlags::USE_BYTE_TEXCOORDS) {
            2 * Self::spec_count(data)
        } else {
            4 * Self::spec_count(data)
        }
    }

    /// Index `i` of the facet at the start of `data`.
    pub open spec fn spec_index(data: Seq<u8>, i: int) -> int {
        if FacetFlags::spec_has(Self::spec_flags(data), FacetFlags::USE_SHORT_INDICES) {
            spec_u16_le(data, Self::spec_index_base(data) + 2 * i)
        } else {
            data[Self::spec_index_base(data) + i] as int
        }
    }

    /// Half `k` of the texture coordinate pair of index `i`.
    pub open spec fn spec_tex_coord(data: Seq<u8>, i: int, k: int) -> int {
        if FacetFlags::spec_has(Self::spec_flags(data), FacetFlags::USE_BYTE_TEXCOORDS) {
            data[Self::spec_tc_base(data) + 2 * i + k] as int
        } else {
            spec_u16_le(data, Self::spec_tc_base(data) + 4 * i + 2 * k)
        }
    }

    /// Why `data` does not start with a facet, or `None` where it does.
    pub open spec fn spec_fault(data: Seq<u8>) -> Option<DecodeErrorKind> {
        if data.len() < 3 {
            Some(DecodeErrorKind::RecordLengthOverflow)
        } else if data[0] != 0xFC || Self::spec_flags(data) & FacetFlags::RESERVED != 0 {
            Some(DecodeErrorKind::MalformedRecord)
        } else if data.len() < Self::spec_index_base(data) {
            Some(DecodeErrorKind::RecordLengthOverflow)
        } else if data.len() < Self::spec_len(data) {
            Some(DecodeErrorKind::RecordLengthOverflow)
        } else {
            None
        }
    }

    /// This value is what the record at the start of `data` holds.
    pub open spec fn spec_decodes(&self, data: Seq<u8>) -> bool {
        &&& self.length == Self::spec_len(data)
        &&& self.flags.bits == Self::spec_flags(data)
        &&& self.color == data[3]
        &&& self.material@ == data.subrange(3, Self::spec_index_base(data) - 1)
        &&& self.indices@.len() == Self::spec_count(data)
        &&& forall|i: int|
            0 <= i < self.indices@.len() ==> (#[trigger] self.indices@[i]) as int
                == Self::spec_index(data, i)
        &&& self.tex_coords@.len() == if FacetFlags::spec_has(
            self.flags.bits,
            FacetFlags::HAVE_TEXCOORDS,
        ) {
            Self::spec_count(data)
        } else {
            0
        }
        &&& forall|i: int, k: int|
            0 <= i < self.tex_coords@.len() && 0 <= k < 2 ==> (
            #[trigger] self.tex_coords@[i][k]) as int == Self::spec_tex_coord(data, i, k)
        &&& spec_is_max(self.indices@, 0, self.max_index)
        &&& spec_is_min(self.indices@, 0xFFFF, self.min_index)
    }

    pub open spec fn spec_size(&self) -> int {
        self.length as int
    }

    /// Decodes the record at the start of `data`: the tag, the flag word
    /// with its high byte first, the material field, the index count in
    /// one byte, the indices, and the texture coordinates where the flags
    /// announce them. The widths of all but the tag, the flag word and the
    /// count depend on the flags.
    pub fn from_bytes(data: &[u8]) -> (r: Result<Self, DecodeErrorKind>)
        ensures
            r is Ok <==> Self::spec_fault(data@) is None,
            r matches Ok(f) ==> f.spec_decodes(data@) && 6 <= f.spec_size() <= data@.len(),
            r matches Err(k) ==> Self::spec_fault(data@) == Some(k),
    {
        if data.len() < 3 {
            return Err(DecodeErrorKind::RecordLengthOverflow);
        }
        let flags_word: u16 = 256 * (data[1] as u16) + data[2] as u16;
        if data[0] != Self::MAGIC || flags_word & FacetFlags::RESERVED != 0 {
            return Err(DecodeErrorKind::MalformedRecord);
        }
        let flags = FacetFlags::from_u16(flags_word);
        let material_size: usize = flags.material_size();
        let index_base: usize = 3 + material_size + 1;
        if data.len() < index_base {
            return Err(DecodeErrorKind::RecordLengthOverflow);
        }
        let have_tc: bool = flags.contains(FacetFlags::HAVE_TEXCOORDS);
        let short_indices: bool = flags.contains(FacetFlags::USE_SHORT_INDICES);
        let byte_tc: bool = flags.contains(FacetFlags::USE_BYTE_TEXCOORDS);
        let index_count: usize = data[3 + material_size] as usize;
        let tc_base: usize = index_base + if short_indices {
            2 * index_count
        } else {
            index_count
        };
        let length: usize = tc_base + if !have_tc {
            0
        } else if byte_tc {
            2 * index_count
        } else {
            4 * index_count
        };
        if data.len() < length {
            return Err(DecodeErrorKind::RecordLengthOverflow);
        }
        let material = vstd::slice::slice_to_vec(
            vstd::slice::slice_subrange(data, 3, 3 + material_size),
        );

        let mut indices: Vec<u16> = Vec::new();
        let mut max_index: u16 = 0;
        let mut min_index: u16 = 0xFFFF;
        let mut i: usize = 0;
        while i < index_count
            invariant
                i <= index_count,
                index_count == Self::spec_count(data@),
                index_base == Self::spec_index_base(data@),
                short_indices == FacetFlags::spec_has(
                    Self::spec_flags(data@),
                    FacetFlags::USE_SHORT_INDICES,
                ),
                tc_base <= data@.len(),
                tc_base == Self::spec_tc_base(data@),
                indices@.len() == i,
                forall|j: int|
                    0 <= j < i ==> (#[trigger] indices@[j]) as int == Self::spec_index(data@, j),
                spec_is_max(indices@, 0, max_index),
                spec_is_min(indices@, 0xFFFF, min_index),
            decreases index_count - i,
        {
            let index: u16 = if short_indices {
                read_u16_le(data, index_base + 2 * i).unwrap()
            } else {
                data[index_base + i] as u16
            };
            let ghost before = indices@;
            indices.push(index);
            proof {
                assert(forall|j: int| 0 <= j < i ==> indices@[j] == before[j]);
                assert(indices@[i as int] == index);
                if index > max_index || before.len() == 0 {
                } else {
                    let w = choose|w: int| 0 <= w < before.len() && before[w] == max_index;
                    assert(indices@[w] == max_index);
                }
                if index < min_index || before.len() == 0 {
                } else {
                    let w = choose|w: int| 0 <= w < before.len() && before[w] == min_index;
                    assert(indices@[w] == min_index);
                }
            }
            if index > max_index {
                max_index = index;
            }
            if index < min_index {
                min_index = index;
            }
            i += 1;
        }

        let mut tex_coords: Vec<[u16; 2]> = Vec::new();
        if have_tc {
            let mut i: usize = 0;
            while i < index_count
                invariant
                    i <= index_count,
                    index_count == Self::spec_count(data@),
                    tc_base == Self::spec_tc_base(data@),
                    byte_tc == FacetFlags::spec_has(
                        Self::spec_flags(data@),
                        FacetFlags::USE_BYTE_TEXCOORDS,
                    ),
                    length <= data@.len(),
                    length == tc_base + if byte_tc {
                        2 * index_count
                    } else {
                        4 * index_count
                    },
                    tex_coords@.len() == i,
                    forall|j: int, k: int|
                        0 <= j < i && 0 <= k < 2 ==> (#[trigger] tex_coords@[j][k]) as int
                            == Self::spec_tex_coord(data@, j, k),
                decreases index_count - i,
            {
                let pair: [u16; 2] = if byte_tc {
                    [data[tc_base + 2 * i] as u16, data[tc_base + 2 * i + 1] as u16]
                } else {
                    [
                        read_u16_le(data, tc_base + 4 * i).unwrap(),
                        read_u16_le(data, tc_base + 4 * i + 2).unwrap(),
                    ]
                };
                tex_coords.push(pair);
                i += 1;
            }
        }
        Ok(
            Facet {
                length,
                flags,
                color: data[3],
                material,
                indices,
                tex_coords,
                max_index,
                min_index,
            },
        )
    }

    /// The length of the record in bytes.
    pub fn size(&self) -> (n: usize)
        ensures
            n == self.spec_size(),
    {
        self.length
    }

    /// The texture coordinates of corner `k`: those that the record
    /// holds for it, or `[0, 0]` where it holds none.
    pub open spec fn spec_corner_coords(&self, k: int) -> [u16; 2] {
        if FacetFlags::spec_has(self.flags.bits, FacetFlags::HAVE_TEXCOORDS) && 0 <= k
            < self.tex_coords@.len() {
            self.tex_coords@[k]
        } else {
            [0u16, 0u16]
        }
    }

    /// Corner `k` as a vertex to draw: its index into a pool of `pool`
    /// vertices and its texture coordinates. A corner whose index lies
    /// outside the pool is left out.
    pub open spec fn spec_corner(&self, k: int, pool: int) -> Seq<(u16, [u16; 2])> {
        if self.indices@[k] < pool {
            seq![(self.indices@[k], self.spec_corner_coords(k))]
        } else {
            Seq::empty()
        }
    }

    /// The triangles of the fan up to corner `n`: for each corner from the
    /// third on the first corner, the corner before it, and the corner
    /// itself.
    pub open spec fn spec_fan(&self, pool: int, n: int) -> Seq<(u16, [u16; 2])>
        decreases n,
    {
        if n <= 2 {
            Seq::empty()
        } else {
            self.spec_fan(pool, n - 1) + (self.spec_corner(0, pool) + self.spec_corner(
                n - 2,
                pool,
            ) + self.spec_corner(n - 1, pool))
        }
    }

    fn corner(&self, k: usize, pool: usize, out: &mut Vec<(u16, [u16; 2])>)
        requires
            k < self.indices@.len(),
        ensures
            final(out)@ == old(out)@ + self.spec_corner(k as int, pool as int),
    {
        let index: u16 = self.indices[k];
        if (index as usize) < pool {
            let coords: [u16; 2] = if self.flags.contains(FacetFlags::HAVE_TEXCOORDS) && k
                < self.tex_coords.len() {
                self.tex_coords[k]
            } else {
                [0, 0]
            };
            out.push((index, coords));
            assert(out@ =~= old(out)@ + self.spec_corner(k as int, pool as int));
        } else {
            assert(out@ =~= old(out)@ + self.spec_corner(k as int, pool as int));
        }
    }

    /// The vertices to draw the facet with, as a fan of triangles over a
    /// pool of `pool` vertices: three for each triangle, less those whose
    /// index lies outside the pool.
    pub fn triangle_fan(&self, pool: usize) -> (r: Vec<(u16, [u16; 2])>)
        ensures
            r@ == self.spec_fan(pool as int, self.indices@.len() as int),
    {
        let mut out: Vec<(u16, [u16; 2])> = Vec::new();
        let mut i: usize = 2;
        while i < self.indices.len()
            invariant
                2 <= i,
                i <= self.indices@.len() || (self.indices@.len() < 2 && i == 2),
                out@ == self.spec_fan(pool as int, i as int),
            decreases self.indices@.len() - i,
        {
            let ghost before = out@;
            self.corner(0, pool, &mut out);
            self.corner(i - 1, pool, &mut out);
            self.corner(i, pool, &mut out);
            i += 1;
            assert(out@ =~= before + (self.spec_corner(0, pool as int) + self.spec_corner(
                i - 2,
                pool as int,
            ) + self.spec_corner(i - 1, pool as int)));
        }
        proof {
            if self.indices@.len() < 2 {
                assert(self.spec_fan(pool as int, self.indices@.len() as int) =~= self.spec_fan(
                    pool as int,
                    2,
                ));
            }
        }
        out
    }
}

/// The length of a facet is three bytes, the material field, the count
/// byte, the indices, and where there are texture coordinates two of them
/// for each index.
pub proof fn lemma_facet_length(data: Seq<u8>)
    ensures
        Facet::spec_len(data) == 3 + FacetFlags::spec_material_size(Facet::spec_flags(data)) + 1
            + Facet::spec_count(data) * FacetFlags::spec_index_size(Facet::spec_flags(data)) + (
        if FacetFlags::spec_has(Facet::spec_flags(data), FacetFlags::HAVE_TEXCOORDS) {
            Facet::spec_count(data) * 2 * FacetFlags::spec_tc_size(Facet::spec_flags(data))
        } else {
            0
        }),
{
}

} // verus!
