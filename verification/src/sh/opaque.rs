//! Records whose payload is kept as it stands: their meaning is not known.

use super::error::DecodeErrorKind;
use vstd::prelude::*;

verus! {

/// The records of fixed size whose second byte is 0 or 0xFF and whose
/// payload follows it.
#[derive(Clone, Copy, Debug, PartialEq, Eq, Structural)]
pub enum OpaqueKind {
    Header,
    Unk46,
    UnkB2,
    Unk12,
    Unk48,
    UnkAC,
    UnkB8,
    UnkCA,
    UnkD0,
    UnkDA,
    UnkE0,
    UnkF2,
    UnkA6,
    UnkC8,
    Unk66,
    Unk7A,
    Unk78,
    UnkC4,
    Unk0C,
    Unk0E,
    Unk10,
    Unk6C,
    Unk06,
}

impl OpaqueKind {
    /// The tag byte of this kind of record.
    pub open spec fn spec_magic(self) -> u8 {
        match self {
            OpaqueKind::Header => 0xFF,
            OpaqueKind::Unk46 => 0x46,
            OpaqueKind::UnkB2 => 0xB2,
            OpaqueKind::Unk12 => 0x12,
            OpaqueKind::Unk48 => 0x48,
            OpaqueKind::UnkAC => 0xAC,
            OpaqueKind::UnkB8 => 0xB8,
            OpaqueKind::UnkCA => 0xCA,
            OpaqueKind::UnkD0 => 0xD0,
            OpaqueKind::UnkDA => 0xDA,
            OpaqueKind::UnkE0 => 0xE0,
            OpaqueKind::UnkF2 => 0xF2,
            OpaqueKind::UnkA6 => 0xA6,
            OpaqueKind::UnkC8 => 0xC8,
            OpaqueKind::Unk66 => 0x66,
            OpaqueKind::Unk7A => 0x7A,
            OpaqueKind::Unk78 => 0x78,
            OpaqueKind::UnkC4 => 0xC4,
            OpaqueKind::Unk0C => 0x0C,
            OpaqueKind::Unk0E => 0x0E,
            OpaqueKind::Unk10 => 0x10,
            OpaqueKind::Unk6C => 0x6C,
            OpaqueKind::Unk06 => 0x06,
        }
    }

    /// The length in bytes of this kind of record, tag included.
    pub open spec fn spec_size(self) -> int {
        match self {
            OpaqueKind::Header => 14,
            OpaqueKind::Unk46 => 2,
            OpaqueKind::UnkB2 => 2,
            OpaqueKind::Unk12 => 4,
            OpaqueKind::Unk48 => 4,
            OpaqueKind::UnkAC => 4,
            OpaqueKind::UnkB8 => 4,
            OpaqueKind::UnkCA => 4,
            OpaqueKind::UnkD0 => 4,
            OpaqueKind::UnkDA => 4,
            OpaqueKind::UnkE0 => 4,
            OpaqueKind::UnkF2 => 4,
            OpaqueKind::UnkA6 => 6,
            OpaqueKind::UnkC8 => 8,
            OpaqueKind::Unk66 => 10,
            OpaqueKind::Unk7A => 10,
            OpaqueKind::Unk78 => 12,
            OpaqueKind::UnkC4 => 16,
            OpaqueKind::Unk0C => 17,
            OpaqueKind::Unk0E => 17,
            OpaqueKind::Unk10 => 17,
            OpaqueKind::Unk6C => 13,
            OpaqueKind::Unk06 => 21,
        }
    }

    /// The kind that the tag byte `tag` introduces, if any.
    pub open spec fn spec_from_tag(tag: u8) -> Option<OpaqueKind> {
        if tag == 0xFF {
            Some(OpaqueKind::Header)
        } else if tag == 0x46 {
            Some(OpaqueKind::Unk46)
        } else if tag == 0xB2 {
            Some(OpaqueKind::UnkB2)
        } else if tag == 0x12 {
            Some(OpaqueKind::Unk12)
        } else if tag == 0x48 {
            Some(OpaqueKind::Unk48)
        } else if tag == 0xAC {
            Some(OpaqueKind::UnkAC)
        } else if tag == 0xB8 {
            Some(OpaqueKind::UnkB8)
        } else if tag == 0xCA {
            Some(OpaqueKind::UnkCA)
        } else if tag == 0xD0 {
            Some(OpaqueKind::UnkD0)
        } else if tag == 0xDA {
            Some(OpaqueKind::UnkDA)
        } else if tag == 0xE0 {
            Some(OpaqueKind::UnkE0)
        } else if tag == 0xF2 {
            Some(OpaqueKind::UnkF2)
        } else if tag == 0xA6 {
            Some(OpaqueKind::UnkA6)
        } else if tag == 0xC8 {
            Some(OpaqueKind::UnkC8)
        } else if tag == 0x66 {
            Some(OpaqueKind::Unk66)
        } else if tag == 0x7A {
            Some(OpaqueKind::Unk7A)
        } else if tag == 0x78 {
            Some(OpaqueKind::Unk78)
        } else if tag == 0xC4 {
            Some(OpaqueKind::UnkC4)
        } else if tag == 0x0C {
            Some(OpaqueKind::Unk0C)
        } else if tag == 0x0E {
            Some(OpaqueKind::Unk0E)
        } else if tag == 0x10 {
            Some(OpaqueKind::Unk10)
        } else if tag == 0x6C {
            Some(OpaqueKind::Unk6C)
        } else if tag == 0x06 {
            Some(OpaqueKind::Unk06)
        } else {
            None
        }
    }

    /// The tag byte of this kind of record.
    pub fn magic(self) -> (tag: u8)
        ensures
            tag == self.spec_magic(),
            Self::spec_from_tag(tag) == Some(self),
    {
        match self {
            OpaqueKind::Header => 0xFF,
            OpaqueKind::Unk46 => 0x46,
            OpaqueKind::UnkB2 => 0xB2,
            OpaqueKind::Unk12 => 0x12,
            OpaqueKind::Unk48 => 0x48,
            OpaqueKind::UnkAC => 0xAC,
            OpaqueKind::UnkB8 => 0xB8,
            OpaqueKind::UnkCA => 0xCA,
            OpaqueKind::UnkD0 => 0xD0,
            OpaqueKind::UnkDA => 0xDA,
            OpaqueKind::UnkE0 => 0xE0,
            OpaqueKind::UnkF2 => 0xF2,
            OpaqueKind::UnkA6 => 0xA6,
            OpaqueKind::UnkC8 => 0xC8,
            OpaqueKind::Unk66 => 0x66,
            OpaqueKind::Unk7A => 0x7A,
            OpaqueKind::Unk78 => 0x78,
            OpaqueKind::UnkC4 => 0xC4,
            OpaqueKind::Unk0C => 0x0C,
            OpaqueKind::Unk0E => 0x0E,
            OpaqueKind::Unk10 => 0x10,
            OpaqueKind::Unk6C => 0x6C,
            OpaqueKind::Unk06 => 0x06,
        }
    }

    /// The length in bytes of this kind of record, tag included.
    pub fn size(self) -> (n: usize)
        ensures
            n == self.spec_size(),
            2 <= n <= 21,
    {
        match self {
            OpaqueKind::Header => 14,
            OpaqueKind::Unk46 => 2,
            OpaqueKind::UnkB2 => 2,
            OpaqueKind::Unk12 => 4,
            OpaqueKind::Unk48 => 4,
            OpaqueKind::UnkAC => 4,
            OpaqueKind::UnkB8 => 4,
            OpaqueKind::UnkCA => 4,
            OpaqueKind::UnkD0 => 4,
            OpaqueKind::UnkDA => 4,
            OpaqueKind::UnkE0 => 4,
            OpaqueKind::UnkF2 => 4,
            OpaqueKind::UnkA6 => 6,
            OpaqueKind::UnkC8 => 8,
            OpaqueKind::Unk66 => 10,
            OpaqueKind::Unk7A => 10,
            OpaqueKind::Unk78 => 12,
            OpaqueKind::UnkC4 => 16,
            OpaqueKind::Unk0C => 17,
            OpaqueKind::Unk0E => 17,
            OpaqueKind::Unk10 => 17,
            OpaqueKind::Unk6C => 13,
            OpaqueKind::Unk06 => 21,
        }
    }

    /// The kind that the tag byte `tag` introduces, if any.
    pub fn from_tag(tag: u8) -> (r: Option<OpaqueKind>)
        ensures
            r == Self::spec_from_tag(tag),
            r matches Some(k) ==> k.spec_magic() == tag,
    {
        match tag {
            0xFF => Some(OpaqueKind::Header),
            0x46 => Some(OpaqueKind::Unk46),
            0xB2 => Some(OpaqueKind::UnkB2),
            0x12 => Some(OpaqueKind::Unk12),
            0x48 => Some(OpaqueKind::Unk48),
            0xAC => Some(OpaqueKind::UnkAC),
            0xB8 => Some(OpaqueKind::UnkB8),
            0xCA => Some(OpaqueKind::UnkCA),
            0xD0 => Some(OpaqueKind::UnkD0),
            0xDA => Some(OpaqueKind::UnkDA),
            0xE0 => Some(OpaqueKind::UnkE0),
            0xF2 => Some(OpaqueKind::UnkF2),
            0xA6 => Some(OpaqueKind::UnkA6),
            0xC8 => Some(OpaqueKind::UnkC8),
            0x66 => Some(OpaqueKind::Unk66),
            0x7A => Some(OpaqueKind::Unk7A),
            0x78 => Some(OpaqueKind::Unk78),
            0xC4 => Some(OpaqueKind::UnkC4),
            0x0C => Some(OpaqueKind::Unk0C),
            0x0E => Some(OpaqueKind::Unk0E),
            0x10 => Some(OpaqueKind::Unk10),
            0x6C => Some(OpaqueKind::Unk6C),
            0x06 => Some(OpaqueKind::Unk06),
            _ => None,
        }
    }
}

/// A record of one of the kinds of `OpaqueKind`, with the bytes that follow
/// its tag and its second byte.
pub struct Opaque {
    pub kind: OpaqueKind,
    pub data: Vec<u8>,
}

impl Opaque {
    /// Why `data` does not start with a record of this family, or `None`
    /// where it does.
    pub open spec fn spec_fault(data: Seq<u8>) -> Option<DecodeErrorKind> {
        if data.len() < 1 {
            Some(DecodeErrorKind::RecordLengthOverflow)
        } else {
            match OpaqueKind::spec_from_tag(data[0]) {
                None => Some(DecodeErrorKind::MalformedRecord),
                Some(kind) => if data.len() < kind.spec_size() {
                    Some(DecodeErrorKind::RecordLengthOverflow)
                } else if data[1] != 0 && data[1] != 0xFF {
                    Some(DecodeErrorKind::MalformedRecord)
                } else {
                    None
                },
            }
        }
    }

    /// The length of the record of this family at the start of `data`.
    pub open spec fn spec_len(data: Seq<u8>) -> int {
        OpaqueKind::spec_from_tag(data[0])->0.spec_size()
    }

    /// This value is what the record at the start of `data` holds.
    pub open spec fn spec_decodes(&self, data: Seq<u8>) -> bool {
        &&& OpaqueKind::spec_from_tag(data[0]) == Some(self.kind)
        &&& self.data@ == data.subrange(2, self.kind.spec_size())
    }

    /// The record has the length of its kind.
    pub open spec fn spec_size(&self) -> int {
        self.kind.spec_size()
    }

    /// Decodes the record at the start of `data`: the tag of one of the
    /// kinds, a byte that is 0 or 0xFF, and the payload up to the length
    /// of the kind.
    pub fn from_bytes(data: &[u8]) -> (r: Result<Self, DecodeErrorKind>)
        ensures
            r is Ok <==> Self::spec_fault(data@) is None,
            r matches Ok(o) ==> o.spec_decodes(data@) && o.spec_size() == Self::spec_len(data@) && 2
                <= o.spec_size() <= data@.len(),
            r matches Err(k) ==> Self::spec_fault(data@) == Some(k),
    {
        if data.len() < 1 {
            return Err(DecodeErrorKind::RecordLengthOverflow);
        }
        match OpaqueKind::from_tag(data[0]) {
            None => Err(DecodeErrorKind::MalformedRecord),
            Some(kind) => {
                let size: usize = kind.size();
                if data.len() < size {
                    Err(DecodeErrorKind::RecordLengthOverflow)
                } else if data[1] != 0 && data[1] != 0xFF {
                    Err(DecodeErrorKind::MalformedRecord)
                } else {
                    Ok(
                        Opaque {
                            kind,
                            data: vstd::slice::slice_to_vec(
                                vstd::slice::slice_subrange(data, 2, size),
                            ),
                        },
                    )
                }
            },
        }
    }

    /// The length of the record in bytes.
    pub fn size(&self) -> (n: usize)
        ensures
            n == self.spec_size(),
    {
        self.kind.size()
    }
}

/// A record of 40 bytes: the tag, a zero byte and 38 bytes of payload.
pub struct UnkCE {
    pub data: [u8; 38],
}

impl UnkCE {
    pub const MAGIC: u8 = 0xCE;

    pub const SIZE: usize = 40;

    /// Why `data` does not start with this record, or `None` where it
    /// does.
    pub open spec fn spec_fault(data: Seq<u8>) -> Option<DecodeErrorKind> {
        if data.len() < 40 {
            Some(DecodeErrorKind::RecordLengthOverflow)
        } else if data[0] != 0xCE || data[1] != 0 {
            Some(DecodeErrorKind::MalformedRecord)
        } else {
            None
        }
    }

    /// This value is what the record at the start of `data` holds.
    pub open spec fn spec_decodes(&self, data: Seq<u8>) -> bool {
        self.data@ == data.subrange(2, 40)
    }

    pub open spec fn spec_size(&self) -> int {
        40
    }

    /// Decodes the record at the start of `data`.
    pub fn from_bytes(data: &[u8]) -> (r: Result<Self, DecodeErrorKind>)
        ensures
            r is Ok <==> Self::spec_fault(data@) is None,
            r matches Ok(v) ==> v.spec_decodes(data@),
            r matches Err(k) ==> Self::spec_fault(data@) == Some(k),
    {
        if data.len() < Self::SIZE {
            return Err(DecodeErrorKind::RecordLengthOverflow);
        }
        if data[0] != Self::MAGIC || data[1] != 0 {
            return Err(DecodeErrorKind::MalformedRecord);
        }
        let mut payload: [u8; 38] = [0u8; 38];
        let mut i: usize = 0;
        while i < 38
            invariant
                i <= 38,
                data@.len() >= 40,
                forall|j: int| 0 <= j < i ==> payload@[j] == data@[2 + j],
            decreases 38 - i,
        {
            payload[i] = data[2 + i];
            i += 1;
        }
        assert(payload@ =~= data@.subrange(2, 40));
        Ok(UnkCE { data: payload })
    }

    /// The length of the record in bytes.
    pub fn size(&self) -> (n: usize)
        ensures
            n == self.spec_size(),
    {
        Self::SIZE
    }
}

} // verus!
