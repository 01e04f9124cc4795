//! One record of a shape, of any kind.

use super::code::X86Code;
use super::error::DecodeErrorKind;
use super::facet::Facet;
use super::name::lemma_name_end;
use super::opaque::{Opaque, OpaqueKind, UnkCE};
use super::refs::{SourceRef, TextureRef};
use super::unknown::{Pad1E, TrailerUnknown, Unk38, Unk40, UnkBC, UnkF6};
use super::vertex::VertexBuf;
use vstd::prelude::*;

verus! {

/// A record of a shape.
pub enum Instr {
    /// The pad byte.
    Pad1E(Pad1E),
    /// A record of fixed size whose payload is not interpreted: the header
    /// of a shape is one of them.
    Opaque(Opaque),
    UnkCE(UnkCE),
    UnkF6(UnkF6),
    Unk38(Unk38),
    UnkBC(UnkBC),
    Unk40(Unk40),
    /// What is left from the first byte that starts no known record. It
    /// stands only at the end of a sequence, and only where the caller
    /// asked to have the rest kept rather than refused.
    TrailerUnknown(TrailerUnknown),
    TextureRef(TextureRef),
    SourceRef(SourceRef),
    VertexBuf(VertexBuf),
    Facet(Facet),
    X86Code(X86Code),
}

impl Instr {
    /// The tag bytes that introduce a record.
    pub open spec fn spec_known_tag(tag: u8) -> bool {
        ||| tag == 0x1E
        ||| OpaqueKind::spec_from_tag(tag) is Some
        ||| tag == 0xCE
        ||| tag == 0xBC
        ||| tag == 0xF6
        ||| tag == 0x38
        ||| tag == 0x40
        ||| tag == 0xE2
        ||| tag == 0x42
        ||| tag == 0x82
        ||| tag == 0xFC
        ||| tag == 0xF0
    }

    /// Why `data` does not start with a record, or `None` where it does.
    /// The tag byte selects the kind, and a tag byte of no kind is a fault.
    pub open spec fn spec_fault(data: Seq<u8>) -> Option<DecodeErrorKind> {
        if data.len() < 1 {
            Some(DecodeErrorKind::RecordLengthOverflow)
        } else if data[0] == 0x1E {
            Pad1E::spec_fault(data)
        } else if OpaqueKind::spec_from_tag(data[0]) is Some {
            Opaque::spec_fault(data)
        } else if data[0] == 0xCE {
            UnkCE::spec_fault(data)
        } else if data[0] == 0xBC {
            UnkBC::spec_fault(data)
        } else if data[0] == 0xF6 {
            UnkF6::spec_fault(data)
        } else if data[0] == 0x38 {
            Unk38::spec_fault(data)
        } else if data[0] == 0x40 {
            Unk40::spec_fault(data)
        } else if data[0] == 0xE2 {
            TextureRef::spec_fault(data)
        } else if data[0] == 0x42 {
            SourceRef::spec_fault(data)
        } else if data[0] == 0x82 {
            VertexBuf::spec_fault(data)
        } else if data[0] == 0xFC {
            Facet::spec_fault(data)
        } else if data[0] == 0xF0 {
            X86Code::spec_fault(data)
        } else {
            Some(DecodeErrorKind::UnknownRecordTag)
        }
    }

    /// The length of the record that `data` starts with.
    pub open spec fn spec_len(data: Seq<u8>) -> int {
        if data[0] == 0x1E {
            1
        } else if OpaqueKind::spec_from_tag(data[0]) is Some {
            Opaque::spec_len(data)
        } else if data[0] == 0xCE {
            40
        } else if data[0] == 0xBC {
            UnkBC::spec_len(data)
        } else if data[0] == 0xF6 {
            7
        } else if data[0] == 0x38 {
            3
        } else if data[0] == 0x40 {
            Unk40::spec_len(data)
        } else if data[0] == 0xE2 {
            16
        } else if data[0] == 0x42 {
            SourceRef::spec_len(data)
        } else if data[0] == 0x82 {
            VertexBuf::spec_len(data)
        } else if data[0] == 0xFC {
            Facet::spec_len(data)
        } else if data[0] == 0xF0 {
            X86Code::spec_len(data)
        } else {
            data.len() as int
        }
    }

    /// This record is what `data` starts with: it is of the kind that the
    /// tag byte selects and holds what that kind decodes from `data`. A
    /// trailer is what `data` starts with where the tag byte selects no
    /// kind, and then holds all of `data`.
    pub open spec fn spec_decodes(&self, data: Seq<u8>) -> bool {
        &&& data.len() >= 1
        &&& match self {
            Instr::Pad1E(_) => data[0] == 0x1E,
            Instr::Opaque(v) => v.spec_decodes(data),
            Instr::UnkCE(v) => data[0] == 0xCE && v.spec_decodes(data),
            Instr::UnkF6(v) => data[0] == 0xF6 && v.spec_decodes(data),
            Instr::Unk38(v) => data[0] == 0x38 && v.spec_decodes(data),
            Instr::UnkBC(v) => data[0] == 0xBC && v.spec_decodes(data),
            Instr::Unk40(v) => data[0] == 0x40 && v.spec_decodes(data),
            Instr::TrailerUnknown(v) => !Self::spec_known_tag(data[0]) && v.spec_decodes(data),
            Instr::TextureRef(v) => data[0] == 0xE2 && v.spec_decodes(data),
            Instr::SourceRef(v) => data[0] == 0x42 && v.spec_decodes(data),
            Instr::VertexBuf(v) => data[0] == 0x82 && v.spec_decodes(data),
            Instr::Facet(v) => data[0] == 0xFC && v.spec_decodes(data),
            Instr::X86Code(v) => data[0] == 0xF0 && v.spec_decodes(data),
        }
        &&& self.spec_size() == Self::spec_len(data)
    }

    /// The length of this record in bytes.
    pub open spec fn spec_size(&self) -> int {
        match self {
            Instr::Pad1E(v) => v.spec_size(),
            Instr::Opaque(v) => v.spec_size(),
            Instr::UnkCE(v) => v.spec_size(),
            Instr::UnkF6(v) => v.spec_size(),
            Instr::Unk38(v) => v.spec_size(),
            Instr::UnkBC(v) => v.spec_size(),
            Instr::Unk40(v) => v.spec_size(),
            Instr::TrailerUnknown(v) => v.spec_size(),
            Instr::TextureRef(v) => v.spec_size(),
            Instr::SourceRef(v) => v.spec_size(),
            Instr::VertexBuf(v) => v.spec_size(),
            Instr::Facet(v) => v.spec_size(),
            Instr::X86Code(v) => v.spec_size(),
        }
    }

    /// Decodes the record that `data` starts with. The first byte is the
    /// tag and selects the kind of record.
    ///
    /// Fails with `UnknownRecordTag` where the tag selects no kind, with
    /// `RecordLengthOverflow` where the record would end behind the end of
    /// `data`, and with the fault of the kind where the bytes are not such
    /// a record. A trailer is never returned.
    pub fn from_bytes(data: &[u8]) -> (r: Result<Instr, DecodeErrorKind>)
        ensures
            r is Ok <==> Self::spec_fault(data@) is None,
            r matches Ok(i) ==> i.spec_decodes(data@) && !(i is TrailerUnknown) && 1
                <= i.spec_size() <= data@.len(),
            r matches Err(k) ==> Self::spec_fault(data@) == Some(k),
    {
        if data.len() < 1 {
            return Err(DecodeErrorKind::RecordLengthOverflow);
        }
        let tag: u8 = data[0];
        if tag == Pad1E::MAGIC {
            match Pad1E::from_bytes(data) {
                Ok(v) => Ok(Instr::Pad1E(v)),
                Err(k) => Err(k),
            }
        } else if OpaqueKind::from_tag(tag).is_some() {
            match Opaque::from_bytes(data) {
                Ok(v) => Ok(Instr::Opaque(v)),
                Err(k) => Err(k),
            }
        } else if tag == UnkCE::MAGIC {
            match UnkCE::from_bytes(data) {
                Ok(v) => Ok(Instr::UnkCE(v)),
                Err(k) => Err(k),
            }
        } else if tag == UnkBC::MAGIC {
            match UnkBC::from_bytes(data) {
                Ok(v) => Ok(Instr::UnkBC(v)),
                Err(k) => Err(k),
            }
        } else if tag == UnkF6::MAGIC {
            match UnkF6::from_bytes(data) {
                Ok(v) => Ok(Instr::UnkF6(v)),
                Err(k) => Err(k),
            }
        } else if tag == Unk38::MAGIC {
            match Unk38::from_bytes(data) {
                Ok(v) => Ok(Instr::Unk38(v)),
                Err(k) => Err(k),
            }
        } else if tag == Unk40::MAGIC {
            match Unk40::from_bytes(data) {
                Ok(v) => Ok(Instr::Unk40(v)),
                Err(k) => Err(k),
            }
        } else if tag == TextureRef::MAGIC {
            match TextureRef::from_bytes(data) {
                Ok(v) => Ok(Instr::TextureRef(v)),
                Err(k) => Err(k),
            }
        } else if tag == SourceRef::MAGIC {
            match SourceRef::from_bytes(data) {
                Ok(v) => Ok(Instr::SourceRef(v)),
                Err(k) => Err(k),
            }
        } else if tag == VertexBuf::MAGIC {
            match VertexBuf::from_bytes(data) {
                Ok(v) => Ok(Instr::VertexBuf(v)),
                Err(k) => Err(k),
            }
        } else if tag == Facet::MAGIC {
            match Facet::from_bytes(data) {
                Ok(v) => Ok(Instr::Facet(v)),
                Err(k) => Err(k),
            }
        } else if tag == X86Code::MAGIC {
            match X86Code::from_bytes(data) {
                Ok(v) => Ok(Instr::X86Code(v)),
                Err(k) => Err(k),
            }
        } else {
            Err(DecodeErrorKind::UnknownRecordTag)
        }
    }

    /// The tag byte of the record. A trailer has none.
    pub open spec fn spec_magic(&self) -> Option<u8> {
        match self {
            Instr::Pad1E(_) => Some(0x1Eu8),
            Instr::Opaque(v) => Some(v.kind.spec_magic()),
            Instr::UnkCE(_) => Some(0xCEu8),
            Instr::UnkF6(_) => Some(0xF6u8),
            Instr::Unk38(_) => Some(0x38u8),
            Instr::UnkBC(_) => Some(0xBCu8),
            Instr::Unk40(_) => Some(0x40u8),
            Instr::TrailerUnknown(_) => None,
            Instr::TextureRef(_) => Some(0xE2u8),
            Instr::SourceRef(_) => Some(0x42u8),
            Instr::VertexBuf(_) => Some(0x82u8),
            Instr::Facet(_) => Some(0xFCu8),
            Instr::X86Code(_) => Some(0xF0u8),
        }
    }

    /// The tag byte of the record. A trailer has none.
    pub fn magic(&self) -> (r: Option<u8>)
        ensures
            r == self.spec_magic(),
    {
        match self {
            Instr::Pad1E(_) => Some(Pad1E::MAGIC),
            Instr::Opaque(v) => Some(v.kind.magic()),
            Instr::UnkCE(_) => Some(UnkCE::MAGIC),
            Instr::UnkF6(_) => Some(UnkF6::MAGIC),
            Instr::Unk38(_) => Some(Unk38::MAGIC),
            Instr::UnkBC(_) => Some(UnkBC::MAGIC),
            Instr::Unk40(_) => Some(Unk40::MAGIC),
            Instr::TrailerUnknown(_) => None,
            Instr::TextureRef(_) => Some(TextureRef::MAGIC),
            Instr::SourceRef(_) => Some(SourceRef::MAGIC),
            Instr::VertexBuf(_) => Some(VertexBuf::MAGIC),
            Instr::Facet(_) => Some(Facet::MAGIC),
            Instr::X86Code(_) => Some(X86Code::MAGIC),
        }
    }

    /// The length of the record in bytes.
    pub fn size(&self) -> (n: usize)
        requires
            self.spec_size() <= usize::MAX,
        ensures
            n == self.spec_size(),
    {
        match self {
            Instr::Pad1E(v) => v.size(),
            Instr::Opaque(v) => v.size(),
            Instr::UnkCE(v) => v.size(),
            Instr::UnkF6(v) => v.size(),
            Instr::Unk38(v) => v.size(),
            Instr::UnkBC(v) => v.size(),
            Instr::Unk40(v) => v.size(),
            Instr::TrailerUnknown(v) => v.size(),
            Instr::TextureRef(v) => v.size(),
            Instr::SourceRef(v) => v.size(),
            Instr::VertexBuf(v) => v.size(),
            Instr::Facet(v) => v.size(),
            Instr::X86Code(v) => v.size(),
        }
    }
}

/// A buffer that starts with a record is at least as long as the record,
/// and no record is empty.
pub proof fn lemma_record_length(data: Seq<u8>)
    requires
        Instr::spec_fault(data) is None,
    ensures
        1 <= Instr::spec_len(data) <= data.len(),
{
    if data[0] == 0x42 {
        lemma_name_end(data.skip(2), 0);
    } else if data[0] == 0xF0 {
        super::code::lemma_scan_bounds(data.skip(2), 0);
    }
}

} // verus!
