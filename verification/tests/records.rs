use shape_vm::sh::code::X86Code;
use shape_vm::sh::error::DecodeErrorKind;
use shape_vm::sh::facet::{Facet, FacetFlags};
use shape_vm::sh::instr::Instr;
use shape_vm::sh::opaque::{Opaque, OpaqueKind, UnkCE};
use shape_vm::sh::refs::{SourceRef, TextureRef};
use shape_vm::sh::shape::CpuShape;
use shape_vm::sh::unknown::{Pad1E, TrailerUnknown, Unk38, Unk40, UnkBC, UnkF6};
use shape_vm::sh::vertex::VertexBuf;

fn texture_record(name: &[u8]) -> Vec<u8> {
    let mut data = vec![0xE2u8, 0x00];
    data.extend_from_slice(name);
    while data.len() < 16 {
        data.push(0);
    }
    data
}

#[test]
fn texture_ref_of_sixteen_bytes() {
    let data = texture_record(b"wing.PIC");
    assert_eq!(data.len(), 16);
    let record = TextureRef::from_bytes(&data).unwrap();
    assert_eq!(record.filename, "wing.PIC");
    assert_eq!(record.size(), 16);
}

#[test]
fn texture_ref_ignores_what_follows_the_terminator() {
    let mut data = texture_record(b"a.PIC");
    data[10] = b'x';
    data.push(0x77);
    let record = TextureRef::from_bytes(&data).unwrap();
    assert_eq!(record.filename, "a.PIC");
}

#[test]
fn texture_ref_faults() {
    let data = texture_record(b"fourteen_bytes");
    assert!(matches!(TextureRef::from_bytes(&data), Err(DecodeErrorKind::MissingTerminator)));
    let data = texture_record(&[0xFF, 0xFE]);
    assert!(matches!(TextureRef::from_bytes(&data), Err(DecodeErrorKind::InvalidName)));
    let data = texture_record(b"wing.PIC");
    assert!(matches!(
        TextureRef::from_bytes(&data[..15]),
        Err(DecodeErrorKind::RecordLengthOverflow)
    ));
    let mut data = texture_record(b"wing.PIC");
    data[1] = 1;
    assert!(matches!(TextureRef::from_bytes(&data), Err(DecodeErrorKind::MalformedRecord)));
    let mut data = texture_record(b"wing.PIC");
    data[0] = 0x42;
    assert!(matches!(TextureRef::from_bytes(&data), Err(DecodeErrorKind::MalformedRecord)));
}

#[test]
fn source_ref_has_the_length_of_its_name() {
    let data = [0x42u8, 0x07, b'F', b'1', b'8', b'.', b'3', b'D', 0, 0xAA, 0xBB];
    let record = SourceRef::from_bytes(&data).unwrap();
    assert_eq!(record.unk0, 0x07);
    assert_eq!(record.source, "F18.3D");
    assert_eq!(record.size(), 9);
}

#[test]
fn source_ref_faults() {
    assert!(matches!(SourceRef::from_bytes(&[0x42]), Err(DecodeErrorKind::RecordLengthOverflow)));
    assert!(matches!(
        SourceRef::from_bytes(&[0x42, 0, b'a', b'b']),
        Err(DecodeErrorKind::MissingTerminator)
    ));
    assert!(matches!(
        SourceRef::from_bytes(&[0x42, 0, 0xC0, 0]),
        Err(DecodeErrorKind::InvalidName)
    ));
    assert!(matches!(
        SourceRef::from_bytes(&[0x43, 0, b'a', 0]),
        Err(DecodeErrorKind::MalformedRecord)
    ));
}

#[test]
fn vertex_buf_reads_signed_coordinates() {
    let data = [
        0x82u8, 0x00, 0x02, 0x00, 0x34, 0x12, // tag, zero, two vertices, unk0
        0x01, 0x00, 0xFF, 0xFF, 0x00, 0x80, // 1, -1, -32768
        0xFF, 0x7F, 0x00, 0x00, 0xFE, 0xFF, // 32767, 0, -2
        0x99,
    ];
    let record = VertexBuf::from_bytes(&data).unwrap();
    assert_eq!(record.unk0, 0x1234);
    assert_eq!(record.verts, vec![[1, -1, -32768], [32767, 0, -2]]);
    assert_eq!(record.size(), 18);
}

#[test]
fn vertex_buf_faults() {
    assert!(matches!(
        VertexBuf::from_bytes(&[0x82, 0, 1, 0, 0]),
        Err(DecodeErrorKind::RecordLengthOverflow)
    ));
    assert!(matches!(
        VertexBuf::from_bytes(&[0x82, 0, 1, 0, 0, 0, 1, 2, 3, 4, 5]),
        Err(DecodeErrorKind::RecordLengthOverflow)
    ));
    assert!(matches!(
        VertexBuf::from_bytes(&[0x82, 1, 0, 0, 0, 0]),
        Err(DecodeErrorKind::MalformedRecord)
    ));
    let empty = VertexBuf::from_bytes(&[0x82, 0, 0, 0, 0, 0]).unwrap();
    assert_eq!(empty.verts.len(), 0);
    assert_eq!(empty.size(), 6);
}

fn facet_bytes(flags: u16, count: u8) -> Vec<u8> {
    let material = if flags & 0x4000 != 0 {
        if flags & 0x0002 != 0 {
            11
        } else {
            14
        }
    } else {
        2
    };
    let mut data = vec![0xFCu8, (flags >> 8) as u8, (flags & 0xFF) as u8];
    for i in 0..material {
        data.push(0x90 + i as u8);
    }
    data.push(count);
    let index_size = if flags & 0x0004 != 0 { 2 } else { 1 };
    for i in 0..(count as usize * index_size) {
        data.push(i as u8 + 1);
    }
    if flags & 0x0400 != 0 {
        let tc_size = if flags & 0x0001 != 0 { 1 } else { 2 };
        for i in 0..(count as usize * 2 * tc_size) {
            data.push(0x40 + i as u8);
        }
    }
    data
}

#[test]
fn facet_length_for_every_combination_of_flags() {
    let bits = [0x4000u16, 0x0400, 0x0004, 0x0002, 0x0001];
    for combination in 0..32u16 {
        let mut flags = 0u16;
        for (i, bit) in bits.iter().enumerate() {
            if combination & (1 << i) != 0 {
                flags |= bit;
            }
        }
        for count in [0u8, 1, 3, 4, 255] {
            let f = FacetFlags::from_u16(flags);
            let expected = 3
                + f.material_size()
                + 1
                + count as usize * f.index_size()
                + if f.contains(FacetFlags::HAVE_TEXCOORDS) {
                    count as usize * 2 * f.tc_size()
                } else {
                    0
                };
            let mut data = facet_bytes(flags, count);
            assert_eq!(data.len(), expected);
            data.push(0xEE);
            let facet = Facet::from_bytes(&data).unwrap();
            assert_eq!(facet.size(), expected, "flags {:04X} count {}", flags, count);
            assert_eq!(facet.length, expected);
            assert_eq!(facet.indices.len(), count as usize);
            assert_eq!(facet.flags.to_u16(), flags);
            assert!(matches!(
                Facet::from_bytes(&data[..expected - 1]),
                Err(DecodeErrorKind::RecordLengthOverflow)
            ));
        }
    }
}

#[test]
fn facet_widths() {
    assert_eq!(FacetFlags::from_u16(0x0000).material_size(), 2);
    assert_eq!(FacetFlags::from_u16(0x0002).material_size(), 2);
    assert_eq!(FacetFlags::from_u16(0x4000).material_size(), 14);
    assert_eq!(FacetFlags::from_u16(0x4002).material_size(), 11);
    assert_eq!(FacetFlags::from_u16(0x0000).index_size(), 1);
    assert_eq!(FacetFlags::from_u16(0x0004).index_size(), 2);
    assert_eq!(FacetFlags::from_u16(0x0000).tc_size(), 2);
    assert_eq!(FacetFlags::from_u16(0x0001).tc_size(), 1);
}

#[test]
fn facet_with_byte_indices() {
    // FC 0100 9F 00 04 16 16 22 22
    let data = [0xFCu8, 0x01, 0x00, 0x9F, 0x00, 0x04, 0x16, 0x17, 0x22, 0x05];
    let facet = Facet::from_bytes(&data).unwrap();
    assert_eq!(facet.length, 10);
    assert_eq!(facet.color, 0x9F);
    assert_eq!(facet.material, vec![0x9F, 0x00]);
    assert_eq!(facet.indices, vec![0x16, 0x17, 0x22, 0x05]);
    assert_eq!(facet.max_index, 0x22);
    assert_eq!(facet.min_index, 0x05);
    assert!(facet.tex_coords.is_empty());
}

#[test]
fn facet_with_short_indices_and_word_texcoords() {
    let data = [
        0xFCu8, 0x44, 0x04, // material, texcoords, short indices
        0, 0, 3, 0x80, 0, 0, 0, 0, 0xAF, 0, 0xC7, 0xFF, 0x2D, 1, // 14 bytes of material
        0x02, // two indices
        0xFE, 0x00, 0x01, 0x01, // 0x00FE 0x0101
        0x04, 0x00, 0x2C, 0x01, // (4, 0x012C)
        0x4C, 0x00, 0xBB, 0x00, // (0x4C, 0xBB)
    ];
    let facet = Facet::from_bytes(&data).unwrap();
    assert_eq!(facet.length, data.len());
    assert_eq!(facet.indices, vec![0x00FE, 0x0101]);
    assert_eq!(facet.tex_coords, vec![[4, 0x012C], [0x4C, 0xBB]]);
    assert_eq!(facet.max_index, 0x0101);
    assert_eq!(facet.min_index, 0x00FE);
    assert_eq!(facet.color, 0);
}

#[test]
fn facet_with_byte_texcoords() {
    let data = [
        0xFCu8, 0x04, 0x03, // texcoords, short material bit without material, byte texcoords
        0x00, 0x00, 0x03, 0x26, 0x29, 0x26, 0xB8, 0xB4, 0xC3, 0xCA, 0xB9, 0xB3,
    ];
    let facet = Facet::from_bytes(&data).unwrap();
    assert_eq!(facet.length, 15);
    assert_eq!(facet.indices, vec![0x26, 0x29, 0x26]);
    assert_eq!(facet.tex_coords, vec![[0xB8, 0xB4], [0xC3, 0xCA], [0xB9, 0xB3]]);
}

#[test]
fn facet_without_indices() {
    let facet = Facet::from_bytes(&[0xFC, 0x00, 0x00, 0x10, 0x00, 0x00]).unwrap();
    assert_eq!(facet.length, 6);
    assert_eq!(facet.max_index, 0);
    assert_eq!(facet.min_index, 0xFFFF);
}

#[test]
fn facet_faults() {
    assert!(matches!(
        Facet::from_bytes(&[0xFC, 0x00]),
        Err(DecodeErrorKind::RecordLengthOverflow)
    ));
    assert!(matches!(
        Facet::from_bytes(&[0xFC, 0x00, 0x24, 0, 0xFC, 0]),
        Err(DecodeErrorKind::MalformedRecord)
    ));
    assert!(matches!(
        Facet::from_bytes(&[0xFC, 0x40, 0x00, 1, 2, 3]),
        Err(DecodeErrorKind::RecordLengthOverflow)
    ));
    assert!(matches!(
        Facet::from_bytes(&[0xFD, 0x00, 0x00, 0, 0, 0]),
        Err(DecodeErrorKind::MalformedRecord)
    ));
}

#[test]
fn code_ends_behind_a_return_before_a_record() {
    // mov; ret; then a texture reference
    let data = [0xF0u8, 0x00, 0x89, 0x05, 0xC3, 0xE2, 0x00, 0x41];
    let code = X86Code::from_bytes(&data).unwrap();
    assert_eq!(code.code, vec![0x89, 0x05, 0xC3]);
    assert_eq!(code.size(), 5);
}

#[test]
fn code_goes_on_behind_a_return_before_a_magic_word() {
    for word in [[0x48u8, 0x00], [0x00, 0x00], [0x66, 0x05], [0xEB, 0x05], [0x50, 0xE8], [0x66, 0x89]] {
        let data = [0xF0u8, 0x00, 0xC3, word[0], word[1], 0x90, 0xC3, 0xFF, 0x00];
        let code = X86Code::from_bytes(&data).unwrap();
        assert_eq!(code.code, vec![0xC3, word[0], word[1], 0x90, 0xC3]);
    }
}

#[test]
fn code_does_not_take_the_byte_behind_a_magic_word_for_a_return() {
    // ret, magic word 0000, then a byte C3 that is passed over, then a real return.
    let data = [0xF0u8, 0x00, 0xC3, 0x00, 0x00, 0xC3, 0x01, 0xC3, 0x82, 0x00];
    let code = X86Code::from_bytes(&data).unwrap();
    assert_eq!(code.code, vec![0xC3, 0x00, 0x00, 0xC3, 0x01, 0xC3]);
}

#[test]
fn code_skips_immediates() {
    // push imm32 holding C3 bytes, op with imm32 holding C3 bytes, ret
    let data = [
        0xF0u8, 0x00, 0x68, 0xC3, 0xC3, 0xC3, 0xC3, 0x81, 0x05, 0xC3, 0xC3, 0xC3, 0xC3, 0xC3, 0x12,
        0x00,
    ];
    let code = X86Code::from_bytes(&data).unwrap();
    assert_eq!(code.code.len(), 12);
    assert_eq!(code.size(), 14);
}

#[test]
fn code_at_the_end_of_the_buffer() {
    let code = X86Code::from_bytes(&[0xF0, 0x00, 0x90, 0xC3]).unwrap();
    assert_eq!(code.code, vec![0x90, 0xC3]);
    let code = X86Code::from_bytes(&[0xF0, 0x00, 0x90, 0xC3, 0x1E]).unwrap();
    assert_eq!(code.code, vec![0x90, 0xC3]);
    let code = X86Code::from_bytes(&[0xF0, 0x00, 0x90, 0x90]).unwrap();
    assert_eq!(code.code, vec![0x90, 0x90]);
    let code = X86Code::from_bytes(&[0xF0, 0x00]).unwrap();
    assert_eq!(code.code.len(), 0);
    let code = X86Code::from_bytes(&[0xF0, 0x00, 0xC3, 0x00, 0x00]).unwrap();
    assert_eq!(code.code, vec![0xC3, 0x00, 0x00]);
}

#[test]
fn code_faults() {
    assert!(matches!(
        X86Code::from_bytes(&[0xF0, 0x00, 0x68, 1, 2, 3]),
        Err(DecodeErrorKind::RecordLengthOverflow)
    ));
    assert!(matches!(
        X86Code::from_bytes(&[0xF0, 0x00, 0xC3, 0x48, 0x00, 0x81, 1, 2, 3, 4]),
        Err(DecodeErrorKind::RecordLengthOverflow)
    ));
    assert!(matches!(X86Code::from_bytes(&[0xF0]), Err(DecodeErrorKind::RecordLengthOverflow)));
    assert!(matches!(
        X86Code::from_bytes(&[0xF0, 0x01, 0xC3]),
        Err(DecodeErrorKind::MalformedRecord)
    ));
}

#[test]
fn opaque_kinds_have_their_sizes() {
    let table: [(OpaqueKind, u8, usize); 23] = [
        (OpaqueKind::Header, 0xFF, 14),
        (OpaqueKind::Unk46, 0x46, 2),
        (OpaqueKind::UnkB2, 0xB2, 2),
        (OpaqueKind::Unk12, 0x12, 4),
        (OpaqueKind::Unk48, 0x48, 4),
        (OpaqueKind::UnkAC, 0xAC, 4),
        (OpaqueKind::UnkB8, 0xB8, 4),
        (OpaqueKind::UnkCA, 0xCA, 4),
        (OpaqueKind::UnkD0, 0xD0, 4),
        (OpaqueKind::UnkDA, 0xDA, 4),
        (OpaqueKind::UnkE0, 0xE0, 4),
        (OpaqueKind::UnkF2, 0xF2, 4),
        (OpaqueKind::UnkA6, 0xA6, 6),
        (OpaqueKind::UnkC8, 0xC8, 8),
        (OpaqueKind::Unk66, 0x66, 10),
        (OpaqueKind::Unk7A, 0x7A, 10),
        (OpaqueKind::Unk78, 0x78, 12),
        (OpaqueKind::UnkC4, 0xC4, 16),
        (OpaqueKind::Unk0C, 0x0C, 17),
        (OpaqueKind::Unk0E, 0x0E, 17),
        (OpaqueKind::Unk10, 0x10, 17),
        (OpaqueKind::Unk6C, 0x6C, 13),
        (OpaqueKind::Unk06, 0x06, 21),
    ];
    for (kind, tag, size) in table {
        assert_eq!(kind.magic(), tag);
        assert_eq!(kind.size(), size);
        assert_eq!(OpaqueKind::from_tag(tag), Some(kind));
        let mut data = vec![tag, 0xFF];
        for i in 2..size {
            data.push(i as u8);
        }
        data.push(0xEE);
        let record = Opaque::from_bytes(&data).unwrap();
        assert_eq!(record.kind, kind);
        assert_eq!(record.size(), size);
        assert_eq!(record.data, data[2..size].to_vec());
        assert!(matches!(
            Opaque::from_bytes(&data[..size - 1]),
            Err(DecodeErrorKind::RecordLengthOverflow)
        ));
        data[1] = 0x01;
        assert!(matches!(Opaque::from_bytes(&data), Err(DecodeErrorKind::MalformedRecord)));
    }
    assert_eq!(OpaqueKind::from_tag(0xE2), None);
    assert!(matches!(Opaque::from_bytes(&[0xE2, 0, 0]), Err(DecodeErrorKind::MalformedRecord)));
}

#[test]
fn records_of_unknown_meaning() {
    let mut data = vec![0xCEu8, 0x00];
    for i in 0..38u8 {
        data.push(i);
    }
    let ce = UnkCE::from_bytes(&data).unwrap();
    assert_eq!(ce.size(), 40);
    assert_eq!(ce.data[0], 0);
    assert_eq!(ce.data[37], 37);
    assert!(matches!(UnkCE::from_bytes(&data[..39]), Err(DecodeErrorKind::RecordLengthOverflow)));

    let f6 = UnkF6::from_bytes(&[0xF6, 1, 2, 3, 4, 5, 6, 7]).unwrap();
    assert_eq!(f6.data, [1, 2, 3, 4, 5, 6]);
    assert_eq!(f6.size(), 7);

    let u38 = Unk38::from_bytes(&[0x38, 9, 8]).unwrap();
    assert_eq!(u38.data, [9, 8]);
    assert_eq!(u38.size(), 3);

    assert_eq!(Pad1E::from_bytes(&[0x1E]).unwrap().size(), 1);
    assert!(matches!(Pad1E::from_bytes(&[0x1F]), Err(DecodeErrorKind::MalformedRecord)));

    let trailer = TrailerUnknown::from_bytes(&[1, 2, 3]).unwrap();
    assert_eq!(trailer.data, vec![1, 2, 3]);
    assert_eq!(trailer.size(), 3);
}

#[test]
fn unk_bc_lengths() {
    for (flags, length) in [(0x96u8, 8usize), (0x72, 6), (0x68, 10), (0x08, 6)] {
        let data = [0xBCu8, 0x55, flags, 0x77, 1, 2, 3, 4, 5, 6, 7];
        let record = UnkBC::from_bytes(&data).unwrap();
        assert_eq!(record.flags, flags);
        assert_eq!(record.unk0, 0x77);
        assert_eq!(record.size(), length);
        assert_eq!(record.data, data[4..length].to_vec());
    }
    assert!(matches!(
        UnkBC::from_bytes(&[0xBC, 0, 0x97, 0, 0, 0, 0, 0]),
        Err(DecodeErrorKind::MalformedRecord)
    ));
    assert!(matches!(
        UnkBC::from_bytes(&[0xBC, 0, 0x96, 0, 0, 0, 0]),
        Err(DecodeErrorKind::RecordLengthOverflow)
    ));
}

#[test]
fn unk_40_table() {
    // 40 00   04 00   08 00, 25 00, 42 00, 5F 00
    let data = [0x40u8, 0x00, 0x04, 0x00, 0x08, 0x00, 0x25, 0x00, 0x42, 0x00, 0x5F, 0x00, 0xFF];
    let record = Unk40::from_bytes(&data).unwrap();
    assert_eq!(record.count, 4);
    assert_eq!(record.size(), 12);
    assert_eq!(record.data, vec![0x08, 0x25, 0x42, 0x5F]);
    assert!(matches!(
        Unk40::from_bytes(&data[..11]),
        Err(DecodeErrorKind::RecordLengthOverflow)
    ));
}

fn sample_stream() -> Vec<u8> {
    let mut code = vec![0xFFu8, 0x00];
    code.extend_from_slice(&[1, 2, 3, 4, 5, 6, 7, 8, 9, 10, 11, 12]); // header, 14 bytes
    code.extend_from_slice(&[0x42, 0x00, b'a', b'.', b'3', b'D', 0]); // source, 7 bytes
    code.push(0x1E); // pad
    code.extend_from_slice(&texture_record(b"skin.PIC")); // 16 bytes
    code.extend_from_slice(&[0x82, 0, 1, 0, 0, 0, 1, 0, 2, 0, 3, 0]); // 12 bytes
    code.extend_from_slice(&[0xFC, 0x00, 0x00, 0x9F, 0x00, 0x01, 0x00]); // 7 bytes
    code.extend_from_slice(&[0xF0, 0x00, 0x58, 0xC3]); // 4 bytes, up to the end
    code
}

#[test]
fn each_record_starts_where_the_one_before_it_ends() {
    let code = sample_stream();
    let shape = CpuShape::decode(&code).unwrap();
    assert_eq!(shape.len(), 7);
    assert_eq!(shape.offsets, vec![0, 14, 21, 22, 38, 50, 57]);
    assert_eq!(shape.offsets[0], 0);
    for i in 0..shape.instrs.len() - 1 {
        assert_eq!(shape.offsets[i + 1], shape.offsets[i] + shape.instrs[i].size());
    }
    let last = shape.instrs.len() - 1;
    assert_eq!(shape.offsets[last] + shape.instrs[last].size(), code.len());
    assert!(matches!(shape.instrs[0], Instr::Opaque(_)));
    assert!(matches!(shape.instrs[1], Instr::SourceRef(_)));
    assert!(matches!(shape.instrs[2], Instr::Pad1E(_)));
    assert!(matches!(shape.instrs[3], Instr::TextureRef(_)));
    assert!(matches!(shape.instrs[4], Instr::VertexBuf(_)));
    assert!(matches!(shape.instrs[5], Instr::Facet(_)));
    assert!(matches!(shape.instrs[6], Instr::X86Code(_)));
    assert_eq!(shape.bytes_to_index(22), Some(3));
    assert_eq!(shape.bytes_to_index(23), None);
    assert_eq!(shape.source, "");
}

#[test]
fn empty_code_is_an_empty_shape() {
    let shape = CpuShape::decode(&[]).unwrap();
    assert_eq!(shape.len(), 0);
    assert_eq!(CpuShape::empty().len(), 0);
}

#[test]
fn unknown_first_tag_is_fatal_and_decodes_nothing() {
    let code = [0x01u8, 0x02, 0x03];
    let error = CpuShape::decode(&code).err().unwrap();
    assert_eq!(error.kind, DecodeErrorKind::UnknownRecordTag);
    assert_eq!(error.offset, 0);
    assert_eq!(error.tag, 0x01);
    let (shape, failure) = CpuShape::decode_prefix(&code);
    assert_eq!(shape.len(), 0);
    assert_eq!(failure, Some(error));
}

#[test]
fn records_before_a_failure_can_be_looked_at() {
    let mut code = sample_stream();
    code.truncate(57);
    code.extend_from_slice(&[0x07, 0x08]);
    let error = CpuShape::decode(&code).err().unwrap();
    assert_eq!(error.kind, DecodeErrorKind::UnknownRecordTag);
    assert_eq!(error.offset, 57);
    assert_eq!(error.tag, 0x07);
    let (shape, failure) = CpuShape::decode_prefix(&code);
    assert_eq!(failure, Some(error));
    assert_eq!(shape.len(), 6);
    assert_eq!(shape.offsets, vec![0, 14, 21, 22, 38, 50]);
}

#[test]
fn a_record_that_runs_over_the_end_is_an_overflow() {
    let mut code = sample_stream();
    code.truncate(45);
    let error = CpuShape::decode(&code).err().unwrap();
    assert_eq!(error.kind, DecodeErrorKind::RecordLengthOverflow);
    assert_eq!(error.offset, 38);
    assert_eq!(error.tag, 0x82);
}

#[test]
fn the_rest_behind_an_unknown_tag_can_be_kept_as_a_trailer() {
    let mut code = sample_stream();
    code.truncate(57);
    code.extend_from_slice(&[0x07, 0x08, 0xFF]);
    let shape = CpuShape::decode_with_trailer(&code).unwrap();
    assert_eq!(shape.len(), 7);
    match &shape.instrs[6] {
        Instr::TrailerUnknown(t) => assert_eq!(t.data, vec![0x07, 0x08, 0xFF]),
        _ => panic!("no trailer"),
    }
    assert_eq!(shape.offsets[6] + shape.instrs[6].size(), code.len());

    let whole = CpuShape::decode_with_trailer(&sample_stream()).unwrap();
    assert_eq!(whole.len(), 7);
    assert!(matches!(whole.instrs[6], Instr::X86Code(_)));

    code.truncate(45);
    let error = CpuShape::decode_with_trailer(&code).err().unwrap();
    assert_eq!(error.kind, DecodeErrorKind::RecordLengthOverflow);
}

#[test]
fn instr_dispatches_on_the_tag() {
    assert!(matches!(Instr::from_bytes(&[]), Err(DecodeErrorKind::RecordLengthOverflow)));
    assert!(matches!(Instr::from_bytes(&[0x00]), Err(DecodeErrorKind::UnknownRecordTag)));
    assert!(matches!(Instr::from_bytes(&[0x1E, 0x00]), Ok(Instr::Pad1E(_))));
    assert!(matches!(Instr::from_bytes(&[0x38, 0x00, 0x01]), Ok(Instr::Unk38(_))));
    assert!(matches!(Instr::from_bytes(&[0xF6, 0, 0, 0, 0, 0, 0]), Ok(Instr::UnkF6(_))));
    assert!(matches!(Instr::from_bytes(&[0x46, 0x00]), Ok(Instr::Opaque(_))));
    assert!(matches!(Instr::from_bytes(&[0x40, 0, 0, 0]), Ok(Instr::Unk40(_))));
    assert!(matches!(Instr::from_bytes(&[0xBC, 0, 8, 0, 0, 0]), Ok(Instr::UnkBC(_))));
}

#[test]
fn a_facet_is_drawn_as_a_fan_of_triangles() {
    let data = [
        0xFCu8, 0x04, 0x01, // texcoords in bytes
        0x00, 0x00, 0x05, 10, 11, 12, 13, 14, // five indices
        1, 2, 3, 4, 5, 6, 7, 8, 9, 10,
    ];
    let facet = Facet::from_bytes(&data).unwrap();
    let fan = facet.triangle_fan(100);
    assert_eq!(
        fan,
        vec![
            (10, [1, 2]),
            (11, [3, 4]),
            (12, [5, 6]),
            (10, [1, 2]),
            (12, [5, 6]),
            (13, [7, 8]),
            (10, [1, 2]),
            (13, [7, 8]),
            (14, [9, 10]),
        ]
    );
    // Corners outside the pool are left out.
    let fan = facet.triangle_fan(13);
    assert_eq!(
        fan,
        vec![
            (10, [1, 2]),
            (11, [3, 4]),
            (12, [5, 6]),
            (10, [1, 2]),
            (12, [5, 6]),
            (10, [1, 2]),
        ]
    );
    assert!(facet.triangle_fan(0).is_empty());
    // Without texture coordinates every corner has the coordinates 0, 0.
    let plain = Facet::from_bytes(&[0xFC, 0, 0, 0x9F, 0, 3, 7, 8, 9]).unwrap();
    assert_eq!(plain.triangle_fan(10), vec![(7, [0, 0]), (8, [0, 0]), (9, [0, 0])]);
    // Fewer than three corners make no triangle.
    let line = Facet::from_bytes(&[0xFC, 0, 0, 0x9F, 0, 2, 7, 8]).unwrap();
    assert!(line.triangle_fan(10).is_empty());
    let none = Facet::from_bytes(&[0xFC, 0, 0, 0x9F, 0, 0]).unwrap();
    assert!(none.triangle_fan(10).is_empty());
}
