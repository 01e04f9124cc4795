use shape_vm::image::{CodeImage, ContainerParseError, Thunk};
use shape_vm::sh::ansi::{b2b, b2h, Color, Escape};
use shape_vm::sh::dump::{
    accumulate_facet_section, accumulate_section, find_tags_in_section, Section, SectionKind,
    ShowMode, Tag, TagKind,
};
use shape_vm::sh::error::DecodeErrorKind;
use shape_vm::sh::explore::{apply_tags, ShapeError};
use shape_vm::sh::format::{clear, format_sections, tidy, FormatError};
use shape_vm::text::chars_to_string;
use shape_vm::sh::shape::CpuShape;

fn text(v: &Vec<char>) -> String {
    v.iter().collect()
}

fn tag(kind: TagKind, offset: usize, length: usize) -> Tag {
    Tag { kind, offset, length }
}

#[test]
fn bytes_as_digits() {
    let mut v = Vec::new();
    b2h(0x00, &mut v);
    b2h(0x9F, &mut v);
    b2h(0xFA, &mut v);
    assert_eq!(text(&v), "009FFA");
    let mut v = vec!['x'];
    b2b(0x41, &mut v);
    b2b(0xFF, &mut v);
    b2b(0x80, &mut v);
    assert_eq!(text(&v), "x010000011111111110000000");
    assert_eq!(chars_to_string(&vec!['a', 'é', '…']), "aé…");
}

#[test]
fn escape_sequences() {
    assert_eq!(text(&Escape::new().text()), "\x1b[0m");
    assert_eq!(text(&Escape::new().fg(Color::Red).text()), "\x1b[31m");
    assert_eq!(text(&Escape::new().bg(Color::Red).text()), "\x1b[41m");
    assert_eq!(text(&Escape::new().fg(Color::BrightMagenta).text()), "\x1b[95m");
    assert_eq!(text(&Escape::new().bg(Color::BrightBlack).text()), "\x1b[100m");
    assert_eq!(text(&Escape::new().bg(Color::BrightRed).bold().text()), "\x1b[1;101m");
    assert_eq!(
        text(&Escape::new().fg(Color::BrightMagenta).strike_through().text()),
        "\x1b[9;95m"
    );
    assert_eq!(
        text(
            &Escape::new()
                .strike_through()
                .underline()
                .dimmed()
                .bold()
                .bg(Color::White)
                .fg(Color::Black)
                .text()
        ),
        "\x1b[1;2;4;9;30;47m"
    );
    let mut v = vec!['a'];
    Escape::new().underline().put(&mut v);
    assert_eq!(text(&v), "a\x1b[4m");
    assert_eq!(Color::Cyan.fg_code(), 36);
    assert_eq!(Color::BrightWhite.bg_code(), 107);
}

#[test]
fn section_colors() {
    let color = |k: u16| Section::new(k, 0, 1).color();
    assert_eq!(color(0xFFFF), Color::Blue);
    assert_eq!(color(0x00F0), Color::BrightGreen);
    assert_eq!(color(0x00F2), Color::Blue);
    assert_eq!(color(0x00DA), Color::Magenta);
    assert_eq!(color(0x0042), Color::Yellow);
    assert_eq!(color(0x00E2), Color::Yellow);
    assert_eq!(color(0x0082), Color::Green);
    assert_eq!(color(0x00FC), Color::Cyan);
    assert_eq!(color(0x1E1E), Color::Red);
    assert_eq!(color(0x0001), Color::Red);
    assert_eq!(Section::unknown(3, 4).color(), Color::BrightBlack);
    assert_eq!(
        Section { kind: SectionKind::Invalid, offset: 0, length: 0 }.color(),
        Color::Red
    );
    assert!(Section::unknown(0, 0).show());
    assert_eq!(Section::unknown(3, 4).kind, SectionKind::Unknown);
    assert_eq!(Section::new(7, 3, 4), Section { kind: SectionKind::Main(7), offset: 3, length: 4 });
}

#[test]
fn a_section_without_tags() {
    let code = [0x82u8, 0x00, 0x01, 0xAB];
    let mut v = vec!['>'];
    accumulate_section(&code, &Section::new(0x82, 0, 4), &Vec::new(), &mut v);
    assert_eq!(text(&v), ">\x1b[42m82 00\x1b[0m\x1b[32m 01 AB\x1b[0m ");
    let mut v = Vec::new();
    accumulate_section(&code, &Section::new(0x82, 1, 2), &Vec::new(), &mut v);
    assert_eq!(text(&v), "\x1b[42m00 01\x1b[0m\x1b[32m\x1b[0m ");
    let mut v = Vec::new();
    accumulate_section(&code, &Section::unknown(3, 1), &Vec::new(), &mut v);
    assert_eq!(text(&v), "\x1b[100mAB\x1b[0m ");
}

#[test]
fn sections_that_are_not_shown() {
    let code = [0x82u8, 0x00, 0x01, 0xAB];
    let mut v = vec!['>'];
    accumulate_section(&code, &Section::new(0x82, 0, 0), &Vec::new(), &mut v);
    accumulate_section(&code, &Section::new(0x82, 0, 5), &Vec::new(), &mut v);
    accumulate_section(&code, &Section::new(0x82, 4, 1), &Vec::new(), &mut v);
    accumulate_section(&code, &Section::new(0x82, usize::MAX, 2), &Vec::new(), &mut v);
    accumulate_facet_section(&code, &Section::new(0xFC, 0, 4), &mut v);
    accumulate_facet_section(&code, &Section::new(0xFC, 0, 2), &mut v);
    assert_eq!(text(&v), ">");
}

#[test]
fn a_section_with_tags() {
    let code = [0xF0u8, 0x00, 0xE8, 0x10, 0x20, 0x30, 0x40, 0xC3, 0x1E];
    let tags = vec![
        tag(TagKind::RelocatedCall("_f".to_string()), 3, 4),
        tag(TagKind::RelocatedRef, 0, 4),
        tag(TagKind::RelocationTarget, 7, 2),
        tag(TagKind::RelocatedRef, 40, 4),
    ];
    let section = Section::new(0xF0, 0, 8);
    let inside = find_tags_in_section(&section, &tags);
    assert_eq!(inside.len(), 3);
    assert_eq!(inside[0].offset, 3);
    assert_eq!(inside[2].offset, 7);
    let mut v = Vec::new();
    accumulate_section(&code, &section, &tags, &mut v);
    let expected = String::new()
        + "\x1b[102mF0 00\x1b[0m\x1b[92m"
        + " E8"
        + " \x1b[2m10"
        + "\x1b[0m\x1b[92m 20" // the tag of four bytes from 0 ends here
        + " 30"
        + " 40"
        + "\x1b[0m(\x1b[31m_f\x1b[0m) \x1b[0m\x1b[92m \x1b[9;95mC3"
        + "\x1b[0m ";
    assert_eq!(text(&v), expected);
    // Underlined where the first tag in the section starts with it.
    let tags = vec![tag(TagKind::RelocatedRef, 0, 4)];
    let mut v = Vec::new();
    accumulate_section(&code, &Section::new(0xF0, 0, 3), &tags, &mut v);
    assert_eq!(text(&v), "\x1b[4m\x1b[102mF0 00\x1b[0m\x1b[92m E8\x1b[0m ");
}

#[test]
fn a_section_as_a_facet() {
    let code = [0xFCu8, 0x41, 0x02, 0x9F, 0x00, 0x1E];
    let mut v = Vec::new();
    accumulate_facet_section(&code, &Section::new(0xFC, 0, 5), &mut v);
    assert_eq!(text(&v), "\x1b[46mFC\x1b[0m\x1b[36m 01000001_00000010 9F 00\x1b[0m ");
    let mut v = Vec::new();
    accumulate_facet_section(&code, &Section::new(0xFC, 0, 3), &mut v);
    assert_eq!(text(&v), "\x1b[46mFC\x1b[0m\x1b[36m 01000001_00000010\x1b[0m ");
    // A facet that ends with the code is not shown.
    let mut v = Vec::new();
    accumulate_facet_section(&code, &Section::new(0xFC, 0, 6), &mut v);
    assert_eq!(text(&v), "");
}

#[test]
fn tags_are_ordered_and_repetitions_removed() {
    let tags = vec![
        tag(TagKind::RelocatedRef, 9, 4),
        tag(TagKind::RelocationTarget, 2, 2),
        tag(TagKind::RelocatedCall("a".to_string()), 9, 4),
        tag(TagKind::RelocatedRef, 9, 4),
        tag(TagKind::RelocationTarget, 2, 2),
        tag(TagKind::RelocatedCall("a".to_string()), 0, 4),
        tag(TagKind::RelocatedCall("a".to_string()), 0, 4),
        tag(TagKind::RelocatedCall("b".to_string()), 0, 4),
    ];
    let tidy = tidy(&tags);
    let shown: Vec<String> = tidy.iter().map(|t| format!("{:?}", t)).collect();
    let expected = vec![
        tag(TagKind::RelocatedCall("a".to_string()), 0, 4),
        tag(TagKind::RelocatedCall("b".to_string()), 0, 4),
        tag(TagKind::RelocationTarget, 2, 2),
        tag(TagKind::RelocatedRef, 9, 4),
        tag(TagKind::RelocatedCall("a".to_string()), 9, 4),
        tag(TagKind::RelocatedRef, 9, 4),
    ];
    let expected: Vec<String> = expected.iter().map(|t| format!("{:?}", t)).collect();
    assert_eq!(shown, expected);
    assert!(tidy[0].same(&tags[5]));
    assert!(!tidy[0].same(&tidy[1]));
    assert!(!tidy[3].same(&tidy[4]));
    assert!(tidy[3].same(&tidy[5]));
    assert!(tidy[3].duplicate().same(&tidy[3]));
}

#[test]
fn overlapping_tags() {
    let nested = vec![tag(TagKind::RelocatedRef, 0, 8), tag(TagKind::RelocationTarget, 2, 2)];
    assert!(clear(&nested));
    let apart = vec![tag(TagKind::RelocatedRef, 0, 4), tag(TagKind::RelocationTarget, 4, 2)];
    assert!(clear(&apart));
    let overlapping = vec![tag(TagKind::RelocatedRef, 0, 4), tag(TagKind::RelocationTarget, 3, 2)];
    assert!(!clear(&overlapping));
    let unordered = vec![tag(TagKind::RelocatedRef, 4, 4), tag(TagKind::RelocationTarget, 0, 2)];
    assert!(!clear(&unordered));
    assert!(clear(&Vec::new()));
    let mut tags = overlapping;
    assert_eq!(
        format_sections(&[0u8; 8], &Vec::new(), &mut tags, ShowMode::AllOneLine),
        Err(FormatError::OverlappingTags)
    );
}

fn sample() -> (Vec<u8>, Vec<Section>) {
    let code = vec![
        0x82, 0x00, 0x01, // 0: a record
        0x07, 0x08, // 3: unknown
        0xFC, 0x00, 0x00, 0x9F, // 5: a facet
        0xFC, 0x41, 0x02, 0x33, // 9: unknown, looks like a facet
        0x1E, // 13: pad
        0x00, // 14
    ];
    let sections = vec![
        Section::new(0x82, 0, 3),
        Section::unknown(3, 2),
        Section::new(0xFC, 5, 4),
        Section::unknown(9, 4),
        Section::new(0x1E, 13, 1),
    ];
    (code, sections)
}

const S0: &str = "\x1b[42m82 00\x1b[0m\x1b[32m 01\x1b[0m ";
const S1: &str = "\x1b[100m07 08\x1b[0m\x1b[90m\x1b[0m ";
const S2: &str = "\x1b[46mFC 00\x1b[0m\x1b[36m 00 9F\x1b[0m ";
const S3: &str = "\x1b[100mFC 41\x1b[0m\x1b[90m 02 33\x1b[0m ";
const S4: &str = "\x1b[41m1E\x1b[0m ";
const F2: &str = "\x1b[46mFC\x1b[0m\x1b[36m 00000000_00000000 9F\x1b[0m ";
const F3: &str = "\x1b[100mFC\x1b[0m\x1b[90m 01000001_00000010 33\x1b[0m ";

#[test]
fn the_lines_of_each_mode() {
    let (code, sections) = sample();
    let lines = |mode| format_sections(&code, &sections, &mut Vec::new(), mode).unwrap();
    assert_eq!(lines(ShowMode::AllOneLine), vec![format!("{}{}{}{}{}", S0, S1, S2, S3, S4)]);
    assert_eq!(lines(ShowMode::AllPerLine), vec![S0, S1, S2, S3, S4]);
    assert_eq!(lines(ShowMode::Unknown), vec![S1, S3]);
    assert_eq!(
        lines(ShowMode::UnknownMinus),
        vec![format!("{}{}", S1, S0), format!("{}{}{}{}", S3, S0, S1, S2)]
    );
    assert_eq!(lines(ShowMode::UnknownFacet), vec![F3]);
    assert_eq!(
        lines(ShowMode::Custom),
        vec![format!("0| {}{}", F2, S3)]
    );
    let sections = vec![Section::new(0xFC, 5, 4), Section::new(0x1E, 13, 1)];
    assert_eq!(
        format_sections(&code, &sections, &mut Vec::new(), ShowMode::Custom).unwrap(),
        vec![format!("1| {}", F2)]
    );
    let none: Vec<Section> = Vec::new();
    assert_eq!(
        format_sections(&code, &none, &mut Vec::new(), ShowMode::AllOneLine).unwrap(),
        vec![""]
    );
    assert!(format_sections(&code, &none, &mut Vec::new(), ShowMode::AllPerLine)
        .unwrap()
        .is_empty());
}

#[test]
fn format_leaves_the_tags_in_order() {
    let (code, sections) = sample();
    let mut tags = vec![
        tag(TagKind::RelocatedRef, 9, 4),
        tag(TagKind::RelocationTarget, 1, 2),
        tag(TagKind::RelocatedRef, 9, 4),
    ];
    let lines = format_sections(&code, &sections, &mut tags, ShowMode::Unknown).unwrap();
    assert_eq!(tags.len(), 2);
    assert_eq!(tags[0].offset, 1);
    assert_eq!(tags[1].offset, 9);
    assert_eq!(lines[0], S1);
    assert_eq!(lines[1], "\x1b[4m\x1b[100mFC 41\x1b[0m\x1b[90m 02 33\x1b[0m ");
}

fn image(code: Vec<u8>, relocs: Vec<u32>, thunks: Option<Vec<Thunk>>) -> CodeImage {
    CodeImage::new(code, 0x1000, 0x0040_0000, relocs, thunks).unwrap()
}

#[test]
fn images_are_checked() {
    assert_eq!(
        CodeImage::new(vec![0; 7], 0, 0, vec![0, 3, 4, 2], None).err(),
        Some(ContainerParseError::RelocationOutOfRange { index: 2 })
    );
    assert_eq!(
        CodeImage::new(vec![0; 2], u32::MAX - 1, 0, vec![], None).err(),
        Some(ContainerParseError::CodeTooLarge)
    );
    let image = CodeImage::new(vec![0; 1], u32::MAX - 1, 7, vec![], None).unwrap();
    assert_eq!(image.image_base, 7);
    assert_eq!(image.code_vaddr, u32::MAX - 1);
    let thunks = vec![
        Thunk { vaddr: 9, name: "a".to_string() },
        Thunk { vaddr: 9, name: "b".to_string() },
    ];
    assert_eq!(CodeImage::thunk_at(&thunks, 9), Some(0));
    assert_eq!(CodeImage::thunk_at(&thunks, 8), None);
}

#[test]
fn tags_of_relocations() {
    let thunks = || {
        Some(vec![
            Thunk { vaddr: 0x2000, name: "_effects".to_string() },
            Thunk { vaddr: 0x3000, name: "_PLgearDown".to_string() },
        ])
    };
    let mut code = vec![0u8; 24];
    code[0..4].copy_from_slice(&0x2000u32.to_le_bytes()); // a thunk
    code[4..8].copy_from_slice(&0x3002u32.to_le_bytes()); // two bytes into a thunk
    code[8..12].copy_from_slice(&0x1010u32.to_le_bytes()); // into the code
    code[12..16].copy_from_slice(&0x1000u32.to_le_bytes()); // the first byte of the code
    code[16..20].copy_from_slice(&0x1015u32.to_le_bytes()); // too close to the end
    let tags = apply_tags(&image(code.clone(), vec![8, 0, 4], thunks())).unwrap();
    let shown: Vec<String> = tags.iter().map(|t| format!("{:?}", t)).collect();
    let expected = vec![
        tag(TagKind::RelocatedRef, 8, 4),
        tag(TagKind::RelocationTarget, 0x10, 2),
        tag(TagKind::RelocatedCall("_effects".to_string()), 0, 4),
        tag(TagKind::RelocatedCall("_PLgearDown".to_string()), 4, 4),
    ];
    let expected: Vec<String> = expected.iter().map(|t| format!("{:?}", t)).collect();
    assert_eq!(shown, expected);
    assert!(apply_tags(&image(code.clone(), vec![8, 0, 4], None)).unwrap().is_empty());
    assert_eq!(
        apply_tags(&image(code.clone(), vec![0, 12], thunks())).err(),
        Some(ContainerParseError::PointerOutsideCode { offset: 12 })
    );
    assert_eq!(
        apply_tags(&image(code.clone(), vec![16], thunks())).err(),
        Some(ContainerParseError::PointerOutsideCode { offset: 16 })
    );
    code[16..20].copy_from_slice(&0x1014u32.to_le_bytes());
    assert_eq!(apply_tags(&image(code.clone(), vec![16], thunks())).unwrap().len(), 2);
    let mut broken = image(code, vec![0], thunks());
    broken.relocs.push(21);
    assert_eq!(
        apply_tags(&broken).err(),
        Some(ContainerParseError::RelocationOutOfRange { index: 1 })
    );
}

#[test]
fn the_view_of_an_image() {
    // a vertex buffer without vertices, a pad byte, and two bytes that start no record
    let code = vec![0x82u8, 0, 0, 0, 0, 0, 0x1E, 0x07, 0x08];
    let whole = image(code.clone(), vec![], None);
    let (shape, lines) = CpuShape::new(&whole, "T80.SH", ShowMode::AllPerLine).unwrap();
    assert_eq!(shape.len(), 3);
    assert_eq!(
        lines,
        vec![
            "\x1b[42m82 00\x1b[0m\x1b[32m 00 00 00 00\x1b[0m  - T80.SH",
            "\x1b[41m1E\x1b[0m  - T80.SH",
            "\x1b[100m07 08\x1b[0m\x1b[90m\x1b[0m  - T80.SH",
        ]
    );
    let sections = shape.sections();
    assert_eq!(
        sections,
        vec![Section::new(0x82, 0, 6), Section::new(0x1E, 6, 1), Section::unknown(7, 2)]
    );
    let (_, lines) = CpuShape::new(&whole, "T80.SH", ShowMode::UnknownMinus).unwrap();
    assert_eq!(
        lines,
        vec![concat_all(&[
            "\x1b[100m07 08\x1b[0m\x1b[90m\x1b[0m ",
            "\x1b[42m82 00\x1b[0m\x1b[32m 00 00 00 00\x1b[0m ",
            "\x1b[41m1E\x1b[0m ",
            " - T80.SH"
        ])]
    );
    // Under this mode a shape that ends with a record has one empty line.
    let known = image(code[..7].to_vec(), vec![], None);
    let (shape, lines) = CpuShape::new(&known, "T80.SH", ShowMode::UnknownMinus).unwrap();
    assert_eq!(shape.len(), 2);
    assert_eq!(lines, vec![""]);
    let empty = image(Vec::new(), vec![], None);
    let (shape, lines) = CpuShape::new(&empty, "x", ShowMode::UnknownMinus).unwrap();
    assert_eq!(shape.len(), 0);
    assert_eq!(lines, vec![""]);
    let (_, lines) = CpuShape::new(&empty, "x", ShowMode::AllOneLine).unwrap();
    assert_eq!(lines, vec![" - x"]);
}

fn concat_all(parts: &[&str]) -> String {
    parts.iter().map(|s| s.to_string()).collect()
}

#[test]
fn the_view_fails_with_the_image() {
    let broken = image(vec![0x82u8, 0, 9, 0, 0, 0], vec![], None);
    match CpuShape::new(&broken, "x", ShowMode::AllPerLine) {
        Err(ShapeError::Decode(e)) => {
            assert_eq!(e.kind, DecodeErrorKind::RecordLengthOverflow);
            assert_eq!(e.offset, 0);
            assert_eq!(e.tag, 0x82);
        }
        _ => panic!("decoded"),
    }
    let mut code = vec![0x66u8, 0x00, 0, 0, 0, 0, 0, 0, 0, 0];
    code[2..6].copy_from_slice(&0x9999u32.to_le_bytes());
    let outside = image(code.clone(), vec![2], Some(Vec::new()));
    assert!(matches!(
        CpuShape::new(&outside, "x", ShowMode::AllPerLine),
        Err(ShapeError::Image(ContainerParseError::PointerOutsideCode { offset: 2 }))
    ));
    code[2..6].copy_from_slice(&0x1005u32.to_le_bytes());
    let overlapping = image(code, vec![2], Some(Vec::new()));
    assert!(matches!(
        CpuShape::new(&overlapping, "x", ShowMode::AllPerLine),
        Err(ShapeError::OverlappingTags)
    ));
}
