use shape_vm::dlg::{Dialog, DialogError, Preload, PreloadKind, Trampoline, Widget};
use shape_vm::image::{CodeImage, Thunk};

const VADDR: u32 = 0x1000;
const IMAGE_BASE: u32 = 0x0040_0000;

fn jump(pointer: u32) -> Vec<u8> {
    let mut v = vec![0xFFu8, 0x25];
    v.extend_from_slice(&pointer.to_le_bytes());
    v
}

fn thunks() -> Option<Vec<Thunk>> {
    Some(vec![
        Thunk { vaddr: 0x2000, name: "_ChoosePreload".to_string() },
        Thunk { vaddr: 0x2004, name: "_MultiPreload".to_string() },
        Thunk { vaddr: 0x2008, name: "_Draw".to_string() },
    ])
}

fn image(code: Vec<u8>, relocs: Vec<u32>) -> CodeImage {
    CodeImage::new(code, VADDR, IMAGE_BASE, relocs, thunks()).unwrap()
}

// A header that points at the jump at `target`, a name or none, a footer,
// the double word behind it, padding, and three jumps.
fn dialog_code(target: u32, flag: u8, name: &[u8], behind: u32) -> Vec<u8> {
    let mut code = Vec::new();
    code.extend_from_slice(&(VADDR + target).to_le_bytes());
    for word in [0x1111u16, 0x2222, 0x3333, 0x4444, 0x0100] {
        code.extend_from_slice(&word.to_le_bytes());
    }
    code.push(flag);
    code.extend_from_slice(name);
    code.extend_from_slice(&[0xA1, 0xA2, 0xB1, 0xB2, 0xC1, 0xC2]);
    code.extend_from_slice(&behind.to_le_bytes());
    while code.len() < 46 {
        code.push(0x90);
    }
    code.extend_from_slice(&jump(IMAGE_BASE + 0x2008)); // at 46
    code.extend_from_slice(&jump(IMAGE_BASE + 0x2004)); // at 52
    code.extend_from_slice(&jump(IMAGE_BASE + 0x2000)); // at 58
    code
}

#[test]
fn kinds_of_preload() {
    assert_eq!(PreloadKind::from_name("_ChoosePreload"), Ok(PreloadKind::ChoosePreload));
    assert_eq!(PreloadKind::from_name("_GrafPrefPreload"), Ok(PreloadKind::GrafPrefPreload));
    assert_eq!(PreloadKind::from_name("_Info2640Preload"), Ok(PreloadKind::Info2640Preload));
    assert_eq!(PreloadKind::from_name("_Info640Preload"), Ok(PreloadKind::Info640Preload));
    assert_eq!(PreloadKind::from_name("_MultiPreload"), Ok(PreloadKind::MultiPreload));
    assert_eq!(PreloadKind::from_name("_SndPrefPreload"), Ok(PreloadKind::SndPrefPreload));
    assert_eq!(PreloadKind::from_name("_TestDiagPreload"), Ok(PreloadKind::TestDiagPreload));
    assert_eq!(PreloadKind::from_name("_TopCenterDialog"), Ok(PreloadKind::TopCenterDialog));
    assert_eq!(PreloadKind::from_name("ChoosePreload"), Err(DialogError::UnknownPreloadKind));
    assert_eq!(PreloadKind::from_name(""), Err(DialogError::UnknownPreloadKind));
}

#[test]
fn the_jumps_at_the_end_of_the_code() {
    let code = dialog_code(58, 0, &[], 0x02030201);
    let found = Dialog::find_trampolines(&image(code, vec![])).unwrap();
    let found: Vec<(u32, String)> = found.into_iter().map(|t| (t.offset, t.name)).collect();
    assert_eq!(
        found,
        vec![
            (58, "_ChoosePreload".to_string()),
            (52, "_MultiPreload".to_string()),
            (46, "_Draw".to_string())
        ]
    );
    // Code that is nothing but jumps.
    let mut code = jump(IMAGE_BASE + 0x2000);
    code.extend_from_slice(&jump(IMAGE_BASE + 0x2004));
    let found = Dialog::find_trampolines(&image(code, vec![])).unwrap();
    assert_eq!(found.len(), 2);
    assert_eq!(found[1].offset, 0);
    // Code that ends with no jump.
    let found = Dialog::find_trampolines(&image(vec![0; 8], vec![])).unwrap();
    assert!(found.is_empty());
    assert_eq!(
        Dialog::find_trampolines(&image(vec![0xFF, 0x25, 0, 0, 0], vec![])).err(),
        Some(DialogError::TooShortForTrampolines)
    );
    let mut code = vec![0x90u8; 3];
    code.extend_from_slice(&jump(IMAGE_BASE + 0x2010));
    assert_eq!(
        Dialog::find_trampolines(&image(code, vec![])).err(),
        Some(DialogError::NoMatchingThunk { offset: 3 })
    );
    // A pointer below the base of the image counts as the address 0.
    let mut code = jump(5);
    code.extend_from_slice(&jump(IMAGE_BASE + 0x2000));
    let zero = CodeImage::new(
        code,
        VADDR,
        IMAGE_BASE,
        vec![],
        Some(vec![
            Thunk { vaddr: 0, name: "_zero".to_string() },
            Thunk { vaddr: 0x2000, name: "_a".to_string() },
        ]),
    )
    .unwrap();
    let found = Dialog::find_trampolines(&zero).unwrap();
    assert_eq!(found[1].name, "_zero");
}

#[test]
fn a_preload_without_a_name() {
    let code = dialog_code(58, 0, &[], 0x02030201);
    let img = image(code.clone(), vec![]);
    let tramps = Dialog::find_trampolines(&img).unwrap();
    let mut offset = 0usize;
    let preload = Preload::from_bytes(&code, &mut offset, &img, &tramps).unwrap();
    assert_eq!(offset, 21);
    assert_eq!(preload.kind, Some(PreloadKind::ChoosePreload));
    assert_eq!(preload.unk_header_0, 0x1111);
    assert_eq!(preload.unk_header_1, 0x2222);
    assert_eq!(preload.unk_header_2, 0x3333);
    assert_eq!(preload.unk_header_3, 0x4444);
    assert_eq!(preload.unk_header_4, 0x0100);
    assert_eq!(preload.name, None);
    // The footer is read at the start of the bytes.
    assert_eq!(preload.unk_footer_0, 0x103A);
    assert_eq!(preload.unk_footer_1, 0x0000);
    assert_eq!(preload.unk_footer_2, 0x1111);
    let code = dialog_code(52, 0xFF, &[0x55], 0x02030201);
    let img = image(code.clone(), vec![]);
    let mut offset = 0usize;
    let preload = Preload::from_bytes(&code, &mut offset, &img, &tramps).unwrap();
    assert_eq!(offset, 22);
    assert_eq!(preload.kind, Some(PreloadKind::MultiPreload));
    assert_eq!(preload.name, None);
}

#[test]
fn a_preload_with_a_name() {
    // The last byte of the header is the first letter; the name that is
    // read starts behind it.
    let code = dialog_code(40, b'M', b"AIN\xE9\0", 0x02030201);
    let img = image(code.clone(), vec![]);
    let tramps = Dialog::find_trampolines(&img).unwrap();
    let mut offset = 0usize;
    let preload = Preload::from_bytes(&code, &mut offset, &img, &tramps).unwrap();
    assert_eq!(preload.kind, None);
    assert_eq!(preload.name, Some("AIN\u{e9}".to_string()));
    assert_eq!(offset, 15 + 5 + 6);
}

#[test]
fn preload_faults() {
    let code = dialog_code(58, 0, &[], 0x02030201);
    let img = image(code.clone(), vec![]);
    let tramps = Dialog::find_trampolines(&img).unwrap();
    let fails = |bytes: &[u8], at: usize, tramps: &Vec<Trampoline>| {
        let mut offset = at;
        let r = Preload::from_bytes(bytes, &mut offset, &img, tramps).err();
        assert_eq!(offset, at);
        r
    };
    assert_eq!(fails(&code[..14], 0, &tramps), Some(DialogError::TruncatedPreload));
    let mut bad = code.clone();
    bad[12] = 1;
    assert_eq!(fails(&bad, 0, &tramps), Some(DialogError::BadPreloadHeader));
    let other = dialog_code(46, 0, &[], 0x02030201);
    assert_eq!(fails(&other, 0, &tramps), Some(DialogError::UnknownPreloadKind));
    let mut named = code.clone();
    named[14] = b'x';
    assert_eq!(fails(&named, 60, &tramps), Some(DialogError::UnterminatedName));
    assert_eq!(fails(&named, 49, &tramps), Some(DialogError::UnterminatedName));
    assert_eq!(fails(&named, usize::MAX - 3, &tramps), Some(DialogError::UnterminatedName));
    assert_eq!(fails(&code, usize::MAX - 3, &tramps), Some(DialogError::UnterminatedName));
}

#[test]
fn a_dialog() {
    let code = dialog_code(58, 0, &[], 0x02030201);
    let dialog = Dialog::from_bytes(&image(code, vec![])).unwrap();
    assert_eq!(dialog.widgets.len(), 1);
    match &dialog.widgets[0] {
        Widget::Preload(p) => assert_eq!(p.kind, Some(PreloadKind::ChoosePreload)),
    }
    // A pointer to a jump behind the preload.
    let code = dialog_code(58, 0, &[], IMAGE_BASE + VADDR + 52);
    assert_eq!(Dialog::from_bytes(&image(code, vec![])).unwrap().widgets.len(), 1);
    let code = dialog_code(58, 0, &[], IMAGE_BASE + VADDR + 53);
    assert_eq!(
        Dialog::from_bytes(&image(code, vec![])).err(),
        Some(DialogError::ExpectedPointer { offset: 21 })
    );
    let empty = Dialog::from_bytes(&image(Vec::new(), vec![])).unwrap();
    assert!(empty.widgets.is_empty());
    assert_eq!(
        Dialog::from_bytes(&image(vec![0; 5], vec![])).err(),
        Some(DialogError::TooShortForTrampolines)
    );
    assert_eq!(
        Dialog::from_bytes(&image(vec![0; 8], vec![])).err(),
        Some(DialogError::TruncatedPreload)
    );
    // A preload that leaves no room for the double word behind it.
    let mut code = vec![0u8; 15];
    code.extend_from_slice(&[0; 6]);
    code.extend_from_slice(&[1, 2, 3]);
    assert_eq!(
        Dialog::from_bytes(&image(code, vec![])).err(),
        Some(DialogError::ExpectedPointer { offset: 21 })
    );
}

const GREEN: &str = "\x1b[32m";
const RED: &str = "\x1b[31m";
const PLAIN: &str = "\x1b[0m";

#[test]
fn the_view_of_a_dialog() {
    // 0: a pointer to the jump at 12; 4: a pointer to a thunk; 8: a pointer to nothing known
    let mut code = Vec::new();
    code.extend_from_slice(&(VADDR + 12).to_le_bytes());
    code.extend_from_slice(&0x2008u32.to_le_bytes());
    code.extend_from_slice(&0x0000_0FFFu32.to_le_bytes());
    code.extend_from_slice(&jump(IMAGE_BASE + 0x2004)); // at 12
    let text = Dialog::explore("MAIN.DLG", &image(code, vec![4, 0, 8])).unwrap().unwrap();
    let g = |hex: &str| format!("{}{} {}", GREEN, hex, PLAIN);
    let r = |hex: &str| format!("{}{} {}", RED, hex, PLAIN);
    let expected = String::new()
        + "\n " + &g("0C") + &g("10") + &g("00") + &g("00") + "[_MultiPreload] "
        + "\n " + &g("08") + &g("20") + &g("00") + &g("00") + "[_Draw] "
        + "\n " + &g("FF") + &g("0F") + &g("00") + &g("00") + " "
        + &r("FF") + &r("25") + &r("04") + &r("20")
        + "40 00 "
        + " - MAIN.DLG";
    assert_eq!(text, expected);
    assert_eq!(Dialog::explore("x", &image(Vec::new(), vec![])), Ok(None));
    assert_eq!(
        Dialog::explore("x", &image(vec![0; 3], vec![])),
        Err(DialogError::TooShortForTrampolines)
    );
    let mut broken = image(vec![0; 8], vec![4]);
    broken.relocs.push(5);
    assert_eq!(
        Dialog::explore("x", &broken),
        Err(DialogError::RelocationOutOfRange { index: 1 })
    );
    let plain = Dialog::explore("x", &image(vec![0xAB; 6], vec![])).unwrap().unwrap();
    assert_eq!(plain, "AB AB AB AB AB AB  - x");
}

#[test]
fn it_can_load_all_dialogs() {
    let dialogs = vec![
        ("EMPTY.DLG", Vec::new()),
        ("CHOOSE.DLG", dialog_code(58, 0, &[], 0x02030201)),
        ("MULTI.DLG", dialog_code(52, 0xFF, &[0x00], 0x02030201)),
        ("MAIN.DLG", dialog_code(40, b'M', b"AIN\0", IMAGE_BASE + VADDR + 46)),
    ];
    for (name, code) in dialogs {
        println!("AT: {}:{}", "FA", name);
        let _dlg = Dialog::from_bytes(&image(code, vec![])).unwrap();
    }
}
