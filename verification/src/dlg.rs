//! Dialogs: executable images that start with a preload record and end
//! with a table of jumps to outside functions.

use crate::bytes::{read_u16_le, read_u32_le, spec_u16_le, spec_u32_le};
use crate::image::{CodeImage, Thunk};
use vstd::prelude::*;

verus! {

/// Why an image is not a dialog.
#[derive(Clone, Copy, Debug, PartialEq, Eq, Structural)]
pub enum DialogError {
    /// The code is shorter than one jump.
    TooShortForTrampolines,
    /// The jump at this offset of the code goes to no thunk.
    NoMatchingThunk { offset: usize },
    /// The bytes are shorter than the header of a preload.
    TruncatedPreload,
    /// The fifth word of the header of the preload is neither 0 nor
    /// 0x100.
    BadPreloadHeader,
    /// The preload names a function that is no kind of preload.
    UnknownPreloadKind,
    /// The name of the preload does not end within the code.
    UnterminatedName,
    /// The double word behind the preload is no pointer to a jump.
    ExpectedPointer { offset: usize },
    /// Relocation `index` names four bytes that do not all lie in the
    /// code.
    RelocationOutOfRange { index: usize },
}

/// The kinds of preload.
#[derive(Clone, Copy, Debug, PartialEq, Eq, Structural)]
pub enum PreloadKind {
    ChoosePreload,
    GrafPrefPreload,
    Info2640Preload,
    Info640Preload,
    MultiPreload,
    SndPrefPreload,
    TestDiagPreload,
    TopCenterDialog,
}

impl PreloadKind {
    /// The kind that the function with the name `name` stands for.
    pub open spec fn spec_from_name(name: Seq<char>) -> Option<PreloadKind> {
        if name == "_ChoosePreload"@ {
            Some(PreloadKind::ChoosePreload)
        } else if name == "_GrafPrefPreload"@ {
            Some(PreloadKind::GrafPrefPreload)
        } else if name == "_Info2640Preload"@ {
            Some(PreloadKind::Info2640Preload)
        } else if name == "_Info640Preload"@ {
            Some(PreloadKind::Info640Preload)
        } else if name == "_MultiPreload"@ {
            Some(PreloadKind::MultiPreload)
        } else if name == "_SndPrefPreload"@ {
            Some(PreloadKind::SndPrefPreload)
        } else if name == "_TestDiagPreload"@ {
            Some(PreloadKind::TestDiagPreload)
        } else if name == "_TopCenterDialog"@ {
            Some(PreloadKind::TopCenterDialog)
        } else {
            None
        }
    }

    /// The kind that the function with the name `name` stands for.
    pub fn from_name(name: &str) -> (r: Result<PreloadKind, DialogError>)
        ensures
            match Self::spec_from_name(name@) {
                Some(kind) => r == Ok::<PreloadKind, DialogError>(kind),
                None => r == Err::<PreloadKind, DialogError>(DialogError::UnknownPreloadKind),
            },
    {
        let name: String = name.to_owned();
        if is(&name, "_ChoosePreload") {
            Ok(PreloadKind::ChoosePreload)
        } else if is(&name, "_GrafPrefPreload") {
            Ok(PreloadKind::GrafPrefPreload)
        } else if is(&name, "_Info2640Preload") {
            Ok(PreloadKind::Info2640Preload)
        } else if is(&name, "_Info640Preload") {
            Ok(PreloadKind::Info640Preload)
        } else if is(&name, "_MultiPreload") {
            Ok(PreloadKind::MultiPreload)
        } else if is(&name, "_SndPrefPreload") {
            Ok(PreloadKind::SndPrefPreload)
        } else if is(&name, "_TestDiagPreload") {
            Ok(PreloadKind::TestDiagPreload)
        } else if is(&name, "_TopCenterDialog") {
            Ok(PreloadKind::TopCenterDialog)
        } else {
            Err(DialogError::UnknownPreloadKind)
        }
    }
}

fn is(name: &String, literal: &str) -> (r: bool)
    ensures
        r == (name@ == literal@),
{
    let other: String = literal.to_owned();
    *name == other
}

/// A jump to an outside function: the offset of the jump in the code, and
/// the name of the function.
pub struct Trampoline {
    pub offset: u32,
    pub name: String,
}

/// The index of the first thunk at or after `from` that a jump to the
/// address `tgt` goes to: the thunk stands at `tgt` less the base of the
/// image, or at 0 where that is more than `tgt`.
pub open spec fn spec_thunk_of(thunks: Seq<Thunk>, tgt: u32, image_base: u32, from: int)
    -> Option<int>
    decreases thunks.len() - from,
{
    if from < 0 || from >= thunks.len() {
        None
    } else if thunks[from].vaddr == spec_saturating_sub(tgt, image_base) {
        Some(from)
    } else {
        spec_thunk_of(thunks, tgt, image_base, from + 1)
    }
}

/// `a` less `b`, or 0 where `b` is more than `a`.
pub open spec fn spec_saturating_sub(a: u32, b: u32) -> u32 {
    if a >= b {
        (a - b) as u32
    } else {
        0
    }
}

/// The thunks of the image, of which there are none where it has no
/// table.
pub open spec fn spec_thunks(image: CodeImage) -> Seq<Thunk> {
    match image.thunks {
        Some(thunks) => thunks@,
        None => Seq::empty(),
    }
}

/// Six bytes at `off` are a jump through a pointer: `FF 25` and the
/// address of the pointer.
pub open spec fn spec_is_jump(code: Seq<u8>, off: int) -> bool {
    0 <= off && off + 6 <= code.len() && code[off] == 0xFF && code[off + 1] == 0x25
}

/// The jumps that the code ends with, the last first, when the scan
/// stands at `off` and has found `found`.
///
/// The scan goes back from the last six bytes of the code in steps of six
/// bytes for as long as it finds a jump. Each jump has to go to a thunk,
/// whose name it gets.
pub open spec fn spec_scan(image: CodeImage, off: int, found: Seq<(u32, Seq<char>)>) -> Result<
    Seq<(u32, Seq<char>)>,
    DialogError,
>
    decreases off,
{
    if !spec_is_jump(image.code@, off) {
        Ok(found)
    } else {
        match spec_thunk_of(
            spec_thunks(image),
            spec_u32_le(image.code@, off + 2) as u32,
            image.image_base,
            0,
        ) {
            None => Err(DialogError::NoMatchingThunk { offset: off as usize }),
            Some(t) => if off < 6 {
                Ok(found.push((off as u32, spec_thunks(image)[t].name@)))
            } else {
                spec_scan(image, off - 6, found.push((off as u32, spec_thunks(image)[t].name@)))
            },
        }
    }
}

/// The jumps that the code of the image ends with.
pub open spec fn spec_find_trampolines(image: CodeImage) -> Result<
    Seq<(u32, Seq<char>)>,
    DialogError,
> {
    if image.code@.len() < 6 {
        Err(DialogError::TooShortForTrampolines)
    } else {
        spec_scan(image, image.code@.len() - 6, Seq::empty())
    }
}

/// The jumps as values of specifications.
pub open spec fn spec_trampolines(v: Seq<Trampoline>) -> Seq<(u32, Seq<char>)> {
    v.map_values(|t: Trampoline| (t.offset, t.name@))
}

/// The name of the first jump at or after `from` that stands at the
/// offset `offset`.
pub open spec fn spec_name_at(tramps: Seq<(u32, Seq<char>)>, offset: u32, from: int) -> Option<
    Seq<char>,
>
    decreases tramps.len() - from,
{
    if from < 0 || from >= tramps.len() {
        None
    } else if tramps[from].0 == offset {
        Some(tramps[from].1)
    } else {
        spec_name_at(tramps, offset, from + 1)
    }
}

fn saturating_sub(a: u32, b: u32) -> (r: u32)
    ensures
        r == spec_saturating_sub(a, b),
{
    if a >= b {
        a - b
    } else {
        0
    }
}

fn thunk_of(thunks: &Vec<Thunk>, tgt: u32, image_base: u32) -> (r: Option<usize>)
    ensures
        r matches Some(i) ==> i < thunks@.len() && spec_thunk_of(thunks@, tgt, image_base, 0)
            == Some(i as int),
        r is None ==> spec_thunk_of(thunks@, tgt, image_base, 0) is None,
{
    let wanted: u32 = saturating_sub(tgt, image_base);
    let mut i: usize = 0;
    while i < thunks.len()
        invariant
            i <= thunks@.len(),
            wanted == spec_saturating_sub(tgt, image_base),
            spec_thunk_of(thunks@, tgt, image_base, i as int) == spec_thunk_of(
                thunks@,
                tgt,
                image_base,
                0,
            ),
        decreases thunks@.len() - i,
    {
        if thunks[i].vaddr == wanted {
            return Some(i);
        }
        i += 1;
    }
    None
}

/// The name of the jump at the offset `offset`, if there is one.
pub fn name_at(tramps: &Vec<Trampoline>, offset: u32) -> (r: Option<usize>)
    ensures
        r matches Some(i) ==> i < tramps@.len() && tramps@[i as int].offset == offset
            && spec_name_at(spec_trampolines(tramps@), offset, 0) == Some(
            tramps@[i as int].name@,
        ),
        r is None ==> spec_name_at(spec_trampolines(tramps@), offset, 0) is None,
{
    let mut i: usize = 0;
    while i < tramps.len()
        invariant
            i <= tramps@.len(),
            spec_name_at(spec_trampolines(tramps@), offset, i as int) == spec_name_at(
                spec_trampolines(tramps@),
                offset,
                0,
            ),
        decreases tramps@.len() - i,
    {
        assert(spec_trampolines(tramps@)[i as int] == (tramps@[i as int].offset, tramps@[i as int].name@));
        if tramps[i].offset == offset {
            return Some(i);
        }
        i += 1;
    }
    None
}

/// A preload: the record that a dialog starts with.
pub struct Preload {
    pub kind: Option<PreloadKind>,
    pub unk_header_0: u16,
    pub unk_header_1: u16,
    pub unk_header_2: u16,
    pub unk_header_3: u16,
    /// Mostly 0, and 0x100 in one dialog.
    pub unk_header_4: u16,
    pub name: Option<String>,
    pub unk_footer_0: u16,
    pub unk_footer_1: u16,
    pub unk_footer_2: u16,
}

/// The name that starts at `from` of the code: the bytes up to the next
/// zero byte, each as the character with its number.
pub open spec fn spec_ascii(code: Seq<u8>, from: int, end: int) -> Seq<char> {
    Seq::new((end - from) as nat, |i: int| code[from + i] as char)
}

/// The index of the first zero byte of the code at or after `from`, or
/// the length of the code where there is none.
pub open spec fn spec_zero_from(code: Seq<u8>, from: int) -> int
    decreases code.len() - from,
{
    if from < 0 || from >= code.len() {
        code.len() as int
    } else if code[from] == 0 {
        from
    } else {
        spec_zero_from(code, from + 1)
    }
}

impl Preload {
    /// The length of the header.
    pub const HEADER_SIZE: usize = 15;

    /// The length of the footer.
    pub const FOOTER_SIZE: usize = 6;

    /// The kind of the preload whose header `bytes` starts with: the kind
    /// that the name of the jump stands for that the first double word of
    /// the header points at, and none where it points at no jump.
    pub open spec fn spec_kind(bytes: Seq<u8>, image: CodeImage, tramps: Seq<(u32, Seq<char>)>)
        -> Result<Option<PreloadKind>, DialogError> {
        match spec_name_at(
            tramps,
            spec_saturating_sub(spec_u32_le(bytes, 0) as u32, image.code_vaddr),
            0,
        ) {
            None => Ok(None),
            Some(name) => match PreloadKind::spec_from_name(name) {
                Some(kind) => Ok(Some(kind)),
                None => Err(DialogError::UnknownPreloadKind),
            },
        }
    }

    /// Why there is no preload, or `None` where there is one.
    pub open spec fn spec_fault(
        bytes: Seq<u8>,
        offset: int,
        image: CodeImage,
        tramps: Seq<(u32, Seq<char>)>,
    ) -> Option<DialogError> {
        if bytes.len() < 15 {
            Some(DialogError::TruncatedPreload)
        } else if spec_u16_le(bytes, 12) != 0 && spec_u16_le(bytes, 12) != 0x100 {
            Some(DialogError::BadPreloadHeader)
        } else if Self::spec_kind(bytes, image, tramps) is Err {
            Some(DialogError::UnknownPreloadKind)
        } else if Self::spec_end(bytes, offset, image) > usize::MAX {
            Some(DialogError::UnterminatedName)
        } else if bytes[14] != 0 && bytes[14] != 0xFF && spec_zero_from(
            image.code@,
            offset + 15,
        ) >= image.code@.len() {
            Some(DialogError::UnterminatedName)
        } else {
            None
        }
    }

    /// The offset behind the preload that starts at `offset`.
    ///
    /// The header takes 15 bytes. Where its last byte is 0 the footer
    /// follows; where it is 0xFF one byte lies between them; and in every
    /// other case a name lies between them, with the zero byte that ends
    /// it. The footer takes six bytes.
    pub open spec fn spec_end(bytes: Seq<u8>, offset: int, image: CodeImage) -> int {
        if bytes[14] == 0 {
            offset + 15 + 6
        } else if bytes[14] == 0xFF {
            offset + 15 + 1 + 6
        } else {
            spec_zero_from(image.code@, offset + 15) + 1 + 6
        }
    }

    /// This value is the preload whose header `bytes` starts with.
    ///
    /// The header holds a double word and five words, all little-endian,
    /// and one byte. The name is read from the code of the image, behind
    /// the header. The three words of the footer are read at the start
    /// of `bytes`.
    pub open spec fn spec_decodes(
        &self,
        bytes: Seq<u8>,
        offset: int,
        image: CodeImage,
        tramps: Seq<(u32, Seq<char>)>,
    ) -> bool {
        &&& Self::spec_kind(bytes, image, tramps) == Ok::<Option<PreloadKind>, DialogError>(
            self.kind,
        )
        &&& self.unk_header_0 == spec_u16_le(bytes, 4)
        &&& self.unk_header_1 == spec_u16_le(bytes, 6)
        &&& self.unk_header_2 == spec_u16_le(bytes, 8)
        &&& self.unk_header_3 == spec_u16_le(bytes, 10)
        &&& self.unk_header_4 == spec_u16_le(bytes, 12)
        &&& self.unk_footer_0 == spec_u16_le(bytes, 0)
        &&& self.unk_footer_1 == spec_u16_le(bytes, 2)
        &&& self.unk_footer_2 == spec_u16_le(bytes, 4)
        &&& if bytes[14] == 0 || bytes[14] == 0xFF {
            self.name is None
        } else {
            self.name matches Some(name) && name@ == spec_ascii(
                image.code@,
                offset + 15,
                spec_zero_from(image.code@, offset + 15),
            )
        }
    }

    /// Reads the preload whose header `bytes` starts with and that stands
    /// at `offset` of the code of the image, and moves `offset` behind
    /// it. On failure `offset` stays.
    pub fn from_bytes(
        bytes: &[u8],
        offset: &mut usize,
        image: &CodeImage,
        trampolines: &Vec<Trampoline>,
    ) -> (r: Result<Preload, DialogError>)
        ensures
            match Self::spec_fault(
                bytes@,
                *old(offset) as int,
                *image,
                spec_trampolines(trampolines@),
            ) {
                Some(e) => r matches Err(f) && f == e && *final(offset) == *old(offset),
                None => r matches Ok(p) && p.spec_decodes(
                    bytes@,
                    *old(offset) as int,
                    *image,
                    spec_trampolines(trampolines@),
                ) && *final(offset) == Self::spec_end(bytes@, *old(offset) as int, *image),
            },
    {
        if bytes.len() < Self::HEADER_SIZE {
            return Err(DialogError::TruncatedPreload);
        }
        let function: u32 = read_u32_le(bytes, 0).unwrap();
        let unk0: u16 = read_u16_le(bytes, 4).unwrap();
        let unk1: u16 = read_u16_le(bytes, 6).unwrap();
        let unk2: u16 = read_u16_le(bytes, 8).unwrap();
        let unk3: u16 = read_u16_le(bytes, 10).unwrap();
        let unk4: u16 = read_u16_le(bytes, 12).unwrap();
        let flag_or_ascii: u8 = bytes[14];
        if unk4 != 0 && unk4 != 0x100 {
            return Err(DialogError::BadPreloadHeader);
        }
        let target: u32 = saturating_sub(function, image.code_vaddr);
        let kind: Option<PreloadKind> = match name_at(trampolines, target) {
            None => None,
            Some(t) => match PreloadKind::from_name(trampolines[t].name.as_str()) {
                Ok(kind) => Some(kind),
                Err(e) => {
                    return Err(e);
                },
            },
        };
        let code = image.code.as_slice();
        let start: usize = *offset;
        let (name, footer_offset): (Option<String>, usize) = if flag_or_ascii == 0 {
            if start > usize::MAX - 21 {
                return Err(DialogError::UnterminatedName);
            }
            (None, start + 15)
        } else if flag_or_ascii == 0xFF {
            if start > usize::MAX - 22 {
                return Err(DialogError::UnterminatedName);
            }
            (None, start + 16)
        } else {
            let total: usize = code.len();
            if start > usize::MAX - 15 || start + 15 >= total {
                proof {
                    assert(start + 15 >= code@.len());
                    assert(spec_zero_from(code@, start + 15) == code@.len());
                }
                return Err(DialogError::UnterminatedName);
            }
            let from: usize = start + 15;
            let mut off: usize = from;
            let mut name = String::new();
            while off < code.len() && code[off] != 0
                invariant
                    from <= off <= code@.len(),
                    spec_zero_from(code@, off as int) == spec_zero_from(code@, from as int),
                    name@ == spec_ascii(code@, from as int, off as int),
                decreases code@.len() - off,
            {
                crate::text::string_push(&mut name, code[off] as char);
                off += 1;
                assert(name@ =~= spec_ascii(code@, from as int, off as int));
            }
            if off >= code.len() || off > usize::MAX - 7 {
                return Err(DialogError::UnterminatedName);
            }
            (Some(name), off + 1)
        };
        *offset = footer_offset + Self::FOOTER_SIZE;
        Ok(
            Preload {
                kind,
                unk_header_0: unk0,
                unk_header_1: unk1,
                unk_header_2: unk2,
                unk_header_3: unk3,
                unk_header_4: unk4,
                name,
                unk_footer_0: read_u16_le(bytes, 0).unwrap(),
                unk_footer_1: read_u16_le(bytes, 2).unwrap(),
                unk_footer_2: unk0,
            },
        )
    }
}

/// A part of a dialog.
pub enum Widget {
    Preload(Preload),
}

/// A dialog: its parts, as far as they are known.
pub struct Dialog {
    pub widgets: Vec<Widget>,
}

/// The double word that ends the pointers of a dialog.
pub const END_OF_POINTERS: u32 = 0x02030201;

/// Why the code behind the preload, at `end`, does not go on as the code
/// of a dialog does, or `None` where it does: a double word stands there,
/// and it is the end of the pointers or points at a jump.
pub open spec fn spec_pointer_fault(image: CodeImage, tramps: Seq<(u32, Seq<char>)>, end: int)
    -> Option<DialogError> {
    if end + 4 > image.code@.len() {
        Some(DialogError::ExpectedPointer { offset: end as usize })
    } else if spec_u32_le(image.code@, end) == END_OF_POINTERS {
        None
    } else if spec_name_at(
        tramps,
        spec_saturating_sub(
            spec_saturating_sub(spec_u32_le(image.code@, end) as u32, image.code_vaddr),
            image.image_base,
        ),
        0,
    ) is Some {
        None
    } else {
        Some(DialogError::ExpectedPointer { offset: end as usize })
    }
}

/// Why the image is no dialog, or `None` where it is one. An image
/// without code is an empty dialog.
pub open spec fn spec_dialog_fault(image: CodeImage) -> Option<DialogError> {
    if image.code@.len() == 0 {
        None
    } else {
        match spec_find_trampolines(image) {
            Err(e) => Some(e),
            Ok(tramps) => match Preload::spec_fault(image.code@, 0, image, tramps) {
                Some(e) => Some(e),
                None => spec_pointer_fault(
                    image,
                    tramps,
                    Preload::spec_end(image.code@, 0, image),
                ),
            },
        }
    }
}

impl Dialog {
    /// Reads the dialog that the image holds: the jumps at the end of its
    /// code, the preload at the start, and the double word behind the
    /// preload, which has to be the end of the pointers or a pointer to a
    /// jump.
    pub fn from_bytes(image: &CodeImage) -> (r: Result<Dialog, DialogError>)
        requires
            image.code@.len() <= u32::MAX,
        ensures
            match spec_dialog_fault(*image) {
                Some(e) => r matches Err(f) && f == e,
                None => r matches Ok(dialog) && if image.code@.len() == 0 {
                    dialog.widgets@.len() == 0
                } else {
                    &&& dialog.widgets@.len() == 1
                    &&& dialog.widgets@[0] matches Widget::Preload(p)
                    &&& spec_find_trampolines(*image) matches Ok(tramps)
                    &&& p.spec_decodes(image.code@, 0, *image, tramps)
                },
            },
    {
        let code = image.code.as_slice();
        if code.len() == 0 {
            return Ok(Dialog { widgets: Vec::new() });
        }
        let trampolines = Self::find_trampolines(image)?;
        let mut offset: usize = 0;
        let preload = Preload::from_bytes(code, &mut offset, image, &trampolines)?;
        let dword: u32 = match read_u32_le(code, offset) {
            Some(dword) => dword,
            None => {
                return Err(DialogError::ExpectedPointer { offset });
            },
        };
        if dword != END_OF_POINTERS {
            let ptr: u32 = saturating_sub(
                saturating_sub(dword, image.code_vaddr),
                image.image_base,
            );
            if name_at(&trampolines, ptr).is_none() {
                return Err(DialogError::ExpectedPointer { offset });
            }
        }
        let mut widgets: Vec<Widget> = Vec::new();
        widgets.push(Widget::Preload(preload));
        Ok(Dialog { widgets })
    }

    /// The jumps that the code of the image ends with, the last first.
    ///
    /// Fails where the code is shorter than one jump, and where a jump
    /// goes to no thunk.
    pub fn find_trampolines(image: &CodeImage) -> (r: Result<Vec<Trampoline>, DialogError>)
        requires
            image.code@.len() <= u32::MAX,
        ensures
            match spec_find_trampolines(*image) {
                Ok(tramps) => r matches Ok(v) && spec_trampolines(v@) == tramps,
                Err(e) => r matches Err(f) && f == e,
            },
    {
        let code = image.code.as_slice();
        if code.len() < 6 {
            return Err(DialogError::TooShortForTrampolines);
        }
        let none: Vec<Thunk> = Vec::new();
        let thunks: &Vec<Thunk> = match &image.thunks {
            Some(thunks) => thunks,
            None => &none,
        };
        let mut tramps: Vec<Trampoline> = Vec::new();
        let mut off: usize = code.len() - 6;
        assert(spec_trampolines(tramps@) =~= Seq::empty());
        loop
            invariant
                off + 6 <= code@.len() <= u32::MAX,
                code@ == image.code@,
                thunks@ == spec_thunks(*image),
                spec_scan(*image, off as int, spec_trampolines(tramps@)) == spec_find_trampolines(
                    *image,
                ),
            decreases off,
        {
            if !(code[off] == 0xFF && code[off + 1] == 0x25) {
                return Ok(tramps);
            }
            let tgt: u32 = read_u32_le(code, off + 2).unwrap();
            let ghost before = spec_trampolines(tramps@);
            match thunk_of(thunks, tgt, image.image_base) {
                None => {
                    return Err(DialogError::NoMatchingThunk { offset: off });
                },
                Some(t) => {
                    tramps.push(Trampoline { offset: off as u32, name: thunks[t].name.clone() });
                    assert(spec_trampolines(tramps@) =~= before.push(
                        (off as u32, thunks@[t as int].name@),
                    ));
                },
            }
            if off < 6 {
                return Ok(tramps);
            }
            off -= 6;
        }
    }
}

} // verus!
