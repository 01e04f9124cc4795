//! A hexadecimal view of the code of a dialog, with the relocated
//! pointers and what they point at marked.

use crate::bytes::{read_u32_le, spec_u32_le};
use crate::dlg::{
    name_at, spec_find_trampolines, spec_name_at, spec_thunks, spec_trampolines, Dialog,
    DialogError, Trampoline,
};
use crate::image::CodeImage;
use crate::sh::ansi::{b2h, spec_b2h, Color, Escape};
use crate::text::{chars_to_string, put_str};
use vstd::prelude::*;

verus! {

/// Byte `k` of a relocated pointer stands at `offset`.
pub open spec fn spec_is_reloc(relocs: Seq<u32>, offset: int, k: int) -> bool {
    exists|i: int| 0 <= i < relocs.len() && (#[trigger] relocs[i]) + k == offset
}

/// The pointer that relocation `i` names.
pub open spec fn spec_pointer(image: CodeImage, i: int) -> u32 {
    spec_u32_le(image.code@, image.relocs@[i] as int) as u32
}

/// The offset in the code that the pointer of relocation `i` points at,
/// counted in 32 bits.
pub open spec fn spec_target(image: CodeImage, i: int) -> u32 {
    ((spec_pointer(image, i) - image.code_vaddr) % 0x1_0000_0000) as u32
}

/// `offset` is one of the four bytes that the pointer of relocation `i`
/// points at.
pub open spec fn spec_hits(image: CodeImage, i: int, offset: int) -> bool {
    let target = spec_target(image, i);
    ||| offset == target
    ||| offset == (target + 1) % 0x1_0000_0000
    ||| offset == (target + 2) % 0x1_0000_0000
    ||| offset == (target + 3) % 0x1_0000_0000
}

/// A relocated pointer points at the byte at `offset`, or at one of the
/// three bytes before it.
pub open spec fn spec_is_target(image: CodeImage, offset: int) -> bool {
    exists|i: int| 0 <= i < image.relocs@.len() && #[trigger] spec_hits(image, i, offset)
}

/// The name of what the pointer of relocation `i` points at: the name of
/// the jump that stands there, or else the name of the thunk at the
/// address that the pointer holds.
pub open spec fn spec_pointee(image: CodeImage, tramps: Seq<(u32, Seq<char>)>, i: int) -> Option<
    Seq<char>,
> {
    match spec_name_at(tramps, spec_target(image, i), 0) {
        Some(name) => Some(name),
        None => match CodeImage::spec_thunk_at(
            spec_thunks(image),
            spec_pointer(image, i) as int,
        ) {
            Some(t) => Some(spec_thunks(image)[t].name@),
            None => None,
        },
    }
}

/// The name that is shown behind the byte at `offset`: what the pointer
/// points at whose last byte stands there. Of several such pointers among
/// the first `n` relocations, the last that has a name gives it.
pub open spec fn spec_shown_name(
    image: CodeImage,
    tramps: Seq<(u32, Seq<char>)>,
    offset: int,
    n: int,
) -> Option<Seq<char>>
    decreases n,
{
    if n <= 0 {
        None
    } else if image.relocs@[n - 1] + 3 == offset && spec_pointee(image, tramps, n - 1) is Some {
        spec_pointee(image, tramps, n - 1)
    } else {
        spec_shown_name(image, tramps, offset, n - 1)
    }
}

/// The sequence that makes text green.
pub open spec fn spec_green() -> Seq<char> {
    Escape {
        foreground: Some(Color::Green),
        background: None,
        bold: false,
        dimmed: false,
        underline: false,
        strike_through: false,
    }.spec_text()
}

/// The sequence that makes text red.
pub open spec fn spec_red() -> Seq<char> {
    Escape {
        foreground: Some(Color::Red),
        background: None,
        bold: false,
        dimmed: false,
        underline: false,
        strike_through: false,
    }.spec_text()
}

/// The sequence that takes all looks back.
pub open spec fn spec_plain() -> Seq<char> {
    Escape {
        foreground: None,
        background: None,
        bold: false,
        dimmed: false,
        underline: false,
        strike_through: false,
    }.spec_text()
}

/// The byte at `offset` in hexadecimal digits, and a space.
pub open spec fn spec_hex(code: Seq<u8>, offset: int) -> Seq<char> {
    spec_b2h(code[offset]) + seq![' ']
}

/// The byte at `offset` as it is shown.
///
/// The bytes of a relocated pointer are green. Its first byte starts a
/// new line, behind one space. Behind its last byte stands the name of
/// what it points at, in square brackets, where that has a name; then a
/// space. A byte among the four that a relocated pointer points at is
/// red. Every other byte is plain.
pub open spec fn spec_shown(image: CodeImage, tramps: Seq<(u32, Seq<char>)>, offset: int) -> Seq<
    char,
> {
    let b = spec_hex(image.code@, offset);
    if spec_is_reloc(image.relocs@, offset, 0) {
        seq!['\n', ' '] + spec_green() + b + spec_plain()
    } else if spec_is_reloc(image.relocs@, offset, 1) || spec_is_reloc(image.relocs@, offset, 2) {
        spec_green() + b + spec_plain()
    } else if spec_is_reloc(image.relocs@, offset, 3) {
        match spec_shown_name(image, tramps, offset, image.relocs@.len() as int) {
            Some(name) => spec_green() + b + spec_plain() + seq!['['] + name + seq![']', ' '],
            None => spec_green() + b + spec_plain() + seq![' '],
        }
    } else if spec_is_target(image, offset) {
        spec_red() + b + spec_plain()
    } else {
        b
    }
}

/// The first `n` bytes of the code as they are shown.
pub open spec fn spec_body(image: CodeImage, tramps: Seq<(u32, Seq<char>)>, n: int) -> Seq<char>
    decreases n,
{
    if n <= 0 {
        Seq::empty()
    } else {
        spec_body(image, tramps, n - 1) + spec_shown(image, tramps, n - 1)
    }
}

/// The index of the first relocation that does not lie in the code.
pub open spec fn spec_bad_reloc(image: CodeImage) -> Option<int> {
    CodeImage::spec_bad_reloc(image.relocs@, image.code@.len() as int, 0)
}

fn is_reloc(relocs: &Vec<u32>, offset: usize, k: u8) -> (r: bool)
    ensures
        r == spec_is_reloc(relocs@, offset as int, k as int),
{
    let mut i: usize = 0;
    while i < relocs.len()
        invariant
            i <= relocs@.len(),
            forall|j: int| 0 <= j < i ==> (#[trigger] relocs@[j]) + k != offset,
        decreases relocs@.len() - i,
    {
        if relocs[i] as u128 + k as u128 == offset as u128 {
            return true;
        }
        i += 1;
    }
    false
}

fn target(image: &CodeImage, i: usize) -> (r: (u32, u32))
    requires
        i < image.relocs@.len(),
        image.relocs@[i as int] + 4 <= image.code@.len(),
    ensures
        r.0 == spec_pointer(*image, i as int),
        r.1 == spec_target(*image, i as int),
{
    let pointer: u32 = read_u32_le(image.code.as_slice(), image.relocs[i] as usize).unwrap();
    let target: u32 = ((pointer as u64 + 0x1_0000_0000 - image.code_vaddr as u64)
        % 0x1_0000_0000) as u32;
    (pointer, target)
}

fn is_target(image: &CodeImage, offset: usize) -> (r: bool)
    requires
        spec_bad_reloc(*image) is None,
    ensures
        r == spec_is_target(*image, offset as int),
{
    let mut i: usize = 0;
    while i < image.relocs.len()
        invariant
            i <= image.relocs@.len(),
            spec_bad_reloc(*image) is None,
            forall|j: int| 0 <= j < i ==> !#[trigger] spec_hits(*image, j, offset as int),
        decreases image.relocs@.len() - i,
    {
        proof {
            lemma_relocs_fit(*image, 0, i as int);
        }
        let (_, target) = target(image, i);
        let t: u64 = target as u64;
        let o: u128 = offset as u128;
        if o == t as u128 || o == ((t + 1) % 0x1_0000_0000) as u128 || o == ((t + 2)
            % 0x1_0000_0000) as u128 || o == ((t + 3) % 0x1_0000_0000) as u128 {
            assert(spec_hits(*image, i as int, offset as int));
            return true;
        }
        i += 1;
    }
    false
}

/// Where no relocation from `from` on is out of range, relocation `i`
/// lies in the code.
pub proof fn lemma_relocs_fit(image: CodeImage, from: int, i: int)
    requires
        0 <= from <= i < image.relocs@.len(),
        CodeImage::spec_bad_reloc(image.relocs@, image.code@.len() as int, from) is None,
    ensures
        image.relocs@[i] + 4 <= image.code@.len(),
    decreases i - from,
{
    if from < i {
        lemma_relocs_fit(image, from + 1, i);
    }
}

fn bad_reloc(image: &CodeImage) -> (r: Option<usize>)
    ensures
        match spec_bad_reloc(*image) {
            Some(i) => r == Some(i as usize) && 0 <= i < image.relocs@.len(),
            None => r is None,
        },
{
    let mut i: usize = 0;
    while i < image.relocs.len()
        invariant
            i <= image.relocs@.len(),
            CodeImage::spec_bad_reloc(image.relocs@, image.code@.len() as int, i as int)
                == spec_bad_reloc(*image),
        decreases image.relocs@.len() - i,
    {
        if image.relocs[i] as u128 + 4 > image.code.len() as u128 {
            return Some(i);
        }
        i += 1;
    }
    None
}

fn pointee<'a>(image: &'a CodeImage, tramps: &'a Vec<Trampoline>, i: usize) -> (r: Option<
    &'a String,
>)
    requires
        i < image.relocs@.len(),
        image.relocs@[i as int] + 4 <= image.code@.len(),
    ensures
        match spec_pointee(*image, spec_trampolines(tramps@), i as int) {
            Some(name) => r matches Some(s) && s@ == name,
            None => r is None,
        },
{
    let (pointer, target) = target(image, i);
    if let Some(t) = name_at(tramps, target) {
        return Some(&tramps[t].name);
    }
    match &image.thunks {
        None => {
            assert(spec_thunks(*image).len() == 0);
            None
        },
        Some(thunks) => match CodeImage::thunk_at(thunks, pointer) {
            Some(t) => Some(&thunks[t].name),
            None => None,
        },
    }
}

fn shown_name<'a>(image: &'a CodeImage, tramps: &'a Vec<Trampoline>, offset: usize) -> (r: Option<
    &'a String,
>)
    requires
        spec_bad_reloc(*image) is None,
    ensures
        match spec_shown_name(
            *image,
            spec_trampolines(tramps@),
            offset as int,
            image.relocs@.len() as int,
        ) {
            Some(name) => r matches Some(s) && s@ == name,
            None => r is None,
        },
{
    let mut n: usize = image.relocs.len();
    while n > 0
        invariant
            n <= image.relocs@.len(),
            spec_bad_reloc(*image) is None,
            spec_shown_name(*image, spec_trampolines(tramps@), offset as int, n as int)
                == spec_shown_name(
                *image,
                spec_trampolines(tramps@),
                offset as int,
                image.relocs@.len() as int,
            ),
        decreases n,
    {
        proof {
            lemma_relocs_fit(*image, 0, n - 1);
        }
        if image.relocs[n - 1] as u128 + 3 == offset as u128 {
            if let Some(name) = pointee(image, tramps, n - 1) {
                return Some(name);
            }
        }
        n -= 1;
    }
    None
}

fn shown(image: &CodeImage, tramps: &Vec<Trampoline>, offset: usize, out: &mut Vec<char>)
    requires
        spec_bad_reloc(*image) is None,
        offset < image.code@.len(),
    ensures
        final(out)@ == old(out)@ + spec_shown(*image, spec_trampolines(tramps@), offset as int),
{
    let mut b: Vec<char> = Vec::new();
    b2h(image.code[offset], &mut b);
    b.push(' ');
    assert(b@ =~= spec_hex(image.code@, offset as int));
    let mut green = Escape::new().fg(Color::Green).text();
    let mut plain = Escape::new().text();
    let mut piece: Vec<char> = Vec::new();
    if is_reloc(&image.relocs, offset, 0) {
        piece.push('\n');
        piece.push(' ');
        piece.append(&mut green);
        piece.append(&mut b);
        piece.append(&mut plain);
        assert(piece@ =~= seq!['\n', ' '] + spec_green() + spec_hex(image.code@, offset as int)
            + spec_plain());
    } else if is_reloc(&image.relocs, offset, 1) || is_reloc(&image.relocs, offset, 2) {
        piece.append(&mut green);
        piece.append(&mut b);
        piece.append(&mut plain);
        assert(piece@ =~= spec_green() + spec_hex(image.code@, offset as int) + spec_plain());
    } else if is_reloc(&image.relocs, offset, 3) {
        piece.append(&mut green);
        piece.append(&mut b);
        piece.append(&mut plain);
        match shown_name(image, tramps, offset) {
            Some(name) => {
                piece.push('[');
                put_str(&mut piece, name.as_str());
                piece.push(']');
                piece.push(' ');
                assert(piece@ =~= spec_green() + spec_hex(image.code@, offset as int)
                    + spec_plain() + seq!['['] + name@ + seq![']', ' ']);
            },
            None => {
                piece.push(' ');
                assert(piece@ =~= spec_green() + spec_hex(image.code@, offset as int)
                    + spec_plain() + seq![' ']);
            },
        }
    } else if is_target(image, offset) {
        let mut red = Escape::new().fg(Color::Red).text();
        piece.append(&mut red);
        piece.append(&mut b);
        piece.append(&mut plain);
        assert(piece@ =~= spec_red() + spec_hex(image.code@, offset as int) + spec_plain());
    } else {
        piece.append(&mut b);
        assert(piece@ =~= spec_hex(image.code@, offset as int));
    }
    out.append(&mut piece);
}

impl Dialog {
    /// Makes the view of the code of the image: every byte as `spec_shown`
    /// says, and behind the last ` - ` and `name`. An image without code
    /// has no view.
    ///
    /// Fails where the jumps at the end of the code cannot be found, and
    /// where a relocation does not lie in the code.
    pub fn explore(name: &str, image: &CodeImage) -> (r: Result<Option<String>, DialogError>)
        requires
            image.code@.len() <= u32::MAX,
        ensures
            if image.code@.len() == 0 {
                r matches Ok(None)
            } else {
                match spec_find_trampolines(*image) {
                    Err(e) => r matches Err(f) && f == e,
                    Ok(tramps) => match spec_bad_reloc(*image) {
                        Some(i) => r matches Err(f) && f == (DialogError::RelocationOutOfRange {
                            index: i as usize,
                        }),
                        None => r matches Ok(Some(text)) && text@ == spec_body(
                            *image,
                            tramps,
                            image.code@.len() as int,
                        ) + seq![' ', '-', ' '] + name@,
                    },
                }
            },
    {
        if image.code.len() == 0 {
            return Ok(None);
        }
        let tramps = Self::find_trampolines(image)?;
        if let Some(index) = bad_reloc(image) {
            return Err(DialogError::RelocationOutOfRange { index });
        }
        let mut out: Vec<char> = Vec::new();
        let mut offset: usize = 0;
        while offset < image.code.len()
            invariant
                offset <= image.code@.len(),
                spec_bad_reloc(*image) is None,
                out@ == spec_body(*image, spec_trampolines(tramps@), offset as int),
            decreases image.code@.len() - offset,
        {
            shown(image, &tramps, offset, &mut out);
            offset += 1;
        }
        out.push(' ');
        out.push('-');
        out.push(' ');
        put_str(&mut out, name);
        assert(out@ =~= spec_body(*image, spec_trampolines(tramps@), image.code@.len() as int)
            + seq![' ', '-', ' '] + name@);
        Ok(Some(chars_to_string(&out)))
    }
}

} // verus!
