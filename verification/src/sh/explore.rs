//! The view of a whole image: its records as sections, its relocations as
//! tags, and the lines that show them.

use super::dump::{Section, SectionKind, ShowMode, Tag, TagKind};
use super::error::{DecodeError, DecodeErrorKind};
use super::format::{
    format_sections, spec_clear, spec_format, spec_texts, spec_tidy,
};
use super::instr::Instr;
use super::shape::{spec_first_fault, CpuShape};
use crate::bytes::{read_u32_le, spec_u32_le};
use crate::image::{CodeImage, ContainerParseError, Thunk};
use crate::text::{chars_to_string, put_str};
use vstd::prelude::*;

verus! {

/// Why an image cannot be shown.
#[derive(Clone, Copy, Debug, PartialEq, Eq, Structural)]
pub enum ShapeError {
    /// A record cannot be decoded.
    Decode(DecodeError),
    /// The relocations do not fit the code.
    Image(ContainerParseError),
    /// Two tags overlap.
    OverlappingTags,
}

/// The index of the thunk that the pointer `ptr` means: the thunk at the
/// address `ptr`, or else the thunk two bytes before it.
pub open spec fn spec_thunk_for(thunks: Seq<Thunk>, ptr: u32) -> Option<int> {
    if CodeImage::spec_thunk_at(thunks, ptr as int) is Some {
        CodeImage::spec_thunk_at(thunks, ptr as int)
    } else {
        CodeImage::spec_thunk_at(thunks, ptr - 2)
    }
}

/// The tags of relocation `i` of the image.
///
/// The relocation names a pointer in the code. Where the image has no
/// thunks at all, there is no tag. Where the pointer means a thunk, the
/// pointer is tagged as a call of the symbol of the thunk. In every other
/// case the pointer has to point into the code, behind its first byte and
/// at four bytes of it: the pointer is tagged, and so are the two bytes
/// that it points at.
pub open spec fn spec_reloc_tags(image: CodeImage, i: int) -> Result<
    Seq<Tag>,
    ContainerParseError,
> {
    let reloc = image.relocs@[i];
    if reloc + 4 > image.code@.len() {
        Err(ContainerParseError::RelocationOutOfRange { index: i as usize })
    } else {
        let ptr = spec_u32_le(image.code@, reloc as int) as u32;
        match image.thunks {
            None => Ok(Seq::empty()),
            Some(thunks) => match spec_thunk_for(thunks@, ptr) {
                Some(t) => Ok(
                    seq![
                        Tag {
                            kind: TagKind::RelocatedCall(thunks@[t].name),
                            offset: reloc as usize,
                            length: 4,
                        },
                    ],
                ),
                None => if image.code_vaddr < ptr && ptr + 4 <= image.code_vaddr
                    + image.code@.len() {
                    Ok(
                        seq![
                            Tag { kind: TagKind::RelocatedRef, offset: reloc as usize, length: 4 },
                            Tag {
                                kind: TagKind::RelocationTarget,
                                offset: (ptr - image.code_vaddr) as usize,
                                length: 2,
                            },
                        ],
                    )
                } else {
                    Err(ContainerParseError::PointerOutsideCode { offset: reloc as usize })
                },
            },
        }
    }
}

/// The tags of the first `n` relocations of the image, or the failure of
/// the first relocation that has one.
pub open spec fn spec_tags(image: CodeImage, n: int) -> Result<Seq<Tag>, ContainerParseError>
    decreases n,
{
    if n <= 0 {
        Ok(Seq::empty())
    } else {
        match spec_tags(image, n - 1) {
            Err(e) => Err(e),
            Ok(before) => match spec_reloc_tags(image, n - 1) {
                Err(e) => Err(e),
                Ok(tags) => Ok(before + tags),
            },
        }
    }
}

fn thunk_for(thunks: &Vec<Thunk>, ptr: u32) -> (r: Option<usize>)
    ensures
        r matches Some(i) ==> i < thunks@.len() && spec_thunk_for(thunks@, ptr) == Some(i as int),
        r is None ==> spec_thunk_for(thunks@, ptr) is None,
{
    match CodeImage::thunk_at(thunks, ptr) {
        Some(i) => Some(i),
        None => {
            if ptr >= 2 {
                CodeImage::thunk_at(thunks, ptr - 2)
            } else {
                proof {
                    lemma_no_thunk_below(thunks@, ptr - 2, 0);
                }
                None
            }
        },
    }
}

proof fn lemma_no_thunk_below(thunks: Seq<Thunk>, vaddr: int, from: int)
    requires
        vaddr < 0,
        0 <= from,
    ensures
        CodeImage::spec_thunk_from(thunks, vaddr, from) is None,
    decreases thunks.len() - from,
{
    if from < thunks.len() {
        lemma_no_thunk_below(thunks, vaddr, from + 1);
    }
}

/// A failure among the first relocations is the failure of all of them.
pub proof fn lemma_tags_failure_stays(image: CodeImage, k: int, n: int)
    requires
        k <= n,
        spec_tags(image, k) is Err,
    ensures
        spec_tags(image, n) == spec_tags(image, k),
    decreases n - k,
{
    if k < n {
        lemma_tags_failure_stays(image, k, n - 1);
    }
}

/// The tags of the relocations of the image, in the order of the
/// relocations.
pub fn apply_tags(image: &CodeImage) -> (r: Result<Vec<Tag>, ContainerParseError>)
    ensures
        match spec_tags(*image, image.relocs@.len() as int) {
            Ok(tags) => r matches Ok(v) && v@ == tags,
            Err(e) => r matches Err(f) && f == e,
        },
{
    let mut tags: Vec<Tag> = Vec::new();
    let mut i: usize = 0;
    while i < image.relocs.len()
        invariant
            i <= image.relocs@.len(),
            spec_tags(*image, i as int) == Ok::<Seq<Tag>, ContainerParseError>(tags@),
        decreases image.relocs@.len() - i,
    {
        let reloc: u32 = image.relocs[i];
        let ghost before = tags@;
        let ptr: u32 = match read_u32_le(image.code.as_slice(), reloc as usize) {
            Some(ptr) => ptr,
            None => {
                proof {
                    lemma_tags_failure_stays(*image, i + 1, image.relocs@.len() as int);
                }
                return Err(ContainerParseError::RelocationOutOfRange { index: i });
            },
        };
        if let Some(thunks) = &image.thunks {
            match thunk_for(thunks, ptr) {
                Some(t) => {
                    tags.push(
                        Tag {
                            kind: TagKind::RelocatedCall(thunks[t].name.clone()),
                            offset: reloc as usize,
                            length: 4,
                        },
                    );
                    assert(tags@ =~= before + spec_reloc_tags(*image, i as int)->Ok_0);
                },
                None => {
                    if image.code_vaddr < ptr && ptr as u128 + 4 <= image.code_vaddr as u128
                        + image.code.len() as u128 {
                        tags.push(
                            Tag { kind: TagKind::RelocatedRef, offset: reloc as usize, length: 4 },
                        );
                        tags.push(
                            Tag {
                                kind: TagKind::RelocationTarget,
                                offset: (ptr - image.code_vaddr) as usize,
                                length: 2,
                            },
                        );
                        assert(tags@ =~= before + spec_reloc_tags(*image, i as int)->Ok_0);
                    } else {
                        proof {
                            lemma_tags_failure_stays(*image, i + 1, image.relocs@.len() as int);
                        }
                        return Err(
                            ContainerParseError::PointerOutsideCode { offset: reloc as usize },
                        );
                    }
                },
            }
        } else {
            assert(tags@ =~= before + Seq::<Tag>::empty());
        }
        i += 1;
    }
    Ok(tags)
}

/// The section of record `i` of the shape: its tag, its offset and its
/// size. A trailer is an unknown section.
pub open spec fn spec_section(shape: CpuShape, i: int) -> Section {
    Section {
        kind: match shape.instrs@[i].spec_magic() {
            Some(tag) => SectionKind::Main(tag as u16),
            None => SectionKind::Unknown,
        },
        offset: shape.offsets@[i],
        length: shape.instrs@[i].spec_size() as usize,
    }
}

/// The sections of the records of the shape.
pub open spec fn spec_sections(shape: CpuShape) -> Seq<Section> {
    Seq::new(shape.instrs@.len(), |i: int| spec_section(shape, i))
}

/// The lines, each with ` - ` and `path` behind it.
pub open spec fn spec_suffixed(lines: Seq<Seq<char>>, path: Seq<char>) -> Seq<Seq<char>> {
    lines.map_values(|line: Seq<char>| line + seq![' ', '-', ' '] + path)
}

/// The last section is a record, or there is no section.
pub open spec fn spec_ends_known(sections: Seq<Section>) -> bool {
    sections.len() == 0 || sections.last().kind is Main
}

/// All records of `code` can be decoded, or all up to a tag byte of no
/// known kind.
pub open spec fn spec_explorable(code: Seq<u8>) -> bool {
    spec_first_fault(code, 0) matches Some(at) ==> Instr::spec_fault(code.skip(at)) == Some(
        DecodeErrorKind::UnknownRecordTag,
    )
}

impl CpuShape {
    /// Every record has an offset, and the size of every record fits the
    /// machine.
    pub open spec fn spec_sized(&self) -> bool {
        &&& self.offsets@.len() == self.instrs@.len()
        &&& forall|i: int|
            0 <= i < self.instrs@.len() ==> (#[trigger] self.instrs@[i]).spec_size() <= usize::MAX
    }

    /// The sections of the records.
    pub fn sections(&self) -> (r: Vec<Section>)
        requires
            self.spec_sized(),
        ensures
            r@ == spec_sections(*self),
    {
        let mut out: Vec<Section> = Vec::new();
        let mut i: usize = 0;
        while i < self.instrs.len()
            invariant
                i <= self.instrs@.len(),
                self.spec_sized(),
                out@.len() == i,
                forall|k: int| 0 <= k < i ==> out@[k] == spec_section(*self, k),
            decreases self.instrs@.len() - i,
        {
            let instr = &self.instrs[i];
            let kind = match instr.magic() {
                Some(tag) => SectionKind::Main(tag as u16),
                None => SectionKind::Unknown,
            };
            out.push(Section { kind, offset: self.offsets[i], length: instr.size() });
            i += 1;
        }
        assert(out@ =~= spec_sections(*self));
        out
    }

    /// Decodes the code of the image and makes the view of it that `mode`
    /// asks for. Each line of the view ends with ` - ` and `path`.
    ///
    /// What follows a tag byte of no known kind is kept as a trailer and
    /// shown as an unknown section. Under `UnknownMinus` a shape that ends
    /// with a record has no view but one empty line, without `path`.
    ///
    /// Fails where a record of a known kind cannot be decoded, where the
    /// relocations do not fit the code, and where tags overlap.
    pub fn new(image: &CodeImage, path: &str, mode: ShowMode) -> (r: Result<
        (CpuShape, Vec<String>),
        ShapeError,
    >)
        ensures
            match r {
                Err(ShapeError::Decode(e)) => {
                    &&& spec_first_fault(image.code@, 0) == Some(e.offset as int)
                    &&& e.offset < image.code@.len()
                    &&& e.tag == image.code@[e.offset as int]
                    &&& Instr::spec_fault(image.code@.skip(e.offset as int)) == Some(e.kind)
                    &&& e.kind != DecodeErrorKind::UnknownRecordTag
                },
                Err(ShapeError::Image(e)) => {
                    &&& spec_explorable(image.code@)
                    &&& spec_tags(*image, image.relocs@.len() as int) == Err::<
                        Seq<Tag>,
                        ContainerParseError,
                    >(e)
                },
                Err(ShapeError::OverlappingTags) => {
                    &&& spec_explorable(image.code@)
                    &&& spec_tags(*image, image.relocs@.len() as int) matches Ok(tags)
                    &&& !spec_clear(spec_tidy(tags))
                },
                Ok((shape, lines)) => {
                    &&& spec_explorable(image.code@)
                    &&& shape.wf(image.code@)
                    &&& shape.spec_end() == image.code@.len()
                    &&& if mode == ShowMode::UnknownMinus && spec_ends_known(
                        spec_sections(shape),
                    ) {
                        spec_texts(lines@) == seq![Seq::<char>::empty()]
                    } else {
                        &&& spec_tags(*image, image.relocs@.len() as int) matches Ok(tags)
                        &&& spec_clear(spec_tidy(tags))
                        &&& spec_texts(lines@) == spec_suffixed(
                            spec_format(image.code@, spec_sections(shape), spec_tidy(tags), mode),
                            path@,
                        )
                    }
                },
            },
    {
        let code = image.code.as_slice();
        let shape = match CpuShape::decode_with_trailer(code) {
            Ok(shape) => shape,
            Err(e) => {
                return Err(ShapeError::Decode(e));
            },
        };
        let total: usize = code.len();
        proof {
            assert forall|i: int| 0 <= i < shape.instrs@.len() implies (
            #[trigger] shape.instrs@[i]).spec_size() <= usize::MAX by {
                assert(shape.spec_placed(image.code@, i));
            }
        }
        let sections = shape.sections();
        if mode == ShowMode::UnknownMinus {
            let known: bool = if sections.len() == 0 {
                true
            } else {
                match sections[sections.len() - 1].kind {
                    SectionKind::Main(_) => true,
                    _ => false,
                }
            };
            if known {
                let mut lines: Vec<String> = Vec::new();
                lines.push(String::new());
                assert(spec_texts(lines@) =~= seq![Seq::<char>::empty()]);
                return Ok((shape, lines));
            }
        }
        let mut tags = match apply_tags(image) {
            Ok(tags) => tags,
            Err(e) => {
                return Err(ShapeError::Image(e));
            },
        };
        let plain = match format_sections(code, &sections, &mut tags, mode) {
            Ok(lines) => lines,
            Err(_) => {
                return Err(ShapeError::OverlappingTags);
            },
        };
        let mut lines: Vec<String> = Vec::new();
        let mut i: usize = 0;
        while i < plain.len()
            invariant
                i <= plain@.len(),
                lines@.len() == i,
                forall|k: int|
                    0 <= k < i ==> (#[trigger] lines@[k])@ == plain@[k]@ + seq![' ', '-', ' ']
                        + path@,
            decreases plain@.len() - i,
        {
            let mut line: Vec<char> = Vec::new();
            put_str(&mut line, plain[i].as_str());
            line.push(' ');
            line.push('-');
            line.push(' ');
            put_str(&mut line, path);
            assert(line@ =~= plain@[i as int]@ + seq![' ', '-', ' '] + path@);
            lines.push(chars_to_string(&line));
            i += 1;
        }
        assert(spec_texts(lines@) =~= spec_suffixed(spec_texts(plain@), path@));
        Ok((shape, lines))
    }
}

} // verus!
