//! The executable image that a shape comes in: its code, where the code is
//! to stand in memory, what has to be relocated, and the names of the
//! outside symbols it refers to.

use vstd::prelude::*;

verus! {

/// Why the parts do not make an image.
#[derive(Clone, Copy, Debug, PartialEq, Eq, Structural)]
pub enum ContainerParseError {
    /// Relocation `index` names four bytes that do not all lie in the
    /// code.
    RelocationOutOfRange { index: usize },
    /// The code does not fit into the address space behind its address.
    CodeTooLarge,
    /// The pointer at the offset `offset` of the code was relocated, but
    /// points neither at a thunk nor into the code.
    PointerOutsideCode { offset: usize },
}

/// An outside symbol: its name, and the address the image reaches it at.
pub struct Thunk {
    pub vaddr: u32,
    pub name: String,
}

/// An executable image.
pub struct CodeImage {
    /// The code section.
    pub code: Vec<u8>,
    /// The address that the first byte of the code is to stand at.
    pub code_vaddr: u32,
    /// The address that the image is to stand at.
    pub image_base: u32,
    /// The offsets in the code of the pointers that have to be relocated.
    pub relocs: Vec<u32>,
    /// The outside symbols, or `None` where the image has no table of
    /// them.
    pub thunks: Option<Vec<Thunk>>,
}

impl CodeImage {
    /// The code fits the address space behind `code_vaddr`, and every
    /// relocation names four bytes of the code.
    pub open spec fn wf(&self) -> bool {
        &&& self.code_vaddr + self.code@.len() <= u32::MAX
        &&& forall|i: int|
            0 <= i < self.relocs@.len() ==> (#[trigger] self.relocs@[i]) + 4 <= self.code@.len()
    }

    /// The first relocation from `from` on that does not lie in code of
    /// the length `len`.
    pub open spec fn spec_bad_reloc(relocs: Seq<u32>, len: int, from: int) -> Option<int>
        decreases relocs.len() - from,
    {
        if from < 0 || from >= relocs.len() {
            None
        } else if relocs[from] + 4 > len {
            Some(from)
        } else {
            Self::spec_bad_reloc(relocs, len, from + 1)
        }
    }

    /// Why the parts do not make an image, or `None` where they do.
    pub open spec fn spec_fault(code: Seq<u8>, code_vaddr: u32, relocs: Seq<u32>) -> Option<
        ContainerParseError,
    > {
        if code_vaddr + code.len() > u32::MAX {
            Some(ContainerParseError::CodeTooLarge)
        } else {
            match Self::spec_bad_reloc(relocs, code.len() as int, 0) {
                Some(i) => Some(ContainerParseError::RelocationOutOfRange { index: i as usize }),
                None => None,
            }
        }
    }

    /// Makes an image of its parts, and fails where they do not fit
    /// together: where the code is too large, and else at the first
    /// relocation that does not lie in the code.
    pub fn new(
        code: Vec<u8>,
        code_vaddr: u32,
        image_base: u32,
        relocs: Vec<u32>,
        thunks: Option<Vec<Thunk>>,
    ) -> (r: Result<CodeImage, ContainerParseError>)
        ensures
            r is Ok <==> Self::spec_fault(code@, code_vaddr, relocs@) is None,
            r matches Ok(image) ==> image.wf() && image.code == code && image.code_vaddr
                == code_vaddr && image.image_base == image_base && image.relocs == relocs
                && image.thunks == thunks,
            r matches Err(e) ==> Self::spec_fault(code@, code_vaddr, relocs@) == Some(e),
    {
        if code.len() > (u32::MAX - code_vaddr) as usize {
            return Err(ContainerParseError::CodeTooLarge);
        }
        let mut i: usize = 0;
        while i < relocs.len()
            invariant
                i <= relocs@.len(),
                code_vaddr + code@.len() <= u32::MAX,
                forall|j: int| 0 <= j < i ==> (#[trigger] relocs@[j]) + 4 <= code@.len(),
                Self::spec_bad_reloc(relocs@, code@.len() as int, i as int)
                    == Self::spec_bad_reloc(relocs@, code@.len() as int, 0),
            decreases relocs@.len() - i,
        {
            if relocs[i] as u64 + 4 > code.len() as u64 {
                return Err(ContainerParseError::RelocationOutOfRange { index: i });
            }
            i += 1;
        }
        Ok(CodeImage { code, code_vaddr, image_base, relocs, thunks })
    }

    /// The index of the first thunk at or after `from` that stands at the
    /// address `vaddr`.
    pub open spec fn spec_thunk_from(thunks: Seq<Thunk>, vaddr: int, from: int) -> Option<int>
        decreases thunks.len() - from,
    {
        if from < 0 || from >= thunks.len() {
            None
        } else if thunks[from].vaddr == vaddr {
            Some(from)
        } else {
            Self::spec_thunk_from(thunks, vaddr, from + 1)
        }
    }

    /// The index of the thunk that stands at the address `vaddr`: of the
    /// first, where there are several.
    pub open spec fn spec_thunk_at(thunks: Seq<Thunk>, vaddr: int) -> Option<int> {
        Self::spec_thunk_from(thunks, vaddr, 0)
    }

    /// The index of the thunk that stands at the address `vaddr`.
    pub fn thunk_at(thunks: &Vec<Thunk>, vaddr: u32) -> (r: Option<usize>)
        ensures
            r matches Some(i) ==> i < thunks@.len() && Self::spec_thunk_at(thunks@, vaddr as int)
                == Some(i as int),
            r is None ==> Self::spec_thunk_at(thunks@, vaddr as int) is None,
    {
        let mut i: usize = 0;
        while i < thunks.len()
            invariant
                i <= thunks@.len(),
                Self::spec_thunk_from(thunks@, vaddr as int, i as int) == Self::spec_thunk_at(
                    thunks@,
                    vaddr as int,
                ),
            decreases thunks@.len() - i,
        {
            if thunks[i].vaddr == vaddr {
                return Some(i);
            }
            i += 1;
        }
        None
    }
}

} // verus!
