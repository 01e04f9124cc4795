//! The memory of the machine: a sparse map from addresses to constant
//! words, writable buffers and trampolines.

use crate::bytes::{read_u16_le, read_u32_le, spec_u16_le, spec_u32_le};
use vstd::prelude::*;

verus! {

/// Why the machine stopped with a fault.
#[derive(Clone, Copy, Debug, PartialEq, Eq, Structural)]
pub enum RuntimeError {
    /// Nothing is mapped at the address, or the access runs over the end
    /// of the buffer that is mapped there.
    UnmappedMemoryAccess { address: u32 },
    /// A write went to a constant or to a trampoline.
    WriteToReadOnlyOrTrampoline { address: u32 },
    /// The instruction at the address took a word from the empty stack.
    StackUnderflow { address: u32 },
    /// The operands of the instruction at the address are not such that it
    /// can be carried out.
    IllegalInstruction { address: u32 },
}

/// What is mapped at an address.
pub enum Region {
    /// One word that can be read and not written.
    Constant(u32),
    /// Bytes that can be read and written.
    Writable(Vec<u8>),
    /// The entry of an outside function, with its name and the number of
    /// words that it takes from the stack.
    Trampoline(String, usize),
}

/// A region as a value of specifications.
pub enum RegionView {
    Constant(u32),
    Writable(Seq<u8>),
    Trampoline(Seq<char>, usize),
}

impl View for Region {
    type V = RegionView;

    open spec fn view(&self) -> RegionView {
        match self {
            Region::Constant(v) => RegionView::Constant(*v),
            Region::Writable(buf) => RegionView::Writable(buf@),
            Region::Trampoline(name, arity) => RegionView::Trampoline(name@, *arity),
        }
    }
}

/// A region and the address it starts at.
pub struct Mapping {
    pub address: u32,
    pub region: Region,
}

/// A mapping as a value of specifications.
pub struct MappingView {
    pub address: u32,
    pub region: RegionView,
}

impl View for Mapping {
    type V = MappingView;

    open spec fn view(&self) -> MappingView {
        MappingView { address: self.address, region: self.region@ }
    }
}

/// The mappings of `v` as values of specifications.
pub open spec fn spec_memory(v: Seq<Mapping>) -> Seq<MappingView> {
    v.map_values(|m: Mapping| m@)
}

/// The address `a` lies in the mapping `m`: a constant and a trampoline
/// hold their own address alone, a buffer holds one address for each of
/// its bytes.
pub open spec fn spec_covers(m: MappingView, a: u32) -> bool {
    match m.region {
        RegionView::Writable(buf) => m.address <= a < m.address + buf.len(),
        _ => a == m.address,
    }
}

/// The index of the first mapping at or after `from` that holds the
/// address `a`.
pub open spec fn spec_find_from(memory: Seq<MappingView>, a: u32, from: int) -> Option<int>
    decreases memory.len() - from,
{
    if from < 0 || from >= memory.len() {
        None
    } else if spec_covers(memory[from], a) {
        Some(from)
    } else {
        spec_find_from(memory, a, from + 1)
    }
}

/// The index of the mapping that an access to the address `a` goes to: the
/// first that holds it.
pub open spec fn spec_find(memory: Seq<MappingView>, a: u32) -> Option<int> {
    spec_find_from(memory, a, 0)
}

/// What a read gives: a value, or the index of the trampoline that the
/// read ran into.
pub enum Fetch {
    Value(u32),
    Trap(int),
}

/// The low half of a word.
pub open spec fn spec_low16(v: u32) -> u32 {
    (v % 65536) as u32
}

/// What a read at the address `a` gives: a double word where `wide`, else
/// a word.
///
/// A constant gives its word, or the low half of it. A buffer gives the
/// little-endian value of its bytes at the address, which must all lie in
/// the buffer. A trampoline gives no value: the read ends there.
pub open spec fn spec_load(memory: Seq<MappingView>, a: u32, wide: bool) -> Result<
    Fetch,
    RuntimeError,
> {
    match spec_find(memory, a) {
        None => Err(RuntimeError::UnmappedMemoryAccess { address: a }),
        Some(i) => match memory[i].region {
            RegionView::Constant(v) => Ok(
                Fetch::Value(
                    if wide {
                        v
                    } else {
                        spec_low16(v)
                    },
                ),
            ),
            RegionView::Trampoline(_, _) => Ok(Fetch::Trap(i)),
            RegionView::Writable(buf) => {
                let off = a - memory[i].address;
                if wide {
                    if off + 4 <= buf.len() {
                        Ok(Fetch::Value(spec_u32_le(buf, off) as u32))
                    } else {
                        Err(RuntimeError::UnmappedMemoryAccess { address: a })
                    }
                } else {
                    if off + 2 <= buf.len() {
                        Ok(Fetch::Value(spec_u16_le(buf, off) as u32))
                    } else {
                        Err(RuntimeError::UnmappedMemoryAccess { address: a })
                    }
                }
            },
        },
    }
}

/// `buf` with the low two bytes of `v` at `off`, little-endian.
pub open spec fn spec_put16(buf: Seq<u8>, off: int, v: u32) -> Seq<u8> {
    buf.update(off, (v % 256) as u8).update(off + 1, ((v / 256) % 256) as u8)
}

/// `buf` with the four bytes of `v` at `off`, little-endian.
pub open spec fn spec_put32(buf: Seq<u8>, off: int, v: u32) -> Seq<u8> {
    buf.update(off, (v % 256) as u8).update(off + 1, ((v / 256) % 256) as u8).update(
        off + 2,
        ((v / 65536) % 256) as u8,
    ).update(off + 3, (v / 16777216) as u8)
}

/// The memory after a write of `v` at the address `a`: of all of `v`
/// where `wide`, else of its low half.
///
/// The write goes to the first mapping that holds the address. It fails
/// where there is none, where that mapping is a constant or a trampoline,
/// and where the bytes written would not all lie in the buffer.
pub open spec fn spec_store(memory: Seq<MappingView>, a: u32, v: u32, wide: bool) -> Result<
    Seq<MappingView>,
    RuntimeError,
> {
    match spec_find(memory, a) {
        None => Err(RuntimeError::UnmappedMemoryAccess { address: a }),
        Some(i) => match memory[i].region {
            RegionView::Writable(buf) => {
                let off = a - memory[i].address;
                if wide {
                    if off + 4 <= buf.len() {
                        Ok(
                            memory.update(
                                i,
                                MappingView {
                                    address: memory[i].address,
                                    region: RegionView::Writable(spec_put32(buf, off, v)),
                                },
                            ),
                        )
                    } else {
                        Err(RuntimeError::UnmappedMemoryAccess { address: a })
                    }
                } else {
                    if off + 2 <= buf.len() {
                        Ok(
                            memory.update(
                                i,
                                MappingView {
                                    address: memory[i].address,
                                    region: RegionView::Writable(spec_put16(buf, off, v)),
                                },
                            ),
                        )
                    } else {
                        Err(RuntimeError::UnmappedMemoryAccess { address: a })
                    }
                }
            },
            _ => Err(RuntimeError::WriteToReadOnlyOrTrampoline { address: a }),
        },
    }
}

/// What a read gave, in executable code.
pub enum Fetched {
    Value(u32),
    Trap(usize),
}

impl View for Fetched {
    type V = Fetch;

    open spec fn view(&self) -> Fetch {
        match self {
            Fetched::Value(v) => Fetch::Value(*v),
            Fetched::Trap(i) => Fetch::Trap(*i as int),
        }
    }
}

fn covers(m: &Mapping, a: u32) -> (r: bool)
    ensures
        r == spec_covers(m@, a),
{
    match &m.region {
        Region::Writable(buf) => m.address <= a && ((a - m.address) as usize) < buf.len(),
        _ => a == m.address,
    }
}

/// The index of the first mapping that holds the address `a`.
pub fn find(memory: &Vec<Mapping>, a: u32) -> (r: Option<usize>)
    ensures
        r matches Some(i) ==> i < memory@.len() && spec_find(spec_memory(memory@), a) == Some(
            i as int,
        ) && spec_covers(memory@[i as int]@, a),
        r is None ==> spec_find(spec_memory(memory@), a) is None,
{
    let mut i: usize = 0;
    while i < memory.len()
        invariant
            i <= memory@.len(),
            spec_find_from(spec_memory(memory@), a, i as int) == spec_find(
                spec_memory(memory@),
                a,
            ),
        decreases memory@.len() - i,
    {
        if covers(&memory[i], a) {
            return Some(i);
        }
        i += 1;
    }
    None
}

/// Reads at the address `a`: a double word where `wide`, else a word.
pub fn load(memory: &Vec<Mapping>, a: u32, wide: bool) -> (r: Result<Fetched, RuntimeError>)
    ensures
        match spec_load(spec_memory(memory@), a, wide) {
            Ok(f) => r matches Ok(g) && g@ == f && (f matches Fetch::Trap(i) ==> 0 <= i
                < memory@.len() && memory@[i].region is Trampoline),
            Err(e) => r matches Err(f) && f == e,
        },
{
    match find(memory, a) {
        None => Err(RuntimeError::UnmappedMemoryAccess { address: a }),
        Some(i) => {
            let m = &memory[i];
            match &m.region {
                Region::Constant(v) => Ok(
                    Fetched::Value(
                        if wide {
                            *v
                        } else {
                            *v % 65536
                        },
                    ),
                ),
                Region::Trampoline(_, _) => Ok(Fetched::Trap(i)),
                Region::Writable(buf) => {
                    let off: usize = (a - m.address) as usize;
                    if wide {
                        match read_u32_le(buf.as_slice(), off) {
                            Some(v) => Ok(Fetched::Value(v)),
                            None => Err(RuntimeError::UnmappedMemoryAccess { address: a }),
                        }
                    } else {
                        match read_u16_le(buf.as_slice(), off) {
                            Some(v) => Ok(Fetched::Value(v as u32)),
                            None => Err(RuntimeError::UnmappedMemoryAccess { address: a }),
                        }
                    }
                },
            }
        },
    }
}

/// Writes `v` at the address `a`: all of it where `wide`, else its low
/// half. On failure the memory stays as it was.
pub fn store(memory: &mut Vec<Mapping>, a: u32, v: u32, wide: bool) -> (r: Result<
    (),
    RuntimeError,
>)
    ensures
        match spec_store(spec_memory(old(memory)@), a, v, wide) {
            Ok(after) => r is Ok && spec_memory(final(memory)@) == after,
            Err(e) => r matches Err(f) && f == e && *final(memory) == *old(memory),
        },
{
    match find(memory, a) {
        None => Err(RuntimeError::UnmappedMemoryAccess { address: a }),
        Some(i) => {
            let ghost before = spec_memory(memory@);
            let address: u32 = memory[i].address;
            let off: usize = (a - address) as usize;
            let fits: bool = match &memory[i].region {
                Region::Writable(buf) => if wide {
                    buf.len() >= 4 && off <= buf.len() - 4
                } else {
                    buf.len() >= 2 && off <= buf.len() - 2
                },
                _ => {
                    return Err(RuntimeError::WriteToReadOnlyOrTrampoline { address: a });
                },
            };
            if !fits {
                return Err(RuntimeError::UnmappedMemoryAccess { address: a });
            }
            let m = memory.remove(i);
            let mut buf: Vec<u8> = match m.region {
                Region::Writable(buf) => buf,
                _ => Vec::new(),
            };
            let ghost old_buf = buf@;
            buf[off] = (v % 256) as u8;
            buf[off + 1] = ((v / 256) % 256) as u8;
            if wide {
                buf[off + 2] = ((v / 65536) % 256) as u8;
                buf[off + 3] = (v / 16777216) as u8;
            }
            memory.insert(i, Mapping { address, region: Region::Writable(buf) });
            proof {
                let after = spec_store(before, a, v, wide)->Ok_0;
                assert(spec_memory(memory@) =~= after);
            }
            Ok(())
        },
    }
}

} // verus!
