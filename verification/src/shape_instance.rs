//! Where the instances of shapes stand in the buffers that are drawn from:
//! the buffers come in blocks of slots, and each entity that is drawn has
//! a slot in a block of the chunk that holds its shape.

use std::collections::HashMap;
use vstd::prelude::*;

verus! {

broadcast use vstd::std_specs::hash::group_hash_axioms;

/// The number of slots in a block.
pub const BLOCK_SIZE: usize = 128;

/// The number of a block.
#[derive(Copy, Clone, Debug, PartialEq, Eq, Hash, Structural)]
pub struct BlockIndex(pub usize);

/// The number of a slot in its block.
#[derive(Copy, Clone, Debug, PartialEq, Eq, Hash, Structural)]
pub struct SlotIndex(pub usize);

/// The slots of one block, all for shapes of one chunk.
pub struct DynamicInstanceBlock {
    /// The chunk whose shapes the block is for.
    pub chunk_index: usize,
    /// For each slot the entity that it is reserved for, if any.
    pub slot_reservations: [Option<u32>; 128],
    /// For each entity the slot that was last reserved for it.
    pub entity_to_slot_map: HashMap<u32, SlotIndex>,
}

impl DynamicInstanceBlock {
    /// Every slot that an entity is mapped to is a slot of the block.
    pub open spec fn wf(&self) -> bool {
        forall|id: u32| #[trigger]
            self.entity_to_slot_map@.contains_key(id) ==> self.entity_to_slot_map@[id].0
                < BLOCK_SIZE
    }

    /// The two blocks are for the same chunk and hold the same
    /// reservations.
    pub open spec fn spec_same(&self, other: &DynamicInstanceBlock) -> bool {
        &&& self.chunk_index == other.chunk_index
        &&& self.slot_reservations@ == other.slot_reservations@
        &&& self.entity_to_slot_map@ == other.entity_to_slot_map@
    }

    /// The first `n` slots are reserved.
    pub open spec fn spec_full_to(&self, n: int) -> bool {
        forall|i: int| 0 <= i < n ==> (#[trigger] self.slot_reservations@[i]) is Some
    }

    /// A block for the chunk `chunk_index` with all slots free.
    pub fn new(chunk_index: usize) -> (r: Self)
        ensures
            r.wf(),
            r.chunk_index == chunk_index,
            r.entity_to_slot_map@ == Map::<u32, SlotIndex>::empty(),
            forall|i: int| 0 <= i < BLOCK_SIZE ==> (#[trigger] r.slot_reservations@[i]) is None,
    {
        DynamicInstanceBlock {
            chunk_index,
            slot_reservations: [None; 128],
            entity_to_slot_map: HashMap::new(),
        }
    }

    /// Reserves the slot `slot` for the entity `id`.
    pub fn reserve_slot_for(&mut self, slot: SlotIndex, id: u32)
        requires
            old(self).wf(),
            slot.0 < BLOCK_SIZE,
        ensures
            final(self).wf(),
            final(self).chunk_index == old(self).chunk_index,
            final(self).slot_reservations@ == old(self).slot_reservations@.update(
                slot.0 as int,
                Some(id),
            ),
            final(self).entity_to_slot_map@ == old(self).entity_to_slot_map@.insert(id, slot),
    {
        self.slot_reservations[slot.0] = Some(id);
        self.entity_to_slot_map.insert(id, slot);
    }

    /// The first slot that is not reserved.
    pub fn find_free_slot(&self) -> (r: Option<SlotIndex>)
        ensures
            match r {
                Some(slot) => slot.0 < BLOCK_SIZE && self.slot_reservations@[slot.0 as int]
                    is None && self.spec_full_to(slot.0 as int),
                None => self.spec_full_to(BLOCK_SIZE as int),
            },
    {
        let mut slot_offset: usize = 0;
        while slot_offset < BLOCK_SIZE
            invariant
                slot_offset <= BLOCK_SIZE,
                self.spec_full_to(slot_offset as int),
            decreases BLOCK_SIZE - slot_offset,
        {
            if self.slot_reservations[slot_offset].is_none() {
                return Some(SlotIndex(slot_offset));
            }
            slot_offset += 1;
        }
        None
    }

    /// Reserves the first free slot for the entity `id`, where the block
    /// is for the chunk `chunk_index` and has a free slot.
    pub fn reserve_free_slot(&mut self, id: u32, chunk_index: usize) -> (r: Option<SlotIndex>)
        requires
            old(self).wf(),
        ensures
            final(self).wf(),
            final(self).chunk_index == old(self).chunk_index,
            match r {
                Some(slot) => {
                    &&& chunk_index == old(self).chunk_index
                    &&& slot.0 < BLOCK_SIZE
                    &&& old(self).slot_reservations@[slot.0 as int] is None
                    &&& old(self).spec_full_to(slot.0 as int)
                    &&& final(self).slot_reservations@ == old(self).slot_reservations@.update(
                        slot.0 as int,
                        Some(id),
                    )
                    &&& final(self).entity_to_slot_map@ == old(self).entity_to_slot_map@.insert(
                        id,
                        slot,
                    )
                },
                None => {
                    &&& chunk_index != old(self).chunk_index || old(self).spec_full_to(
                        BLOCK_SIZE as int,
                    )
                    &&& final(self).slot_reservations@ == old(self).slot_reservations@
                    &&& final(self).entity_to_slot_map@ == old(self).entity_to_slot_map@
                },
            },
    {
        if chunk_index != self.chunk_index {
            return None;
        }
        let maybe_slot_index = self.find_free_slot();
        if let Some(slot_index) = maybe_slot_index {
            self.reserve_slot_for(slot_index, id);
        }
        maybe_slot_index
    }

    /// The slot that was last reserved for the entity `id`.
    pub fn get_existing_slot(&self, id: u32) -> (r: SlotIndex)
        requires
            self.wf(),
            self.entity_to_slot_map@.contains_key(id),
        ensures
            r == self.entity_to_slot_map@[id],
            r.0 < BLOCK_SIZE,
    {
        *self.entity_to_slot_map.get(&id).unwrap()
    }
}

/// The blocks, and for each entity that a block was made for the number of
/// that block.
pub struct InstanceBlocks {
    pub blocks: Vec<DynamicInstanceBlock>,
    pub upload_block_map: HashMap<u32, BlockIndex>,
}

impl InstanceBlocks {
    /// Every block is well-formed, and every entity that is mapped to a
    /// block has a slot in that block.
    pub open spec fn wf(&self) -> bool {
        &&& forall|b: int| 0 <= b < self.blocks@.len() ==> (#[trigger] self.blocks@[b]).wf()
        &&& forall|id: u32| #[trigger]
            self.upload_block_map@.contains_key(id) ==> {
                &&& self.upload_block_map@[id].0 < self.blocks@.len()
                &&& self.blocks@[self.upload_block_map@[id].0 as int].entity_to_slot_map@.contains_key(
                    id,
                )
            }
    }

    /// Block `b` takes an entity of the chunk `chunk_index`: it is for
    /// that chunk and has a free slot.
    pub open spec fn spec_takes(&self, b: int, chunk_index: usize) -> bool {
        self.blocks@[b].chunk_index == chunk_index && !self.blocks@[b].spec_full_to(
            BLOCK_SIZE as int,
        )
    }

    /// No blocks.
    pub fn new() -> (r: Self)
        ensures
            r.wf(),
            r.blocks@.len() == 0,
            r.upload_block_map@ == Map::<u32, BlockIndex>::empty(),
    {
        InstanceBlocks { blocks: Vec::new(), upload_block_map: HashMap::new() }
    }

    /// The blocks.
    pub fn blocks(&self) -> (r: &Vec<DynamicInstanceBlock>)
        ensures
            r == &self.blocks,
    {
        &self.blocks
    }

    /// Reserves a slot for the entity `id`, whose shape lies in the chunk
    /// `chunk_index`: the first free slot of the first block that takes
    /// it. Where no block takes it, a new block is made for the chunk, the
    /// entity gets its first slot, and the entity is mapped to the block.
    pub fn reserve_free_slot(&mut self, id: u32, chunk_index: usize) -> (r: (
        BlockIndex,
        SlotIndex,
    ))
        requires
            old(self).wf(),
        ensures
            final(self).wf(),
            r.0.0 < final(self).blocks@.len(),
            r.1.0 < BLOCK_SIZE,
            final(self).blocks@[r.0.0 as int].chunk_index == chunk_index,
            final(self).blocks@[r.0.0 as int].slot_reservations@[r.1.0 as int] == Some(id),
            final(self).blocks@[r.0.0 as int].entity_to_slot_map@.contains_key(id),
            final(self).blocks@[r.0.0 as int].entity_to_slot_map@[id] == r.1,
            forall|b: int| 0 <= b < r.0.0 ==> !old(self).spec_takes(b, chunk_index),
            if r.0.0 < old(self).blocks@.len() {
                &&& old(self).spec_takes(r.0.0 as int, chunk_index)
                &&& old(self).blocks@[r.0.0 as int].slot_reservations@[r.1.0 as int] is None
                &&& old(self).blocks@[r.0.0 as int].spec_full_to(r.1.0 as int)
                &&& final(self).blocks@.len() == old(self).blocks@.len()
                &&& final(self).upload_block_map@ == old(self).upload_block_map@
            } else {
                &&& r.0.0 == old(self).blocks@.len()
                &&& r.1.0 == 0
                &&& final(self).blocks@.len() == old(self).blocks@.len() + 1
                &&& final(self).upload_block_map@ == old(self).upload_block_map@.insert(id, r.0)
            },
            forall|b: int|
                0 <= b < old(self).blocks@.len() && b != r.0.0 ==> (
                #[trigger] final(self).blocks@[b]).spec_same(&old(self).blocks@[b]),
    {
        let mut block_index: usize = 0;
        while block_index < self.blocks.len()
            invariant
                block_index <= self.blocks@.len(),
                self.wf(),
                self.blocks@.len() == old(self).blocks@.len(),
                forall|b: int|
                    0 <= b < self.blocks@.len() ==> (#[trigger] self.blocks@[b]).spec_same(
                        &old(self).blocks@[b],
                    ),
                self.upload_block_map@ == old(self).upload_block_map@,
                forall|b: int| 0 <= b < block_index ==> !old(self).spec_takes(b, chunk_index),
            decreases self.blocks@.len() - block_index,
        {
            let ghost before = self.blocks@;
            assert(before[block_index as int].wf());
            let reserved = self.blocks[block_index].reserve_free_slot(id, chunk_index);
            if let Some(slot_index) = reserved {
                proof {
                    assert forall|b: int| 0 <= b < self.blocks@.len() implies (
                    #[trigger] self.blocks@[b]).wf() by {
                        if b != block_index {
                            assert(self.blocks@[b] == before[b]);
                        }
                    }
                    assert forall|e: u32| #[trigger]
                        self.upload_block_map@.contains_key(e) implies {
                        &&& self.upload_block_map@[e].0 < self.blocks@.len()
                        &&& self.blocks@[self.upload_block_map@[e].0 as int].entity_to_slot_map@.contains_key(
                            e,
                        )
                    } by {
                        let at = self.upload_block_map@[e].0 as int;
                        if at != block_index {
                            assert(self.blocks@[at] == before[at]);
                        }
                    }
                }
                return (BlockIndex(block_index), slot_index);
            }
            proof {
                assert forall|b: int| 0 <= b < self.blocks@.len() implies (
                #[trigger] self.blocks@[b]).spec_same(&old(self).blocks@[b]) by {
                    assert(before[b].spec_same(&old(self).blocks@[b]));
                    if b != block_index {
                        assert(self.blocks@[b] == before[b]);
                    }
                }
                assert forall|b: int| 0 <= b < self.blocks@.len() implies (
                #[trigger] self.blocks@[b]).wf() by {
                    assert(before[b].wf());
                    if b != block_index {
                        assert(self.blocks@[b] == before[b]);
                    }
                }
                assert forall|e: u32| #[trigger]
                    self.upload_block_map@.contains_key(e) implies {
                    &&& self.upload_block_map@[e].0 < self.blocks@.len()
                    &&& self.blocks@[self.upload_block_map@[e].0 as int].entity_to_slot_map@.contains_key(
                        e,
                    )
                } by {
                    let at = self.upload_block_map@[e].0 as int;
                    assert(before[at].entity_to_slot_map@.contains_key(e));
                    if at != block_index {
                        assert(self.blocks@[at] == before[at]);
                    }
                }
                assert(before[block_index as int].spec_same(&old(self).blocks@[block_index as int]));
            }
            block_index += 1;
        }
        let next_block_index = BlockIndex(self.blocks.len());
        let mut block = DynamicInstanceBlock::new(chunk_index);
        let ghost fresh = block;
        let slot_index = match block.reserve_free_slot(id, chunk_index) {
            Some(slot_index) => slot_index,
            None => {
                assert(fresh.slot_reservations@[0] is None);
                assert(false);
                SlotIndex(0)
            },
        };
        assert(slot_index.0 == 0) by {
            if slot_index.0 > 0 {
                assert(fresh.slot_reservations@[0] is None);
            }
        }
        let ghost before = self.blocks@;
        self.blocks.push(block);
        self.upload_block_map.insert(id, next_block_index);
        proof {
            assert forall|b: int| 0 <= b < self.blocks@.len() implies (
            #[trigger] self.blocks@[b]).wf() by {
                if b < before.len() {
                    assert(self.blocks@[b] == before[b]);
                }
            }
            assert forall|b: int| 0 <= b < next_block_index.0 implies !old(self).spec_takes(
                b,
                chunk_index,
            ) by {}
        }
        (next_block_index, slot_index)
    }

    /// The block and the slot of the entity `id`, whose shape lies in the
    /// chunk `chunk_index`: the slot that it has in the block it is
    /// mapped to, or else a slot that is reserved for it now.
    pub fn ensure_entity_slot(&mut self, id: u32, chunk_index: usize) -> (r: (
        BlockIndex,
        SlotIndex,
    ))
        requires
            old(self).wf(),
        ensures
            final(self).wf(),
            r.0.0 < final(self).blocks@.len(),
            r.1.0 < BLOCK_SIZE,
            final(self).blocks@[r.0.0 as int].entity_to_slot_map@.contains_key(id),
            final(self).blocks@[r.0.0 as int].entity_to_slot_map@[id] == r.1,
            old(self).upload_block_map@.contains_key(id) ==> {
                &&& r.0 == old(self).upload_block_map@[id]
                &&& final(self).blocks@ == old(self).blocks@
                &&& final(self).upload_block_map@ == old(self).upload_block_map@
            },
    {
        let known: Option<BlockIndex> = match self.upload_block_map.get(&id) {
            Some(block_index) => Some(*block_index),
            None => None,
        };
        if let Some(block_index) = known {
            assert(self.blocks@[block_index.0 as int].wf());
            let slot_index = self.blocks[block_index.0].get_existing_slot(id);
            return (block_index, slot_index);
        }
        self.reserve_free_slot(id, chunk_index)
    }
}

} // verus!
