use shape_vm::shape_instance::{
    BlockIndex, DynamicInstanceBlock, InstanceBlocks, SlotIndex, BLOCK_SIZE,
};

#[test]
fn slots_are_taken_in_order() {
    let mut block = DynamicInstanceBlock::new(7);
    assert_eq!(block.find_free_slot(), Some(SlotIndex(0)));
    assert_eq!(block.reserve_free_slot(100, 7), Some(SlotIndex(0)));
    assert_eq!(block.reserve_free_slot(101, 7), Some(SlotIndex(1)));
    assert_eq!(block.reserve_free_slot(102, 8), None);
    assert_eq!(block.find_free_slot(), Some(SlotIndex(2)));
    assert_eq!(block.get_existing_slot(100), SlotIndex(0));
    assert_eq!(block.get_existing_slot(101), SlotIndex(1));
    assert_eq!(block.slot_reservations[1], Some(101));
    assert_eq!(block.slot_reservations[2], None);
    block.reserve_slot_for(SlotIndex(5), 100);
    assert_eq!(block.get_existing_slot(100), SlotIndex(5));
    assert_eq!(block.find_free_slot(), Some(SlotIndex(2)));
}

#[test]
fn a_full_block_has_no_free_slot() {
    assert_eq!(BLOCK_SIZE, 128);
    let mut block = DynamicInstanceBlock::new(0);
    for id in 0..128u32 {
        assert_eq!(block.reserve_free_slot(id, 0), Some(SlotIndex(id as usize)));
    }
    assert_eq!(block.find_free_slot(), None);
    assert_eq!(block.reserve_free_slot(500, 0), None);
}

#[test]
fn blocks_are_made_as_they_are_needed() {
    let mut blocks = InstanceBlocks::new();
    assert_eq!(blocks.ensure_entity_slot(1, 9), (BlockIndex(0), SlotIndex(0)));
    assert_eq!(blocks.blocks().len(), 1);
    // The entity that the block was made for keeps its slot.
    assert_eq!(blocks.ensure_entity_slot(1, 9), (BlockIndex(0), SlotIndex(0)));
    assert_eq!(blocks.ensure_entity_slot(2, 9), (BlockIndex(0), SlotIndex(1)));
    // Another chunk gets a block of its own.
    assert_eq!(blocks.ensure_entity_slot(3, 4), (BlockIndex(1), SlotIndex(0)));
    assert_eq!(blocks.reserve_free_slot(4, 9), (BlockIndex(0), SlotIndex(2)));
    assert_eq!(blocks.reserve_free_slot(5, 4), (BlockIndex(1), SlotIndex(1)));
    assert_eq!(blocks.blocks().len(), 2);
    assert_eq!(blocks.blocks()[0].chunk_index, 9);
    // A full block is passed over.
    for id in 0..125u32 {
        let (block, _) = blocks.reserve_free_slot(1000 + id, 9);
        assert_eq!(block, BlockIndex(0));
    }
    assert_eq!(blocks.reserve_free_slot(2000, 9), (BlockIndex(2), SlotIndex(0)));
    assert_eq!(blocks.ensure_entity_slot(2000, 9), (BlockIndex(2), SlotIndex(0)));
    assert_eq!(blocks.upload_block_map.len(), 3);
}
