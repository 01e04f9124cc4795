//! What the drawing of a shape is told.

use vstd::prelude::*;

verus! {

/// The flag mask of a shape as the two words that are handed to the
/// shader.
#[derive(Debug, Clone, Copy)]
pub struct PushConstantData {
    pub flag_mask0: u32,
    pub flag_mask1: u32,
}

impl PushConstantData {
    /// The mask that the two words stand for: `flag_mask0` is its low
    /// half.
    pub open spec fn spec_mask(&self) -> int {
        self.flag_mask0 as int + 0x1_0000_0000 * (self.flag_mask1 as int)
    }

    /// All flags set.
    pub fn new() -> (r: Self)
        ensures
            r.flag_mask0 == 0xFFFF_FFFF,
            r.flag_mask1 == 0xFFFF_FFFF,
    {
        PushConstantData { flag_mask0: 0xFFFF_FFFF, flag_mask1: 0xFFFF_FFFF }
    }

    /// Sets the mask: the low 32 bits of `mask` go to `flag_mask0`, the
    /// high 32 bits to `flag_mask1`.
    pub fn set_mask(&mut self, mask: u64)
        ensures
            final(self).flag_mask0 == mask % 0x1_0000_0000,
            final(self).flag_mask1 == mask / 0x1_0000_0000,
            final(self).spec_mask() == mask,
    {
        self.flag_mask0 = (mask % 0x1_0000_0000) as u32;
        self.flag_mask1 = (mask / 0x1_0000_0000) as u32;
    }
}

} // verus!
