//! How a shape is to be drawn, and what that means for the symbols that
//! the code of the shape reads.

use crate::i386::machine::spec_bits;
use crate::i386::symbols::{SymbolKind, SymbolKindView, SymbolTable};
use vstd::prelude::*;

verus! {

/// The address that the symbol `brentObjId` holds: where the state of the
/// drawn object would stand.
pub const INST_BASE: u32 = 0x0000_4000;

/// The state of the object that a shape is drawn for.
#[derive(Clone, Copy, Debug, PartialEq, Eq)]
pub struct DrawMode {
    pub range: Option<[usize; 2]>,
    pub damaged: bool,
    pub closeness: usize,
    pub frame_number: usize,
    pub detail: u16,
    pub gear_position: Option<u32>,
    pub bay_position: Option<u32>,
    pub flaps_down: bool,
    pub slats_down: bool,
    pub airbrake_extended: bool,
    pub hook_extended: bool,
    pub afterburner_enabled: bool,
    pub rudder_position: i32,
    pub left_aileron_position: i32,
    pub right_aileron_position: i32,
    pub sam_count: u32,
}

/// 1 for `true` and 0 for `false`.
pub open spec fn spec_flag(b: bool) -> u32 {
    if b {
        1
    } else {
        0
    }
}

/// The first bytes of the buffer `_v`: 256 bytes, all 0 but for the byte
/// at `0x8F`, which is 1.
pub open spec fn spec_v() -> Seq<u8> {
    Seq::new(
        256,
        |i: int|
            if i == 0x8F {
                1u8
            } else {
                0u8
            },
    )
}

/// The table with one more constant.
pub open spec fn spec_value(
    table: Seq<(Seq<char>, SymbolKindView)>,
    name: &str,
    value: u32,
) -> Seq<(Seq<char>, SymbolKindView)> {
    table.push((name@, SymbolKindView::Constant(value)))
}

/// The table with one more function that takes one word from the stack.
pub open spec fn spec_call(table: Seq<(Seq<char>, SymbolKindView)>, name: &str) -> Seq<
    (Seq<char>, SymbolKindView),
> {
    table.push((name@, SymbolKindView::Trampoline(1)))
}

/// The table with one more buffer.
pub open spec fn spec_buffer(
    table: Seq<(Seq<char>, SymbolKindView)>,
    name: &str,
    bytes: Seq<u8>,
) -> Seq<(Seq<char>, SymbolKindView)> {
    table.push((name@, SymbolKindView::Writable(bytes)))
}

impl DrawMode {
    /// The functions that the code of shapes calls. Each takes one word.
    pub open spec fn spec_calls() -> Seq<(Seq<char>, SymbolKindView)> {
        let t = Seq::empty();
        let t = spec_call(t, "do_start_interp");
        let t = spec_call(t, "_CATGUYDraw@4");
        let t = spec_call(t, "@HARDNumLoaded@8");
        let t = spec_call(t, "@HardpointAngle@4");
        spec_call(t, "_InsectWingAngle@0")
    }

    /// The calls, and the variables that do not depend on the object.
    pub open spec fn spec_world(current_ticks: u32) -> Seq<(Seq<char>, SymbolKindView)> {
        let t = Self::spec_calls();
        let t = spec_value(t, "_currentTicks", current_ticks);
        let t = spec_value(t, "_lowMemory", 0);
        let t = spec_value(t, "_nightHazing", 1);
        let t = spec_value(t, "brentObjId", INST_BASE);
        let t = spec_buffer(t, "_effectsAllowed", seq![2u8, 0u8, 0u8, 0u8]);
        let t = spec_buffer(t, "_effects", seq![2u8, 0u8, 0u8, 0u8]);
        let t = spec_buffer(t, "lighteningAllowed", seq![0u8, 0u8, 0u8, 0u8]);
        let t = spec_buffer(t, "mapAdj", seq![0u8, 0u8, 0u8, 0u8]);
        spec_buffer(t, "_v", spec_v())
    }

    /// The table for this state of the object at the time
    /// `current_ticks`: the calls and the variables of the world, and the
    /// variables of the object.
    ///
    /// A flag is 1 where it is set. The gear and the bay are down and open
    /// where they have a position, which is 0 where they have none. Flaps
    /// that are down are all ones. The positions of the rudder and the
    /// ailerons are words with the bits of the signed position.
    pub open spec fn spec_symbols(&self, current_ticks: u32) -> Seq<(Seq<char>, SymbolKindView)> {
        let t = Self::spec_world(current_ticks);
        let t = spec_value(t, "_PLafterBurner", spec_flag(self.afterburner_enabled));
        let t = spec_value(t, "_PLbayOpen", spec_flag(self.bay_position is Some));
        let t = spec_value(
            t,
            "_PLbayDoorPos",
            match self.bay_position {
                Some(p) => p,
                None => 0,
            },
        );
        let t = spec_value(t, "_PLbrake", spec_flag(self.airbrake_extended));
        let t = spec_value(t, "_PLcanardPos", 0);
        let t = spec_value(t, "_PLdead", 0);
        let t = spec_value(t, "_PLgearDown", spec_flag(self.gear_position is Some));
        let t = spec_value(
            t,
            "_PLgearPos",
            match self.gear_position {
                Some(p) => p,
                None => 0,
            },
        );
        let t = spec_value(t, "_PLhook", spec_flag(self.hook_extended));
        let t = spec_value(
            t,
            "_PLrightFlap",
            if self.flaps_down {
                0xFFFF_FFFF
            } else {
                0
            },
        );
        let t = spec_value(
            t,
            "_PLleftFlap",
            if self.flaps_down {
                0xFFFF_FFFF
            } else {
                0
            },
        );
        let t = spec_value(t, "_PLrightAln", spec_bits(self.right_aileron_position));
        let t = spec_value(t, "_PLleftAln", spec_bits(self.left_aileron_position));
        let t = spec_value(t, "_PLrudder", spec_bits(self.rudder_position));
        let t = spec_value(t, "_PLslats", spec_flag(self.slats_down));
        let t = spec_value(t, "_PLstate", 0);
        let t = spec_value(t, "_PLswingWing", 0);
        let t = spec_value(t, "_PLvtAngle", 0);
        let t = spec_value(t, "_PLvtOn", 0);
        spec_value(t, "_SAMcount", self.sam_count)
    }

    fn calls() -> (r: SymbolTable)
        ensures
            r@ == Self::spec_calls(),
    {
        let mut t = SymbolTable::new();
        t.register("do_start_interp", SymbolKind::Trampoline(1));
        t.register("_CATGUYDraw@4", SymbolKind::Trampoline(1));
        t.register("@HARDNumLoaded@8", SymbolKind::Trampoline(1));
        t.register("@HardpointAngle@4", SymbolKind::Trampoline(1));
        t.register("_InsectWingAngle@0", SymbolKind::Trampoline(1));
        t
    }

    fn world(current_ticks: u32) -> (r: SymbolTable)
        ensures
            r@ == Self::spec_world(current_ticks),
    {
        let mut t = Self::calls();
        t.register("_currentTicks", SymbolKind::Constant(current_ticks));
        t.register("_lowMemory", SymbolKind::Constant(0));
        t.register("_nightHazing", SymbolKind::Constant(1));
        t.register("brentObjId", SymbolKind::Constant(INST_BASE));
        t.register("_effectsAllowed", SymbolKind::Writable(word(2)));
        t.register("_effects", SymbolKind::Writable(word(2)));
        t.register("lighteningAllowed", SymbolKind::Writable(word(0)));
        t.register("mapAdj", SymbolKind::Writable(word(0)));
        t.register("_v", SymbolKind::Writable(v_buffer()));
        t
    }

    /// The table of the symbols for this state of the object at the time
    /// `current_ticks`.
    pub fn symbols(&self, current_ticks: u32) -> (r: SymbolTable)
        ensures
            r@ == self.spec_symbols(current_ticks),
    {
        let mut t = Self::world(current_ticks);
        t.register("_PLafterBurner", SymbolKind::Constant(flag(self.afterburner_enabled)));
        t.register("_PLbayOpen", SymbolKind::Constant(flag(self.bay_position.is_some())));
        t.register(
            "_PLbayDoorPos",
            SymbolKind::Constant(
                match self.bay_position {
                    Some(p) => p,
                    None => 0,
                },
            ),
        );
        t.register("_PLbrake", SymbolKind::Constant(flag(self.airbrake_extended)));
        t.register("_PLcanardPos", SymbolKind::Constant(0));
        t.register("_PLdead", SymbolKind::Constant(0));
        t.register("_PLgearDown", SymbolKind::Constant(flag(self.gear_position.is_some())));
        t.register(
            "_PLgearPos",
            SymbolKind::Constant(
                match self.gear_position {
                    Some(p) => p,
                    None => 0,
                },
            ),
        );
        t.register("_PLhook", SymbolKind::Constant(flag(self.hook_extended)));
        let flaps: u32 = if self.flaps_down {
            0xFFFF_FFFF
        } else {
            0
        };
        t.register("_PLrightFlap", SymbolKind::Constant(flaps));
        t.register("_PLleftFlap", SymbolKind::Constant(flaps));
        t.register("_PLrightAln", SymbolKind::Constant(bits(self.right_aileron_position)));
        t.register("_PLleftAln", SymbolKind::Constant(bits(self.left_aileron_position)));
        t.register("_PLrudder", SymbolKind::Constant(bits(self.rudder_position)));
        t.register("_PLslats", SymbolKind::Constant(flag(self.slats_down)));
        t.register("_PLstate", SymbolKind::Constant(0));
        t.register("_PLswingWing", SymbolKind::Constant(0));
        t.register("_PLvtAngle", SymbolKind::Constant(0));
        t.register("_PLvtOn", SymbolKind::Constant(0));
        t.register("_SAMcount", SymbolKind::Constant(self.sam_count));
        t
    }
}

fn flag(b: bool) -> (r: u32)
    ensures
        r == spec_flag(b),
{
    if b {
        1
    } else {
        0
    }
}

fn bits(v: i32) -> (r: u32)
    ensures
        r == spec_bits(v),
{
    if v >= 0 {
        v as u32
    } else {
        (v as i64 + 0x1_0000_0000) as u32
    }
}

fn word(first: u8) -> (r: Vec<u8>)
    ensures
        r@ == seq![first, 0u8, 0u8, 0u8],
{
    let mut v: Vec<u8> = Vec::new();
    v.push(first);
    v.push(0);
    v.push(0);
    v.push(0);
    assert(v@ =~= seq![first, 0u8, 0u8, 0u8]);
    v
}

fn v_buffer() -> (r: Vec<u8>)
    ensures
        r@ == spec_v(),
{
    let mut v: Vec<u8> = Vec::new();
    let mut i: usize = 0;
    while i < 256
        invariant
            i <= 256,
            v@.len() == i,
            forall|k: int| 0 <= k < i ==> v@[k] == spec_v()[k],
        decreases 256 - i,
    {
        v.push(if i == 0x8F {
            1
        } else {
            0
        });
        i += 1;
    }
    assert(v@ =~= spec_v());
    v
}

} // verus!
