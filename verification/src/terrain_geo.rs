//! How finely the terrain is divided.

use vstd::prelude::*;

verus! {

/// How much work the processor spends on the terrain.
pub enum CpuDetailLevel {
    Low,
    Medium,
}

impl CpuDetailLevel {
    /// The greatest level of the patch tree, the refinement that is aimed
    /// at, and the number of patches in the buffer.
    pub open spec fn spec_parameters(&self) -> (usize, usize, usize) {
        match self {
            CpuDetailLevel::Low => (8, 150, 256),
            CpuDetailLevel::Medium => (14, 150, 768),
        }
    }

    /// The greatest level of the patch tree, the refinement that is aimed
    /// at, and the number of patches in the buffer.
    pub fn parameters(&self) -> (r: (usize, usize, usize))
        ensures
            r == self.spec_parameters(),
    {
        match self {
            CpuDetailLevel::Low => (8, 150, 256),
            CpuDetailLevel::Medium => (14, 150, 768),
        }
    }
}

/// How much work the graphics processor spends on the terrain.
pub enum GpuDetailLevel {
    Low,
    Medium,
    High,
}

/// Two to the power of `d`.
pub open spec fn spec_pow2(d: nat) -> nat
    decreases d,
{
    if d == 0 {
        1
    } else {
        2 * spec_pow2((d - 1) as nat)
    }
}

/// The number of vertices of a triangle whose edges were halved `d`
/// times: the edge then has `2^d + 1` vertices, and the triangle as many
/// as the sum of the numbers from 1 to that.
pub open spec fn spec_vertices_per_subdivision(d: nat) -> nat {
    ((spec_pow2(d) + 1) * (spec_pow2(d) + 2) / 2) as nat
}

/// Powers of two grow.
pub proof fn lemma_pow2_grows(a: nat, b: nat)
    requires
        a <= b,
    ensures
        1 <= spec_pow2(a) <= spec_pow2(b),
    decreases b,
{
    if b > 0 {
        if a < b {
            lemma_pow2_grows(a, (b - 1) as nat);
        } else {
            lemma_pow2_grows((a - 1) as nat, (b - 1) as nat);
        }
    }
}

impl GpuDetailLevel {
    /// The number of subdivisions of a patch.
    pub open spec fn spec_parameters(&self) -> usize {
        match self {
            GpuDetailLevel::Low => 3,
            GpuDetailLevel::Medium => 5,
            GpuDetailLevel::High => 7,
        }
    }

    /// The number of subdivisions of a patch.
    pub fn parameters(&self) -> (r: usize)
        ensures
            r == self.spec_parameters(),
    {
        match self {
            GpuDetailLevel::Low => 3,
            GpuDetailLevel::Medium => 5,
            GpuDetailLevel::High => 7,
        }
    }

    /// The number of vertices of a patch after `d` subdivisions. For `d`
    /// up to 15 the count and what it is computed from fit 32 bits.
    pub fn vertices_per_subdivision(d: usize) -> (r: usize)
        requires
            d <= 15,
        ensures
            r == spec_vertices_per_subdivision(d as nat),
    {
        let mut edge: u32 = 1;
        let mut i: usize = 0;
        while i < d
            invariant
                i <= d <= 15,
                edge == spec_pow2(i as nat),
                edge <= 32768,
            decreases d - i,
        {
            proof {
                lemma_pow2_grows((i + 1) as nat, 15);
                reveal_with_fuel(spec_pow2, 16);
                assert(spec_pow2(15) == 32768);
            }
            edge = edge * 2;
            i += 1;
        }
        assert((edge + 1) * (edge + 2) <= 32769 * 32770) by (nonlinear_arith)
            requires
                0 <= edge <= 32768,
        ;
        (((edge + 1) * (edge + 2)) / 2) as usize
    }
}

/// What the subdivision is told.
#[derive(Debug, Clone, Copy)]
pub struct SubdivisionContext {
    /// The number of vertices of a patch: so many vertices further on in
    /// a buffer the next patch starts.
    pub target_stride: u32,
    pub pad: [u32; 3],
}

} // verus!
