use vstd::prelude::*;

verus! {

/// Increment of the splitmix64 sequence.
pub const GOLDEN_GAMMA: u64 = 0x9e37_79b9_7f4a_7c15;

pub const MIX_MUL_1: u64 = 0xbf58_476d_1ce4_e5b9;

pub const MIX_MUL_2: u64 = 0x94d0_49bb_1331_11eb;

/// The splitmix64 finalizer.
pub open spec fn spec_mix64(z: u64) -> u64 {
    let a = (z ^ (z >> 30u64)).wrapping_mul(MIX_MUL_1);
    let b = (a ^ (a >> 27u64)).wrapping_mul(MIX_MUL_2);
    b ^ (b >> 31u64)
}

/// The pixel's coordinates packed in one word, `x` in the high half.
pub open spec fn spec_pack(x: u32, y: u32) -> u64 {
    ((x as u64) << 32u64) | (y as u64)
}

/// Seed of the random stream of pixel `(x, y)` in a render seeded with `seed`.
pub open spec fn spec_pixel_seed(seed: u64, x: u32, y: u32) -> u64 {
    spec_mix64(seed.wrapping_add(spec_pack(x, y).wrapping_add(1).wrapping_mul(GOLDEN_GAMMA)))
}

pub fn mix64(z: u64) -> (r: u64)
    ensures
        r == spec_mix64(z),
{
    let a = (z ^ (z >> 30u64)).wrapping_mul(MIX_MUL_1);
    let b = (a ^ (a >> 27u64)).wrapping_mul(MIX_MUL_2);
    b ^ (b >> 31u64)
}

/// Per-pixel seed: the render's seed advanced along the splitmix64 sequence by
/// one step per pixel index, then mixed, so each pixel's stream depends on the
/// seed and its coordinates alone.
pub fn pixel_seed(seed: u64, x: u32, y: u32) -> (r: u64)
    ensures
        r == spec_pixel_seed(seed, x, y),
{
    let packed: u64 = ((x as u64) << 32u64) | (y as u64);
    mix64(seed.wrapping_add(packed.wrapping_add(1).wrapping_mul(GOLDEN_GAMMA)))
}

/// Distinct pixels have distinct packed coordinates.
pub proof fn lemma_pack_injective(x1: u32, y1: u32, x2: u32, y2: u32)
    requires
        spec_pack(x1, y1) == spec_pack(x2, y2),
    ensures
        x1 == x2,
        y1 == y2,
{
    let a = x1 as u64;
    let b = y1 as u64;
    let c = x2 as u64;
    let d = y2 as u64;
    assert(a < 0x1_0000_0000 && b < 0x1_0000_0000 && c < 0x1_0000_0000 && d < 0x1_0000_0000 && (
    a << 32u64) | b == (c << 32u64) | d ==> a == c && b == d) by (bit_vector);
}

} // verus!
