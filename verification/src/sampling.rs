//! Quasi-random sampling machinery.
//!
//! Multi-frame noise reduction draws its per-frame pixel jitter from a
//! Hammersley sequence and its hemisphere directions from a stateless integer
//! hash, so every frame reproduces the same randomness from the same pixel
//! position and frame number. Both generators are integer machines at heart:
//! a bit reversal and a few rounds of wrapping arithmetic. Those integer
//! cores live here, proved exact; turning the resulting words into fractions
//! in `[0, 1)` is a floating-point step done by the unverified caller.

use vstd::prelude::*;
use vstd::wrapping::u32_specs;

verus! {

/// Whether bit `i` (counted from the least significant end) of `v` is set.
pub open spec fn bit_at(v: u32, i: u32) -> bool {
    (v >> i) & 1 == 1
}

/// The bit-reversal steps behind the radical inverse: swap the two halves,
/// then swap adjacent bits, pairs, nibbles and bytes.
pub closed spec fn spec_radical_inverse_bits(b0: u32) -> u32 {
    let b1 = (b0 >> 16) | (b0 << 16);
    let b2 = ((b1 & 0x55555555) << 1) | ((b1 & 0xAAAAAAAA) >> 1);
    let b3 = ((b2 & 0x33333333) << 2) | ((b2 & 0xCCCCCCCC) >> 2);
    let b4 = ((b3 & 0x0F0F0F0F) << 4) | ((b3 & 0xF0F0F0F0) >> 4);
    ((b4 & 0x00FF00FF) << 8) | ((b4 & 0xFF00FF00) >> 8)
}

/// Reverses the 32 bits of `bits`: bit `i` of the result is bit `31 - i` of
/// the argument. Read as a binary fraction after the point, the result is the
/// radical inverse in base 2 that spaces the Hammersley sequence's second
/// coordinate evenly over `[0, 1)`.
pub fn radical_inverse_bits(bits: u32) -> (r: u32)
    ensures
        r == spec_radical_inverse_bits(bits),
        forall|i: u32| i < 32 ==> #[trigger] bit_at(r, i) == bit_at(bits, (31 - i) as u32),
{
    let b1: u32 = (bits >> 16) | (bits << 16);
    let b2: u32 = ((b1 & 0x55555555) << 1) | ((b1 & 0xAAAAAAAA) >> 1);
    let b3: u32 = ((b2 & 0x33333333) << 2) | ((b2 & 0xCCCCCCCC) >> 2);
    let b4: u32 = ((b3 & 0x0F0F0F0F) << 4) | ((b3 & 0xF0F0F0F0) >> 4);
    let r: u32 = ((b4 & 0x00FF00FF) << 8) | ((b4 & 0xFF00FF00) >> 8);
    proof {
        assert(forall|i: u32| i < 32 ==> #[trigger] bit_at(r, i) == bit_at(bits, (31 - i) as u32))
            by (bit_vector)
            requires
                r == spec_radical_inverse_bits(bits),
        ;
    }
    r
}

/// One linear congruential step of the hash: `v * 1664525 + 1013904223`,
/// taken modulo 2^32.
pub open spec fn spec_lcg_step(v: u32) -> u32 {
    u32_specs::wrapping_add(u32_specs::wrapping_mul(v, 1664525), 1013904223)
}

/// The pcg3d integer hash of (`x`, `y`, `z`): one linear congruential step
/// per component, two rounds of cross-component mixing with a bit-shuffling
/// xor between them, every addition and multiplication taken modulo 2^32.
pub open spec fn spec_pcg3d(x0: u32, y0: u32, z0: u32) -> (u32, u32, u32) {
    let x1 = spec_lcg_step(x0);
    let y1 = spec_lcg_step(y0);
    let z1 = spec_lcg_step(z0);
    let x2 = u32_specs::wrapping_add(x1, u32_specs::wrapping_mul(y1, z1));
    let y2 = u32_specs::wrapping_add(y1, u32_specs::wrapping_mul(z1, x2));
    let z2 = u32_specs::wrapping_add(z1, u32_specs::wrapping_mul(x2, y2));
    let x3 = x2 ^ (x2 >> 16);
    let y3 = y2 ^ (y2 >> 16);
    let z3 = z2 ^ (z2 >> 16);
    let x4 = u32_specs::wrapping_add(x3, u32_specs::wrapping_mul(y3, z3));
    let y4 = u32_specs::wrapping_add(y3, u32_specs::wrapping_mul(z3, x4));
    let z4 = u32_specs::wrapping_add(z3, u32_specs::wrapping_mul(x4, y4));
    (x4, y4, z4)
}

/// Hashes pixel position (`x`, `y`) and frame number `z` into three
/// pseudo-random words, each to be read as a fraction of 2^32 - 1. A pure
/// function of its three inputs, so a pixel replays the same randomness
/// sequence whenever the same frame is computed again.
pub fn random_pcg3d(x: u32, y: u32, z: u32) -> (r: (u32, u32, u32))
    ensures
        r == spec_pcg3d(x, y, z),
{
    let mut x: u32 = x.wrapping_mul(1664525).wrapping_add(1013904223);
    let mut y: u32 = y.wrapping_mul(1664525).wrapping_add(1013904223);
    let mut z: u32 = z.wrapping_mul(1664525).wrapping_add(1013904223);
    x = x.wrapping_add(y.wrapping_mul(z));
    y = y.wrapping_add(z.wrapping_mul(x));
    z = z.wrapping_add(x.wrapping_mul(y));
    x = x ^ (x >> 16);
    y = y ^ (y >> 16);
    z = z ^ (z >> 16);
    x = x.wrapping_add(y.wrapping_mul(z));
    y = y.wrapping_add(z.wrapping_mul(x));
    z = z.wrapping_add(x.wrapping_mul(y));
    (x, y, z)
}

} // verus!
