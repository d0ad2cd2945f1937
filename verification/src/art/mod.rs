//! Integer building blocks of the generative patterns: name lookups, the
//! pseudo-random hash, cellular automata and weave and feed geometry.

pub mod attractor;
pub mod automata;
pub mod corrupt_barcode;
pub mod microfeed;
pub mod voronoi;
pub mod weave;

use vstd::prelude::*;

verus! {

/// `x * 0x45d9f3b` modulo 2^32.
pub open spec fn mul_mix(x: u32) -> u32 {
    ((x as nat * 0x45d9f3bnat) % 0x1_0000_0000nat) as u32
}

/// The pseudo-random hash the patterns draw from: twice, multiply by
/// `0x45d9f3b` modulo 2^32 and xor with the value shifted right by 16.
pub open spec fn mix(x: u32) -> u32 {
    let a = mul_mix(x);
    let b = a ^ (a >> 16u32);
    let c = mul_mix(b);
    c ^ (c >> 16u32)
}

/// The pseudo-random hash of `x`.
pub fn hash(x: u32) -> (h: u32)
    ensures
        h == mix(x),
{
    let mut h = x.wrapping_mul(0x45d9f3b);
    h = h ^ (h >> 16);
    h = h.wrapping_mul(0x45d9f3b);
    h = h ^ (h >> 16);
    h
}

} // verus!
