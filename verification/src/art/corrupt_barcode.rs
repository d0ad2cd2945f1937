//! The bar pattern of the corrupted-barcode art.

use crate::art::{hash, mix};
use vstd::prelude::*;

verus! {

/// Whether bar `bar_index` is dark for `seed`: the hash of the index
/// (truncated to 32 bits) plus the seed, modulo 2^32, is not a multiple of
/// 3, or its bits from the eighth up are 0 or 1 modulo 5.
pub open spec fn bar_dark(bar_index: usize, seed: u32) -> bool {
    let h = mix(((bar_index as u32 as nat + seed as nat) % 0x1_0000_0000nat) as u32);
    h % 3 != 0 || (h >> 8u32) % 5 < 2
}

/// Whether bar `bar_index` of the pseudo-random barcode is dark.
pub fn barcode_value(bar_index: usize, seed: u32) -> (b: bool)
    ensures
        b == bar_dark(bar_index, seed),
{
    let h = hash((bar_index as u32).wrapping_add(seed));
    (h % 3) != 0 || ((h >> 8) % 5) < 2
}

} // verus!
