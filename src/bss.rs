//! Zeroing of the uninitialised-data region.
use vstd::prelude::*;

verus! {

/// Writes zero to every byte of `region` (the bytes `[bss_start, bss_end)`).
/// A region of any length, including zero, is accepted.
pub fn zero_bss(region: &mut [u8])
    ensures
        final(region)@.len() == old(region)@.len(),
        forall|i: int| 0 <= i < final(region)@.len() ==> #[trigger] final(region)@[i] == 0u8,
{
    let n: usize = region.len();
    let mut i: usize = 0;
    while i < n
        invariant
            n == old(region)@.len(),
            region@.len() == n,
            0 <= i <= n,
            forall|j: int| 0 <= j < i ==> #[trigger] region@[j] == 0u8,
        decreases n - i,
    {
        region[i] = 0;
        i = i + 1;
    }
}

} // verus!
