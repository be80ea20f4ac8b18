//! Small helpers shared by the CPU and PPU: single-bit flag updates on a
//! packed byte, and zero-filled buffers.

use vstd::prelude::*;

verus! {

/// The byte `flags` with the bits of `mask` forced to `on`.
pub open spec fn spec_flag_set(flags: u8, mask: u8, on: bool) -> u8 {
    if on {
        flags | mask
    } else {
        flags & !mask
    }
}

/// Executable twin of `spec_flag_set`.
pub fn flag_set(flags: u8, mask: u8, on: bool) -> (r: u8)
    ensures
        r == spec_flag_set(flags, mask, on),
{
    if on {
        flags | mask
    } else {
        flags & !mask
    }
}

/// A byte buffer of `n` zeroes.
pub fn zero_vec(n: usize) -> (v: Vec<u8>)
    ensures
        v@.len() == n,
        forall|i: int| 0 <= i < n ==> v@[i] == 0u8,
{
    let mut v: Vec<u8> = Vec::new();
    let mut k: usize = 0;
    while k < n
        invariant
            k <= n,
            v@.len() == k,
            forall|i: int| 0 <= i < k ==> v@[i] == 0u8,
        decreases n - k,
    {
        v.push(0);
        k = k + 1;
    }
    v
}

} // verus!
