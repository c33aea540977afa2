//! Next-power-of-two over 32-bit words, with the verified host-side logic of a
//! GPU compute executor: byte staging, dispatch planning and the readback
//! protocol that collects the kernel's output.
use vstd::prelude::*;

pub mod pow2;
pub mod words;
pub mod executor;

verus! {

/// Sum of two sizes.
pub fn add(left: usize, right: usize) -> (r: usize)
    requires
        left + right <= usize::MAX,
    ensures
        r == left + right,
{
    left + right
}

} // verus!
