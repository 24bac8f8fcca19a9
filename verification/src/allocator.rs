//! A counter-backed source of fresh pre-hashed integers.

use crate::mixer::mix;
use crate::value::H64;
use vstd::prelude::*;

verus! {

/// Utility for generating [`H64`]s.
///
/// Holds a running counter starting at 0; each allocation mixes the
/// counter and advances it by one, so the n-th allocation from a fresh
/// allocator is `H64::hash(n - 1)`. The counter wraps after 2^64
/// allocations, after which the sequence repeats; that is documented
/// behaviour, not an error.
pub struct H64Allocator(u64);

impl H64Allocator {
    /// The counter that the next allocation will mix.
    pub closed spec fn counter(self) -> u64 {
        self.0
    }

    /// Create a new allocator with its counter at 0.
    pub fn new() -> (r: Self)
        ensures
            r.counter() == 0,
    {
        H64Allocator(0)
    }

    /// Allocate the next [`H64`]: mix the current counter and advance
    /// it by one, wrapping around after `u64::MAX`.
    pub fn allocate(&mut self) -> (r: H64)
        ensures
            r.bits() == mix(old(self).counter()),
            r.revealed() == old(self).counter(),
            final(self).counter() == (if old(self).counter() == u64::MAX {
                0u64
            } else {
                (old(self).counter() + 1) as u64
            }),
    {
        let h64 = H64::hash(self.0);
        self.0 = self.0.wrapping_add(1);
        h64
    }
}

} // verus!
