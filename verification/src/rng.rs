//! A tiny linear congruential generator, for picking indices.

use vstd::prelude::*;

verus! {

/// The generator's multiplier.
pub const MULTIPLIER: u64 = 6364136223846793005;

/// The one state from which the generator cannot step: its product with
/// [`MULTIPLIER`] is the largest `u64`, and the increment would overflow.
pub const STUCK_STATE: u64 = 4568919932995229531;

/// The state that follows `s`: the product of `s` and [`MULTIPLIER`], reduced
/// to 64 bits, plus one.
pub open spec fn next_state(s: u64) -> int {
    (MULTIPLIER * s) % 0x1_0000_0000_0000_0000 + 1
}

/// Every state but [`STUCK_STATE`] has a successor that fits in a `u64`.
pub proof fn lemma_next_state_fits(s: u64)
    ensures
        next_state(s) <= u64::MAX <==> s != STUCK_STATE,
{
    // The multiplier is odd, so multiplying by it permutes the 64-bit values:
    // exactly one of them is sent to the largest.
    assert((MULTIPLIER * s) % 0x1_0000_0000_0000_0000 == u64::MAX <==> s == STUCK_STATE)
        by (bit_vector);
}

/// Steps the generator from state `s` to the next one.
pub fn rng_next(s: u64) -> (next: u64)
    requires
        s != STUCK_STATE,
    ensures
        next == next_state(s),
{
    proof {
        lemma_next_state_fits(s);
    }
    MULTIPLIER.wrapping_mul(s) + 1
}

} // verus!
