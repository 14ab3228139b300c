//! What a removal by swapping leaves behind, as a function on sequences.

use vstd::prelude::*;

verus! {

/// The sequence that remains when position `index` of `s` is vacated and the
/// last element of `s` takes its place: one shorter than `s`, holding the old
/// last element at `index` and, everywhere else, what `s` holds there. When
/// `index` is the last position nothing takes its place and the sequence is
/// simply cut short.
pub open spec fn swap_removed<T>(s: Seq<T>, index: int) -> Seq<T>
    recommends
        0 <= index < s.len(),
{
    Seq::new(
        (s.len() - 1) as nat,
        |j: int|
            if j == index {
                s[s.len() - 1]
            } else {
                s[j]
            },
    )
}

/// The sequence that [`crate::swap_drop`] leaves: [`swap_removed`] for an
/// index inside `s`, and `s` itself for every other index.
pub open spec fn swap_dropped<T>(s: Seq<T>, index: int) -> Seq<T> {
    if 0 <= index < s.len() {
        swap_removed(s, index)
    } else {
        s
    }
}

/// The sequence left after `times` removals at `index`, one after the other.
pub open spec fn swap_dropped_times<T>(s: Seq<T>, index: int, times: nat) -> Seq<T>
    decreases times,
{
    if times == 0 {
        s
    } else {
        swap_dropped_times(swap_dropped(s, index), index, (times - 1) as nat)
    }
}

} // verus!
