//! What holds of every removal, proved over the sequences of [`crate::model`].

use vstd::prelude::*;
use vstd::seq_lib::{to_multiset_remove, to_multiset_update};
use crate::model::{swap_dropped, swap_dropped_times, swap_removed};

verus! {

/// [`swap_removed`] written with the sequence operations of `vstd`: put the
/// last element at `index`, then cut the last position off.
pub proof fn lemma_swap_removed_is_update_drop_last<T>(s: Seq<T>, index: int)
    requires
        0 <= index < s.len(),
    ensures
        swap_removed(s, index) == s.update(index, s.last()).drop_last(),
{
    assert(swap_removed(s, index) =~= s.update(index, s.last()).drop_last());
}

/// Removing at an index inside the sequence takes out exactly the element at
/// that index: the sequence gets one shorter; unless the index was the last
/// one, the old last element now stands at it; every other element stays
/// where it was; and the elements that remain are, counted with
/// multiplicity, the old ones less the element that stood at the index.
pub proof fn lemma_swap_dropped_inside<T>(s: Seq<T>, index: int)
    requires
        0 <= index < s.len(),
    ensures
        swap_dropped(s, index).len() == s.len() - 1,
        index < s.len() - 1 ==> swap_dropped(s, index)[index] == s[s.len() - 1],
        forall|j: int|
            0 <= j < s.len() - 1 && j != index ==> #[trigger] swap_dropped(s, index)[j] == s[j],
        swap_dropped(s, index).to_multiset() == s.to_multiset().remove(s[index]),
{
    let last = s.last();
    let filled = s.update(index, last);
    lemma_swap_removed_is_update_drop_last(s, index);
    // Filling the position trades `s[index]` for a second copy of `last`...
    to_multiset_update(s, index, last);
    // ...and cutting the last position off takes that copy away again.
    assert(filled.drop_last() =~= filled.remove(s.len() - 1));
    to_multiset_remove(filled, s.len() - 1);
    assert(s.to_multiset().insert(last).remove(s[index]).remove(last)
        =~= s.to_multiset().remove(s[index]));
}

/// Removing at an index outside the sequence, the empty sequence included,
/// changes neither its length nor any of its elements.
pub proof fn lemma_swap_dropped_outside<T>(s: Seq<T>, index: int)
    requires
        index >= s.len(),
    ensures
        swap_dropped(s, index) == s,
{
}

/// Removing at an index outside the sequence leaves it as it was however often
/// it is done; so in particular at the index just past the end, `s.len()`.
pub proof fn lemma_swap_dropped_outside_repeated<T>(s: Seq<T>, index: int, times: nat)
    requires
        index >= s.len(),
    ensures
        swap_dropped_times(s, index, times) == s,
    decreases times,
{
    if times > 0 {
        lemma_swap_dropped_outside_repeated(s, index, (times - 1) as nat);
    }
}

} // verus!
