//! The two removals, on `Vec`.

use vstd::prelude::*;
use crate::lemmas::lemma_swap_dropped_inside;
use crate::model::{swap_dropped, swap_removed};

verus! {

/// Removes the element at `index` and returns it. The last element of the
/// vector is moved into the vacated position; the order of the elements is
/// not kept.
///
/// The index has to lie inside the vector.
pub fn swap_remove<T>(self_: &mut Vec<T>, index: usize) -> (removed: T)
    requires
        index < old(self_)@.len(),
    ensures
        removed == old(self_)@[index as int],
        final(self_)@ == swap_removed(old(self_)@, index as int),
{
    let len: usize = self_.len();
    // Taking the last element out shrinks the vector to its final length.
    let mut last: T = self_.pop().unwrap();
    if index < len - 1 {
        // `index` is still inside the vector: the last element goes there,
        // and what was there comes out in exchange.
        core::mem::swap(&mut self_[index], &mut last);
    }
    last
}

/// Like [`swap_remove`], but an index outside the vector is accepted, and the
/// removed element is destroyed instead of returned.
///
/// If `index` is outside the vector, nothing happens.
///
/// The vector has its final contents before the removed element is destroyed:
/// the element is first moved out, and only then dropped. A panic in its
/// destructor is not caught; it passes on to the caller, who finds the vector
/// one shorter and whole. The contract below speaks of a normal return only;
/// what holds when the destructor panics rests on that order of steps.
pub fn swap_drop<T>(v: &mut Vec<T>, index: usize)
    ensures
        final(v)@ == swap_dropped(old(v)@, index as int),
        // An index outside the vector: nothing changes.
        index >= old(v)@.len() ==> final(v)@ == old(v)@,
        // An index inside the vector: one element fewer, ...
        index < old(v)@.len() ==> final(v)@.len() == old(v)@.len() - 1,
        // ... the last element now stands at `index`, unless `index` was its own place, ...
        index < old(v)@.len() - 1 ==> final(v)@[index as int] == old(v)@[old(v)@.len() - 1],
        // ... every other element stands where it stood, ...
        forall|j: int|
            0 <= j < final(v)@.len() && j != index ==> #[trigger] final(v)@[j] == old(v)@[j],
        // ... and what is gone is the element at `index`, nothing else.
        index < old(v)@.len() ==> final(v)@.to_multiset() == old(v)@.to_multiset().remove(
            old(v)@[index as int],
        ),
{
    if index < v.len() {
        proof {
            lemma_swap_dropped_inside(v@, index as int);
        }
        let _removed: T = swap_remove(v, index);
        // Nothing touches the vector from here on: these are its final
        // contents, reached while the removed element is still alive.
        assert(v@ == swap_dropped(old(v)@, index as int));
        // `_removed` goes out of scope, and is destroyed, here.
    }
}

} // verus!
