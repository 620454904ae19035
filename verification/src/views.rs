//! The mathematical value of a sequence of values that each have one.

use vstd::prelude::*;

verus! {

/// The view of each element of a sequence, in order.
pub open spec fn views<T: View>(s: Seq<T>) -> Seq<T::V> {
    Seq::new(s.len(), |i: int| s[i]@)
}

/// The views of the first `i + 1` elements are the views of the first `i`
/// followed by the view of the element at `i`.
pub proof fn views_of_one_more<T: View>(s: Seq<T>, i: int)
    requires
        0 <= i < s.len(),
    ensures
        views(s.take(i + 1)).drop_last() == views(s.take(i)),
        views(s.take(i + 1)).last() == s[i]@,
{
    assert(views(s.take(i + 1)).drop_last() =~= views(s.take(i)));
}

} // verus!
