//! Small helpers over route slices.

use vstd::prelude::*;

verus! {

/// The element `n` places below the top of the slice: `arr_top_n(ts, 0)` is
/// the last element, `arr_top_n(ts, 1)` the one before it, and `None` when
/// the slice has no element that deep.
pub fn arr_top_n<T>(ts: &[T], n: usize) -> (r: Option<&T>)
    ensures
        (r is Some) <==> n < ts@.len(),
        r matches Some(t) ==> *t == ts@[ts@.len() - 1 - n],
{
    if n < ts.len() {
        Some(vstd::slice::slice_index_get(ts, ts.len() - 1 - n))
    } else {
        None
    }
}

} // verus!
