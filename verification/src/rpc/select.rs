//! Two futures raced against each other; the first one polled first.

use vstd::prelude::*;

verus! {

/// A pair of futures: the driver polls `future1` first and `future2` only
/// while `future1` is pending, and ends with the output of the first to be
/// ready.
pub struct Select<A, B> {
    pub future1: A,
    pub future2: B,
}

/// Races `future1` against `future2`.
pub fn select<A, B>(future1: A, future2: B) -> (select: Select<A, B>)
    ensures
        select.future1 == future1,
        select.future2 == future2,
{
    Select { future1, future2 }
}

} // verus!
