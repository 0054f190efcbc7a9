//! The single door to randomness: every randomized attribute the subsystem
//! assigns (cook times, seat counts) is drawn through the one function here.
use vstd::prelude::*;

verus! {

/// Relies on rand's `random_range` over a half-open integer range: the
/// sample lies in the range, and nothing more is assumed of it. The call
/// rejects an empty range, so one is ruled out here.
#[verifier::external_body]
pub(crate) fn sample_range(low: i32, high: i32) -> (r: i32)
    requires
        low < high,
    ensures
        low <= r < high,
{
    rand::random_range(low..high)
}

} // verus!
