//! The shared running estimate that workers fold their batch results into.
//!
//! The value `0` is a sentinel meaning "no estimate yet": the first update
//! stores its value as it is, every later one replaces the shared value by the
//! mean of it and the new value (a running two-point average, so later
//! batches weigh more than earlier ones). A genuine local estimate of `0` is
//! taken for the sentinel too. Exclusive access during an update is the
//! caller's business (a lock around the cell).
use vstd::prelude::*;

use crate::fixed::ONE;

verus! {

/// The value of the shared estimate after folding in `local`.
pub open spec fn combined(shared: u64, local: u64) -> u64 {
    if shared == 0 {
        local
    } else {
        ((shared + local) / 2) as u64
    }
}

/// Folds a worker's local estimate into the shared estimate.
pub fn update_estimate(estimate: &mut u64, thread_est: u64)
    ensures
        *final(estimate) == combined(*old(estimate), thread_est),
        *old(estimate) == 0 ==> *final(estimate) == thread_est,
        *old(estimate) != 0 ==> *final(estimate) == (*old(estimate) + thread_est) / 2,
        *old(estimate) <= 4 * ONE && thread_est <= 4 * ONE ==> *final(estimate) <= 4 * ONE,
{
    if *estimate == 0 {
        *estimate = thread_est;
    } else {
        let sum: u128 = *estimate as u128 + thread_est as u128;
        *estimate = (sum / 2) as u64;
    }
}

/// Two updates, `a` and then `b`, on a fresh cell leave the mean of the two,
/// provided the first value is not the sentinel itself.
pub proof fn lemma_update_twice(a: u64, b: u64)
    requires
        a != 0,
    ensures
        combined(combined(0, a), b) == (a + b) / 2,
{
}

} // verus!
