//! Fixed-point representation of estimates and the distance to pi.
use vstd::prelude::*;

verus! {

/// The fixed-point value of 1.0: estimates carry 32 fractional bits.
pub const ONE: u64 = 4294967296;

/// Pi in fixed point, rounded to the nearest multiple of `1 / ONE`.
pub const PI_FIXED: u64 = 13493037705;

/// The distance between two integers.
pub open spec fn distance(a: int, b: int) -> nat {
    if a >= b {
        (a - b) as nat
    } else {
        (b - a) as nat
    }
}

/// The absolute error of an estimate with respect to pi, in fixed point.
pub open spec fn error_of(estimate: u64) -> nat {
    distance(estimate as int, PI_FIXED as int)
}

/// Absolute error of a fixed-point estimate: `|estimate - pi|`.
pub fn absolute_error(estimate: u64) -> (r: u64)
    ensures
        r == error_of(estimate),
{
    if estimate >= PI_FIXED {
        estimate - PI_FIXED
    } else {
        PI_FIXED - estimate
    }
}

/// Whether an estimate lies within `threshold` of pi. A worker keeps sampling
/// while this is false. With a threshold of zero only the exact fixed-point
/// value of pi passes, so such a run will almost surely never stop.
pub fn is_converged(estimate: u64, threshold: u64) -> (r: bool)
    ensures
        r == (error_of(estimate) <= threshold),
        threshold == 0 ==> (r <==> estimate == PI_FIXED),
{
    absolute_error(estimate) <= threshold
}

} // verus!
