//! The monotonic clock that a session reads.
//!
//! The clock is `tokio`'s. What it shows depends on when it is asked, so
//! nothing is stated of a reading: what the session promises holds for every
//! reading there can be.

use tokio::time::Instant;
use vstd::prelude::*;

verus! {

/// `Instant` of `tokio`: a reading of the clock. The library only keeps it
/// and hands it back to the clock.
#[verifier::external_type_specification]
#[verifier::external_body]
pub struct ExInstant(tokio::time::Instant);

/// `Instant::now` of `tokio`: the clock's reading at the time of the call.
#[verifier::external_body]
pub(crate) fn now() -> Instant {
    Instant::now()
}

/// `Instant::elapsed` of `tokio`, as whole nanoseconds: the time from `start`
/// to the time of the call, zero where `start` is still to come.
#[verifier::external_body]
pub(crate) fn nanos_since(start: &Instant) -> u128 {
    start.elapsed().as_nanos()
}

/// The time from `start` to now in nanoseconds, cut to `u64::MAX`.
pub(crate) fn elapsed_nanos(start: &Instant) -> u64 {
    cut_to_u64(nanos_since(start))
}

/// A number of nanoseconds as a `u64`: the number itself where a `u64` holds
/// it, and `u64::MAX`, some 584 years, where it is larger.
pub fn cut_to_u64(nanos: u128) -> (cut: u64)
    ensures
        cut == if nanos <= u64::MAX {
            nanos
        } else {
            u64::MAX as u128
        },
{
    if nanos > u64::MAX as u128 {
        u64::MAX
    } else {
        nanos as u64
    }
}

} // verus!
