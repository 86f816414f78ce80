//! What the machine takes from the host it runs on: a monotonic clock and
//! random bytes.  Nothing in this file is proved.  The declarations say
//! what the rest of the library assumes of the standard library and of the
//! `rand` crate, which is nothing beyond the types of the results: every
//! function that uses one of them is verified for every value it may give.

use vstd::prelude::*;
use rand::Rng;

verus! {

/// `std::time::Instant`, a reading of the host's monotonic clock.  Its
/// contents are hidden from the proofs.
#[verifier::external_type_specification]
#[verifier::external_body]
pub struct ExInstant(std::time::Instant);

/// `std::time::Instant::now` reads the clock.  Nothing is assumed of the
/// reading.
pub assume_specification[ std::time::Instant::now ]() -> (now: std::time::Instant);

/// `std::time::Instant::elapsed` gives the time that has passed since the
/// reading was made.  Nothing is assumed of the duration.
pub assume_specification[ std::time::Instant::elapsed ](since: &std::time::Instant) -> (elapsed:
    std::time::Duration);

/// `std::time::Duration::as_nanos` gives a duration in whole nanoseconds.
/// Nothing is assumed of the number.
pub assume_specification[ std::time::Duration::as_nanos ](duration: &std::time::Duration) -> (nanos:
    u128);

/// A byte from `rand::thread_rng().gen()`, the thread's generator sampled
/// with the standard distribution.  Nothing is assumed of the byte.
#[verifier::external_body]
pub(crate) fn random_byte() -> (byte: u8) {
    rand::thread_rng().gen()
}

} // verus!
