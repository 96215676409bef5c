//! The monotonic clock, behind trusted wrappers.
//!
//! Status initialisation has to give up after a wall-clock window, so it
//! reads the clock.  Nothing can be promised of what a clock returns, so the
//! wrappers carry no postconditions: every caller must be correct whatever
//! the readings are.

use vstd::prelude::*;

use std::time::Instant;

verus! {

#[verifier::external_type_specification]
#[verifier::external_body]
pub struct ExInstant(Instant);

/// Relies on std::time::Instant::now: an opaque reading of the monotonic
/// clock.
#[verifier::external_body]
pub fn monotonic_now() -> Instant {
    Instant::now()
}

/// Relies on std::time::Instant::elapsed and Duration::as_secs: the whole
/// seconds since `t` was read.  Nothing is promised of the value.
#[verifier::external_body]
pub fn elapsed_secs(t: &Instant) -> u64 {
    t.elapsed().as_secs()
}

} // verus!
