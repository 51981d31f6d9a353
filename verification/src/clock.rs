//! The wall clock. What these calls return depends on when they are made, so
//! nothing is promised of their results: the rule that uses the elapsed time
//! is verified for every value of it.

use std::time::{Duration, Instant};
use vstd::prelude::*;

verus! {

/// `std::time::Instant`, declared so that it can stand in fields and
/// signatures.
#[verifier::external_type_specification]
#[verifier::external_body]
pub struct ExInstant(Instant);

/// `Instant::now`: the present moment.
#[verifier::external_body]
pub(crate) fn now() -> Instant {
    Instant::now()
}

/// `Instant::elapsed`: the time that has passed since `since`.
#[verifier::external_body]
pub(crate) fn elapsed(since: &Instant) -> Duration {
    since.elapsed()
}

/// `Duration::as_secs`: the whole seconds of a span of time.
#[verifier::external_body]
pub(crate) fn whole_secs(span: &Duration) -> u64 {
    span.as_secs()
}

} // verus!
