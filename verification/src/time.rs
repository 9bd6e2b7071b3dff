//! Monotonic clock readings, taken from `std::time`.
use vstd::prelude::*;
use std::time::{Duration, Instant};

verus! {

#[verifier::external_type_specification]
#[verifier::external_body]
pub struct ExInstant(std::time::Instant);

/// `Instant`'s `Clone`: `Instant` is `Copy`, and its clone is the same reading.
pub assume_specification[ <std::time::Instant as core::clone::Clone>::clone ](i: &Instant) -> (r: Instant)
    ensures
        r == *i,
;

/// `Instant::now()`: the current reading of the monotonic clock. Nothing is
/// claimed about the value.
#[verifier::external_body]
pub(crate) fn instant_now() -> Instant {
    Instant::now()
}

/// `Instant::duration_since`: the time from `earlier` to `later` (zero when
/// `earlier` is later). Nothing is claimed about the value.
#[verifier::external_body]
pub(crate) fn duration_since(later: &Instant, earlier: &Instant) -> Duration {
    later.duration_since(*earlier)
}

/// `Instant::elapsed`: the time since `i`. Nothing is claimed about the value.
#[verifier::external_body]
pub(crate) fn instant_elapsed(i: &Instant) -> Duration {
    i.elapsed()
}

/// `Duration::as_millis`: the whole milliseconds of `d`. The duration is opaque
/// here, so nothing is claimed about the value.
#[verifier::external_body]
pub(crate) fn duration_millis(d: &Duration) -> u128 {
    d.as_millis()
}

/// `Duration::as_secs`: the whole seconds of `d`. The duration is opaque here,
/// so nothing is claimed about the value.
#[verifier::external_body]
pub(crate) fn duration_secs(d: &Duration) -> u64 {
    d.as_secs()
}

/// Milliseconds from `earlier` to `later`, cut to 64 bits as the server does.
pub fn millis_between(later: &Instant, earlier: &Instant) -> u64 {
    let d = duration_since(later, earlier);
    let ms = duration_millis(&d);
    #[verifier::truncate]
    (ms as u64)
}

/// Milliseconds since `i`, cut to 64 bits as the server does.
pub fn millis_since(i: &Instant) -> u64 {
    let d = instant_elapsed(i);
    let ms = duration_millis(&d);
    #[verifier::truncate]
    (ms as u64)
}

} // verus!
