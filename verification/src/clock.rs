//! The monotonic clock, read through std's `Instant`. Readings are taken here
//! and handed, as whole milliseconds, to verified decisions.
use vstd::prelude::*;

verus! {

#[verifier::external_type_specification]
#[verifier::external_body]
pub struct ExInstant(std::time::Instant);

/// std `Instant::now`; nothing is promised of the value (it is the clock).
#[verifier::external_body]
pub(crate) fn instant_now() -> std::time::Instant {
    std::time::Instant::now()
}

/// std `Instant::elapsed`: the time since `t`; nothing is promised of the
/// value (it is the clock).
#[verifier::external_body]
fn instant_elapsed(t: &std::time::Instant) -> std::time::Duration {
    t.elapsed()
}

/// std `Duration::as_millis`: the whole milliseconds of `d`. A `Duration` is
/// opaque to the library, so the value is not restated.
#[verifier::external_body]
fn duration_as_millis(d: &std::time::Duration) -> u128 {
    d.as_millis()
}

/// The whole milliseconds since `t`, as the clock reads them.
pub(crate) fn millis_since(t: &std::time::Instant) -> u128 {
    let d = instant_elapsed(t);
    duration_as_millis(&d)
}

} // verus!
