use vstd::prelude::*;

verus! {

/// std's monotonic clock type, declared so that an instant can pass through
/// verified code. A value of it is opaque here.
#[verifier::external_type_specification]
#[verifier::external_body]
pub struct ExInstant(std::time::Instant);

/// Relies on `std::time::Instant::now`: a reading of the monotonic clock.
/// Nothing can be promised of the reading itself; callers state what holds
/// of every outcome.
#[verifier::external_body]
pub(crate) fn monotonic_now() -> std::time::Instant {
    std::time::Instant::now()
}

/// Relies on `std::time::Instant::elapsed`: the time that passed since
/// `start` was read. The value depends on the clock, so nothing is promised
/// of it.
#[verifier::external_body]
pub(crate) fn elapsed_since(start: &std::time::Instant) -> std::time::Duration {
    start.elapsed()
}

/// Relies on `std::time::Duration::as_nanos`: the whole nanoseconds of a
/// duration.
#[verifier::external_body]
pub(crate) fn duration_as_nanos(d: &std::time::Duration) -> u128 {
    d.as_nanos()
}

/// The nanoseconds that passed since `start`, saturated to 64 bits.
pub(crate) fn nanos_since(start: &std::time::Instant) -> u64 {
    let n: u128 = duration_as_nanos(&elapsed_since(start));
    if n > u64::MAX as u128 {
        u64::MAX
    } else {
        n as u64
    }
}

} // verus!
