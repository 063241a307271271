//! Readings of the machine's clocks. Each depends on when it is taken, so
//! nothing is promised of the numbers; the functions that take them state
//! what holds whatever was read.

use vstd::prelude::*;
use std::time::Instant;

verus! {

#[verifier::external_type_specification]
#[verifier::external_body]
pub struct ExInstant(Instant);

/// `Instant::now`: a reading of the monotonic clock.
#[verifier::external_body]
pub(crate) fn instant_now() -> (r: Instant) {
    Instant::now()
}

/// `Instant::elapsed`, in whole microseconds (truncated to 64 bits).
#[verifier::external_body]
pub(crate) fn micros_since(t: &Instant) -> (r: u64) {
    t.elapsed().as_micros() as u64
}

/// `SystemTime::now()` since the Unix epoch in nanoseconds, truncated to 64
/// bits (0 before the epoch).
#[verifier::external_body]
pub(crate) fn unix_nanos() -> (r: u64) {
    std::time::SystemTime::now()
        .duration_since(std::time::UNIX_EPOCH)
        .unwrap_or_default()
        .as_nanos() as u64
}

/// `chrono::Utc::now().timestamp_millis()`: the wall clock in milliseconds
/// since the Unix epoch; nothing is promised of it.
#[verifier::external_body]
pub(crate) fn utc_millis() -> (r: i64) {
    chrono::Utc::now().timestamp_millis()
}

/// Whole seconds since a reading of the monotonic clock: the elapsed
/// microseconds (a 64-bit count) divided by a million, so at most
/// 18,446,744,073,709.
pub(crate) fn secs_since(t: &Instant) -> (r: u64)
    ensures
        r <= 18_446_744_073_709,
{
    micros_since(t) / 1_000_000
}

/// Whole seconds since the Unix epoch (the nanosecond reading fits in 64
/// bits, so this stays below 18,446,744,074).
pub(crate) fn unix_secs() -> (r: u64)
    ensures
        r <= 18_446_744_073,
{
    unix_nanos() / 1_000_000_000
}

} // verus!
