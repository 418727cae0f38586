//! The system clock, read through one wrapper per `std::time` function.
use vstd::prelude::*;

verus! {

/// `std::time::SystemTime`, carried from the clock reading to its offset from the epoch.
#[verifier::external_type_specification]
#[verifier::external_body]
pub struct ExSystemTime(std::time::SystemTime);

/// `std::time::SystemTime::now`: the current time; nothing is claimed of it.
#[verifier::external_body]
fn system_time_now() -> (r: std::time::SystemTime) {
    std::time::SystemTime::now()
}

/// `std::time::SystemTime::duration_since` with `UNIX_EPOCH`: how long after the Unix epoch
/// the time lies, `None` when it lies before; nothing more is claimed.
#[verifier::external_body]
fn duration_since_unix_epoch(t: std::time::SystemTime) -> (r: Option<core::time::Duration>) {
    t.duration_since(std::time::UNIX_EPOCH).ok()
}

/// `core::time::Duration::as_secs`: the whole seconds of a duration; nothing is claimed of it.
#[verifier::external_body]
fn duration_as_secs(d: &core::time::Duration) -> (r: u64) {
    d.as_secs()
}

/// `core::time::Duration::subsec_nanos`: the nanoseconds past the whole seconds, always
/// below one billion.
#[verifier::external_body]
fn duration_subsec_nanos(d: &core::time::Duration) -> (r: u32)
    ensures
        r < 1_000_000_000,
{
    d.subsec_nanos()
}

/// Seconds since the Unix epoch by the system clock (0 before the epoch).
pub(crate) fn unix_seconds_now() -> (r: u64) {
    match duration_since_unix_epoch(system_time_now()) {
        Some(d) => duration_as_secs(&d),
        None => 0,
    }
}

/// Nanoseconds within the current second of the system clock (0 before the epoch).
pub(crate) fn subsec_nanos_now() -> (r: u64)
    ensures
        r < 1_000_000_000,
{
    match duration_since_unix_epoch(system_time_now()) {
        Some(d) => duration_subsec_nanos(&d) as u64,
        None => 0,
    }
}

} // verus!
