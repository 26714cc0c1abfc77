//! Reading the wall clock in microseconds since the Unix epoch.

use vstd::prelude::*;

verus! {

/// Declares `std::time::SystemTime`, an instant of the system clock.
#[verifier::external_type_specification]
#[verifier::external_body]
pub struct ExSystemTime(std::time::SystemTime);

/// Calls `std::time::SystemTime::now`. The result is whatever the system clock
/// reads at the moment of the call, so nothing is stated of it.
#[verifier::external_body]
fn system_time_now() -> std::time::SystemTime {
    std::time::SystemTime::now()
}

/// Calls `SystemTime::duration_since(UNIX_EPOCH)` and takes the zero duration
/// when the clock reads earlier than the epoch (the `Err` case). The result
/// depends on the clock reading held in `t`, so nothing is stated of it.
#[verifier::external_body]
fn since_unix_epoch(t: std::time::SystemTime) -> core::time::Duration {
    match t.duration_since(std::time::UNIX_EPOCH) {
        Ok(d) => d,
        Err(_) => core::time::Duration::default(),
    }
}

/// Calls `Duration::as_micros`, the whole microseconds in the duration. The
/// duration comes from a clock reading, so nothing is stated of the result.
#[verifier::external_body]
fn duration_as_micros(d: core::time::Duration) -> u128 {
    d.as_micros()
}

/// Microseconds since the Unix epoch by the system clock (zero when the clock
/// reads earlier than the epoch), kept to the low 64 bits. Two calls may give
/// any two values.
pub fn unix_micros_now() -> u64 {
    let now = system_time_now();
    let since = since_unix_epoch(now);
    duration_as_micros(since) as u64
}

} // verus!
