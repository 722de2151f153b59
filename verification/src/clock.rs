//! The wall clock: the current instant in microseconds since the Unix epoch,
//! or nothing where the system clock reads before the epoch or beyond the
//! dates that `chrono` represents.

use vstd::prelude::*;

verus! {

#[verifier::external_type_specification]
#[verifier::external_body]
pub struct ExSystemTime(std::time::SystemTime);

/// The system clock's current reading, through `std::time::SystemTime::now`;
/// nothing is stated of it, as it depends on the time.
#[verifier::external_body]
fn system_time_now() -> (t: std::time::SystemTime) {
    std::time::SystemTime::now()
}

/// The time from the Unix epoch to `t` as whole seconds and the nanoseconds
/// beyond them, through `SystemTime::duration_since(UNIX_EPOCH)`; `None`
/// where `t` lies before the epoch. `Duration::subsec_nanos` is documented to
/// be below one billion; the reading itself is not named, as a `SystemTime`
/// is opaque here.
#[verifier::external_body]
fn time_since_unix_epoch(t: &std::time::SystemTime) -> (r: Option<(u64, u32)>)
    ensures
        r matches Some((_, nanos)) ==> nanos < 1_000_000_000,
{
    match t.duration_since(std::time::UNIX_EPOCH) {
        Ok(elapsed) => Some((elapsed.as_secs(), elapsed.subsec_nanos())),
        Err(_) => None,
    }
}

/// The UTC instant `secs` seconds and `nanos` nanoseconds after the Unix
/// epoch in microseconds, through `chrono::DateTime::from_timestamp` and
/// `DateTime::timestamp_micros`. `from_timestamp` gives `None` outside
/// chrono's date range (about 262 000 years either side of year 0) and for
/// `nanos` of two billion or more; otherwise the date keeps `secs` as its
/// timestamp and `nanos` as its sub-second nanoseconds, so the microseconds
/// are `secs * 1_000_000 + nanos / 1000`. Within the first 8 * 10^12 seconds
/// after the epoch and below one billion nanoseconds the date is in range.
#[verifier::external_body]
fn utc_micros_from_timestamp(secs: i64, nanos: u32) -> (r: Option<i64>)
    ensures
        r matches Some(micros) ==> micros == secs * 1_000_000 + nanos / 1000,
        nanos >= 2_000_000_000 ==> r is None,
        0 <= secs < 8_000_000_000_000 && nanos < 1_000_000_000 ==> r is Some,
{
    match chrono::DateTime::from_timestamp(secs, nanos) {
        Some(at) => Some(at.timestamp_micros()),
        None => None,
    }
}

/// The current instant in microseconds since the Unix epoch, or `None` where
/// the system clock reads before the epoch or past the dates that chrono
/// represents. A returned instant is never negative.
pub fn utc_now_micros() -> (now: Option<i64>)
    ensures
        now matches Some(micros) ==> micros >= 0,
{
    let t = system_time_now();
    match time_since_unix_epoch(&t) {
        Some((secs, nanos)) => {
            if secs > i64::MAX as u64 {
                None
            } else {
                utc_micros_from_timestamp(secs as i64, nanos)
            }
        },
        None => None,
    }
}

} // verus!
