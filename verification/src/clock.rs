//! The clock: the system time of `std`, and the UTC timestamps of `chrono`
//! that records are stamped with.
use vstd::prelude::*;
use chrono::{DateTime, Utc};
use std::time::{Duration, SystemTime, SystemTimeError};

verus! {

/// A point in time in UTC, as seconds and nanoseconds since the Unix epoch:
/// what a `chrono::DateTime<Utc>` holds.
#[derive(Debug, Clone, Copy, PartialEq, Eq)]
pub struct Timestamp {
    pub secs: i64,
    pub nanos: u32,
}

/// `std::time::SystemTime`.
#[verifier::external_type_specification]
#[verifier::external_body]
pub struct ExSystemTime(SystemTime);

/// `std::time::SystemTimeError`, the error of a system time before the epoch.
#[verifier::external_type_specification]
#[verifier::external_body]
pub struct ExSystemTimeError(SystemTimeError);

/// The current system time: `std::time::SystemTime::now`. Nothing is stated
/// of the value, which is the time of the call.
#[verifier::external_body]
pub(crate) fn system_now() -> (r: SystemTime) {
    SystemTime::now()
}

/// The time elapsed from the Unix epoch to `t`:
/// `SystemTime::duration_since(UNIX_EPOCH)`; an error where `t` lies before
/// the epoch. The values of a `SystemTime` and of a `Duration` are opaque
/// here, so which of the two comes back is not stated.
#[verifier::external_body]
pub(crate) fn since_unix_epoch(t: &SystemTime) -> (r: Result<Duration, SystemTimeError>) {
    t.duration_since(std::time::UNIX_EPOCH)
}

/// The whole seconds of a duration: `Duration::as_secs`. A `Duration` is
/// opaque here, so nothing is stated of the value.
#[verifier::external_body]
pub(crate) fn duration_secs(d: &Duration) -> (r: u64) {
    d.as_secs()
}

/// The nanoseconds of the fraction of a second of a duration:
/// `Duration::subsec_nanos`, which `std` documents to be below one second.
#[verifier::external_body]
pub(crate) fn duration_subsec_nanos(d: &Duration) -> (r: u32)
    ensures
        r < 1_000_000_000,
{
    d.subsec_nanos()
}

/// The time elapsed from the Unix epoch to `t`, as whole seconds and the
/// nanoseconds of the fraction; an error where `t` lies before the epoch.
pub(crate) fn since_unix_epoch_parts(t: &SystemTime) -> (r: Result<(u64, u32), SystemTimeError>)
    ensures
        is_clock_reading(r),
{
    match since_unix_epoch(t) {
        Ok(d) => Ok((duration_secs(&d), duration_subsec_nanos(&d))),
        Err(e) => Err(e),
    }
}

/// The first second that chrono can represent in UTC, since the epoch:
/// January 1 of the year -262143.
pub open spec fn chrono_min_secs() -> int {
    -8_334_601_228_800
}

/// The last second that chrono can represent in UTC, since the epoch:
/// December 31 of the year 262142, 23:59:59.
pub open spec fn chrono_max_secs() -> int {
    8_210_266_876_799
}

/// Whether `chrono::DateTime::<Utc>::from_timestamp` accepts `secs` seconds
/// and `nanos` nanoseconds since the epoch: a date within chrono's years
/// -262143 to 262142, fewer than two seconds' nanoseconds, and a second
/// past one second only as a leap second, in the last second of a minute.
pub open spec fn chrono_utc_accepts(secs: i64, nanos: u32) -> bool {
    &&& chrono_min_secs() <= secs <= chrono_max_secs()
    &&& nanos < 2_000_000_000
    &&& nanos >= 1_000_000_000 ==> secs % 60 == 59
}

/// `chrono::DateTime::<Utc>::from_timestamp(secs, nanos)`, read back through
/// `DateTime::timestamp` and `DateTime::timestamp_subsec_nanos`: `None`
/// exactly where chrono refuses the values (its range checks are
/// [`chrono_utc_accepts`]); otherwise the same seconds and nanoseconds
/// (chrono documents that the two readers give back what `from_timestamp`
/// was given).
#[verifier::external_body]
fn utc_timestamp(secs: i64, nanos: u32) -> (r: Option<Timestamp>)
    ensures
        r is Some <==> chrono_utc_accepts(secs, nanos),
        r matches Some(t) ==> t.secs == secs && t.nanos == nanos,
{
    match DateTime::<Utc>::from_timestamp(secs, nanos) {
        Some(t) => Some(Timestamp { secs: t.timestamp(), nanos: t.timestamp_subsec_nanos() }),
        None => None,
    }
}

/// The UTC timestamp of a reading of the clock, given as the time elapsed
/// since the epoch: none where the clock read a time before the epoch or
/// one that chrono cannot represent.
pub open spec fn timestamp_of_elapsed(elapsed: Result<(u64, u32), SystemTimeError>) -> Option<
    Timestamp,
> {
    match elapsed {
        Ok((s, n)) => if s <= i64::MAX && chrono_utc_accepts(s as i64, n) {
            Some(Timestamp { secs: s as i64, nanos: n })
        } else {
            None
        },
        Err(_) => None,
    }
}

/// A reading of the clock as elapsed time since the epoch, as `std` gives
/// it: where it succeeds, the nanoseconds are below one second.
pub open spec fn is_clock_reading(elapsed: Result<(u64, u32), SystemTimeError>) -> bool {
    elapsed matches Ok((s, n)) ==> n < 1_000_000_000
}

/// A reading of the clock since the epoch up to the year 262142 gives a UTC
/// timestamp of the same seconds and nanoseconds.
pub proof fn lemma_reading_gives_timestamp(secs: u64, nanos: u32)
    requires
        secs <= chrono_max_secs(),
        is_clock_reading(Ok((secs, nanos))),
    ensures
        timestamp_of_elapsed(Ok((secs, nanos))) == Some(Timestamp { secs: secs as i64, nanos }),
{
}

/// The UTC timestamp of the time `elapsed` since the epoch.
pub fn utc_timestamp_of(elapsed: Result<(u64, u32), SystemTimeError>) -> (r: Option<Timestamp>)
    ensures
        r == timestamp_of_elapsed(elapsed),
{
    match elapsed {
        Ok((s, n)) => {
            if s <= i64::MAX as u64 {
                utc_timestamp(s as i64, n)
            } else {
                None
            }
        },
        Err(_) => None,
    }
}

/// The current time in UTC, the time that `chrono::Utc::now` reads: none
/// where the system clock reads a time before 1970 (where `Utc::now`
/// panics) or one beyond what chrono can represent.
pub fn utc_now() -> (r: Option<Timestamp>)
    ensures
        exists|elapsed: Result<(u64, u32), SystemTimeError>|
            is_clock_reading(elapsed) && r == timestamp_of_elapsed(elapsed),
        r matches Some(t) ==> t.secs >= 0 && t.nanos < 1_000_000_000,
{
    let now = system_now();
    let elapsed = since_unix_epoch_parts(&now);
    let r = utc_timestamp_of(elapsed);
    assert(is_clock_reading(elapsed) && r == timestamp_of_elapsed(elapsed));
    r
}

} // verus!
