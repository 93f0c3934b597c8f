//! Small utilities.
use vstd::prelude::*;
use std::time::SystemTimeError;
use crate::clock::{is_clock_reading, since_unix_epoch_parts, system_now};

verus! {

/// The whole seconds of a time `elapsed` since the epoch, the fraction
/// dropped; an error is handed on unchanged.
pub open spec fn whole_seconds_of(elapsed: Result<(u64, u32), SystemTimeError>) -> Result<
    u64,
    SystemTimeError,
> {
    match elapsed {
        Ok((s, _)) => Ok(s),
        Err(e) => Err(e),
    }
}

/// The Unix time in whole seconds of a reading `elapsed` of the clock since
/// the epoch, or the clock's error.
pub fn unix_seconds_of(elapsed: Result<(u64, u32), SystemTimeError>) -> (r: Result<
    u64,
    SystemTimeError,
>)
    ensures
        r == whole_seconds_of(elapsed),
{
    match elapsed {
        Ok((s, _)) => Ok(s),
        Err(e) => Err(e),
    }
}

/// Later readings of the clock give no earlier Unix time: of two readings
/// since the epoch in time order, the whole seconds are in the same order.
pub proof fn lemma_unix_seconds_monotone(s1: u64, n1: u32, s2: u64, n2: u32)
    requires
        s1 < s2 || (s1 == s2 && n1 <= n2),
    ensures
        whole_seconds_of(Ok((s1, n1))) matches Ok(a) && whole_seconds_of(Ok((s2, n2))) matches Ok(b)
            && a <= b,
{
}

/// The current Unix time in whole seconds, or the error of a system clock
/// that reads a time before 1970: the whole seconds of whatever the clock
/// read, the fraction dropped.
pub fn get_cur_time_unix() -> (r: Result<u64, SystemTimeError>)
    ensures
        exists|elapsed: Result<(u64, u32), SystemTimeError>|
            is_clock_reading(elapsed) && r == whole_seconds_of(elapsed),
{
    let now = system_now();
    let elapsed = since_unix_epoch_parts(&now);
    let r = unix_seconds_of(elapsed);
    assert(is_clock_reading(elapsed) && r == whole_seconds_of(elapsed));
    r
}

} // verus!
