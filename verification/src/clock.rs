//! The time of day.

use vstd::prelude::*;
use std::time::{Duration, SystemTime, SystemTimeError};

verus! {

#[verifier::external_type_specification]
#[verifier::external_body]
pub struct ExSystemTime(std::time::SystemTime);

#[verifier::external_type_specification]
#[verifier::external_body]
pub struct ExSystemTimeError(std::time::SystemTimeError);

/// The whole seconds of a duration.
pub uninterp spec fn whole_seconds(duration: Duration) -> u64;

/// The whole seconds from the epoch to a time, or none if the time is before it.
pub uninterp spec fn seconds_after_epoch(time: SystemTime) -> Option<u64>;

/// `SystemTime::now` reads the clock. Nothing is known of what it shows.
#[verifier::external_body]
fn read_clock() -> SystemTime {
    SystemTime::now()
}

/// `SystemTime::duration_since` with the epoch: how long ago the epoch was, or an
/// error if it is still to come. Both depend on the time alone.
#[verifier::external_body]
fn since_epoch(time: SystemTime) -> (r: Result<Duration, SystemTimeError>)
    ensures
        match r {
            Ok(duration) => seconds_after_epoch(time) == Some(whole_seconds(duration)),
            Err(_) => seconds_after_epoch(time) is None,
        },
{
    time.duration_since(SystemTime::UNIX_EPOCH)
}

/// `Duration::as_secs`: the whole seconds of a duration.
pub assume_specification[ Duration::as_secs ](duration: &Duration) -> (r: u64)
    ensures
        r == whole_seconds(*duration),
;

/// The number for a time that is so many seconds after the epoch, or before it.
pub open spec fn signed_seconds(elapsed: Option<u64>) -> i64 {
    match elapsed {
        Some(seconds) => seconds as i64,
        None => 0,
    }
}

/// Whether the clock can show `n`: whether it is the number for some time.
pub open spec fn can_show(n: i64) -> bool {
    exists|time: SystemTime| signed_seconds(#[trigger] seconds_after_epoch(time)) == n
}

/// The time for a clock that shows `elapsed` seconds since the epoch, or a time
/// before the epoch: the seconds as a signed number, or zero.
pub fn epoch_seconds(elapsed: Option<u64>) -> (r: i64)
    ensures
        r == signed_seconds(elapsed),
{
    match elapsed {
        Some(seconds) => seconds as i64,
        None => 0,
    }
}

/// The current time in seconds since the epoch.
pub fn now() -> (r: i64)
    ensures
        can_show(r),
{
    let time = read_clock();
    match since_epoch(time) {
        Ok(elapsed) => epoch_seconds(Some(elapsed.as_secs())),
        Err(_) => epoch_seconds(None),
    }
}

} // verus!
