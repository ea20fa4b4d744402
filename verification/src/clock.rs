//! The wall clock, in seconds since the Unix epoch.

use std::time::{Duration, SystemTime, SystemTimeError};

use vstd::prelude::*;

verus! {

/// `std::time::SystemTime`, carried through.
#[verifier::external_type_specification]
#[verifier::external_body]
pub struct ExSystemTime(SystemTime);

/// `std::time::SystemTimeError`, carried through.
#[verifier::external_type_specification]
#[verifier::external_body]
pub struct ExSystemTimeError(SystemTimeError);

/// What `SystemTime::duration_since(UNIX_EPOCH)` gives for a time: how far after
/// the epoch it is, or nothing where it is before it.
pub uninterp spec fn elapsed(time: SystemTime) -> Option<Duration>;

/// What `Duration::as_secs` gives: the whole seconds of a duration.
pub uninterp spec fn whole_secs(duration: Duration) -> u64;

/// `std::time::SystemTime::now`. Nothing is claimed of the time that it returns.
pub assume_specification[ SystemTime::now ]() -> SystemTime;

/// `std::time::SystemTime::duration_since` with the Unix epoch as its argument. The
/// result depends on `time` alone, and is named by [`elapsed`]; of the error
/// nothing more is claimed.
#[verifier::external_body]
fn since_epoch(time: &SystemTime) -> (since: Result<Duration, SystemTimeError>)
    ensures
        match since {
            Ok(duration) => elapsed(*time) == Some(duration),
            Err(_) => elapsed(*time) is None,
        },
{
    time.duration_since(SystemTime::UNIX_EPOCH)
}

/// `std::time::Duration::as_secs`. The result depends on the duration alone, and is
/// named by [`whole_secs`].
pub assume_specification[ Duration::as_secs ](duration: &Duration) -> (secs: u64)
    ensures
        secs == whole_secs(*duration),
;

/// The timestamp for a clock that is `seconds` whole seconds past the epoch, or
/// before it (`None`): the seconds as a signed number, wrapping where they do not
/// fit, and 0 for a time before the epoch.
pub open spec fn timestamp_of(seconds: Option<u64>) -> int {
    match seconds {
        Some(s) => if s <= i64::MAX { s as int } else { s - 0x1_0000_0000_0000_0000 },
        None => 0,
    }
}

/// The whole seconds from the epoch to `time`, where it is not before the epoch.
pub open spec fn seconds_at(time: SystemTime) -> Option<u64> {
    match elapsed(time) {
        Some(duration) => Some(whole_secs(duration)),
        None => None,
    }
}

/// The timestamp for a clock reading; see [`timestamp_of`].
pub fn timestamp(seconds: Option<u64>) -> (stamp: i64)
    ensures
        stamp == timestamp_of(seconds),
{
    match seconds {
        Some(s) => {
            assert(s <= 0x7fff_ffff_ffff_ffff ==> (s as i64) == s) by (bit_vector);
            assert(s > 0x7fff_ffff_ffff_ffff ==> (s as i64) == s - 0x1_0000_0000_0000_0000)
                by (bit_vector);
            s as i64
        },
        None => 0,
    }
}

/// Seconds since the Unix epoch, used for `accessed_at` and `updated_at`: the
/// timestamp of the time that the clock shows.
pub fn now_secs() -> (now: i64)
    ensures
        exists|time: SystemTime| now == timestamp_of(#[trigger] seconds_at(time)),
{
    let time = SystemTime::now();
    let seconds = match since_epoch(&time) {
        Ok(duration) => Some(duration.as_secs()),
        Err(_) => None,
    };
    assert(seconds == seconds_at(time));
    timestamp(seconds)
}

} // verus!
