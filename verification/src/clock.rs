//! Reading the wall clock and writing a point in time as text.

use std::time::Duration;
use std::time::SystemTime;
use std::time::SystemTimeError;
use std::time::UNIX_EPOCH;
use vstd::prelude::*;

verus! {

/// What a reading of the wall clock holds: the whole seconds since the
/// start of 1970 (UTC) and the milliseconds into the running second. A
/// clock that is set to an earlier time gives `None`.
pub type ClockReading = Option<(u64, u32)>;

/// A point of the system clock. Nothing of what it holds is visible
/// here.
#[verifier::external_type_specification]
#[verifier::external_body]
pub struct ExSystemTime(std::time::SystemTime);

/// What `SystemTime::duration_since` answers where the second point in
/// time lies after the first.
#[verifier::external_type_specification]
#[verifier::external_body]
pub struct ExSystemTimeError(std::time::SystemTimeError);

/// `SystemTime::now` reads the system clock. Nothing is claimed of the
/// reading.
pub assume_specification[ SystemTime::now ]() -> (now: SystemTime);

/// `SystemTime::duration_since` gives the time from `earlier` to `this`,
/// or an error where `earlier` is the later of the two. Nothing is
/// claimed of either.
pub assume_specification[ SystemTime::duration_since ](this: &SystemTime, earlier: SystemTime) -> (elapsed:
    Result<Duration, SystemTimeError>);

/// `Duration::as_secs` gives the whole seconds of a duration.
pub assume_specification[ Duration::as_secs ](this: &Duration) -> (seconds: u64);

/// `Duration::subsec_millis` gives the part of a duration below one
/// second in whole milliseconds, which is less than a thousand.
pub assume_specification[ Duration::subsec_millis ](this: &Duration) -> (millis: u32)
    ensures
        millis < 1000,
;

/// `UNIX_EPOCH` of the standard library: the start of 1970 (UTC) as a
/// point of the system clock.
#[verifier::external_body]
fn unix_epoch() -> (epoch: SystemTime) {
    UNIX_EPOCH
}

/// Reads the system clock against the start of 1970.
pub(crate) fn system_clock() -> (reading: ClockReading)
    ensures
        reading matches Some((_, millis)) ==> millis < 1000,
{
    match SystemTime::now().duration_since(unix_epoch()) {
        Ok(elapsed) => Some((elapsed.as_secs(), elapsed.subsec_millis())),
        Err(_) => None,
    }
}

/// The text that chrono writes for the moment `seconds` after the start
/// of 1970 (UTC) under the strftime pattern `pattern`; `None` where the
/// moment lies outside the years chrono can hold, or the pattern has an
/// item that chrono does not know.
pub uninterp spec fn utc_text(seconds: i64, pattern: Seq<char>) -> Option<Seq<char>>;

/// chrono's `DateTime::from_timestamp` with no nanoseconds, then
/// `DateTime::format` with `pattern`, written out by
/// `DelayedFormat::write_to`. The text depends on the two arguments
/// alone; `None` stands for a moment that chrono cannot hold and for a
/// pattern that it cannot write.
#[verifier::external_body]
fn format_utc(seconds: i64, pattern: &str) -> (text: Option<String>)
    ensures
        text matches Some(written) ==> utc_text(seconds, pattern@) == Some(written@),
        text is None ==> utc_text(seconds, pattern@) is None,
{
    let moment = chrono::DateTime::from_timestamp(seconds, 0)?;
    let mut text = String::new();
    moment.format(pattern).write_to(&mut text).ok()?;
    Some(text)
}

/// Whole seconds since the start of 1970 that a reading stands for; a
/// clock set before 1970 counts as the start of 1970.
pub open spec fn seconds_of(reading: ClockReading) -> u64 {
    match reading {
        Some((seconds, _)) => seconds,
        None => 0,
    }
}

/// Milliseconds since the start of 1970 that a reading stands for, kept
/// to 64 bits; a clock set before 1970 counts as the start of 1970.
pub open spec fn millis_of(reading: ClockReading) -> u64 {
    match reading {
        Some((seconds, millis)) => ((seconds * 1000 + millis) % 0x1_0000_0000_0000_0000) as u64,
        None => 0,
    }
}

/// The strftime pattern of every timestamp: `YYYY-MM-DD HH:MM:SS`.
pub open spec fn timestamp_pattern() -> Seq<char> {
    "%Y-%m-%d %H:%M:%S"@
}

/// The timestamp text of the moment `seconds` after the start of 1970:
/// what chrono writes under the timestamp pattern, and the empty text
/// for a moment that chrono cannot write.
pub open spec fn timestamp_text(seconds: u64) -> Seq<char> {
    if seconds <= i64::MAX {
        match utc_text(seconds as i64, timestamp_pattern()) {
            Some(text) => text,
            None => Seq::empty(),
        }
    } else {
        Seq::empty()
    }
}

/// Whole seconds of a clock reading.
pub fn unix_seconds(reading: ClockReading) -> (seconds: u64)
    ensures
        seconds == seconds_of(reading),
{
    match reading {
        Some((seconds, _)) => seconds,
        None => 0,
    }
}

/// Milliseconds of a clock reading, kept to 64 bits.
pub fn unix_millis(reading: ClockReading) -> (millis: u64)
    ensures
        millis == millis_of(reading),
{
    match reading {
        Some((seconds, millis)) => {
            let total: u128 = seconds as u128 * 1000 + millis as u128;
            (total % 0x1_0000_0000_0000_0000u128) as u64
        },
        None => 0,
    }
}

/// Writes the moment `seconds` after the start of 1970 (UTC) as
/// `YYYY-MM-DD HH:MM:SS`.
pub fn format_timestamp(seconds: u64) -> (text: String)
    ensures
        text@ == timestamp_text(seconds),
{
    if seconds <= i64::MAX as u64 {
        match format_utc(seconds as i64, "%Y-%m-%d %H:%M:%S") {
            Some(text) => text,
            None => String::new(),
        }
    } else {
        String::new()
    }
}

/// A later reading of the clock gives no smaller count of milliseconds,
/// and a larger one where the clock has moved on, as long as the count
/// fits in 64 bits.
pub proof fn lemma_millis_follow_clock(earlier: (u64, u32), later: (u64, u32))
    requires
        earlier.1 < 1000,
        earlier.0 < later.0 || (earlier.0 == later.0 && earlier.1 <= later.1),
        later.0 * 1000 + later.1 <= u64::MAX,
    ensures
        millis_of(Some(later)) == later.0 * 1000 + later.1,
        millis_of(Some(earlier)) <= millis_of(Some(later)),
        earlier != later ==> millis_of(Some(earlier)) < millis_of(Some(later)),
{
}

} // verus!
