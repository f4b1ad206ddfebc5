//! The wall clock, and calendar dates written as text.

use crate::json::opt_text;
use vstd::prelude::*;

verus! {

/// Calls `SystemTime::now` and `duration_since` on it for the Unix epoch.
/// None where the clock stands before the epoch. Trusted; the result is
/// whatever the clock shows, so nothing is claimed of it.
#[verifier::external_body]
fn millis_since_epoch() -> (r: Option<u128>) {
    std::time::SystemTime::now().duration_since(std::time::UNIX_EPOCH).ok().map(|d| d.as_millis())
}

/// Milliseconds since the Unix epoch, cut to 64 bits; 0 for a clock that
/// stands before the epoch.
pub fn now_ms() -> (r: u64) {
    let reading = millis_since_epoch();
    millis_from(reading)
}

/// Milliseconds since the Unix epoch as a signed number, for the time
/// stamps of events; 0 for a clock that stands before the epoch. What
/// the clock shows is cut to 63 bits, so that a stamp is never
/// negative.
pub fn chrono_timestamp() -> (r: i64)
    ensures
        r >= 0,
{
    let reading = millis_since_epoch();
    stamp_from(reading)
}

/// A reading of the clock as milliseconds of 64 bits: the reading cut to
/// 64 bits, and 0 where there is none.
pub open spec fn millis_of(reading: Option<u128>) -> u64 {
    match reading {
        Some(ms) => (ms % 0x1_0000_0000_0000_0000) as u64,
        None => 0,
    }
}

/// Turns a reading of the clock into milliseconds of 64 bits.
pub fn millis_from(reading: Option<u128>) -> (r: u64)
    ensures
        r == millis_of(reading),
{
    match reading {
        Some(ms) => (ms % 0x1_0000_0000_0000_0000) as u64,
        None => 0,
    }
}

/// A reading of the clock as the time stamp of an event: the reading cut to
/// 63 bits, and 0 where there is none.
pub open spec fn stamp_of(reading: Option<u128>) -> i64 {
    match reading {
        Some(ms) => (ms % 0x8000_0000_0000_0000) as i64,
        None => 0,
    }
}

/// Turns a reading of the clock into the time stamp of an event.
pub fn stamp_from(reading: Option<u128>) -> (r: i64)
    ensures
        r == stamp_of(reading),
        r >= 0,
{
    match reading {
        Some(ms) => (ms % 0x8000_0000_0000_0000) as i64,
        None => 0,
    }
}

/// The moment `secs` seconds after the Unix epoch in UTC, written as RFC
/// 3339 says; none for a moment that the calendar cannot hold.
pub uninterp spec fn rfc3339_of(secs: i64) -> Option<Seq<char>>;

/// Calls `chrono::DateTime::from_timestamp` and, on what it gives,
/// `DateTime::to_rfc3339`. Trusted: the result is a function of `secs`
/// alone.
#[verifier::external_body]
pub(crate) fn rfc3339_utc(secs: i64) -> (r: Option<String>)
    ensures
        opt_text(r) == rfc3339_of(secs),
{
    chrono::DateTime::from_timestamp(secs, 0).map(|moment| moment.to_rfc3339())
}

/// The date of a moment given in seconds since the Unix epoch; none for a
/// moment that the calendar cannot hold.
pub open spec fn date_of(secs: u64) -> Option<Seq<char>> {
    if secs > i64::MAX {
        None
    } else {
        rfc3339_of(secs as i64)
    }
}

pub fn date_text(secs: u64) -> (r: Option<String>)
    ensures
        opt_text(r) == date_of(secs),
{
    if secs > i64::MAX as u64 {
        None
    } else {
        rfc3339_utc(secs as i64)
    }
}

} // verus!
