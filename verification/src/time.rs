//! Points in time, kept as chrono keeps them.
use vstd::prelude::*;
use chrono::DateTime;
use chrono::NaiveDateTime;

verus! {

/// chrono's date and time without a zone. Here it is always a time in UTC.
#[verifier::external_type_specification]
#[verifier::external_body]
pub struct ExNaiveDateTime(chrono::NaiveDateTime);

/// The whole seconds from the Unix epoch to `t`, taken as a time in UTC: what
/// chrono's `DateTime::<Utc>::timestamp` returns for it.
pub uninterp spec fn unix_seconds(t: NaiveDateTime) -> i64;

/// The time that chrono's `DateTime::from_timestamp` makes of a number of
/// seconds and no nanoseconds, if it makes one.
pub uninterp spec fn utc_at(seconds: i64) -> Option<NaiveDateTime>;

/// The seconds that chrono can turn into a time: from the first second of the
/// year -262143 to the last of the year 262142.
pub open spec fn representable(seconds: i64) -> bool {
    -8_334_601_228_800 <= seconds <= 8_210_266_876_799
}

/// Calls chrono's `DateTime::from_timestamp` with no nanoseconds, and takes
/// the zone tag off the result. chrono answers with a time exactly for the
/// seconds in its range, and the time's own timestamp is `seconds` again.
#[verifier::external_body]
pub(crate) fn from_timestamp(seconds: i64) -> (t: Option<NaiveDateTime>)
    ensures
        t == utc_at(seconds),
        t is Some <==> representable(seconds),
        t matches Some(at) ==> unix_seconds(at) == seconds,
{
    match DateTime::from_timestamp(seconds, 0) {
        Some(at) => Some(at.naive_utc()),
        None => None,
    }
}

/// Calls chrono's `DateTime::<Utc>::timestamp` on the time, tagged as UTC.
/// chrono makes a time of the result again, and one of the same second: the
/// two functions are each other's reverse, but for what is less than a second.
#[verifier::external_body]
pub(crate) fn timestamp(t: &NaiveDateTime) -> (seconds: i64)
    ensures
        seconds == unix_seconds(*t),
        utc_at(seconds) matches Some(again) && unix_seconds(again) == seconds,
{
    t.and_utc().timestamp()
}

} // verus!
