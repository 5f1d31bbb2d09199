//! Moments as text, written by `chrono`.
//!
//! The library never reads a clock. Whoever calls it hands in the moment as
//! seconds since 1970-01-01 00:00:00 UTC, and the local time's distance from
//! UTC in seconds, east counted positive.

use vstd::prelude::*;
use crate::decimal::{all_digits, is_digit};
use crate::path::text_of_string;

verus! {

/// The last second of the year 9999, in seconds since 1970-01-01 00:00:00
/// UTC.
pub const LAST_SECOND_OF_9999: i64 = 253_402_300_799;

/// The length of a day in seconds. A local time is less than a day away
/// from UTC.
pub const SECONDS_PER_DAY: i32 = 86_400;

/// The moment `secs` as local time `offset_secs` east of UTC, written as
/// year, month, day, hour, minute and second, or `None` where `chrono`
/// cannot hold the moment or the offset.
pub uninterp spec fn local_time_text(secs: i64, offset_secs: i32) -> Option<Seq<char>>;

/// Whether `s` has the shape `YYYY-MM-DD HH:MM:SS`: a year, then month, day,
/// hour, minute and second of two digits each, parted by `-`, `-`, a blank,
/// `:` and `:`. The year is four digits, or a sign and at least four digits.
pub open spec fn is_timestamp(s: Seq<char>) -> bool {
    let n = s.len() as int;
    let year = s.subrange(0, n - 15);
    let signed = year.len() > 0 && (year[0] == '+' || year[0] == '-');
    let digits = if signed {
        year.skip(1)
    } else {
        year
    };
    &&& n >= 19
    &&& digits.len() >= 4
    &&& all_digits(digits)
    &&& (signed || digits.len() == 4)
    &&& s[n - 15] == '-' && is_digit(s[n - 14]) && is_digit(s[n - 13])
    &&& s[n - 12] == '-' && is_digit(s[n - 11]) && is_digit(s[n - 10])
    &&& s[n - 9] == ' ' && is_digit(s[n - 8]) && is_digit(s[n - 7])
    &&& s[n - 6] == ':' && is_digit(s[n - 5]) && is_digit(s[n - 4])
    &&& s[n - 3] == ':' && is_digit(s[n - 2]) && is_digit(s[n - 1])
}

/// Whether `chrono` is known to hold the moment and the offset: the moment
/// lies between 1970 and the end of the year 9999, and the offset is less
/// than a day.
pub open spec fn is_plain_moment(secs: i64, offset_secs: i32) -> bool {
    0 <= secs <= LAST_SECOND_OF_9999 && -SECONDS_PER_DAY < offset_secs < SECONDS_PER_DAY
}

/// Calls `chrono::DateTime::format` with the pattern `%Y-%m-%d %H:%M:%S` on
/// the moment that `chrono::DateTime::from_timestamp` makes of `secs`, moved
/// by `with_timezone` to the offset that `chrono::FixedOffset::east_opt`
/// makes of `offset_secs`. Trusted:
/// - the text depends on the two numbers alone;
/// - it has the shape of a timestamp, since `chrono` writes the year with
///   four digits, or with a sign and at least four, and each other field
///   with two;
/// - there is none where the offset is a day or more, which `east_opt`
///   refuses, and there is one for every moment from 1970 to the end of
///   the year 9999 with an offset of less than a day: `from_timestamp`
///   refuses only what lies outside its calendar, about 262000 years to
///   either side.
/// None of the calls reads the clock, the environment or a file.
#[verifier::external_body]
pub(crate) fn format_local(secs: i64, offset_secs: i32) -> (r: Option<String>)
    ensures
        text_of_string(r) == local_time_text(secs, offset_secs),
        r matches Some(text) ==> is_timestamp(text@),
        r is Some ==> -SECONDS_PER_DAY < offset_secs < SECONDS_PER_DAY,
        is_plain_moment(secs, offset_secs) ==> r is Some,
{
    let moment = chrono::DateTime::from_timestamp(secs, 0)?;
    let offset = chrono::FixedOffset::east_opt(offset_secs)?;
    Some(moment.with_timezone(&offset).format("%Y-%m-%d %H:%M:%S").to_string())
}

} // verus!
