//! The window of time that the list of schedules covers.

use vstd::prelude::*;
use chrono::{DateTime, FixedOffset};
use crate::schedule::Schedules;

verus! {

/// By how many seconds the calendar's time zone is ahead of UTC.
pub const OFFSET: i32 = 32_400;

/// The seconds of a day.
pub const DAY: i64 = 86_400;

/// The last second of the year 9999 in UTC, as seconds after the start of
/// 1970.
pub const LAST_SECOND: i64 = 253_402_300_799;

/// The text of chrono's `DateTime::to_rfc3339` for the point in time
/// `seconds` after the start of 1970 in UTC, shown in the time zone that is
/// `offset` seconds ahead of UTC.
pub uninterp spec fn rfc3339(seconds: int, offset: int) -> Seq<char>;

/// The start of the day, in the calendar's time zone, in which `now` lies,
/// as seconds after the start of 1970 in UTC.
pub open spec fn day_start(now: int) -> int {
    now - (now + OFFSET) % (DAY as int)
}

/// The last second of the day after the one in which `now` lies.
pub open spec fn next_day_end(now: int) -> int {
    day_start(now) + 2 * DAY - 1
}

/// Whether the window around `now` can be computed in 64 bits.
pub open spec fn in_reach(now: int) -> bool {
    i64::MIN + DAY <= now <= i64::MAX - 2 * DAY
}

/// Whether the window around `now` lies in the years 1970 to 9999, for
/// which there are texts.
pub open spec fn in_calendar(now: int) -> bool {
    DAY <= now <= LAST_SECOND - 2 * DAY
}

/// chrono's `DateTime::to_rfc3339` of the point in time that
/// `DateTime::from_timestamp` makes of `seconds`, moved by
/// `DateTime::with_timezone` into the zone that `FixedOffset::east_opt` makes
/// of `offset`. The text depends on nothing but the two. chrono has a zone
/// for every offset of less than a day and a date for every day of the years
/// 1970 to 9999, so for those there is a text; beyond them nothing is said of
/// whether there is one.
#[verifier::external_body]
fn to_rfc3339(seconds: i64, offset: i32) -> (text: Option<String>)
    ensures
        text matches Some(t) ==> t@ == rfc3339(seconds as int, offset as int),
        -DAY < offset < DAY && 0 <= seconds <= LAST_SECOND ==> text is Some,
{
    let zone = FixedOffset::east_opt(offset)?;
    let utc = DateTime::from_timestamp(seconds, 0)?;
    Some(utc.with_timezone(&zone).to_rfc3339())
}

/// The two bounds of the window as they go into the query: the texts where
/// both could be made, two empty texts where one could not.
pub fn bounds(min: Option<String>, max: Option<String>) -> (r: [String; 2])
    ensures
        r[0]@ == (match (min, max) {
            (Some(a), Some(_)) => a@,
            _ => Seq::empty(),
        }),
        r[1]@ == (match (min, max) {
            (Some(_), Some(b)) => b@,
            _ => Seq::empty(),
        }),
{
    match (min, max) {
        (Some(a), Some(b)) => [a, b],
        _ => [String::new(), String::new()],
    }
}

impl Schedules {
    /// The window of time that the list covers: from the start of today to
    /// the end of tomorrow, both in the calendar's time zone, as texts for
    /// the query. Two empty texts where the window cannot be computed or has
    /// no text.
    pub fn time_min_max(now: i64) -> (r: [String; 2])
        ensures
            (r[0]@ == rfc3339(day_start(now as int), OFFSET as int) && r[1]@ == rfc3339(
                next_day_end(now as int),
                OFFSET as int,
            )) || (r[0]@ == Seq::<char>::empty() && r[1]@ == Seq::<char>::empty()),
            in_calendar(now as int) ==> r[0]@ == rfc3339(day_start(now as int), OFFSET as int)
                && r[1]@ == rfc3339(next_day_end(now as int), OFFSET as int),
            !in_reach(now as int) ==> r[0]@ == Seq::<char>::empty() && r[1]@ == Seq::<
                char,
            >::empty(),
    {
        if now < i64::MIN + DAY || now > i64::MAX - 2 * DAY {
            return bounds(None, None);
        }
        let local = now + OFFSET as i64;
        let rest = local % DAY;
        let passed = if rest < 0 { rest + DAY } else { rest };
        let min = now - passed;
        let max = min + (2 * DAY - 1);
        bounds(to_rfc3339(min, OFFSET), to_rfc3339(max, OFFSET))
    }
}

} // verus!
