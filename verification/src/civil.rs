//! Civil-calendar readings of an instant, computed by chrono.

use std::fmt::Write;
use vstd::prelude::*;

verus! {

/// The calendar day on which an instant falls on a clock that runs `offset`
/// seconds ahead of UTC, counted so that 0001-01-01 is day 1: the whole days
/// that the clock has counted since the Unix epoch, and the 719163 days from
/// day 0 to the epoch. The instant lies `seconds` whole seconds after the
/// epoch.
pub open spec fn civil_day(seconds: int, offset: int) -> int {
    (seconds + offset) / 86400 + 719163
}

/// The calendar day that chrono finds for an instant on a clock that runs
/// `offset` seconds ahead of UTC, as chrono counts days (0001-01-01 is day
/// 1). The instant lies `seconds` whole seconds and `nanos` nanoseconds after
/// the Unix epoch. `None` where chrono cannot represent the instant, the
/// offset or the local date and time.
pub uninterp spec fn local_day_number(seconds: int, nanos: int, offset: int) -> Option<int>;

/// The text that chrono's `strftime`-style `pattern` gives for the local date
/// and time of an instant, read as in [`local_day_number`]. `None` where the
/// local date and time cannot be represented or chrono rejects the pattern.
pub uninterp spec fn local_text(seconds: int, nanos: int, offset: int, pattern: Seq<char>) -> Option<
    Seq<char>,
>;

/// Trusted: builds the local date and time with chrono
/// (`DateTime::from_timestamp`, `FixedOffset::east_opt`,
/// `NaiveDateTime::checked_add_offset`) and returns what
/// `Datelike::num_days_from_ce` says of its date. Each of the three steps
/// yields `None` instead of panicking, and so does this function.
///
/// The contract names the result, and says which day it is where there is
/// one: chrono takes the whole days of `seconds` and adds the epoch's day
/// number, then moves by the day that the offset carries the time of day
/// over, which together is [`civil_day`].
#[verifier::external_body]
pub(crate) fn day_number(seconds: i64, nanos: u32, offset: i32) -> (day: Option<i32>)
    ensures
        match day {
            Some(d) => local_day_number(seconds as int, nanos as int, offset as int) == Some(
                d as int,
            ),
            None => local_day_number(seconds as int, nanos as int, offset as int) is None,
        },
        day is Some ==> day.unwrap() as int == civil_day(seconds as int, offset as int),
{
    let utc = chrono::DateTime::from_timestamp(seconds, nanos)?;
    let zone = chrono::FixedOffset::east_opt(offset)?;
    let local = utc.naive_utc().checked_add_offset(zone)?;
    Some(chrono::Datelike::num_days_from_ce(&local.date()))
}

/// Trusted: builds the local date and time as [`day_number`] does and writes
/// what `NaiveDateTime::format` makes of it with `pattern`. A pattern that
/// chrono cannot apply makes the write fail, which is returned as `None`.
/// The contract only names the result.
#[verifier::external_body]
pub(crate) fn formatted(seconds: i64, nanos: u32, offset: i32, pattern: &str) -> (text: Option<
    String,
>)
    ensures
        match text {
            Some(t) => local_text(seconds as int, nanos as int, offset as int, pattern@) == Some(
                t@,
            ),
            None => local_text(seconds as int, nanos as int, offset as int, pattern@) is None,
        },
{
    let utc = chrono::DateTime::from_timestamp(seconds, nanos)?;
    let zone = chrono::FixedOffset::east_opt(offset)?;
    let local = utc.naive_utc().checked_add_offset(zone)?;
    let mut text = String::new();
    write!(text, "{}", local.format(pattern)).ok()?;
    Some(text)
}

} // verus!
