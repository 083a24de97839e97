//! Showing a moment as a date.

use std::fmt::Write;
use vstd::prelude::*;

verus! {

/// How a login time is written: day, month and two-digit year, then the time
/// of day.
pub open spec fn date_pattern() -> Seq<char> {
    "%d/%m/%y às %H:%M"@
}

/// The seconds by which the time shown is ahead of universal time: three
/// hours behind it.
pub const SHOWN_OFFSET_SECONDS: i32 = -10_800;

/// The text that `chrono` writes for the moment `seconds` after the epoch,
/// seen `offset_seconds` east of Greenwich, in the `strftime` notation
/// `pattern`; `None` where `chrono` has no such moment or offset, or cannot
/// write the pattern.
pub uninterp spec fn formatted_moment(seconds: int, offset_seconds: int, pattern: Seq<char>)
    -> Option<Seq<char>>;

/// `chrono`: `DateTime::from_timestamp`, `FixedOffset::east_opt`,
/// `DateTime::with_timezone` and `DateTime::format`, in this order. The first
/// two give `None` outside their ranges and the last fails on a pattern that
/// it cannot write: each of these ends in `None` here. The text depends on
/// the three arguments alone.
#[verifier::external_body]
fn format_moment(seconds: i64, offset_seconds: i32, pattern: &str) -> (text: Option<String>)
    ensures
        match text {
            Some(written) => formatted_moment(seconds as int, offset_seconds as int, pattern@)
                == Some(written@),
            None => formatted_moment(seconds as int, offset_seconds as int, pattern@) is None,
        },
{
    let moment = chrono::DateTime::from_timestamp(seconds, 0)?;
    let zone = chrono::FixedOffset::east_opt(offset_seconds)?;
    let mut text = String::new();
    write!(text, "{}", moment.with_timezone(&zone).format(pattern)).ok()?;
    Some(text)
}

/// The whole seconds of a time in milliseconds, rounded towards zero.
pub open spec fn whole_seconds(millis: int) -> int {
    if millis >= 0 {
        millis / 1000
    } else {
        -((-millis) / 1000)
    }
}

/// The date of a time given in milliseconds since the epoch.
pub open spec fn date_text(millis: int) -> Option<Seq<char>> {
    formatted_moment(whole_seconds(millis), SHOWN_OFFSET_SECONDS as int, date_pattern())
}

/// The whole seconds of a time in milliseconds, rounded towards zero.
pub fn seconds_of(millis: i64) -> (seconds: i64)
    ensures
        seconds == whole_seconds(millis as int),
{
    if millis >= 0 {
        millis / 1000
    } else if millis == i64::MIN {
        -9_223_372_036_854_775
    } else {
        -((-millis) / 1000)
    }
}

/// The date of a time given in milliseconds since the epoch, as it is shown
/// for a login; `None` for a time that no calendar date stands for.
pub fn unix_time_to_date(time: i64) -> (date: Option<String>)
    ensures
        match date {
            Some(text) => date_text(time as int) == Some(text@),
            None => date_text(time as int) is None,
        },
{
    format_moment(seconds_of(time), SHOWN_OFFSET_SECONDS, "%d/%m/%y às %H:%M")
}

} // verus!
