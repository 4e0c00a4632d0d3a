//! The system clock and the time of day, as `chrono` gives them.

use vstd::prelude::*;

verus! {

/// `chrono::DateTime::<Utc>::from` of `SystemTime::now()`, and then
/// `DateTime::timestamp`: the seconds since the epoch by the system clock, a
/// negative number where the clock stands before 1970. Nothing is claimed of
/// the number: it differs from call to call. `chrono` has no room for an
/// instant more than about 262,000 years from 1970; operating systems keep
/// their clocks far inside that.
#[verifier::external_body]
pub(crate) fn unix_time_now() -> i64 {
    chrono::DateTime::<chrono::Utc>::from(std::time::SystemTime::now()).timestamp()
}

/// What `chrono` shows as hour and minute, in UTC, of the instant that many
/// seconds from the epoch; `None` where `DateTime::from_timestamp` has no
/// such instant.
pub uninterp spec fn time_of_day(timestamp: i64) -> Option<Seq<char>>;

/// `chrono::DateTime::from_timestamp` and then `DateTime::format` with the
/// pattern for hour and minute: the outcome is a function of the number
/// alone. No other pattern is handed in, so none that `chrono` cannot print.
#[verifier::external_body]
pub(crate) fn format_time(timestamp: i64, pattern: &str) -> (text: Option<String>)
    requires
        pattern@ == "%H:%M"@,
    ensures
        match text {
            Some(shown) => time_of_day(timestamp) == Some(shown@),
            None => time_of_day(timestamp) is None,
        },
{
    match chrono::DateTime::from_timestamp(timestamp, 0) {
        Some(time) => Some(time.format(pattern).to_string()),
        None => None,
    }
}

} // verus!
