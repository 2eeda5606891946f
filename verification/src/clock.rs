//! The day on which a file is created.

use vstd::prelude::*;
use std::time::{Duration, SystemTime};

verus! {

/// The pattern that writes a date as `MM/DD/YYYY`: month, day and year, in
/// the notation of `strftime`.
pub open spec fn date_pattern() -> Seq<char> {
    "%m/%d/%Y"@
}

/// Whether every character of `text` is one of the ten digits.
pub open spec fn all_digits(text: Seq<char>) -> bool {
    forall|i: int| 0 <= i < text.len() ==> '0' <= #[trigger] text[i] <= '9'
}

/// The number that two digits stand for.
pub open spec fn two_digit_number(tens: char, ones: char) -> int {
    10 * (tens as int - '0' as int) + (ones as int - '0' as int)
}

/// Whether `text` is a year as a date shows it: four digits, or, for a year
/// that four digits cannot hold, a sign and at least four digits.
pub open spec fn is_year(text: Seq<char>) -> bool {
    ||| text.len() == 4 && all_digits(text)
    ||| text.len() >= 5 && (text[0] == '+' || text[0] == '-') && all_digits(text.skip(1))
}

/// Whether `text` has the form `MM/DD/YYYY`: two digits for a month from 01
/// to 12, two for a day from 01 to 31, and the year.
pub open spec fn is_date(text: Seq<char>) -> bool {
    &&& text.len() >= 10
    &&& all_digits(text.subrange(0, 2))
    &&& 1 <= two_digit_number(text[0], text[1]) <= 12
    &&& text[2] == '/'
    &&& all_digits(text.subrange(3, 5))
    &&& 1 <= two_digit_number(text[3], text[4]) <= 31
    &&& text[5] == '/'
    &&& is_year(text.skip(6))
}

/// `std::time::SystemTime`: a reading of the clock. It is carried through
/// as it is; nothing is read from it.
#[verifier::external_type_specification]
#[verifier::external_body]
pub struct ExSystemTime(SystemTime);

/// `SystemTime::now` reads the clock. Nothing is claimed of the reading.
pub assume_specification[ SystemTime::now ]() -> SystemTime;

/// What `SystemTime::duration_since` gives for `at` and the start of 1970:
/// the time that has passed since then, or nothing where `at` lies before.
pub uninterp spec fn time_since_1970(at: SystemTime) -> Option<Duration>;

/// `SystemTime::duration_since`, asked for the time from the start of 1970
/// to `at`. It fails where `at` lies before 1970, and then nothing is
/// returned; else its result is a function of `at` alone.
#[verifier::external_body]
fn since_1970(at: SystemTime) -> (elapsed: Option<Duration>)
    ensures
        elapsed == time_since_1970(at),
{
    match at.duration_since(std::time::UNIX_EPOCH) {
        Ok(elapsed) => Some(elapsed),
        Err(_) => None,
    }
}

/// What `Duration::as_secs` gives for `elapsed`: the number of whole seconds
/// that it holds.
pub uninterp spec fn whole_seconds(elapsed: Duration) -> int;

/// `Duration::as_secs` returns the number of whole seconds that the
/// duration holds, a function of the duration alone.
pub assume_specification[ Duration::as_secs ](elapsed: &Duration) -> (seconds: u64)
    ensures
        seconds == whole_seconds(*elapsed),
;

/// What chrono writes for the moment that lies `seconds` and `nanos` after
/// the start of 1970, in universal time and by `pattern`: nothing where
/// chrono has no such moment.
pub uninterp spec fn utc_date_text(seconds: int, nanos: int, pattern: Seq<char>) -> Option<
    Seq<char>,
>;

/// chrono's `DateTime::from_timestamp`, written out by `DateTime::format`.
/// There is no moment, and so no text, where the seconds lie beyond the
/// years that chrono can hold or the nanoseconds are no fraction of a
/// second; else the text is a function of the three arguments alone. A text
/// that is written has the form `MM/DD/YYYY`: `%m` writes the month, 01 to
/// 12, and `%d` the day, 01 to 31, each in two digits, and `%Y` writes the
/// year in four, or with a sign and more for a year outside of 0 to 9999.
/// The pattern is fixed because `to_string` panics on a pattern that
/// `format` cannot read.
#[verifier::external_body]
fn utc_date(seconds: i64, nanos: u32, pattern: &str) -> (date: Option<String>)
    requires
        pattern@ == date_pattern(),
    ensures
        text_of(date) == utc_date_text(seconds as int, nanos as int, pattern@),
        date matches Some(text) ==> is_date(text@),
{
    match chrono::DateTime::from_timestamp(seconds, nanos) {
        Some(moment) => Some(moment.format(pattern).to_string()),
        None => None,
    }
}

/// The characters of a date that may be missing.
pub open spec fn text_of(date: Option<String>) -> Option<Seq<char>> {
    match date {
        Some(text) => Some(text@),
        None => None,
    }
}

/// The date of the reading `at` in universal time, as `MM/DD/YYYY`: that of
/// the second in which `at` lies. There is none where `at` lies before 1970,
/// or so far off that the seconds since then cannot be counted or dated.
pub open spec fn date_text_at(at: SystemTime) -> Option<Seq<char>> {
    match time_since_1970(at) {
        Some(elapsed) => if whole_seconds(elapsed) <= i64::MAX {
            utc_date_text(whole_seconds(elapsed), 0, date_pattern())
        } else {
            None
        },
        None => None,
    }
}

/// The date of the reading `at` in universal time, as `MM/DD/YYYY`; none
/// where `at` is a time for which no date can be written.
pub fn date_at(at: SystemTime) -> (date: Option<String>)
    ensures
        text_of(date) == date_text_at(at),
        date matches Some(text) ==> is_date(text@),
{
    let elapsed = match since_1970(at) {
        Some(elapsed) => elapsed,
        None => {
            return None;
        },
    };
    let seconds = elapsed.as_secs();
    if seconds > i64::MAX as u64 {
        return None;
    }
    utc_date(seconds as i64, 0, "%m/%d/%Y")
}

/// Today's date by the clock, in universal time, as `MM/DD/YYYY`: the date
/// of some reading of the clock. There is none where that reading is a time
/// for which no date can be written.
pub fn today() -> (date: Option<String>)
    ensures
        exists|at: SystemTime| text_of(date) == #[trigger] date_text_at(at),
        date matches Some(text) ==> is_date(text@),
{
    date_at(SystemTime::now())
}

} // verus!
