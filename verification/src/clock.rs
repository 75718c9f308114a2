use crate::text::opt_text;
use std::fmt::Write;
use vstd::prelude::*;

verus! {

/// The pattern of the time stamp in results and in the names of output files:
/// year, month, day, an underscore, hour, minute, second.
pub open spec fn stamp_pattern() -> Seq<char> {
    "%Y%m%d_%H%M%S"@
}

/// Whether a character is a decimal digit.
pub open spec fn is_digit(c: char) -> bool {
    '0' <= c <= '9'
}

/// Whether every character of a text is a decimal digit.
pub open spec fn all_digits(s: Seq<char>) -> bool {
    forall|i: int| 0 <= i < s.len() ==> is_digit(#[trigger] s[i])
}

/// The number that two decimal digits write.
pub open spec fn pair_value(tens: char, ones: char) -> int {
    (tens as int - '0' as int) * 10 + (ones as int - '0' as int)
}

/// Whether the two characters from `at` on are decimal digits that write a
/// number from `low` to `high`.
pub open spec fn two_digits_at(s: Seq<char>, at: int, low: int, high: int) -> bool {
    &&& 0 <= at && at + 2 <= s.len()
    &&& is_digit(s[at])
    &&& is_digit(s[at + 1])
    &&& low <= pair_value(s[at], s[at + 1]) <= high
}

/// Whether a text writes a year as the time stamp does: with four digits, or,
/// for a year before 0 or after 9999, with its sign and at least four digits.
pub open spec fn is_year_text(s: Seq<char>) -> bool {
    ||| s.len() == 4 && all_digits(s)
    ||| s.len() >= 5 && (s[0] == '+' || s[0] == '-') && all_digits(s.skip(1))
}

/// Whether a text is a time stamp: the year, then month, day, an underscore,
/// hour, minute and second, each of these five with two digits and in its
/// range.
pub open spec fn is_stamp(s: Seq<char>) -> bool {
    let n = s.len() as int;
    &&& n >= 15
    &&& is_year_text(s.take(n - 11))
    &&& two_digits_at(s, n - 11, 1, 12)
    &&& two_digits_at(s, n - 9, 1, 31)
    &&& s[n - 7] == '_'
    &&& two_digits_at(s, n - 6, 0, 23)
    &&& two_digits_at(s, n - 4, 0, 59)
    &&& two_digits_at(s, n - 2, 0, 60)
}

/// The time stamp that chrono writes for a point in time, given in seconds
/// and nanoseconds since the Unix epoch, at a place whose clocks are
/// `offset_seconds` ahead of universal time: `None` where the offset is not
/// less than a day or the point in time lies outside chrono's range.
pub uninterp spec fn stamp_text(secs: int, nanos: int, offset_seconds: int) -> Option<Seq<char>>;

/// Calls `std::time::SystemTime::now` and `duration_since` with the Unix
/// epoch: the seconds and nanoseconds since the epoch, with less than a
/// second of nanoseconds, and `None` for a clock that stands before the
/// epoch. Which time it is depends on the clock.
#[verifier::external_body]
pub(crate) fn unix_time_now() -> (res: Option<(i64, u32)>)
    ensures
        res matches Some(t) ==> t.0 >= 0 && t.1 < 1_000_000_000,
{
    match std::time::SystemTime::now().duration_since(std::time::UNIX_EPOCH) {
        Ok(d) => match i64::try_from(d.as_secs()) {
            Ok(secs) => Some((secs, d.subsec_nanos())),
            Err(_) => None,
        },
        Err(_) => None,
    }
}

/// Calls `chrono::FixedOffset::east_opt`, `timestamp_opt` on the offset, and
/// `format` on the time, written out with `write!`: none of them panics, and
/// each failure becomes `None`. The contract names the outcome `stamp_text`,
/// which depends on the arguments alone, and states the shape that chrono
/// gives to every time: the year with four digits, or with its sign and its
/// digits outside the years 0 to 9999, and two digits for each of the other
/// fields, in the ranges that chrono documents for them.
#[verifier::external_body]
pub(crate) fn format_time(secs: i64, nanos: u32, offset_seconds: i32, pattern: &str) -> (res:
    Option<String>)
    requires
        pattern@ == stamp_pattern(),
    ensures
        opt_text(res) == stamp_text(secs as int, nanos as int, offset_seconds as int),
        res matches Some(s) ==> is_stamp(s@),
{
    let zone = chrono::FixedOffset::east_opt(offset_seconds)?;
    let time = chrono::TimeZone::timestamp_opt(&zone, secs, nanos).single()?;
    let mut text = String::new();
    match write!(text, "{}", time.format(pattern)) {
        Ok(()) => Some(text),
        Err(_) => None,
    }
}

/// The time stamp of a point in time, given in seconds and nanoseconds since
/// the Unix epoch, as the clocks show it at a place that is `offset_seconds`
/// ahead of universal time.
pub fn timestamp_at(secs: i64, nanos: u32, offset_seconds: i32) -> (res: Option<String>)
    ensures
        opt_text(res) == stamp_text(secs as int, nanos as int, offset_seconds as int),
        res matches Some(s) ==> is_stamp(s@),
{
    format_time(secs, nanos, offset_seconds, "%Y%m%d_%H%M%S")
}

/// The time stamp of a scan that starts now, as the clocks show it at a place
/// that is `offset_seconds` ahead of universal time: the time in the fixed
/// format of year, month, day, an underscore, hour, minute and second.
/// There is none where the clock stands before the Unix epoch, or where
/// `timestamp_at` gives none for what the clock shows.
pub fn scan_timestamp(offset_seconds: i32) -> (res: Option<String>)
    ensures
        res matches Some(s) ==> is_stamp(s@),
{
    match unix_time_now() {
        Some(now) => timestamp_at(now.0, now.1, offset_seconds),
        None => None,
    }
}

} // verus!
