//! Times of day and calendar dates as plain numbers.
//!
//! A [`TimeOfDay`] is a count of whole seconds since midnight and a
//! [`CalendarDate`] is a year, a month and a day. Neither knows a time zone:
//! values that are compared must come from the same clock.

use chrono::Timelike;
use vstd::prelude::*;
use crate::text::{
    ascii_bytes, digit_char, digit_value, is_digit, lemma_digit_char, lemma_two_digits,
    padded_digits, push_digits,
};

verus! {

/// The seconds of one day.
pub const SECONDS_PER_DAY: u32 = 86400;

/// The earliest Unix timestamp that has a time of day here: midnight at the
/// start of the year -262143.
pub const MIN_TIMESTAMP: i64 = -8334601228800;

/// The latest Unix timestamp that has a time of day here: the last second of
/// the year 262142.
pub const MAX_TIMESTAMP: i64 = 8210266876799;

/// A time of day at second precision.
#[derive(Clone, Copy, Debug, PartialEq, Eq, Structural)]
pub struct TimeOfDay {
    secs: u32,
}

impl View for TimeOfDay {
    type V = int;

    /// The seconds since midnight.
    closed spec fn view(&self) -> int {
        self.secs as int
    }
}

/// The seconds since midnight of hour `hour`, minute `minute`, second `second`.
pub open spec fn seconds_of(hour: int, minute: int, second: int) -> int {
    hour * 3600 + minute * 60 + second
}

/// The text of a time of day: hours, minutes and seconds, two digits each,
/// with colons between them.
pub open spec fn time_text(secs: int) -> Seq<char>
    recommends
        0 <= secs < 86400,
{
    padded_digits((secs / 3600) as nat, 2) + seq![':'] + padded_digits(
        ((secs / 60) % 60) as nat,
        2,
    ) + seq![':'] + padded_digits((secs % 60) as nat, 2)
}

/// The number that the two digits `s[at]` and `s[at + 1]` denote.
pub open spec fn two_digit_value(s: Seq<char>, at: int) -> int {
    (digit_value(s[at]) * 10 + digit_value(s[at + 1])) as int
}

/// The seconds since midnight that `s` denotes: exactly `HH:MM:SS` with an
/// hour below 24 and minute and second below 60. `None` for any other text.
pub open spec fn time_text_value(s: Seq<char>) -> Option<int> {
    if s.len() == 8 && is_digit(s[0]) && is_digit(s[1]) && s[2] == ':' && is_digit(s[3])
        && is_digit(s[4]) && s[5] == ':' && is_digit(s[6]) && is_digit(s[7]) && two_digit_value(
        s,
        0,
    ) < 24 && two_digit_value(s, 3) < 60 && two_digit_value(s, 6) < 60 {
        Some(seconds_of(two_digit_value(s, 0), two_digit_value(s, 3), two_digit_value(s, 6)))
    } else {
        None
    }
}

/// Reading back the text of a time of day gives that time of day.
pub proof fn lemma_time_text_round_trip(secs: int)
    requires
        0 <= secs < 86400,
    ensures
        time_text_value(time_text(secs)) == Some(secs),
{
    let h: nat = (secs / 3600) as nat;
    let m: nat = ((secs / 60) % 60) as nat;
    let s: nat = (secs % 60) as nat;
    lemma_two_digits(h);
    lemma_two_digits(m);
    lemma_two_digits(s);
    lemma_digit_char(h / 10);
    lemma_digit_char(h % 10);
    lemma_digit_char(m / 10);
    lemma_digit_char(m % 10);
    lemma_digit_char(s / 10);
    lemma_digit_char(s % 10);
    assert(time_text(secs) =~= seq![
        digit_char(h / 10),
        digit_char(h % 10),
        ':',
        digit_char(m / 10),
        digit_char(m % 10),
        ':',
        digit_char(s / 10),
        digit_char(s % 10),
    ]);
}

/// Calls `chrono::DateTime::from_timestamp` with no nanoseconds and reads the
/// seconds since midnight off the UTC time of day of what it returns.
///
/// Trusted: chrono answers for the timestamps whose UTC date lies in the
/// years -262143 to 262142, which are those between [`MIN_TIMESTAMP`] and
/// [`MAX_TIMESTAMP`], and the time of day it gives is the timestamp's
/// remainder by the seconds of a day, never negative.
#[verifier::external_body]
fn utc_second_of_day(timestamp: i64) -> (r: Option<u32>)
    ensures
        r is Some <==> MIN_TIMESTAMP <= timestamp <= MAX_TIMESTAMP,
        r matches Some(s) ==> s == timestamp as int % 86400,
{
    match chrono::DateTime::from_timestamp(timestamp, 0) {
        Some(moment) => Some(moment.time().num_seconds_from_midnight()),
        None => None,
    }
}

impl TimeOfDay {
    /// A time of day is less than a day after midnight.
    #[verifier::type_invariant]
    pub open spec fn wf(self) -> bool {
        0 <= self@ < 86400
    }

    /// Two times of day are the same where their seconds since midnight are.
    pub proof fn lemma_eq_by_view(self, other: TimeOfDay)
        ensures
            (self@ == other@) == (self == other),
    {
    }

    /// The time of day at `hour:min:sec`, where that is a time of day.
    pub fn from_hms_opt(hour: u32, min: u32, sec: u32) -> (r: Option<TimeOfDay>)
        ensures
            r is Some <==> hour < 24 && min < 60 && sec < 60,
            r matches Some(t) ==> t@ == seconds_of(hour as int, min as int, sec as int) && t.wf(),
    {
        if hour < 24 && min < 60 && sec < 60 {
            Some(TimeOfDay { secs: hour * 3600 + min * 60 + sec })
        } else {
            None
        }
    }

    /// The time of day `secs` seconds after midnight, where that is less
    /// than a day.
    pub fn from_num_seconds_from_midnight_opt(secs: u32) -> (r: Option<TimeOfDay>)
        ensures
            r is Some <==> secs < 86400,
            r matches Some(t) ==> t@ == secs && t.wf(),
    {
        if secs < SECONDS_PER_DAY {
            Some(TimeOfDay { secs })
        } else {
            None
        }
    }

    /// The UTC time of day of a Unix timestamp, for the timestamps from
    /// [`MIN_TIMESTAMP`] to [`MAX_TIMESTAMP`].
    pub fn from_timestamp(timestamp: i64) -> (r: Option<TimeOfDay>)
        ensures
            r is Some <==> MIN_TIMESTAMP <= timestamp <= MAX_TIMESTAMP,
            r matches Some(t) ==> t@ == timestamp as int % 86400 && t.wf(),
    {
        match utc_second_of_day(timestamp) {
            Some(secs) => Some(TimeOfDay { secs }),
            None => None,
        }
    }

    /// The seconds since midnight.
    pub fn num_seconds_from_midnight(&self) -> (secs: u32)
        ensures
            secs == self@,
            self.wf(),
    {
        proof {
            use_type_invariant(self);
        }
        self.secs
    }

    /// The hour, from 0 to 23.
    pub fn hour(&self) -> (hour: u32)
        ensures
            hour == self@ / 3600,
            hour < 24,
    {
        proof {
            use_type_invariant(self);
        }
        self.secs / 3600
    }

    /// The minute of the hour, from 0 to 59.
    pub fn minute(&self) -> (minute: u32)
        ensures
            minute == (self@ / 60) % 60,
            minute < 60,
    {
        (self.secs / 60) % 60
    }

    /// The second of the minute, from 0 to 59.
    pub fn second(&self) -> (second: u32)
        ensures
            second == self@ % 60,
            second < 60,
    {
        self.secs % 60
    }

    /// Writes the time of day as `HH:MM:SS`.
    pub fn to_text(&self) -> (r: String)
        ensures
            r@ == time_text(self@),
    {
        let mut out = String::new();
        proof {
            reveal_strlit(":");
        }
        push_digits(&mut out, self.hour() as u64, 2);
        out.append(":");
        push_digits(&mut out, self.minute() as u64, 2);
        out.append(":");
        push_digits(&mut out, self.second() as u64, 2);
        out
    }

    /// Reads a time of day written as `HH:MM:SS`. Returns `None` for any
    /// other text.
    pub fn parse(s: &str) -> (r: Option<TimeOfDay>)
        ensures
            match r {
                Some(t) => time_text_value(s@) == Some(t@) && t.wf(),
                None => time_text_value(s@) is None,
            },
    {
        let bytes = match ascii_bytes(s) {
            Some(b) => b,
            None => {
                proof {
                    if time_text_value(s@) is Some {
                        assert forall|i: int| 0 <= i < s@.len() implies '\0' <= #[trigger] s@[i]
                            <= '\u{7f}' by {}
                    }
                }
                return None;
            },
        };
        if bytes.len() != 8 {
            return None;
        }
        if bytes[2] != 58 || bytes[5] != 58 {
            return None;
        }
        if !(ascii_digit(bytes[0]) && ascii_digit(bytes[1]) && ascii_digit(bytes[3])
            && ascii_digit(bytes[4]) && ascii_digit(bytes[6]) && ascii_digit(bytes[7])) {
            return None;
        }
        let hour: u32 = (bytes[0] - 48) as u32 * 10 + (bytes[1] - 48) as u32;
        let min: u32 = (bytes[3] - 48) as u32 * 10 + (bytes[4] - 48) as u32;
        let sec: u32 = (bytes[6] - 48) as u32 * 10 + (bytes[7] - 48) as u32;
        TimeOfDay::from_hms_opt(hour, min, sec)
    }
}

/// `b` is the ASCII code of a decimal digit.
fn ascii_digit(b: u8) -> (r: bool)
    ensures
        r == (48 <= b <= 57),
{
    48 <= b && b <= 57
}

/// A day of the Gregorian calendar.
#[derive(Clone, Copy, Debug, PartialEq, Eq, Structural)]
pub struct CalendarDate {
    year: i32,
    month: u8,
    day: u8,
}

/// A year, a month and a day of the month as numbers.
pub struct YearMonthDay {
    pub year: int,
    pub month: int,
    pub day: int,
}

impl View for CalendarDate {
    type V = YearMonthDay;

    /// Year, month and day as numbers.
    closed spec fn view(&self) -> YearMonthDay {
        YearMonthDay { year: self.year as int, month: self.month as int, day: self.day as int }
    }
}

/// `year` has a 29th of February.
pub open spec fn is_leap_year(year: int) -> bool {
    year % 4 == 0 && (year % 100 != 0 || year % 400 == 0)
}

/// The days of month `month` in `year`.
pub open spec fn days_in_month(year: int, month: int) -> int
    recommends
        1 <= month <= 12,
{
    if month == 2 {
        if is_leap_year(year) {
            29
        } else {
            28
        }
    } else if month == 4 || month == 6 || month == 9 || month == 11 {
        30
    } else {
        31
    }
}

/// The calendar has a day `day` in month `month` of `year`.
pub open spec fn is_calendar_date(year: int, month: int, day: int) -> bool {
    1 <= month <= 12 && 1 <= day <= days_in_month(year, month)
}

/// The text of a year: four digits for the years 0 to 9999, and a sign
/// followed by at least four digits for any other.
pub open spec fn year_text(year: int) -> Seq<char> {
    if 0 <= year <= 9999 {
        padded_digits(year as nat, 4)
    } else if year < 0 {
        seq!['-'] + padded_digits((-year) as nat, 4)
    } else {
        seq!['+'] + padded_digits(year as nat, 4)
    }
}

/// The text of a date: year, month and day with hyphens between them, month
/// and day in two digits each.
pub open spec fn date_text(date: YearMonthDay) -> Seq<char> {
    year_text(date.year) + seq!['-'] + padded_digits(date.month as nat, 2) + seq!['-']
        + padded_digits(date.day as nat, 2)
}

/// Whether `year` has a 29th of February.
fn leap_year(year: i32) -> (leap: bool)
    ensures
        leap == is_leap_year(year as int),
{
    year % 4 == 0 && (year % 100 != 0 || year % 400 == 0)
}

impl CalendarDate {
    /// A calendar date is a day that the calendar has.
    #[verifier::type_invariant]
    pub open spec fn wf(self) -> bool {
        is_calendar_date(self@.year, self@.month, self@.day)
    }

    /// The date of day `day` in month `month` of `year`, where the calendar
    /// has such a day.
    pub fn from_ymd_opt(year: i32, month: u32, day: u32) -> (r: Option<CalendarDate>)
        ensures
            r is Some <==> is_calendar_date(year as int, month as int, day as int),
            r matches Some(date) ==> date@ == (YearMonthDay {
                year: year as int,
                month: month as int,
                day: day as int,
            }) && date.wf(),
    {
        if month < 1 || month > 12 || day < 1 {
            return None;
        }
        let leap: bool = leap_year(year);
        let days: u32 = if month == 2 {
            if leap {
                29
            } else {
                28
            }
        } else if month == 4 || month == 6 || month == 9 || month == 11 {
            30
        } else {
            31
        };
        if day > days {
            return None;
        }
        Some(CalendarDate { year, month: month as u8, day: day as u8 })
    }

    /// The year.
    pub fn year(&self) -> (year: i32)
        ensures
            year == self@.year,
    {
        self.year
    }

    /// The month, from 1 to 12.
    pub fn month(&self) -> (month: u32)
        ensures
            month == self@.month,
            1 <= month <= 12,
    {
        proof {
            use_type_invariant(self);
        }
        self.month as u32
    }

    /// The day of the month, from 1 to 31.
    pub fn day(&self) -> (day: u32)
        ensures
            day == self@.day,
            1 <= day <= 31,
            self.wf(),
    {
        proof {
            use_type_invariant(self);
        }
        self.day as u32
    }

    /// Writes the date as `YYYY-MM-DD`.
    pub fn to_text(&self) -> (r: String)
        ensures
            r@ == date_text(self@),
    {
        let mut out = String::new();
        proof {
            reveal_strlit("-");
            reveal_strlit("+");
        }
        let year: i64 = self.year as i64;
        if year < 0 {
            out.append("-");
            push_digits(&mut out, (-year) as u64, 4);
        } else if year > 9999 {
            out.append("+");
            push_digits(&mut out, year as u64, 4);
        } else {
            push_digits(&mut out, year as u64, 4);
        }
        out.append("-");
        push_digits(&mut out, self.month() as u64, 2);
        out.append("-");
        push_digits(&mut out, self.day() as u64, 2);
        assert(out@ =~= date_text(self@));
        out
    }
}

} // verus!
