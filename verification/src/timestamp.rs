use crate::text::{digit_char, digit_to_char, push_char, two_digit_text};
use chrono::{Datelike, Timelike};
use vstd::prelude::*;

verus! {

/// A date and a time of day as a calendar and a clock show them.
pub struct Civil {
    pub year: int,
    pub month: int,
    pub day: int,
    pub hour: int,
    pub minute: int,
    pub second: int,
}

/// Whether `year` has a twenty-ninth of February.
pub open spec fn is_leap_year(year: int) -> bool {
    (year % 4 == 0 && year % 100 != 0) || year % 400 == 0
}

/// The number of days of `month` in `year`.
pub open spec fn days_in_month(year: int, month: int) -> int {
    if month == 2 {
        if is_leap_year(year) {
            29
        } else {
            28
        }
    } else if month == 4 || month == 6 || month == 9 || month == 11 {
        30
    } else {
        31
    }
}

/// Whether `c` names a day that the Gregorian calendar has, in a year of at
/// most four digits, and a second that a clock without leap seconds shows.
pub open spec fn is_civil(c: Civil) -> bool {
    &&& 0 <= c.year <= 9999
    &&& 1 <= c.month <= 12
    &&& 1 <= c.day <= days_in_month(c.year, c.month)
    &&& 0 <= c.hour <= 23
    &&& 0 <= c.minute <= 59
    &&& 0 <= c.second <= 59
}

/// Whether `a` is `b` or comes before it.
pub open spec fn not_after(a: Civil, b: Civil) -> bool {
    if a.year != b.year {
        a.year < b.year
    } else if a.month != b.month {
        a.month < b.month
    } else if a.day != b.day {
        a.day < b.day
    } else if a.hour != b.hour {
        a.hour < b.hour
    } else if a.minute != b.minute {
        a.minute < b.minute
    } else {
        a.second <= b.second
    }
}

/// The four-digit numeral of `n`, with leading zeros below a thousand.
pub open spec fn four_digit_text(n: int) -> Seq<char> {
    seq![
        digit_char(n / 1000),
        digit_char((n / 100) % 10),
        digit_char((n / 10) % 10),
        digit_char(n % 10),
    ]
}

/// The instant written as `YYYY-MM-DD HH:MM:SS`.
pub open spec fn time_text(c: Civil) -> Seq<char> {
    four_digit_text(c.year) + seq!['-'] + two_digit_text(c.month) + seq!['-'] + two_digit_text(
        c.day,
    ) + seq![' '] + two_digit_text(c.hour) + seq![':'] + two_digit_text(c.minute) + seq![':']
        + two_digit_text(c.second)
}

/// What calendar and clock show, in universal time, at `seconds` seconds after
/// the first instant of 1970; nothing for an instant that the calendar library
/// cannot hold.
pub uninterp spec fn utc_reading(seconds: int) -> Option<Civil>;

/// Reads calendar and clock at `seconds` seconds after the first instant of
/// 1970, in universal time.
///
/// Stands for `DateTime::from_timestamp` of the `chrono` crate, called with no
/// nanoseconds, and for the six field readers of the instant it makes. The
/// instant depends on the number of seconds alone, so the reading has a name;
/// nothing is claimed of its fields, which the caller checks for itself.
#[verifier::external_body]
fn read_utc(seconds: i64) -> (reading: Option<(i32, u32, u32, u32, u32, u32)>)
    ensures
        match reading {
            Some(fields) => utc_reading(seconds as int) == Some(
                Civil {
                    year: fields.0 as int,
                    month: fields.1 as int,
                    day: fields.2 as int,
                    hour: fields.3 as int,
                    minute: fields.4 as int,
                    second: fields.5 as int,
                },
            ),
            None => utc_reading(seconds as int) is None,
        },
{
    match chrono::DateTime::from_timestamp(seconds, 0) {
        Some(t) => Some((t.year(), t.month(), t.day(), t.hour(), t.minute(), t.second())),
        None => None,
    }
}

/// A wall-clock instant, to the second.
#[derive(Clone, Copy, Debug, PartialEq, Eq, Structural)]
pub struct Timestamp {
    year: u16,
    month: u8,
    day: u8,
    hour: u8,
    minute: u8,
    second: u8,
}

impl View for Timestamp {
    type V = Civil;

    closed spec fn view(&self) -> Civil {
        Civil {
            year: self.year as int,
            month: self.month as int,
            day: self.day as int,
            hour: self.hour as int,
            minute: self.minute as int,
            second: self.second as int,
        }
    }
}

impl Timestamp {
    #[verifier::type_invariant]
    spec fn is_on_the_calendar(self) -> bool {
        is_civil(self@)
    }

    /// The instant with the given calendar and clock readings, where there is
    /// such an instant.
    pub fn new(year: u16, month: u8, day: u8, hour: u8, minute: u8, second: u8) -> (t: Option<
        Timestamp,
    >)
        ensures
            t is Some <==> is_civil(
                (Civil {
                    year: year as int,
                    month: month as int,
                    day: day as int,
                    hour: hour as int,
                    minute: minute as int,
                    second: second as int,
                }),
            ),
            t matches Some(at) ==> at@ == (Civil {
                year: year as int,
                month: month as int,
                day: day as int,
                hour: hour as int,
                minute: minute as int,
                second: second as int,
            }),
    {
        if year > 9999 || month < 1 || month > 12 || day < 1 || hour > 23 || minute > 59 || second
            > 59 {
            return None;
        }
        let leap = (year % 4 == 0 && year % 100 != 0) || year % 400 == 0;
        let days: u8 = if month == 2 {
            if leap {
                29
            } else {
                28
            }
        } else if month == 4 || month == 6 || month == 9 || month == 11 {
            30
        } else {
            31
        };
        if day > days {
            return None;
        }
        Some(Timestamp { year, month, day, hour, minute, second })
    }

    /// The instant with the readings that a calendar library reports, where
    /// they are those of an instant that this type holds.
    pub fn from_reading(
        year: i32,
        month: u32,
        day: u32,
        hour: u32,
        minute: u32,
        second: u32,
    ) -> (t: Option<Timestamp>)
        ensures
            t is Some <==> is_civil(
                (Civil {
                    year: year as int,
                    month: month as int,
                    day: day as int,
                    hour: hour as int,
                    minute: minute as int,
                    second: second as int,
                }),
            ),
            t matches Some(at) ==> at@ == (Civil {
                year: year as int,
                month: month as int,
                day: day as int,
                hour: hour as int,
                minute: minute as int,
                second: second as int,
            }),
    {
        if year < 0 || year > 9999 || month > 12 || day > 31 || hour > 23 || minute > 59 || second
            > 59 {
            return None;
        }
        Timestamp::new(year as u16, month as u8, day as u8, hour as u8, minute as u8, second as u8)
    }

    /// The instant that lies `seconds` seconds after the first instant of
    /// 1970, in universal time, where the calendar reaches it within the
    /// years that this type holds.
    pub fn from_unix(seconds: i64) -> (t: Option<Timestamp>)
        ensures
            match t {
                Some(at) => utc_reading(seconds as int) == Some(at@) && is_civil(at@),
                None => utc_reading(seconds as int) matches Some(reading) ==> !is_civil(reading),
            },
    {
        match read_utc(seconds) {
            Some(fields) => Timestamp::from_reading(
                fields.0,
                fields.1,
                fields.2,
                fields.3,
                fields.4,
                fields.5,
            ),
            None => None,
        }
    }

    /// The year, from 0 to 9999.
    pub fn year(&self) -> (year: u16)
        ensures
            year == self@.year,
    {
        self.year
    }

    /// The month, from 1 to 12.
    pub fn month(&self) -> (month: u8)
        ensures
            month == self@.month,
    {
        self.month
    }

    /// The day of the month, from 1.
    pub fn day(&self) -> (day: u8)
        ensures
            day == self@.day,
    {
        self.day
    }

    /// The hour, from 0 to 23.
    pub fn hour(&self) -> (hour: u8)
        ensures
            hour == self@.hour,
    {
        self.hour
    }

    /// The minute, from 0 to 59.
    pub fn minute(&self) -> (minute: u8)
        ensures
            minute == self@.minute,
    {
        self.minute
    }

    /// The second, from 0 to 59.
    pub fn second(&self) -> (second: u8)
        ensures
            second == self@.second,
    {
        self.second
    }

    /// Whether this instant is `other` or comes before it.
    pub fn is_not_after(&self, other: &Timestamp) -> (r: bool)
        ensures
            r == not_after(self@, other@),
    {
        if self.year != other.year {
            self.year < other.year
        } else if self.month != other.month {
            self.month < other.month
        } else if self.day != other.day {
            self.day < other.day
        } else if self.hour != other.hour {
            self.hour < other.hour
        } else if self.minute != other.minute {
            self.minute < other.minute
        } else {
            self.second <= other.second
        }
    }

    /// Writes the instant as `YYYY-MM-DD HH:MM:SS`, every field at its full
    /// width.
    pub fn text(&self) -> (s: String)
        ensures
            s@ == time_text(self@),
            is_civil(self@),
    {
        proof {
            use_type_invariant(self);
        }
        let mut s = String::new();
        push_char(&mut s, digit_to_char((self.year / 1000) as u8));
        push_char(&mut s, digit_to_char(((self.year / 100) % 10) as u8));
        push_char(&mut s, digit_to_char(((self.year / 10) % 10) as u8));
        push_char(&mut s, digit_to_char((self.year % 10) as u8));
        push_char(&mut s, '-');
        push_char(&mut s, digit_to_char(self.month / 10));
        push_char(&mut s, digit_to_char(self.month % 10));
        push_char(&mut s, '-');
        push_char(&mut s, digit_to_char(self.day / 10));
        push_char(&mut s, digit_to_char(self.day % 10));
        push_char(&mut s, ' ');
        push_char(&mut s, digit_to_char(self.hour / 10));
        push_char(&mut s, digit_to_char(self.hour % 10));
        push_char(&mut s, ':');
        push_char(&mut s, digit_to_char(self.minute / 10));
        push_char(&mut s, digit_to_char(self.minute % 10));
        push_char(&mut s, ':');
        push_char(&mut s, digit_to_char(self.second / 10));
        push_char(&mut s, digit_to_char(self.second % 10));
        s
    }
}

} // verus!
