//! Calendar dates and second-precision timestamps.
//!
//! Export requests carry a start and a stop date in the fixed
//! `YYYY-MM-DD` format; result rows carry a timestamp. Both are plain
//! calendar values here, so their parsing, validity and ordering are
//! stated and proved directly.

use vstd::prelude::*;

verus! {

/// A calendar date, valid when `valid()` holds.
#[derive(Clone, Copy, Debug, PartialEq, Eq, Structural)]
pub struct Date {
    pub year: u16,
    pub month: u8,
    pub day: u8,
}

/// A second-precision timestamp, valid when `valid()` holds.
#[derive(Clone, Copy, Debug, PartialEq, Eq, Structural)]
pub struct Timestamp {
    pub year: u16,
    pub month: u8,
    pub day: u8,
    pub hour: u8,
    pub minute: u8,
    pub second: u8,
}

pub open spec fn is_leap_year(y: int) -> bool {
    y % 4 == 0 && (y % 100 != 0 || y % 400 == 0)
}

pub open spec fn days_in_month(y: int, m: int) -> int {
    if m == 2 {
        if is_leap_year(y) {
            29
        } else {
            28
        }
    } else if m == 4 || m == 6 || m == 9 || m == 11 {
        30
    } else {
        31
    }
}

/// A year/month/day triple that names a real calendar day with a
/// four-digit year.
pub open spec fn calendar_valid(y: int, m: int, d: int) -> bool {
    &&& 0 <= y <= 9999
    &&& 1 <= m <= 12
    &&& 1 <= d <= days_in_month(y, m)
}

/// Lexicographic order on year/month/day triples.
pub open spec fn ymd_le(y1: int, m1: int, d1: int, y2: int, m2: int, d2: int) -> bool {
    if y1 != y2 {
        y1 < y2
    } else if m1 != m2 {
        m1 < m2
    } else {
        d1 <= d2
    }
}

impl Date {
    pub open spec fn valid(self) -> bool {
        calendar_valid(self.year as int, self.month as int, self.day as int)
    }

    /// `self` is on or before `other` in calendar order.
    pub open spec fn le_spec(self, other: Date) -> bool {
        ymd_le(
            self.year as int,
            self.month as int,
            self.day as int,
            other.year as int,
            other.month as int,
            other.day as int,
        )
    }

    pub fn le(&self, other: &Date) -> (r: bool)
        ensures
            r == self.le_spec(*other),
    {
        if self.year != other.year {
            self.year < other.year
        } else if self.month != other.month {
            self.month < other.month
        } else {
            self.day <= other.day
        }
    }
}

impl Timestamp {
    pub open spec fn valid(self) -> bool {
        &&& calendar_valid(self.year as int, self.month as int, self.day as int)
        &&& self.hour < 24
        &&& self.minute < 60
        &&& self.second < 60
    }

    /// The calendar day this timestamp falls on.
    pub open spec fn date_spec(self) -> Date {
        Date { year: self.year, month: self.month, day: self.day }
    }

    pub fn date(&self) -> (r: Date)
        ensures
            r == self.date_spec(),
    {
        Date { year: self.year, month: self.month, day: self.day }
    }

    /// Decide validity: a row whose timestamp does not decode to a real
    /// calendar instant is skipped, not exported.
    pub fn check_valid(&self) -> (r: bool)
        ensures
            r == self.valid(),
    {
        self.year <= 9999 && self.month >= 1 && self.month <= 12 && self.day >= 1 && self.day
            <= days_in_month_exec(self.year, self.month) && self.hour < 24 && self.minute < 60
            && self.second < 60
    }
}

pub open spec fn is_digit(c: char) -> bool {
    '0' <= c && c <= '9'
}

pub open spec fn digit_val(c: char) -> int {
    c as int - '0' as int
}

/// The text has exactly the shape `DDDD-DD-DD` with `D` a decimal digit.
pub open spec fn date_text_shaped(s: Seq<char>) -> bool {
    &&& s.len() == 10
    &&& is_digit(s[0])
    &&& is_digit(s[1])
    &&& is_digit(s[2])
    &&& is_digit(s[3])
    &&& s[4] == '-'
    &&& is_digit(s[5])
    &&& is_digit(s[6])
    &&& s[7] == '-'
    &&& is_digit(s[8])
    &&& is_digit(s[9])
}

pub open spec fn text_year(s: Seq<char>) -> int {
    digit_val(s[0]) * 1000 + digit_val(s[1]) * 100 + digit_val(s[2]) * 10 + digit_val(s[3])
}

pub open spec fn text_month(s: Seq<char>) -> int {
    digit_val(s[5]) * 10 + digit_val(s[6])
}

pub open spec fn text_day(s: Seq<char>) -> int {
    digit_val(s[8]) * 10 + digit_val(s[9])
}

/// The text is a well-shaped `YYYY-MM-DD` naming a real calendar day.
pub open spec fn date_text_valid(s: Seq<char>) -> bool {
    &&& date_text_shaped(s)
    &&& calendar_valid(text_year(s), text_month(s), text_day(s))
}

fn digit_of(c: char) -> (v: u8)
    requires
        is_digit(c),
    ensures
        v == digit_val(c),
        v <= 9,
{
    ((c as u32) - 48) as u8
}

fn is_digit_exec(c: char) -> (r: bool)
    ensures
        r == is_digit(c),
{
    '0' <= c && c <= '9'
}

fn days_in_month_exec(y: u16, m: u8) -> (r: u8)
    ensures
        r == days_in_month(y as int, m as int),
{
    if m == 2 {
        if y % 4 == 0 && (y % 100 != 0 || y % 400 == 0) {
            29
        } else {
            28
        }
    } else if m == 4 || m == 6 || m == 9 || m == 11 {
        30
    } else {
        31
    }
}

/// Parse untrusted text in the fixed `YYYY-MM-DD` format into a valid
/// calendar date. Any other shape, and any shaped text that names no
/// real day (month 13, April 31st, February 29th off a leap year), is
/// refused.
pub fn parse_date(s: &str) -> (r: Option<Date>)
    ensures
        r is Some <==> date_text_valid(s@),
        match r {
            Some(d) => {
                &&& d.year == text_year(s@)
                &&& d.month == text_month(s@)
                &&& d.day == text_day(s@)
                &&& d.valid()
            },
            None => true,
        },
{
    let len = s.unicode_len();
    if len != 10 {
        return None;
    }
    let c0 = s.get_char(0);
    let c1 = s.get_char(1);
    let c2 = s.get_char(2);
    let c3 = s.get_char(3);
    let c4 = s.get_char(4);
    let c5 = s.get_char(5);
    let c6 = s.get_char(6);
    let c7 = s.get_char(7);
    let c8 = s.get_char(8);
    let c9 = s.get_char(9);
    if !(is_digit_exec(c0) && is_digit_exec(c1) && is_digit_exec(c2) && is_digit_exec(c3)
        && c4 == '-' && is_digit_exec(c5) && is_digit_exec(c6) && c7 == '-' && is_digit_exec(c8)
        && is_digit_exec(c9)) {
        return None;
    }
    let year: u16 = (digit_of(c0) as u16) * 1000 + (digit_of(c1) as u16) * 100 + (digit_of(c2)
        as u16) * 10 + (digit_of(c3) as u16);
    let month: u8 = digit_of(c5) * 10 + digit_of(c6);
    let day: u8 = digit_of(c8) * 10 + digit_of(c9);
    if month < 1 || month > 12 {
        return None;
    }
    if day < 1 || day > days_in_month_exec(year, month) {
        return None;
    }
    Some(Date { year, month, day })
}

} // verus!
