//! A plain-value calendar date with proleptic-Gregorian validity rules,
//! ISO `YYYY-MM-DD` parsing and rendering, and the word-form date used in
//! statement file names.

use vstd::prelude::*;

use crate::text::{spec_dec, spec_digit, u128_to_string};

verus! {

/// A calendar date in the common era.
#[derive(Clone, Copy, Debug, PartialEq, Eq, Structural)]
pub struct Date {
    pub year: u32,
    pub month: u8,
    pub day: u8,
}

pub open spec fn spec_is_leap_year(y: int) -> bool {
    y % 4 == 0 && (y % 100 != 0 || y % 400 == 0)
}

pub open spec fn spec_days_in_month(y: int, m: int) -> int {
    if m == 2 {
        if spec_is_leap_year(y) {
            29
        } else {
            28
        }
    } else if m == 4 || m == 6 || m == 9 || m == 11 {
        30
    } else {
        31
    }
}

pub open spec fn spec_valid_date(y: int, m: int, d: int) -> bool {
    1 <= m <= 12 && 1 <= d <= spec_days_in_month(y, m)
}

impl Date {
    /// A date is well formed when its month and day exist in that year.
    pub open spec fn wf(self) -> bool {
        spec_valid_date(self.year as int, self.month as int, self.day as int)
    }
}

pub fn is_leap_year(y: u32) -> (r: bool)
    ensures
        r == spec_is_leap_year(y as int),
{
    y % 4 == 0 && (y % 100 != 0 || y % 400 == 0)
}

pub fn days_in_month(y: u32, m: u8) -> (r: u8)
    ensures
        r == spec_days_in_month(y as int, m as int),
{
    if m == 2 {
        if is_leap_year(y) {
            29
        } else {
            28
        }
    } else if m == 4 || m == 6 || m == 9 || m == 11 {
        30
    } else {
        31
    }
}

impl Date {
    /// Build a date from calendar fields, refusing combinations that do not
    /// exist (month out of range, day past the month's end).
    pub fn from_ymd(year: u32, month: u8, day: u8) -> (r: Option<Date>)
        ensures
            r is Some <==> spec_valid_date(year as int, month as int, day as int),
            r is Some ==> r->0 == (Date { year, month, day }) && r->0.wf(),
    {
        if 1 <= month && month <= 12 && 1 <= day && day <= days_in_month(year, month) {
            Some(Date { year, month, day })
        } else {
            None
        }
    }
}

pub open spec fn spec_is_digit(c: char) -> bool {
    48 <= c as u32 <= 57
}

pub open spec fn spec_digit_val(c: char) -> int {
    c as u32 - 48
}

/// What parsing an ISO `YYYY-MM-DD` string yields: the date when the text
/// has exactly that shape and names a real calendar day, nothing otherwise.
pub open spec fn spec_parse_iso(s: Seq<char>) -> Option<Date> {
    if s.len() == 10 && spec_is_digit(s[0]) && spec_is_digit(s[1]) && spec_is_digit(s[2])
        && spec_is_digit(s[3]) && s[4] == '-' && spec_is_digit(s[5]) && spec_is_digit(s[6])
        && s[7] == '-' && spec_is_digit(s[8]) && spec_is_digit(s[9]) {
        let y = spec_digit_val(s[0]) * 1000 + spec_digit_val(s[1]) * 100 + spec_digit_val(s[2])
            * 10 + spec_digit_val(s[3]);
        let m = spec_digit_val(s[5]) * 10 + spec_digit_val(s[6]);
        let d = spec_digit_val(s[8]) * 10 + spec_digit_val(s[9]);
        if spec_valid_date(y, m, d) {
            Some(Date { year: y as u32, month: m as u8, day: d as u8 })
        } else {
            None
        }
    } else {
        None
    }
}

fn digit_val_at(s: &str, i: usize) -> (r: Option<u32>)
    requires
        i < s@.len(),
    ensures
        r is Some <==> spec_is_digit(s@[i as int]),
        r is Some ==> r->0 == spec_digit_val(s@[i as int]),
{
    let c = s.get_char(i);
    let v = c as u32;
    if 48 <= v && v <= 57 {
        Some(v - 48)
    } else {
        None
    }
}

impl Date {
    /// Parse an ISO `YYYY-MM-DD` date. A malformed string or an impossible
    /// calendar day is reported to the caller as `None`, never repaired.
    pub fn parse_iso(s: &str) -> (r: Option<Date>)
        ensures
            r == spec_parse_iso(s@),
    {
        if s.unicode_len() != 10 {
            return None;
        }
        if s.get_char(4) != '-' || s.get_char(7) != '-' {
            return None;
        }
        let d0 = match digit_val_at(s, 0) {
            Some(v) => v,
            None => { return None; },
        };
        let d1 = match digit_val_at(s, 1) {
            Some(v) => v,
            None => { return None; },
        };
        let d2 = match digit_val_at(s, 2) {
            Some(v) => v,
            None => { return None; },
        };
        let d3 = match digit_val_at(s, 3) {
            Some(v) => v,
            None => { return None; },
        };
        let d5 = match digit_val_at(s, 5) {
            Some(v) => v,
            None => { return None; },
        };
        let d6 = match digit_val_at(s, 6) {
            Some(v) => v,
            None => { return None; },
        };
        let d8 = match digit_val_at(s, 8) {
            Some(v) => v,
            None => { return None; },
        };
        let d9 = match digit_val_at(s, 9) {
            Some(v) => v,
            None => { return None; },
        };
        let y: u32 = d0 * 1000 + d1 * 100 + d2 * 10 + d3;
        let m: u8 = (d5 * 10 + d6) as u8;
        let d: u8 = (d8 * 10 + d9) as u8;
        Date::from_ymd(y, m, d)
    }
}

/// The ISO rendering: the year zero-padded to four digits, month and day to
/// two, separated by hyphens.
pub open spec fn spec_pad4(n: int) -> Seq<char> {
    if n >= 1000 {
        spec_dec(n)
    } else if n >= 100 {
        seq!['0'] + spec_dec(n)
    } else if n >= 10 {
        seq!['0', '0'] + spec_dec(n)
    } else {
        seq!['0', '0', '0'] + spec_dec(n)
    }
}

pub open spec fn spec_pad2(n: int) -> Seq<char> {
    if n >= 10 {
        spec_dec(n)
    } else {
        seq!['0'] + spec_dec(n)
    }
}

pub open spec fn spec_iso(d: Date) -> Seq<char> {
    spec_pad4(d.year as int) + seq!['-'] + spec_pad2(d.month as int) + seq!['-'] + spec_pad2(
        d.day as int,
    )
}

fn pad4(n: u32) -> (s: String)
    ensures
        s@ == spec_pad4(n as int),
{
    proof {
        reveal_strlit("");
        reveal_strlit("0");
        reveal_strlit("00");
        reveal_strlit("000");
    }
    let prefix: &str = if n >= 1000 {
        ""
    } else if n >= 100 {
        "0"
    } else if n >= 10 {
        "00"
    } else {
        "000"
    };
    let mut s = String::from_str(prefix);
    let digits = u128_to_string(n as u128);
    s.append(digits.as_str());
    proof {
        assert(s@ =~= spec_pad4(n as int));
    }
    s
}

fn pad2(n: u8) -> (s: String)
    ensures
        s@ == spec_pad2(n as int),
{
    proof {
        reveal_strlit("");
        reveal_strlit("0");
    }
    let prefix: &str = if n >= 10 {
        ""
    } else {
        "0"
    };
    let mut s = String::from_str(prefix);
    let digits = u128_to_string(n as u128);
    s.append(digits.as_str());
    proof {
        assert(s@ =~= spec_pad2(n as int));
    }
    s
}

impl Date {
    /// Render the date as ISO `YYYY-MM-DD`.
    pub fn to_iso_string(&self) -> (s: String)
        ensures
            s@ == spec_iso(*self),
    {
        let mut s = pad4(self.year);
        proof {
            reveal_strlit("-");
        }
        s.append("-");
        let m = pad2(self.month);
        s.append(m.as_str());
        s.append("-");
        let d = pad2(self.day);
        s.append(d.as_str());
        proof {
            assert(s@ =~= spec_iso(*self));
        }
        s
    }
}

/// The English month name, or a fallback for a month outside 1..=12.
pub open spec fn spec_month_name(m: int) -> Seq<char> {
    if m == 1 {
        "January"@
    } else if m == 2 {
        "February"@
    } else if m == 3 {
        "March"@
    } else if m == 4 {
        "April"@
    } else if m == 5 {
        "May"@
    } else if m == 6 {
        "June"@
    } else if m == 7 {
        "July"@
    } else if m == 8 {
        "August"@
    } else if m == 9 {
        "September"@
    } else if m == 10 {
        "October"@
    } else if m == 11 {
        "November"@
    } else if m == 12 {
        "December"@
    } else {
        "NullDate"@
    }
}

pub open spec fn spec_word_date(d: Date) -> Seq<char> {
    spec_month_name(d.month as int) + seq!['.'] + spec_dec(d.year as int)
}

fn month_name(m: u8) -> (s: &'static str)
    ensures
        s@ == spec_month_name(m as int),
{
    if m == 1 {
        "January"
    } else if m == 2 {
        "February"
    } else if m == 3 {
        "March"
    } else if m == 4 {
        "April"
    } else if m == 5 {
        "May"
    } else if m == 6 {
        "June"
    } else if m == 7 {
        "July"
    } else if m == 8 {
        "August"
    } else if m == 9 {
        "September"
    } else if m == 10 {
        "October"
    } else if m == 11 {
        "November"
    } else if m == 12 {
        "December"
    } else {
        "NullDate"
    }
}

/// The word-form date stamped into statement file names, month name then
/// year.
pub fn get_word_date(date: Date) -> (s: String)
    ensures
        s@ == spec_word_date(date),
{
    let mut s = String::from_str(month_name(date.month));
    proof {
        reveal_strlit(".");
    }
    s.append(".");
    let y = u128_to_string(date.year as u128);
    s.append(y.as_str());
    proof {
        assert(s@ =~= spec_word_date(date));
    }
    s
}

} // verus!
