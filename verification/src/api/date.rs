//! A calendar date, rendered in ISO-8601 form for the wire.
//!
//! The endpoints only ever read a date as its `YYYY-MM-DD` rendering, so the
//! library models a date as plain year, month and day values with a validity
//! invariant, and renders it with a verified formatter.

use vstd::prelude::*;

use crate::api::params::ascii_string;

verus! {

/// Whether `y` is a leap year.
pub open spec fn is_leap_year(y: nat) -> bool {
    y % 4 == 0 && (y % 100 != 0 || y % 400 == 0)
}

/// The number of days of month `m` in year `y` (for `1 <= m <= 12`).
pub open spec fn days_in_month(y: nat, m: nat) -> nat {
    if m == 2 {
        if is_leap_year(y) {
            29
        } else {
            28
        }
    } else if m == 4 || m == 6 || m == 9 || m == 11 {
        30
    } else {
        31
    }
}

/// The ASCII digit character for `n % 10`.
pub open spec fn last_digit(n: nat) -> char {
    ((0x30 + (n % 10)) as u8) as char
}

/// The ISO-8601 rendering of a date: four year digits, two month digits and
/// two day digits, separated by `-`.
pub open spec fn date_str(y: nat, m: nat, d: nat) -> Seq<char> {
    seq![
        last_digit(y / 1000),
        last_digit(y / 100),
        last_digit(y / 10),
        last_digit(y),
        '-',
        last_digit(m / 10),
        last_digit(m),
        '-',
        last_digit(d / 10),
        last_digit(d),
    ]
}

/// A calendar date.
///
/// Values are only constructed through [`Date::from_ymd_opt`], which
/// establishes the validity invariant [`Date::valid`].
#[derive(Debug, Clone, Copy, PartialEq, Eq, Structural)]
pub struct Date {
    /// The year, at most 9999.
    pub year: u16,
    /// The month, 1 to 12.
    pub month: u8,
    /// The day of the month.
    pub day: u8,
}

impl Date {
    /// The date is a real calendar date with a four-digit year.
    pub open spec fn valid(self) -> bool {
        self.year <= 9999 && 1 <= self.month <= 12 && 1 <= self.day && self.day as nat
            <= days_in_month(self.year as nat, self.month as nat)
    }

    /// Construct a date, returning `None` unless the year is four digits at
    /// most and the month and day name a real calendar date.
    pub fn from_ymd_opt(year: i32, month: u32, day: u32) -> (r: Option<Date>)
        ensures
            match r {
                Some(date) => {
                    &&& date.valid()
                    &&& date.year == year
                    &&& date.month == month
                    &&& date.day == day
                },
                None => !(0 <= year <= 9999 && 1 <= month <= 12 && 1 <= day && day as nat
                    <= days_in_month(year as nat, month as nat)),
            },
    {
        if year < 0 || year > 9999 || month < 1 || month > 12 || day < 1 {
            return None;
        }
        let y = year as u16;
        let m = month as u8;
        let in_month: u8 = if m == 2 {
            if (y % 4 == 0) && (y % 100 != 0 || y % 400 == 0) {
                29
            } else {
                28
            }
        } else if m == 4 || m == 6 || m == 9 || m == 11 {
            30
        } else {
            31
        };
        if day > in_month as u32 {
            return None;
        }
        Some(Date { year: y, month: m, day: day as u8 })
    }

    /// The year of the date.
    pub fn year(&self) -> (r: u16)
        ensures
            r == self.year,
    {
        self.year
    }

    /// The month of the date.
    pub fn month(&self) -> (r: u8)
        ensures
            r == self.month,
    {
        self.month
    }

    /// The day of the date.
    pub fn day(&self) -> (r: u8)
        ensures
            r == self.day,
    {
        self.day
    }

    /// Render the date as `YYYY-MM-DD`.
    ///
    /// The rendering is total: each component contributes its low decimal
    /// digits, so no validity assumption is needed to call it.
    pub fn render(&self) -> (r: String)
        ensures
            r@ == date_str(self.year as nat, self.month as nat, self.day as nat),
    {
        let y = self.year;
        let m = self.month;
        let d = self.day;
        let mut bytes: Vec<u8> = Vec::new();
        bytes.push(0x30 + (y / 1000 % 10) as u8);
        bytes.push(0x30 + (y / 100 % 10) as u8);
        bytes.push(0x30 + (y / 10 % 10) as u8);
        bytes.push(0x30 + (y % 10) as u8);
        bytes.push(0x2d);
        bytes.push(0x30 + (m / 10 % 10));
        bytes.push(0x30 + (m % 10));
        bytes.push(0x2d);
        bytes.push(0x30 + (d / 10 % 10));
        bytes.push(0x30 + (d % 10));
        proof {
            assert(forall|i: int| 0 <= i < bytes@.len() ==> bytes@[i] < 0x80);
            assert(bytes@.map_values(|b: u8| b as char) =~= date_str(
                self.year as nat,
                self.month as nat,
                self.day as nat,
            ));
        }
        ascii_string(&bytes)
    }
}

} // verus!
