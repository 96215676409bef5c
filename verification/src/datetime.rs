//! Calendar date and time of day, as the sensors report them.
//!
//! The 64-laser unit transmits its clock and its calibration date as six raw
//! bytes: year offset from 2000, month, day, hour, minute, second.  A byte
//! sextet only counts when it names a real calendar date (month 1..12, day
//! within the month, February 29 in leap years only) and a real time of day.

use vstd::prelude::*;

verus! {

/// A calendar date with a time of day.
#[derive(Copy, Clone, Debug, PartialEq, Eq, Structural)]
pub struct DateTime {
    pub year: u16,
    pub month: u8,
    pub day: u8,
    pub hour: u8,
    pub minute: u8,
    pub second: u8,
}

/// Whether `y` is a leap year of the Gregorian calendar.
pub open spec fn spec_is_leap(y: int) -> bool {
    y % 4 == 0 && (y % 100 != 0 || y % 400 == 0)
}

/// Number of days of month `m` in year `y`.
pub open spec fn spec_days_in_month(y: int, m: int) -> int {
    if m == 2 {
        if spec_is_leap(y) {
            29
        } else {
            28
        }
    } else if m == 4 || m == 6 || m == 9 || m == 11 {
        30
    } else {
        31
    }
}

/// Whether `dt` names a real calendar date and time of day.
pub open spec fn spec_valid_dt(dt: DateTime) -> bool {
    &&& 1 <= dt.month <= 12
    &&& 1 <= dt.day <= spec_days_in_month(dt.year as int, dt.month as int)
    &&& dt.hour < 24
    &&& dt.minute < 60
    &&& dt.second < 60
}

/// Build the date-time `20YY-MM-DD hh:mm:ss` from the sensor's raw bytes,
/// or nothing when the bytes do not name a real date and time.
pub fn make_dt(year: u8, month: u8, day: u8, h: u8, m: u8, s: u8) -> (r: Option<DateTime>)
    ensures
        ({
            let dt = DateTime {
                year: (year + 2000) as u16,
                month,
                day,
                hour: h,
                minute: m,
                second: s,
            };
            match r {
                Some(v) => v == dt && spec_valid_dt(dt),
                None => !spec_valid_dt(dt),
            }
        }),
{
    let y: u16 = year as u16 + 2000;
    let dim: u8 = if month == 2 {
        if y % 4 == 0 && (y % 100 != 0 || y % 400 == 0) {
            29
        } else {
            28
        }
    } else if month == 4 || month == 6 || month == 9 || month == 11 {
        30
    } else {
        31
    };
    if month >= 1 && month <= 12 && day >= 1 && day <= dim && h < 24 && m < 60 && s < 60 {
        Some(DateTime { year: y, month, day, hour: h, minute: m, second: s })
    } else {
        None
    }
}

} // verus!
