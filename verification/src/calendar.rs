//! Proleptic Gregorian calendar rules: validity of a date and a time of day,
//! and the conversion of a naive date-time to seconds since the Unix epoch
//! when it is read as UTC.

use vstd::prelude::*;

verus! {

pub open spec fn is_leap_year(y: int) -> bool {
    (y % 4 == 0 && y % 100 != 0) || y % 400 == 0
}

pub open spec fn days_in_month(y: int, m: int) -> int {
    if m == 2 {
        if is_leap_year(y) {
            29
        } else {
            28
        }
    } else if m == 4 || m == 6 || m == 9 || m == 11 {
        30
    } else {
        31
    }
}

pub open spec fn valid_date(y: int, m: int, d: int) -> bool {
    1 <= m <= 12 && 1 <= d <= days_in_month(y, m)
}

pub open spec fn valid_time(h: int, mi: int, s: int) -> bool {
    0 <= h <= 23 && 0 <= mi <= 59 && 0 <= s <= 59
}

/// Day number of the civil date (y, m, d), with day 0 = 1970-01-01.
/// The year is first shifted by 400 (one full leap cycle of 146097 days) so
/// every intermediate quantity stays non-negative for years down to 0.
pub open spec fn days_from_epoch(y: int, m: int, d: int) -> int {
    let yy = if m <= 2 {
        y + 399
    } else {
        y + 400
    };
    let era = yy / 400;
    let yoe = yy - era * 400;
    let mp = if m <= 2 {
        m + 9
    } else {
        m - 3
    };
    let doy = (153 * mp + 2) / 5 + d - 1;
    let doe = yoe * 365 + yoe / 4 - yoe / 100 + doy;
    era * 146097 + doe - 865565
}

/// Seconds since the Unix epoch of the naive date-time read as UTC.
pub open spec fn utc_epoch_secs(y: int, m: int, d: int, h: int, mi: int, s: int) -> int {
    days_from_epoch(y, m, d) * 86400 + h * 3600 + mi * 60 + s
}

/// A timezone-naive date and time of day extracted from a filename, with no
/// sub-second precision. Well-formedness says the fields form a syntactically
/// valid calendar date and time; four decimal digits bound the year.
#[derive(Clone, Copy, Debug, PartialEq, Eq, Structural)]
pub struct TimestampCandidate {
    pub year: u16,
    pub month: u8,
    pub day: u8,
    pub hour: u8,
    pub minute: u8,
    pub second: u8,
}

impl TimestampCandidate {
    pub open spec fn wf(self) -> bool {
        self.year <= 9999 && valid_date(self.year as int, self.month as int, self.day as int)
            && valid_time(self.hour as int, self.minute as int, self.second as int)
    }

    /// Construction validates the fields; an invalid combination is refused.
    pub fn new(year: u16, month: u8, day: u8, hour: u8, minute: u8, second: u8) -> (r: Option<
        TimestampCandidate,
    >)
        ensures
            r is Some <==> (year <= 9999 && valid_date(year as int, month as int, day as int)
                && valid_time(hour as int, minute as int, second as int)),
            r is Some ==> r == Some(TimestampCandidate { year, month, day, hour, minute, second }),
            r is Some ==> r.unwrap().wf(),
    {
        if year <= 9999 && 1 <= month && month <= 12 && 1 <= day && day <= month_length(
            year,
            month,
        ) && hour <= 23 && minute <= 59 && second <= 59 {
            Some(TimestampCandidate { year, month, day, hour, minute, second })
        } else {
            None
        }
    }
}

fn leap_year(y: u16) -> (r: bool)
    ensures
        r == is_leap_year(y as int),
{
    (y % 4 == 0 && y % 100 != 0) || y % 400 == 0
}

fn month_length(y: u16, m: u8) -> (r: u8)
    requires
        1 <= m <= 12,
    ensures
        r == days_in_month(y as int, m as int),
{
    if m == 2 {
        if leap_year(y) {
            29
        } else {
            28
        }
    } else if m == 4 || m == 6 || m == 9 || m == 11 {
        30
    } else {
        31
    }
}

/// Day number of a civil date, executable form of `days_from_epoch`.
fn epoch_days(y: u16, m: u8, d: u8) -> (r: i64)
    requires
        y <= 9999,
        1 <= m <= 12,
        1 <= d <= 31,
    ensures
        r == days_from_epoch(y as int, m as int, d as int),
        -1_000_000 <= r <= 3_000_000,
{
    let yy: u64 = if m <= 2 {
        y as u64 + 399
    } else {
        y as u64 + 400
    };
    let era: u64 = yy / 400;
    let yoe: u64 = yy - era * 400;
    let mp: u64 = if m <= 2 {
        m as u64 + 9
    } else {
        m as u64 - 3
    };
    let doy: u64 = (153 * mp + 2) / 5 + d as u64 - 1;
    let doe: u64 = yoe * 365 + yoe / 4 - yoe / 100 + doy;
    ((era * 146097 + doe) as i64) - 865565
}

/// Seconds since the Unix epoch of a candidate read as UTC, executable form
/// of `utc_epoch_secs`. The result is far within the instant model bound.
pub fn candidate_utc_secs(c: &TimestampCandidate) -> (r: i64)
    requires
        c.wf(),
    ensures
        r == utc_epoch_secs(
            c.year as int,
            c.month as int,
            c.day as int,
            c.hour as int,
            c.minute as int,
            c.second as int,
        ),
        -crate::instant::SECS_BOUND <= r <= crate::instant::SECS_BOUND,
{
    let days = epoch_days(c.year, c.month, c.day);
    days * 86400 + (c.hour as i64) * 3600 + (c.minute as i64) * 60 + (c.second as i64)
}

} // verus!
