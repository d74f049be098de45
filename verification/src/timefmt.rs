//! Rendering a non-negative Unix epoch timestamp as `YYYY-MM-DD HH:MM:SS UTC`
//! in the proleptic Gregorian calendar.

use vstd::prelude::*;
use vstd::string::*;
use crate::textfmt::{dec_digits, padded_digits, u64_digits, zero_padded};

verus! {

/// Gregorian leap-year rule.
pub open spec fn is_leap_year(y: int) -> bool {
    y % 4 == 0 && (y % 100 != 0 || y % 400 == 0)
}

pub open spec fn days_in_year(y: int) -> int {
    if is_leap_year(y) {
        366
    } else {
        365
    }
}

pub open spec fn days_in_month(y: int, m: int) -> int {
    if m == 2 {
        if is_leap_year(y) {
            29
        } else {
            28
        }
    } else if m == 4 || m == 6 || m == 9 || m == 11 {
        30
    } else {
        31
    }
}

/// Starting from year `y` with `z` whole days left, consume whole years:
/// the result is the year that day `z` falls in and the day index within it.
pub open spec fn split_year(y: int, z: int) -> (int, int)
    decreases z,
{
    if z >= days_in_year(y) {
        split_year(y + 1, z - days_in_year(y))
    } else {
        (y, z)
    }
}

/// Starting from month `m` of year `y` with `z` whole days left, consume
/// whole months: the result is the month that the day falls in and the
/// zero-based day index within it.
pub open spec fn split_month(y: int, m: int, z: int) -> (int, int)
    decreases 12 - m,
{
    if 1 <= m < 12 && z >= days_in_month(y, m) {
        split_month(y, m + 1, z - days_in_month(y, m))
    } else {
        (m, z)
    }
}

/// The exact text that a non-negative epoch timestamp renders to:
/// four-or-more-digit year, two-digit month, day, hour, minute and second,
/// and the literal ` UTC` suffix.
pub open spec fn timestamp_chars(ts: int) -> Seq<char> {
    let days = ts / 86400;
    let secs = ts % 86400;
    let y = split_year(1970, days).0;
    let yrem = split_year(1970, days).1;
    let m = split_month(y, 1, yrem).0;
    let d = split_month(y, 1, yrem).1 + 1;
    dec_digits(y as nat) + seq!['-'] + padded_digits(m as nat, 2) + seq!['-'] + padded_digits(
        d as nat,
        2,
    ) + seq![' '] + padded_digits((secs / 3600) as nat, 2) + seq![':'] + padded_digits(
        ((secs % 3600) / 60) as nat,
        2,
    ) + seq![':'] + padded_digits((secs % 60) as nat, 2) + " UTC"@
}

fn days_in_month_exec(y: u64, m: u64) -> (r: u64)
    requires
        1 <= m <= 12,
    ensures
        r as int == days_in_month(y as int, m as int),
{
    if m == 2 {
        let leap: bool = (y % 4 == 0) && (y % 100 != 0 || y % 400 == 0);
        if leap {
            29
        } else {
            28
        }
    } else if m == 4 || m == 6 || m == 9 || m == 11 {
        30
    } else {
        31
    }
}

/// Render `ts` seconds since the epoch as `YYYY-MM-DD HH:MM:SS UTC`.
/// Callers reject negative block times before calling (they display as
/// absent instead).
pub fn format_timestamp(ts: i64) -> (r: String)
    requires
        ts >= 0,
    ensures
        r@ == timestamp_chars(ts as int),
{
    let days: u64 = (ts / 86400) as u64;
    let secs: u64 = (ts % 86400) as u64;
    let mut y: u64 = 1970;
    let mut rem: u64 = days;
    proof {
        assert(days <= 106_751_991_167_300) by (nonlinear_arith)
            requires
                days == ts as int / 86400,
                0 <= ts <= 0x7fff_ffff_ffff_ffff,
        ;
    }
    loop
        invariant
            1970 <= y,
            days <= 106_751_991_167_300,
            (y - 1970) + rem <= days,
            split_year(1970, days as int) == split_year(y as int, rem as int),
        ensures
            1970 <= y,
            rem < 366,
            split_year(1970, days as int) == (y as int, rem as int),
        decreases rem,
    {
        let leap: bool = (y % 4 == 0) && (y % 100 != 0 || y % 400 == 0);
        let diy: u64 = if leap {
            366
        } else {
            365
        };
        if rem < diy {
            break ;
        }
        rem = rem - diy;
        y = y + 1;
    }
    let mut m: u64 = 1;
    loop
        invariant
            1 <= m <= 12,
            rem < 366,
            split_month(y as int, 1, split_year(1970, days as int).1) == split_month(
                y as int,
                m as int,
                rem as int,
            ),
        ensures
            1 <= m <= 12,
            rem < 366,
            split_month(y as int, 1, split_year(1970, days as int).1) == (m as int, rem as int),
        decreases 12 - m,
    {
        let dim: u64 = days_in_month_exec(y, m);
        if m == 12 || rem < dim {
            break ;
        }
        rem = rem - dim;
        m = m + 1;
    }
    let d: u64 = rem + 1;
    let hour: u64 = secs / 3600;
    let minute: u64 = (secs % 3600) / 60;
    let second: u64 = secs % 60;
    let mut r = u64_digits(y);
    r.append("-");
    r.append(zero_padded(m, 2).as_str());
    r.append("-");
    r.append(zero_padded(d, 2).as_str());
    r.append(" ");
    r.append(zero_padded(hour, 2).as_str());
    r.append(":");
    r.append(zero_padded(minute, 2).as_str());
    r.append(":");
    r.append(zero_padded(second, 2).as_str());
    r.append(" UTC");
    proof {
        reveal_strlit("-");
        reveal_strlit(" ");
        reveal_strlit(":");
        reveal_strlit(" UTC");
        assert(r@ =~= timestamp_chars(ts as int));
    }
    r
}

} // verus!
