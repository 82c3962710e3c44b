//! Localized timestamp rendering. Timestamps travel as seconds since the
//! Unix epoch (UTC); the dispatcher shifts them to UTC+8 and renders them as
//! `YYYY-MM-DD HH:MM:SS` through the proleptic Gregorian calendar below.

use vstd::prelude::*;
use vstd::string::StringExecFns;

use crate::text::four_digits;
use crate::text::pad2;
use crate::text::pad4;
use crate::text::two_digits;

verus! {

/// The fixed offset of the rendering time zone (UTC+8), in seconds.
pub const TZ_OFFSET_SECS: i64 = 8 * 3600;

/// Local-time seconds strictly below this bound keep the rendered year at
/// four digits: 8030 years of at least 365 days reach past the year 9999.
pub const LOCAL_SECS_LIMIT: i64 = 365 * 8030 * 86400;

pub open spec fn is_leap_year(y: int) -> bool {
    y % 4 == 0 && (y % 100 != 0 || y % 400 == 0)
}

pub open spec fn days_in_year(y: int) -> int {
    if is_leap_year(y) {
        366
    } else {
        365
    }
}

pub open spec fn days_in_month(y: int, m: int) -> int {
    if m == 2 {
        if is_leap_year(y) {
            29
        } else {
            28
        }
    } else if m == 4 || m == 6 || m == 9 || m == 11 {
        30
    } else {
        31
    }
}

/// Walks forward from year `y` until day `n` (0-based) falls inside a year;
/// yields that year and the remaining day of year.
pub open spec fn year_split(y: int, n: int) -> (int, int)
    recommends
        0 <= n,
    decreases n,
{
    if n < days_in_year(y) {
        (y, n)
    } else {
        year_split(y + 1, n - days_in_year(y))
    }
}

/// Walks forward from month `m` until the remaining day of year falls inside
/// a month; yields that month and the remaining 0-based day of month.
pub open spec fn month_split(y: int, m: int, n: int) -> (int, int)
    recommends
        1 <= m <= 12,
    decreases 12 - m,
{
    if m >= 12 || n < days_in_month(y, m) {
        (m, n)
    } else {
        month_split(y, m + 1, n - days_in_month(y, m))
    }
}

/// The civil date (year, month, 1-based day) of day `n` counted from
/// 1970-01-01.
pub open spec fn civil_of_day(n: int) -> (int, int, int) {
    let ys = year_split(1970, n);
    let ms = month_split(ys.0, 1, ys.1);
    (ys.0, ms.0, ms.1 + 1)
}

/// `YYYY-MM-DD HH:MM:SS` for `t` seconds of local time since the epoch.
pub open spec fn fmt_local(t: int) -> Seq<char> {
    let date = civil_of_day(t / 86400);
    let s = t % 86400;
    four_digits(date.0 as nat) + seq!['-'] + two_digits(date.1 as nat) + seq!['-'] + two_digits(
        date.2 as nat,
    ) + seq![' '] + two_digits((s / 3600) as nat) + seq![':'] + two_digits(
        (s % 3600 / 60) as nat,
    ) + seq![':'] + two_digits((s % 60) as nat)
}

/// `YYYY-MM-DD HH:MM:SS` in UTC+8 for `t` seconds of UTC since the epoch.
pub open spec fn fmt_taipei(t: int) -> Seq<char> {
    fmt_local(t + TZ_OFFSET_SECS)
}

/// A timestamp the dispatcher accepts: the shifted local time stays in the
/// four-digit-year range.
pub open spec fn ts_in_range(t: int) -> bool {
    0 <= t && t + TZ_OFFSET_SECS < LOCAL_SECS_LIMIT
}

/// The days of months `m..=12` of year `y`, taken together.
pub open spec fn days_from_month(y: int, m: int) -> int
    decreases 13 - m,
{
    if m > 12 {
        0
    } else {
        days_in_month(y, m) + days_from_month(y, m + 1)
    }
}

/// A year holds exactly its twelve months of days.
proof fn lemma_year_days(y: int)
    ensures
        days_from_month(y, 1) == days_in_year(y),
{
    reveal_with_fuel(days_from_month, 13);
}

fn is_leap_year_x(y: u64) -> (r: bool)
    ensures
        r == is_leap_year(y as int),
{
    y % 4 == 0 && (y % 100 != 0 || y % 400 == 0)
}

fn days_in_year_x(y: u64) -> (r: u64)
    ensures
        r == days_in_year(y as int),
{
    if is_leap_year_x(y) {
        366
    } else {
        365
    }
}

fn days_in_month_x(y: u64, m: u64) -> (r: u64)
    ensures
        r == days_in_month(y as int, m as int),
{
    if m == 2 {
        if is_leap_year_x(y) {
            29
        } else {
            28
        }
    } else if m == 4 || m == 6 || m == 9 || m == 11 {
        30
    } else {
        31
    }
}

/// Renders `t` seconds of local time since the epoch as
/// `YYYY-MM-DD HH:MM:SS`.
pub fn format_local(t: i64) -> (r: String)
    requires
        0 <= t < LOCAL_SECS_LIMIT,
    ensures
        r@ == fmt_local(t as int),
{
    let tu: u64 = t as u64;
    let ghost n0: int = tu as int / 86400;
    let mut days: u64 = tu / 86400;
    let secs: u64 = tu % 86400;
    assert(days < 365 * 8030);

    let mut y: u64 = 1970;
    loop
        invariant
            1970 <= y,
            days <= n0 < 365 * 8030,
            365 * (y - 1970) <= n0 - days,
            year_split(1970, n0) == year_split(y as int, days as int),
        ensures
            1970 <= y <= 9999,
            days < days_in_year(y as int),
            year_split(1970, n0) == (y as int, days as int),
        decreases days,
    {
        let diy = days_in_year_x(y);
        if days < diy {
            proof {
                assert(365 * (y - 1970) <= n0);
                assert(y - 1970 < 8030) by {
                    if y - 1970 >= 8030 {
                        assert(365 * (y - 1970) >= 365 * 8030);
                    }
                }
            }
            break;
        }
        days = days - diy;
        y = y + 1;
    }

    let ghost doy0: int = days as int;
    let mut m: u64 = 1;
    proof {
        lemma_year_days(y as int);
    }
    let mut rest: u64 = days;
    loop
        invariant
            1 <= m <= 12,
            rest <= doy0,
            0 <= rest < days_from_month(y as int, m as int),
            month_split(y as int, 1, doy0) == month_split(y as int, m as int, rest as int),
        ensures
            1 <= m <= 12,
            rest < days_in_month(y as int, m as int),
            month_split(y as int, 1, doy0) == (m as int, rest as int),
        decreases 12 - m,
    {
        proof {
            reveal_with_fuel(days_from_month, 2);
        }
        let dim = days_in_month_x(y, m);
        if rest < dim {
            break;
        }
        rest = rest - dim;
        m = m + 1;
    }

    let day: u64 = rest + 1;
    let hour: u64 = secs / 3600;
    let min: u64 = secs % 3600 / 60;
    let sec: u64 = secs % 60;

    proof {
        reveal_strlit("-");
        reveal_strlit(" ");
        reveal_strlit(":");
    }
    let mut out = pad4(y);
    out.append("-");
    out.append(pad2(m).as_str());
    out.append("-");
    out.append(pad2(day).as_str());
    out.append(" ");
    out.append(pad2(hour).as_str());
    out.append(":");
    out.append(pad2(min).as_str());
    out.append(":");
    out.append(pad2(sec).as_str());
    assert(out@ =~= fmt_local(t as int));
    out
}

/// Renders a UTC timestamp in UTC+8 as `YYYY-MM-DD HH:MM:SS`.
pub fn format_taipei(t: i64) -> (r: String)
    requires
        ts_in_range(t as int),
    ensures
        r@ == fmt_taipei(t as int),
{
    format_local(t + TZ_OFFSET_SECS)
}

} // verus!
