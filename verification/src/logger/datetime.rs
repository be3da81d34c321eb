//! Timestamps for log lines: the current UTC time formatted as
//! `yyyy-mm-dd hh:mm:ss`, computed from the seconds since the Unix epoch.

use vstd::prelude::*;

use crate::text::{chars_to_string, padded_digits_of, push_chars, to_decimal_padded};

verus! {

/// A timestamp that is always empty, for logs without times.
pub fn noop_datetime() -> (r: String)
    ensures
        r@ == Seq::<char>::empty(),
{
    String::new()
}

/// A leap year of the Gregorian calendar.
fn is_leap_year(year: u64) -> (r: bool)
    ensures
        r == crate::sched::cron_date::is_leap_year_of(year as int),
{
    proof {
        vstd::arithmetic::div_mod::lemma_mod_bound(year as int, 4);
        vstd::arithmetic::div_mod::lemma_mod_bound(year as int, 100);
        vstd::arithmetic::div_mod::lemma_mod_bound(year as int, 400);
    }
    (year % 4 == 0 && year % 100 != 0) || year % 400 == 0
}

/// Days of the zero-based month `m` of a year, leap or not.
pub open spec fn month_len(m: int, leap: bool) -> int {
    if m == 1 {
        if leap {
            29
        } else {
            28
        }
    } else if m == 3 || m == 5 || m == 8 || m == 10 {
        30
    } else {
        31
    }
}

/// Days of the months before the zero-based month `m`.
pub open spec fn months_before(m: int, leap: bool) -> int
    decreases m,
{
    if m <= 0 {
        0
    } else {
        months_before(m - 1, leap) + month_len(m - 1, leap)
    }
}

fn month_len_exec(m: u64, leap: bool) -> (r: u64)
    requires
        m < 12,
    ensures
        r as int == month_len(m as int, leap),
{
    if m == 1 {
        if leap {
            29
        } else {
            28
        }
    } else if m == 3 || m == 5 || m == 8 || m == 10 {
        30
    } else {
        31
    }
}

/// The zero-based month and one-based day that a day number within a year
/// falls on, walking months from `m`.
pub open spec fn month_day_of(days: int, m: int, leap: bool) -> (int, int)
    decreases 12 - m,
{
    if m >= 11 || days < month_len(m, leap) {
        (m, days + 1)
    } else {
        month_day_of(days - month_len(m, leap), m + 1, leap)
    }
}

/// The zero-based month and one-based day that a day number within a year
/// falls on.
fn days_to_date(days: u64, leap: bool) -> (r: (u64, u64))
    requires
        days < months_before(12, leap),
    ensures
        (r.0 as int, r.1 as int) == month_day_of(days as int, 0, leap),
        0 <= r.0 < 12,
        1 <= r.1 <= month_len(r.0 as int, leap),
        days == months_before(r.0 as int, leap) + r.1 - 1,
{
    let mut days_left = days;
    let mut month: u64 = 0;
    while month < 11 && days_left >= month_len_exec(month, leap)
        invariant
            month < 12,
            days as int == months_before(month as int, leap) + days_left,
            days < months_before(12, leap),
            month_day_of(days as int, 0, leap) == month_day_of(
                days_left as int,
                month as int,
                leap,
            ),
        decreases 12 - month,
    {
        days_left = days_left - month_len_exec(month, leap);
        month = month + 1;
    }
    proof {
        if days_left >= month_len(month as int, leap) {
            assert(month == 11);
            assert(months_before(12, leap) == months_before(11, leap) + month_len(11, leap));
            assert(false);
        }
    }
    (month, days_left + 1)
}

/// The number of days of the year beginning at `year`, counted by walking
/// years from it.
pub open spec fn year_len(year: int) -> int {
    if crate::sched::cron_date::is_leap_year_of(year) {
        366
    } else {
        365
    }
}

/// The year that a day count starting at the given year lands in, with the
/// remaining days.
pub open spec fn split_years(year: int, days: int) -> (int, int)
    decreases days,
{
    if 0 <= days < year_len(year) {
        (year, days)
    } else if days < 0 {
        (year, days)
    } else {
        split_years(year + 1, days - year_len(year))
    }
}

/// The `yyyy-mm-dd hh:mm:ss` rendering of an epoch second count.
pub open spec fn utc_time_string(secs: int) -> Seq<char> {
    let days = secs / 86400;
    let yd = split_years(1970, days);
    let leap = crate::sched::cron_date::is_leap_year_of(yd.0);
    let month0 = month_day_of(yd.1, 0, leap);
    padded_digits_of(yd.0, 4) + seq!['-'] + padded_digits_of(month0.0 + 1, 2) + seq!['-']
        + padded_digits_of(month0.1, 2) + seq![' '] + padded_digits_of((secs / 3600) % 24, 2)
        + seq![':'] + padded_digits_of((secs / 60) % 60, 2) + seq![':'] + padded_digits_of(
        secs % 60,
        2,
    )
}

/// Relies on chrono's `Utc::now`: the number of non-leap seconds since the
/// Unix epoch is non-negative on any host clock set past 1970.
#[verifier::external_body]
fn epoch_seconds() -> (r: u64)
{
    let t = chrono::Utc::now().timestamp();
    if t < 0 {
        0
    } else {
        t as u64
    }
}

/// Format an epoch second count as `yyyy-mm-dd hh:mm:ss`.
pub fn format_epoch_seconds(secs: u64) -> (r: String)
    ensures
        r@ == utc_time_string(secs as int),
{
    let days = secs / 86400;
    proof {
        vstd::arithmetic::div_mod::lemma_div_is_ordered(secs as int, u64::MAX as int, 86400);
    }
    let mut years: u64 = 1970;
    let mut days_left = days;
    loop
        invariant
            years >= 1970,
            days_left <= days,
            years - 1970 <= days - days_left,
            days <= u64::MAX as int / 86400,
            split_years(1970, days as int) == split_years(years as int, days_left as int),
        ensures
            years >= 1970,
            (days_left as int) < year_len(years as int),
            split_years(1970, days as int) == (years as int, days_left as int),
        decreases days_left,
    {
        let days_in_year: u64 = if is_leap_year(years) {
            366
        } else {
            365
        };
        if days_left < days_in_year {
            break ;
        }
        days_left = days_left - days_in_year;
        years = years + 1;
    }
    let leap = is_leap_year(years);
    proof {
        reveal_with_fuel(months_before, 13);
        assert(months_before(12, leap) == 365 + if leap {
            1int
        } else {
            0int
        });
    }
    let (month, day) = days_to_date(days_left, leap);
    let hours = (secs / 3600) % 24;
    let minutes = (secs / 60) % 60;
    let seconds = secs % 60;
    let mut out = to_decimal_padded(years, 4);
    out.push('-');
    let part = to_decimal_padded(month + 1, 2);
    push_chars(&mut out, &part);
    out.push('-');
    let part = to_decimal_padded(day, 2);
    push_chars(&mut out, &part);
    out.push(' ');
    let part = to_decimal_padded(hours, 2);
    push_chars(&mut out, &part);
    out.push(':');
    let part = to_decimal_padded(minutes, 2);
    push_chars(&mut out, &part);
    out.push(':');
    let part = to_decimal_padded(seconds, 2);
    push_chars(&mut out, &part);
    proof {
        assert(out@ =~= utc_time_string(secs as int));
    }
    chars_to_string(&out)
}

/// The current UTC time in the format `yyyy-mm-dd hh:mm:ss`.
pub fn utc_current_time() -> (r: String)
    ensures
        exists|secs: int| secs >= 0 && r@ == #[trigger] utc_time_string(secs),
{
    let secs = epoch_seconds();
    let r = format_epoch_seconds(secs);
    proof {
        assert(secs as int >= 0 && r@ == utc_time_string(secs as int));
    }
    r
}

} // verus!
