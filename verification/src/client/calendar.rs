//! Proleptic Gregorian calendar arithmetic for token expiry dates.

use vstd::arithmetic::div_mod::{
    lemma_fundamental_div_mod, lemma_fundamental_div_mod_converse_div,
    lemma_fundamental_div_mod_converse_mod, lemma_mod_multiples_vanish,
};
use vstd::prelude::*;

verus! {

/// Whether `year` is a leap year in the Gregorian calendar.
pub open spec fn is_leap_year(year: int) -> bool {
    (year % 4 == 0 && year % 100 != 0) || year % 400 == 0
}

/// The number of days in `month` of `year`.
pub open spec fn days_in_month(year: int, month: int) -> int {
    if month == 2 {
        if is_leap_year(year) {
            29
        } else {
            28
        }
    } else if month == 4 || month == 6 || month == 9 || month == 11 {
        30
    } else {
        31
    }
}

/// Whether `day-month-year` is a real calendar date.
pub open spec fn valid_date(day: int, month: int, year: int) -> bool {
    1 <= month <= 12 && 1 <= day <= days_in_month(year, month)
}

/// Days from 1970-01-01 to `year-month-day` in the proleptic Gregorian
/// calendar (negative for earlier dates), counted over 400-year eras of
/// 146097 days each, with the year taken to start in March so that the
/// leap day falls last.
pub open spec fn days_from_civil(day: int, month: int, year: int) -> int {
    let y = if month <= 2 {
        year - 1
    } else {
        year
    };
    let era = y / 400;
    let yoe = y - era * 400;
    let mp = if month <= 2 {
        month + 9
    } else {
        month - 3
    };
    let doy = (153 * mp + 2) / 5 + day - 1;
    let doe = yoe * 365 + yoe / 4 - yoe / 100 + doy;
    era * 146097 + doe - 719468
}

/// The unix timestamp of `year-month-day 23:59:59 UTC`.
pub open spec fn end_of_day_unix(day: int, month: int, year: int) -> int {
    days_from_civil(day, month, year) * 86400 + 86399
}

/// Whether `year` is a leap year.
fn is_leap_year_exec(year: i32) -> (b: bool)
    ensures
        b == is_leap_year(year as int),
{
    // Shift by a multiple of 400 so all arithmetic is on non-negative values.
    let shifted: i64 = year as i64 + 4_000_000_000;
    let ys: u64 = shifted as u64;
    proof {
        lemma_mod_multiples_vanish(1_000_000_000, year as int, 4);
        lemma_mod_multiples_vanish(40_000_000, year as int, 100);
        lemma_mod_multiples_vanish(10_000_000, year as int, 400);
        assert(ys as int == year as int + 4_000_000_000);
    }
    (ys % 4 == 0 && ys % 100 != 0) || ys % 400 == 0
}

/// The number of days in `month` of `year`.
fn days_in_month_exec(year: i32, month: u8) -> (d: u8)
    requires
        1 <= month <= 12,
    ensures
        d as int == days_in_month(year as int, month as int),
{
    if month == 2 {
        if is_leap_year_exec(year) {
            29
        } else {
            28
        }
    } else if month == 4 || month == 6 || month == 9 || month == 11 {
        30
    } else {
        31
    }
}

/// Days from 1970-01-01 to the given date.
fn civil_days(day: u8, month: u8, year: i32) -> (r: i64)
    requires
        valid_date(day as int, month as int, year as int),
    ensures
        r as int == days_from_civil(day as int, month as int, year as int),
        -800_000_000_000 <= r <= 800_000_000_000,
{
    let y: i64 = if month <= 2 {
        year as i64 - 1
    } else {
        year as i64
    };
    // Shift by a multiple of 400 so the division is on a non-negative value.
    let z: u64 = (y + 2_400_000_000) as u64;
    let era_z: u64 = z / 400;
    let yoe: u64 = z % 400;
    let era: i64 = era_z as i64 - 6_000_000;
    proof {
        lemma_fundamental_div_mod(z as int, 400);
        assert(y as int == (era as int) * 400 + yoe as int);
        lemma_fundamental_div_mod_converse_div(y as int, 400, era as int, yoe as int);
        lemma_fundamental_div_mod_converse_mod(y as int, 400, era as int, yoe as int);
    }
    let mp: u64 = if month <= 2 {
        month as u64 + 9
    } else {
        month as u64 - 3
    };
    let doy: u64 = (153 * mp + 2) / 5 + day as u64 - 1;
    let doe: u64 = yoe * 365 + yoe / 4 - yoe / 100 + doy;
    era * 146097 + (doe as i64) - 719468
}

/// The unix timestamp of `year-month-day 23:59:59 UTC`, or `None` when the
/// triple is not a real calendar date.
pub fn expiry_timestamp(day: u8, month: u8, year: i32) -> (r: Option<i64>)
    ensures
        r is Some <==> valid_date(day as int, month as int, year as int),
        match r {
            Some(t) => t as int == end_of_day_unix(day as int, month as int, year as int),
            None => true,
        },
{
    if month < 1 || month > 12 {
        return None;
    }
    if day < 1 || day > days_in_month_exec(year, month) {
        return None;
    }
    let days = civil_days(day, month, year);
    Some(days * 86400 + 86399)
}

} // verus!
