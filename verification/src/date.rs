//! The calendar date of a timestamp, in the proleptic Gregorian calendar and
//! in UTC.
//!
//! A date is what it is by its day number: the days between 1970-01-01 and
//! the date. The day of a timestamp is its number of whole days since the
//! epoch, rounded down.

use crate::numeric::{decimal_of, decimal_text, digit_char, digit_str};
use vstd::arithmetic::div_mod::{lemma_hoist_over_denominator, lemma_mod_multiples_vanish};
use vstd::prelude::*;
use vstd::string::*;

verus! {

/// A calendar date.
#[derive(Clone, Copy, Debug, PartialEq, Eq, Structural)]
pub struct Date {
    pub year: i64,
    pub month: u8,
    pub day: u8,
}

/// Whether a year has 366 days.
pub open spec fn is_leap_year(year: int) -> bool {
    year % 4 == 0 && (year % 100 != 0 || year % 400 == 0)
}

/// The number of days of a year.
pub open spec fn days_in_year(year: int) -> int {
    if is_leap_year(year) {
        366
    } else {
        365
    }
}

/// The number of days of a month.
pub open spec fn days_in_month(year: int, month: int) -> int {
    if month == 2 {
        if is_leap_year(year) {
            29
        } else {
            28
        }
    } else if month == 4 || month == 6 || month == 9 || month == 11 {
        30
    } else {
        31
    }
}

/// The days from the first day of year 1 to the first day of `year`.
pub open spec fn days_before_year(year: int) -> int {
    let y = year - 1;
    365 * y + y / 4 - y / 100 + y / 400
}

/// The days from the first day of `year` to the first day of `month`.
pub open spec fn days_before_month(year: int, month: int) -> int
    decreases month,
{
    if month <= 1 {
        0
    } else {
        days_before_month(year, month - 1) + days_in_month(year, month - 1)
    }
}

/// The days from the first day of year 1 to 1970-01-01.
pub open spec fn epoch_day() -> int {
    719162
}

/// The number of seconds of a day.
pub open spec fn seconds_per_day() -> int {
    86400
}

impl Date {
    /// Whether the month and the day exist.
    pub open spec fn valid(self) -> bool {
        1 <= self.month <= 12 && 1 <= self.day <= days_in_month(
            self.year as int,
            self.month as int,
        )
    }

    /// The days from 1970-01-01 to this date.
    pub open spec fn day_number(self) -> int {
        days_before_year(self.year as int) + days_before_month(self.year as int, self.month as int)
            + (self.day - 1) - epoch_day()
    }
}

/// The day of a timestamp: its whole days since the epoch, rounded down.
pub open spec fn day_of_timestamp(timestamp: i64) -> int {
    timestamp as int / seconds_per_day()
}

/// The date of a day: the valid date with that day number.
pub open spec fn date_of_day(day: int) -> Date {
    choose|date: Date| date.valid() && date.day_number() == day
}

/// The year in which the day `n` after the first day of year 1 falls, and
/// the position of the day in that year.
spec fn split_day(n: int) -> (int, int) {
    let era = n / 146097;
    let day_of_era = n % 146097;
    let century = if day_of_era / 36524 > 3 {
        3
    } else {
        day_of_era / 36524
    };
    let day_of_century = day_of_era - century * 36524;
    let quad = day_of_century / 1461;
    let day_of_quad = day_of_century - quad * 1461;
    let year_of_quad = if day_of_quad / 365 > 3 {
        3
    } else {
        day_of_quad / 365
    };
    (400 * era + 100 * century + 4 * quad + year_of_quad + 1, day_of_quad - year_of_quad * 365)
}

/// A year by its place in the cycle of 400 years: the days before it, and
/// whether it is a leap year.
proof fn lemma_year_parts(era: int, century: int, quad: int, year_of_quad: int)
    requires
        0 <= century <= 3,
        0 <= quad <= 24,
        0 <= year_of_quad <= 3,
    ensures
        ({
            let year = 400 * era + 100 * century + 4 * quad + year_of_quad + 1;
            &&& days_before_year(year) == 146097 * era + 36524 * century + 1461 * quad + 365
                * year_of_quad
            &&& is_leap_year(year) == (year_of_quad == 3 && (quad != 24 || century == 3))
        }),
{
    let rest = 100 * century + 4 * quad + year_of_quad;
    let year = 400 * era + rest + 1;
    lemma_hoist_over_denominator(rest, 100 * era, 4);
    lemma_hoist_over_denominator(rest, 4 * era, 100);
    lemma_hoist_over_denominator(rest, era, 400);
    assert((rest + 400 * era) / 4 == rest / 4 + 100 * era);
    assert((rest + 400 * era) / 100 == rest / 100 + 4 * era);
    assert((rest + 400 * era) / 400 == rest / 400 + era);
    assert(rest / 4 == 25 * century + quad);
    assert(rest / 100 == century);
    assert(rest / 400 == 0);
    lemma_mod_multiples_vanish(100 * era, rest + 1, 4);
    lemma_mod_multiples_vanish(4 * era, rest + 1, 100);
    lemma_mod_multiples_vanish(era, rest + 1, 400);
    assert(year % 4 == (rest + 1) % 4);
    assert(year % 100 == (rest + 1) % 100);
    assert(year % 400 == (rest + 1) % 400);
    assert((rest + 1) % 4 == (year_of_quad + 1) % 4);
    assert((rest + 1) % 100 == (4 * quad + year_of_quad + 1) % 100);
}

/// Splitting a day gives the year in which it falls.
proof fn lemma_split_day(n: int)
    ensures
        ({
            let (year, day_of_year) = split_day(n);
            &&& days_before_year(year) + day_of_year == n
            &&& 0 <= day_of_year < days_in_year(year)
        }),
{
    let era = n / 146097;
    let day_of_era = n % 146097;
    let century = if day_of_era / 36524 > 3 {
        3
    } else {
        day_of_era / 36524
    };
    let day_of_century = day_of_era - century * 36524;
    let quad = day_of_century / 1461;
    let day_of_quad = day_of_century - quad * 1461;
    let year_of_quad = if day_of_quad / 365 > 3 {
        3
    } else {
        day_of_quad / 365
    };
    lemma_year_parts(era, century, quad, year_of_quad);
}

/// A day of a year splits into that year and its position in it.
proof fn lemma_split_recovers(year: int, day_of_year: int)
    requires
        0 <= day_of_year < days_in_year(year),
    ensures
        split_day(days_before_year(year) + day_of_year) == (year, day_of_year),
{
    let era = (year - 1) / 400;
    let rest = (year - 1) % 400;
    let century = rest / 100;
    let quad = (rest % 100) / 4;
    let year_of_quad = rest % 4;
    assert(rest == 100 * century + 4 * quad + year_of_quad);
    lemma_year_parts(era, century, quad, year_of_quad);
    let n = days_before_year(year) + day_of_year;
    let day_of_era = 36524 * century + 1461 * quad + 365 * year_of_quad + day_of_year;
    assert(n == 146097 * era + day_of_era);
    assert(0 <= day_of_era < 146097);
    assert(n / 146097 == era && n % 146097 == day_of_era);
    let day_of_century = 1461 * quad + 365 * year_of_quad + day_of_year;
    assert(century < 3 ==> day_of_century < 36524);
    assert(day_of_era == 36524 * century + day_of_century);
    assert((if day_of_era / 36524 > 3 {
        3
    } else {
        day_of_era / 36524
    }) == century);
    let day_of_quad = 365 * year_of_quad + day_of_year;
    assert(0 <= day_of_quad < 1461);
    assert(day_of_century / 1461 == quad);
    assert((if day_of_quad / 365 > 3 {
        3
    } else {
        day_of_quad / 365
    }) == year_of_quad);
}

/// The days before the months of a year, month by month.
proof fn lemma_days_before_months(year: int)
    ensures
        days_before_month(year, 1) == 0,
        days_before_month(year, 2) == 31,
        days_before_month(year, 3) == days_in_year(year) - 306,
        days_before_month(year, 4) == days_in_year(year) - 275,
        days_before_month(year, 5) == days_in_year(year) - 245,
        days_before_month(year, 6) == days_in_year(year) - 214,
        days_before_month(year, 7) == days_in_year(year) - 184,
        days_before_month(year, 8) == days_in_year(year) - 153,
        days_before_month(year, 9) == days_in_year(year) - 122,
        days_before_month(year, 10) == days_in_year(year) - 92,
        days_before_month(year, 11) == days_in_year(year) - 61,
        days_before_month(year, 12) == days_in_year(year) - 31,
{
    reveal_with_fuel(days_before_month, 13);
}

/// Two valid dates with the same day number are the same date.
pub proof fn lemma_day_number_is_injective(a: Date, b: Date)
    requires
        a.valid(),
        b.valid(),
        a.day_number() == b.day_number(),
    ensures
        a == b,
{
    let a_day = days_before_month(a.year as int, a.month as int) + a.day - 1;
    let b_day = days_before_month(b.year as int, b.month as int) + b.day - 1;
    lemma_days_before_months(a.year as int);
    lemma_days_before_months(b.year as int);
    lemma_split_recovers(a.year as int, a_day);
    lemma_split_recovers(b.year as int, b_day);
}

/// The date of a day is valid and has that day number, and no other date
/// does.
pub proof fn lemma_date_of_day(day: int, date: Date)
    requires
        date.valid(),
        date.day_number() == day,
    ensures
        date_of_day(day) == date,
{
    let chosen = date_of_day(day);
    lemma_day_number_is_injective(chosen, date);
}

/// The two digits of a number below 100.
pub open spec fn two_digit_text(n: int) -> Seq<char> {
    seq![digit_char(n / 10), digit_char(n % 10)]
}

/// The numeral of a year from 0 on, with at least four digits.
pub open spec fn padded_year_text(year: nat) -> Seq<char> {
    if year < 10 {
        seq!['0', '0', '0'] + decimal_text(year)
    } else if year < 100 {
        seq!['0', '0'] + decimal_text(year)
    } else if year < 1000 {
        seq!['0'] + decimal_text(year)
    } else {
        decimal_text(year)
    }
}

/// The numeral of a year: four digits from 0000 to 9999, and a sign before
/// the digits of any other year.
pub open spec fn year_text(year: int) -> Seq<char> {
    if year < 0 {
        seq!['-'] + padded_year_text((-year) as nat)
    } else if year > 9999 {
        seq!['+'] + decimal_text(year as nat)
    } else {
        padded_year_text(year as nat)
    }
}

/// The text of a date: year, month and day, with hyphens between them.
pub open spec fn date_text(date: Date) -> Seq<char> {
    year_text(date.year as int) + seq!['-'] + two_digit_text(date.month as int) + seq!['-']
        + two_digit_text(date.day as int)
}

/// The text of the date of a timestamp.
pub open spec fn timestamp_date_text(timestamp: i64) -> Seq<char> {
    date_text(date_of_day(day_of_timestamp(timestamp)))
}

/// The number of days of a month, in a year that is a leap year or not.
fn month_length(leap: bool, month: u8) -> (days: u8)
    ensures
        forall|year: int| is_leap_year(year) == leap ==> days == days_in_month(year, month as int),
{
    if month == 2 {
        if leap {
            29
        } else {
            28
        }
    } else if month == 4 || month == 6 || month == 9 || month == 11 {
        30
    } else {
        31
    }
}

/// The year in which the day of a timestamp falls, the position of the day
/// in that year, and whether the year is a leap year.
fn year_of_timestamp(timestamp: i64) -> (parts: (i64, u16, bool))
    ensures
        split_day(day_of_timestamp(timestamp) + epoch_day()) == (parts.0 as int, parts.1 as int),
        parts.2 == is_leap_year(parts.0 as int),
{
    // Whole cycles of 400 years are added first, so that the divisions that
    // follow are of numbers that are not negative.
    let cycles: i128 = 1_000_000_000;
    let shifted: i128 = timestamp as i128 + 86400 * 146097 * cycles;
    let day: i128 = shifted / 86400;
    let n: i128 = day + 719162;
    let ghost true_n = day_of_timestamp(timestamp) + epoch_day();
    proof {
        lemma_hoist_over_denominator(timestamp as int, 146097 * cycles, 86400);
        assert(day == day_of_timestamp(timestamp) + 146097 * cycles);
        assert(n == true_n + 146097 * cycles);
    }
    let era: i128 = n / 146097;
    let day_of_era: i128 = n % 146097;
    proof {
        lemma_hoist_over_denominator(true_n, cycles as int, 146097);
        lemma_mod_multiples_vanish(cycles as int, true_n, 146097);
        assert(true_n / 146097 == era - cycles);
        assert(true_n % 146097 == day_of_era);
    }
    let century: i128 = if day_of_era / 36524 > 3 {
        3
    } else {
        day_of_era / 36524
    };
    let day_of_century: i128 = day_of_era - century * 36524;
    let quad: i128 = day_of_century / 1461;
    let day_of_quad: i128 = day_of_century - quad * 1461;
    let year_of_quad: i128 = if day_of_quad / 365 > 3 {
        3
    } else {
        day_of_quad / 365
    };
    let day_of_year: i128 = day_of_quad - year_of_quad * 365;
    let year: i128 = 400 * (era - cycles) + 100 * century + 4 * quad + year_of_quad + 1;
    let leap = year_of_quad == 3 && (quad != 24 || century == 3);
    proof {
        lemma_year_parts(era - cycles, century as int, quad as int, year_of_quad as int);
    }
    (year as i64, day_of_year as u16, leap)
}

/// The month and the day of the month of a day of a year.
fn month_of_year_day(leap: bool, day_of_year: u16, Ghost(year): Ghost<int>) -> (parts: (u8, u8))
    requires
        is_leap_year(year) == leap,
        day_of_year < days_in_year(year),
    ensures
        1 <= parts.0 <= 12,
        1 <= parts.1 <= days_in_month(year, parts.0 as int),
        days_before_month(year, parts.0 as int) + parts.1 - 1 == day_of_year,
{
    proof {
        lemma_days_before_months(year);
    }
    let mut month: u8 = 1;
    let mut rest: u16 = day_of_year;
    while month < 12 && rest >= month_length(leap, month) as u16
        invariant
            1 <= month <= 12,
            is_leap_year(year) == leap,
            days_before_month(year, month as int) + rest == day_of_year,
            day_of_year < days_in_year(year),
            days_before_month(year, 12) == days_in_year(year) - 31,
        decreases 12 - month,
    {
        rest = rest - month_length(leap, month) as u16;
        month = month + 1;
    }
    (month, (rest + 1) as u8)
}

/// The calendar date, in UTC, of a timestamp in seconds since the epoch.
pub fn date_of_timestamp(timestamp: i64) -> (date: Date)
    ensures
        date.valid(),
        date.day_number() == day_of_timestamp(timestamp),
        date == date_of_day(day_of_timestamp(timestamp)),
{
    let (year, day_of_year, leap) = year_of_timestamp(timestamp);
    proof {
        lemma_split_day(day_of_timestamp(timestamp) + epoch_day());
    }
    let (month, day) = month_of_year_day(leap, day_of_year, Ghost(year as int));
    let date = Date { year, month, day };
    proof {
        lemma_date_of_day(day_of_timestamp(timestamp), date);
    }
    date
}

/// The text of a date.
pub fn format_date(date: Date) -> (text: String)
    requires
        date.valid(),
    ensures
        text@ == date_text(date),
{
    proof {
        reveal_strlit("-");
        reveal_strlit("+");
        reveal_strlit("0");
        reveal_strlit("00");
        reveal_strlit("000");
        reveal_strlit("");
    }
    let mut text = if date.year < 0 {
        String::from_str("-")
    } else if date.year > 9999 {
        String::from_str("+")
    } else {
        String::from_str("")
    };
    let size: u64 = if date.year < 0 {
        (-(date.year as i128)) as u64
    } else {
        date.year as u64
    };
    if date.year <= 9999 {
        if size < 10 {
            text.append("000");
        } else if size < 100 {
            text.append("00");
        } else if size < 1000 {
            text.append("0");
        }
    }
    let digits = decimal_of(size);
    text.append(digits.as_str());
    text.append("-");
    text.append(digit_str(date.month / 10));
    text.append(digit_str(date.month % 10));
    text.append("-");
    text.append(digit_str(date.day / 10));
    text.append(digit_str(date.day % 10));
    assert(text@ =~= date_text(date));
    text
}

/// The calendar date, in UTC, of a timestamp in seconds since the epoch, as
/// text: 2023-11-14 for 1700000000.
pub fn convert_to_date(timestamp: i64) -> (text: String)
    ensures
        text@ == timestamp_date_text(timestamp),
{
    format_date(date_of_timestamp(timestamp))
}

} // verus!
