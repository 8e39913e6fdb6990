//! The proleptic Gregorian calendar: leap years and the length of a month.

use vstd::prelude::*;
use vstd::arithmetic::div_mod::{lemma_fundamental_div_mod, lemma_mod_multiples_basic};
use crate::text::zero_padded;

verus! {

/// Whether `year` is a leap year: divisible by 4 and not by 100, or divisible by 400.
pub open spec fn is_leap_year(year: int) -> bool {
    (year % 4 == 0 && year % 100 != 0) || year % 400 == 0
}

/// Whether `month` is one of the seven months of 31 days.
pub open spec fn is_long_month(month: int) -> bool {
    month == 1 || month == 3 || month == 5 || month == 7 || month == 8 || month == 10 || month
        == 12
}

/// Whether `month` is one of the four months of 30 days.
pub open spec fn is_short_month(month: int) -> bool {
    month == 4 || month == 6 || month == 9 || month == 11
}

/// The number of days of `month` in `year`; 0 where `month` is no month.
pub open spec fn days_in_month(year: int, month: int) -> int {
    if is_long_month(month) {
        31
    } else if is_short_month(month) {
        30
    } else if month == 2 {
        if is_leap_year(year) {
            29
        } else {
            28
        }
    } else {
        0
    }
}

/// The first year that chrono's `NaiveDate` can hold.
pub const MIN_YEAR: i32 = -262143;

/// The last year that chrono's `NaiveDate` can hold.
pub const MAX_YEAR: i32 = 262142;

/// Whether chrono can hold a date of `year`.
pub open spec fn year_supported(year: int) -> bool {
    MIN_YEAR <= year <= MAX_YEAR
}

/// Whether the day exists: a year that chrono can hold, a month from 1 to
/// 12, and a day from 1 to the length of that month.
pub open spec fn date_exists(year: int, month: int, day: int) -> bool {
    year_supported(year) && 1 <= month <= 12 && 1 <= day <= days_in_month(year, month)
}

/// The ISO 8601 number of the weekday on which a day falls, Monday being 1
/// and Sunday 7, as chrono computes it. It has a meaning only for a day that
/// exists.
pub uninterp spec fn iso_weekday(year: int, month: int, day: int) -> int;

/// The year of a date as chrono writes it for `%Y`: four digits, filled up
/// with zeros, for the years 0 to 9999; for any other year a sign, `+` or
/// `-`, and then at least four digits.
pub open spec fn stamp_year_text(year: int) -> Seq<char> {
    if 0 <= year <= 9999 {
        zero_padded(year as nat, 4)
    } else if year > 9999 {
        seq!['+'] + zero_padded(year as nat, 4)
    } else {
        seq!['-'] + zero_padded((-year) as nat, 4)
    }
}

/// What a date is: its year, its month from 1 to 12, and its day of the month.
pub ghost struct DateView {
    pub year: int,
    pub month: int,
    pub day: int,
}

impl DateView {
    /// The date in one word, such as `20240201`: the year, then the month
    /// and the day in two digits each.
    pub open spec fn stamp(self) -> Seq<char> {
        stamp_year_text(self.year) + zero_padded(self.month as nat, 2) + zero_padded(
            self.day as nat,
            2,
        )
    }
}

/// One day of the calendar. Every value is a day that exists.
#[derive(Clone, Copy, Debug, PartialEq, Eq, Structural)]
pub struct CalendarDate {
    year: i32,
    month: u32,
    day: u32,
}

impl View for CalendarDate {
    type V = DateView;

    closed spec fn view(&self) -> DateView {
        DateView { year: self.year as int, month: self.month as int, day: self.day as int }
    }
}

/// Calls chrono's `NaiveDate::from_ymd_opt` and says whether it made a date.
/// Its documentation gives `None` for a day that does not exist, for a month
/// or a day that is no month or day, and for a year out of its range; the
/// range is that of its constants `MIN_YEAR` and `MAX_YEAR`.
#[verifier::external_body]
fn chrono_has_date(year: i32, month: u32, day: u32) -> (found: bool)
    ensures
        found == date_exists(year as int, month as int, day as int),
{
    chrono::NaiveDate::from_ymd_opt(year, month, day).is_some()
}

/// Makes the date with chrono's `NaiveDate::from_ymd_opt` and asks for its
/// `weekday().number_from_monday()`. There is a number where the day exists,
/// and none otherwise; chrono documents the number as the ISO 8601 one, from
/// 1 for Monday to 7 for Sunday.
#[verifier::external_body]
fn chrono_weekday(year: i32, month: u32, day: u32) -> (number: Option<u32>)
    ensures
        number.is_some() == date_exists(year as int, month as int, day as int),
        number matches Some(n) ==> n == iso_weekday(year as int, month as int, day as int) && 1
            <= n <= 7,
{
    let date = chrono::NaiveDate::from_ymd_opt(year, month, day)?;
    Some(chrono::Datelike::weekday(&date).number_from_monday())
}

/// Makes the date with chrono's `NaiveDate::from_ymd_opt` and writes it with
/// `format` and `to_string`. There is a text where the day exists, and none
/// otherwise. The contract covers the one pattern `%Y%m%d`, for which
/// chrono documents the year zero-padded to four digits, with a sign outside
/// 0 to 9999, and month and day zero-padded to two digits each.
#[verifier::external_body]
fn chrono_format(year: i32, month: u32, day: u32, pattern: &str) -> (text: Option<String>)
    requires
        pattern@ == "%Y%m%d"@,
    ensures
        text.is_some() == date_exists(year as int, month as int, day as int),
        text matches Some(t) ==> t@ == (DateView {
            year: year as int,
            month: month as int,
            day: day as int,
        }).stamp(),
{
    let date = chrono::NaiveDate::from_ymd_opt(year, month, day)?;
    Some(date.format(pattern).to_string())
}

impl CalendarDate {
    #[verifier::type_invariant]
    spec fn well_formed(self) -> bool {
        date_exists(self.year as int, self.month as int, self.day as int)
    }

    /// The date of the given year, month and day, where that day exists.
    pub fn from_ymd_opt(year: i32, month: u32, day: u32) -> (date: Option<CalendarDate>)
        ensures
            date.is_some() == date_exists(year as int, month as int, day as int),
            date matches Some(d) ==> d@ == (DateView {
                year: year as int,
                month: month as int,
                day: day as int,
            }),
    {
        if chrono_has_date(year, month, day) {
            Some(CalendarDate { year, month, day })
        } else {
            None
        }
    }

    /// The year, one that chrono can hold.
    pub fn year(&self) -> (year: i32)
        ensures
            year == self@.year,
            year_supported(year as int),
    {
        proof {
            use_type_invariant(self);
        }
        self.year
    }

    /// The month, from 1 to 12.
    pub fn month(&self) -> (month: u32)
        ensures
            month == self@.month,
            1 <= month <= 12,
    {
        proof {
            use_type_invariant(self);
        }
        self.month
    }

    /// The day of the month, from 1.
    pub fn day(&self) -> (day: u32)
        ensures
            day == self@.day,
            1 <= day <= days_in_month(self@.year, self@.month),
    {
        proof {
            use_type_invariant(self);
        }
        self.day
    }

    /// The ISO 8601 number of the weekday, from 1 for Monday to 7 for Sunday.
    pub fn weekday(&self) -> (number: u32)
        ensures
            number == iso_weekday(self@.year, self@.month, self@.day),
            1 <= number <= 7,
    {
        proof {
            use_type_invariant(self);
        }
        match chrono_weekday(self.year, self.month, self.day) {
            Some(number) => number,
            None => unreached(),
        }
    }

    /// The date in one word, such as `20240201`.
    pub fn yyyymmdd(&self) -> (text: String)
        ensures
            text@ == self@.stamp(),
    {
        proof {
            use_type_invariant(self);
        }
        match chrono_format(self.year, self.month, self.day, "%Y%m%d") {
            Some(text) => text,
            None => unreached(),
        }
    }
}

/// A number and its negation are multiples of the same divisors.
proof fn lemma_multiple_negated(value: int, divisor: int)
    requires
        divisor > 0,
    ensures
        (value % divisor == 0) <==> ((-value) % divisor == 0),
{
    if value % divisor == 0 {
        lemma_fundamental_div_mod(value, divisor);
        assert(-value == (-(value / divisor)) * divisor) by (nonlinear_arith)
            requires
                value == divisor * (value / divisor),
        ;
        lemma_mod_multiples_basic(-(value / divisor), divisor);
    }
    if (-value) % divisor == 0 {
        lemma_fundamental_div_mod(-value, divisor);
        assert(value == (-((-value) / divisor)) * divisor) by (nonlinear_arith)
            requires
                -value == divisor * ((-value) / divisor),
        ;
        lemma_mod_multiples_basic(-((-value) / divisor), divisor);
    }
}

/// Whether `divisor` divides `value`, for negative values too.
fn is_multiple(value: i32, divisor: i32) -> (multiple: bool)
    requires
        divisor > 0,
    ensures
        multiple == (value as int % divisor as int == 0),
{
    proof {
        lemma_multiple_negated(value as int, divisor as int);
    }
    value % divisor == 0
}

/// Whether `year` is a leap year.
pub fn leap_year(year: i32) -> (leap: bool)
    ensures
        leap == is_leap_year(year as int),
{
    (is_multiple(year, 4) && !is_multiple(year, 100)) || is_multiple(year, 400)
}

/// The number of days of `month` in `year`; 0 where `month` is outside 1 to 12.
pub fn month_length(year: i32, month: u32) -> (days: u32)
    ensures
        days == days_in_month(year as int, month as int),
{
    match month {
        1 | 3 | 5 | 7 | 8 | 10 | 12 => 31,
        4 | 6 | 9 | 11 => 30,
        2 => if leap_year(year) {
            29
        } else {
            28
        },
        _ => 0,
    }
}

} // verus!
