//! The request for one month, and the days that it covers.

use vstd::prelude::*;
use crate::calendar::{
    days_in_month, is_leap_year, is_long_month, is_short_month, month_length, year_supported,
    CalendarDate, DateView,
};

verus! {

/// The days of `month` in `year`, in order: day 1, day 2 and so on to the
/// last day of the month. There are none where `month` is outside 1 to 12,
/// and none where chrono cannot hold a date of `year`.
pub open spec fn month_days(year: int, month: int) -> Seq<DateView> {
    if year_supported(year) {
        Seq::new(
            days_in_month(year, month) as nat,
            |i: int| DateView { year: year, month: month, day: i + 1 },
        )
    } else {
        Seq::empty()
    }
}

/// What each date of a sequence is.
pub open spec fn date_views(dates: Seq<CalendarDate>) -> Seq<DateView> {
    dates.map_values(|date: CalendarDate| date@)
}

/// The request for one month's file: the year, the month, and the directory
/// that the file is asked to go to, if one was given.
pub struct Todos {
    pub year: i32,
    pub month: u32,
    pub path: Option<String>,
}

impl Todos {
    /// A request with these values. Any month is accepted: one outside 1 to 12
    /// has no days.
    pub fn new(year: i32, month: u32, path: Option<String>) -> (todos: Todos)
        ensures
            todos.year == year,
            todos.month == month,
            todos.path == path,
    {
        Todos { year, month, path }
    }

    /// Every day of the month, in ascending order: one date for each day from
    /// 1 to the length of the month, none where the month is outside 1 to 12,
    /// and none where chrono cannot hold a date of the year.
    pub fn get_days(&self) -> (days: Vec<CalendarDate>)
        ensures
            date_views(days@) == month_days(self.year as int, self.month as int),
            forall|i: int|
                0 <= i < days@.len() ==> (#[trigger] days@[i]@) == (DateView {
                    year: self.year as int,
                    month: self.month as int,
                    day: i + 1,
                }),
            year_supported(self.year as int) && is_long_month(self.month as int) ==> {
                &&& days@.len() == 31
                &&& days@.first()@.day == 1
                &&& days@.last()@.day == 31
            },
            year_supported(self.year as int) && is_short_month(self.month as int) ==> {
                &&& days@.len() == 30
                &&& days@.first()@.day == 1
                &&& days@.last()@.day == 30
            },
            year_supported(self.year as int) && self.month == 2 && is_leap_year(self.year as int)
                ==> {
                &&& days@.len() == 29
                &&& days@.first()@.day == 1
                &&& days@.last()@.day == 29
            },
            year_supported(self.year as int) && self.month == 2 && !is_leap_year(
                self.year as int,
            ) ==> {
                &&& days@.len() == 28
                &&& days@.first()@.day == 1
                &&& days@.last()@.day == 28
            },
            !(1 <= self.month <= 12) ==> days@.len() == 0,
            !year_supported(self.year as int) ==> days@.len() == 0,
    {
        let length: u32 = month_length(self.year, self.month);
        let mut days: Vec<CalendarDate> = Vec::new();
        let mut day: u32 = 1;
        while day <= length
            invariant
                length == days_in_month(self.year as int, self.month as int),
                1 <= day <= length + 1,
                year_supported(self.year as int) ==> days@.len() == day - 1,
                !year_supported(self.year as int) ==> days@.len() == 0,
                forall|i: int|
                    0 <= i < days@.len() ==> (#[trigger] days@[i]@) == (DateView {
                        year: self.year as int,
                        month: self.month as int,
                        day: i + 1,
                    }),
            decreases length + 1 - day,
        {
            match CalendarDate::from_ymd_opt(self.year, self.month, day) {
                Some(date) => {
                    days.push(date);
                },
                None => {},
            }
            day = day + 1;
        }
        assert(date_views(days@) =~= month_days(self.year as int, self.month as int));
        days
    }
}

} // verus!
