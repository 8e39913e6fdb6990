use todos_cli::calendar::{leap_year, month_length, MAX_YEAR, MIN_YEAR};
use todos_cli::{CalendarDate, Todos};

#[test]
fn leap_years_follow_the_gregorian_rule() {
    assert!(leap_year(2024));
    assert!(leap_year(2000));
    assert!(!leap_year(2023));
    assert!(!leap_year(1900));
    assert!(leap_year(0));
    assert!(leap_year(-4));
    assert!(!leap_year(-1));
    assert!(!leap_year(-100));
    assert!(leap_year(-400));
    assert!(!leap_year(i32::MAX));
    assert!(leap_year(i32::MIN));
}

#[test]
fn month_lengths() {
    let expected = [31, 29, 31, 30, 31, 30, 31, 31, 30, 31, 30, 31];
    for month in 1..=12u32 {
        assert_eq!(month_length(2024, month), expected[month as usize - 1]);
    }
    assert_eq!(month_length(2023, 2), 28);
    assert_eq!(month_length(1900, 2), 28);
    assert_eq!(month_length(2000, 2), 29);
    assert_eq!(month_length(2024, 0), 0);
    assert_eq!(month_length(2024, 13), 0);
    assert_eq!(month_length(2024, u32::MAX), 0);
}

#[test]
fn every_long_month_has_31_days() {
    for year in [-262143, -1, 0, 1900, 2000, 2023, 2024, 262142] {
        for month in [1u32, 3, 5, 7, 8, 10, 12] {
            let days = Todos::new(year, month, None).get_days();
            assert_eq!(days.len(), 31);
            assert_eq!(
                days.first(),
                Some(&CalendarDate::from_ymd_opt(year, month, 1).unwrap())
            );
            assert_eq!(
                days.last(),
                Some(&CalendarDate::from_ymd_opt(year, month, 31).unwrap())
            );
        }
    }
}

#[test]
fn every_short_month_has_30_days() {
    for year in [1900, 2000, 2023, 2024] {
        for month in [4u32, 6, 9, 11] {
            let days = Todos::new(year, month, None).get_days();
            assert_eq!(days.len(), 30);
            assert_eq!(days.last().unwrap().day(), 30);
        }
    }
}

#[test]
fn days_are_contiguous_and_ascending() {
    let days = Todos::new(2024, 2, None).get_days();
    for (index, date) in days.iter().enumerate() {
        assert_eq!(date.year(), 2024);
        assert_eq!(date.month(), 2);
        assert_eq!(date.day(), index as u32 + 1);
    }
}

#[test]
fn months_outside_the_year_have_no_days() {
    for month in [0u32, 13, 14, 100, u32::MAX] {
        assert!(Todos::new(2024, month, None).get_days().is_empty());
    }
}

#[test]
fn years_that_chrono_cannot_hold_have_no_days() {
    assert!(Todos::new(300000, 1, None).get_days().is_empty());
    assert!(Todos::new(262143, 1, None).get_days().is_empty());
    assert!(Todos::new(-262144, 1, None).get_days().is_empty());
    assert!(Todos::new(i32::MIN, 2, None).get_days().is_empty());
    assert!(Todos::new(i32::MAX, 2, None).get_days().is_empty());
}

#[test]
fn dates_exist_within_the_years_of_chrono() {
    assert_eq!(MIN_YEAR, -262143);
    assert_eq!(MAX_YEAR, 262142);
    assert!(CalendarDate::from_ymd_opt(MAX_YEAR, 12, 31).is_some());
    assert!(CalendarDate::from_ymd_opt(MAX_YEAR + 1, 1, 1).is_none());
    assert!(CalendarDate::from_ymd_opt(MIN_YEAR, 1, 1).is_some());
    assert!(CalendarDate::from_ymd_opt(MIN_YEAR - 1, 12, 31).is_none());
}

#[test]
fn dates_that_do_not_exist_are_refused() {
    assert!(CalendarDate::from_ymd_opt(2023, 2, 29).is_none());
    assert!(CalendarDate::from_ymd_opt(2024, 2, 29).is_some());
    assert!(CalendarDate::from_ymd_opt(2024, 2, 30).is_none());
    assert!(CalendarDate::from_ymd_opt(2023, 4, 31).is_none());
    assert!(CalendarDate::from_ymd_opt(2024, 0, 1).is_none());
    assert!(CalendarDate::from_ymd_opt(2024, 13, 1).is_none());
    assert!(CalendarDate::from_ymd_opt(2024, 1, 0).is_none());
    assert!(CalendarDate::from_ymd_opt(2024, 1, 32).is_none());
    assert!(CalendarDate::from_ymd_opt(-4, 2, 29).is_some());
}

#[test]
fn date_holds_its_parts() {
    let date = CalendarDate::from_ymd_opt(2024, 2, 29).unwrap();
    assert_eq!(date.year(), 2024);
    assert_eq!(date.month(), 2);
    assert_eq!(date.day(), 29);
}

#[test]
fn weekdays_count_from_monday() {
    let expected = [4u32, 5, 6, 7, 1, 2, 3];
    for day in 1..=7u32 {
        let date = CalendarDate::from_ymd_opt(2024, 2, day).unwrap();
        assert_eq!(date.weekday(), expected[day as usize - 1]);
    }
    assert_eq!(CalendarDate::from_ymd_opt(1970, 1, 1).unwrap().weekday(), 4);
    assert_eq!(CalendarDate::from_ymd_opt(2000, 1, 1).unwrap().weekday(), 6);
}

#[test]
fn dates_are_written_in_eight_digits() {
    let stamp = |year, month, day| CalendarDate::from_ymd_opt(year, month, day).unwrap().yyyymmdd();
    assert_eq!(stamp(2024, 2, 1), "20240201");
    assert_eq!(stamp(2024, 12, 31), "20241231");
    assert_eq!(stamp(5, 1, 1), "00050101");
    assert_eq!(stamp(0, 1, 1), "00000101");
    assert_eq!(stamp(999, 10, 9), "09991009");
    assert_eq!(stamp(9999, 12, 31), "99991231");
}

#[test]
fn years_outside_four_digits_are_written_with_a_sign() {
    let stamp = |year, month, day| CalendarDate::from_ymd_opt(year, month, day).unwrap().yyyymmdd();
    assert_eq!(stamp(10000, 1, 1), "+100000101");
    assert_eq!(stamp(12345, 6, 7), "+123450607");
    assert_eq!(stamp(262142, 12, 31), "+2621421231");
    assert_eq!(stamp(-1, 1, 1), "-00010101");
    assert_eq!(stamp(-5, 2, 3), "-00050203");
    assert_eq!(stamp(-12345, 1, 1), "-123450101");
}
