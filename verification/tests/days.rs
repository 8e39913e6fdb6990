use todos_cli::calendar::CalendarDate;
use todos_cli::todos::Todos;

#[test]
fn test_get_days_31_days_month() {
    let todos = Todos::new(2024, 1, Some(String::from("."))); // January
    let days = todos.get_days();
    assert_eq!(days.len(), 31);
    assert_eq!(
        days.first(),
        Some(&CalendarDate::from_ymd_opt(2024, 1, 1).unwrap())
    );
    assert_eq!(
        days.last(),
        Some(&CalendarDate::from_ymd_opt(2024, 1, 31).unwrap())
    );
}

#[test]
fn test_get_days_30_days_month() {
    let todos = Todos::new(2024, 4, Some(String::from("."))); // April
    let days = todos.get_days();
    assert_eq!(days.len(), 30);
    assert_eq!(
        days.first(),
        Some(&CalendarDate::from_ymd_opt(2024, 4, 1).unwrap())
    );
    assert_eq!(
        days.last(),
        Some(&CalendarDate::from_ymd_opt(2024, 4, 30).unwrap())
    );
}

#[test]
fn test_get_days_february_leap_year() {
    let todos = Todos::new(2024, 2, Some(String::from("."))); // Leap year
    let days = todos.get_days();
    assert_eq!(days.len(), 29);
    assert_eq!(
        days.first(),
        Some(&CalendarDate::from_ymd_opt(2024, 2, 1).unwrap())
    );
    assert_eq!(
        days.last(),
        Some(&CalendarDate::from_ymd_opt(2024, 2, 29).unwrap())
    );
}

#[test]
fn test_get_days_february_non_leap_year() {
    let todos = Todos::new(2023, 2, Some(String::from("."))); // Non leap year
    let days = todos.get_days();
    assert_eq!(days.len(), 28);
    assert_eq!(
        days.first(),
        Some(&CalendarDate::from_ymd_opt(2023, 2, 1).unwrap())
    );
    assert_eq!(
        days.last(),
        Some(&CalendarDate::from_ymd_opt(2023, 2, 28).unwrap())
    );
}

#[test]
fn test_get_days_february_century_non_leap() {
    let todos = Todos::new(1900, 2, Some(String::from("."))); // 1900 is not a leap year
    let days = todos.get_days();
    assert_eq!(days.len(), 28);
    assert_eq!(
        days.last(),
        Some(&CalendarDate::from_ymd_opt(1900, 2, 28).unwrap())
    );
}

#[test]
fn test_get_days_february_century_leap() {
    let todos = Todos::new(2000, 2, Some(String::from("."))); // 2000 is a leap year
    let days = todos.get_days();
    assert_eq!(days.len(), 29);
    assert_eq!(
        days.last(),
        Some(&CalendarDate::from_ymd_opt(2000, 2, 29).unwrap())
    );
}

#[test]
fn test_get_days_invalid_month() {
    let todos = Todos::new(2024, 13, Some(String::from("."))); // Invalid month
    let days = todos.get_days();
    assert!(days.is_empty());
}
