use mxf::datetime::DateTime;

#[test]
fn date_time_keeps_its_parts() {
    let t = DateTime::new(2024, 2, 29, 23, 59, 58, 123_456_789).unwrap();
    assert_eq!(t.year(), 2024);
    assert_eq!(t.month(), 2);
    assert_eq!(t.day(), 29);
    assert_eq!(t.hour(), 23);
    assert_eq!(t.minute(), 59);
    assert_eq!(t.second(), 58);
    assert_eq!(t.nano(), 123_456_789);
}

#[test]
fn days_that_do_not_exist_are_refused() {
    assert!(DateTime::new(2023, 2, 29, 0, 0, 0, 0).is_none());
    assert!(DateTime::new(2024, 2, 30, 0, 0, 0, 0).is_none());
    assert!(DateTime::new(2024, 4, 31, 0, 0, 0, 0).is_none());
    assert!(DateTime::new(2024, 0, 1, 0, 0, 0, 0).is_none());
    assert!(DateTime::new(2024, 13, 1, 0, 0, 0, 0).is_none());
    assert!(DateTime::new(2024, 1, 0, 0, 0, 0, 0).is_none());
    assert!(DateTime::new(2024, 1, 32, 0, 0, 0, 0).is_none());
    assert!(DateTime::new(1900, 2, 29, 0, 0, 0, 0).is_none());
    assert!(DateTime::new(2000, 2, 29, 0, 0, 0, 0).is_some());
    assert!(DateTime::new(-4, 2, 29, 0, 0, 0, 0).is_some());
    assert!(DateTime::new(-1, 2, 29, 0, 0, 0, 0).is_none());
    assert!(DateTime::new(0, 2, 29, 0, 0, 0, 0).is_some());
    assert!(DateTime::new(-100, 2, 29, 0, 0, 0, 0).is_none());
    assert!(DateTime::new(-400, 2, 29, 0, 0, 0, 0).is_some());
}

#[test]
fn years_out_of_range_are_refused() {
    assert!(DateTime::new(262142, 12, 31, 0, 0, 0, 0).is_some());
    assert!(DateTime::new(262143, 1, 1, 0, 0, 0, 0).is_none());
    assert!(DateTime::new(-262143, 1, 1, 0, 0, 0, 0).is_some());
    assert!(DateTime::new(-262144, 12, 31, 0, 0, 0, 0).is_none());
}

#[test]
fn times_of_day_that_do_not_exist_are_refused() {
    assert!(DateTime::new(2024, 1, 1, 24, 0, 0, 0).is_none());
    assert!(DateTime::new(2024, 1, 1, 23, 60, 0, 0).is_none());
    assert!(DateTime::new(2024, 1, 1, 23, 59, 60, 0).is_none());
    assert!(DateTime::new(2024, 1, 1, 23, 59, 59, 1_999_999_999).is_some());
    assert!(DateTime::new(2024, 1, 1, 23, 59, 59, 2_000_000_000).is_none());
    assert!(DateTime::new(2024, 1, 1, 23, 59, 58, 1_000_000_000).is_none());
    assert!(DateTime::new(2024, 1, 1, 23, 59, 58, 999_999_999).is_some());
}

#[test]
fn a_month_later_is_the_same_day_or_the_last_of_the_month() {
    let at = |y: i32, m: u32, d: u32| DateTime::new(y, m, d, 6, 7, 8, 9).unwrap();
    assert_eq!(at(2024, 1, 15).month_later(), Some(at(2024, 2, 15)));
    assert_eq!(at(2024, 1, 31).month_later(), Some(at(2024, 2, 29)));
    assert_eq!(at(2023, 1, 29).month_later(), Some(at(2023, 2, 28)));
    assert_eq!(at(2024, 3, 31).month_later(), Some(at(2024, 4, 30)));
    assert_eq!(at(2024, 12, 31).month_later(), Some(at(2025, 1, 31)));
    assert_eq!(at(-1, 12, 1).month_later(), Some(at(0, 1, 1)));
    assert_eq!(at(262142, 12, 1).month_later(), None);
    let leap = DateTime::new(2024, 5, 31, 23, 59, 59, 1_500_000_000).unwrap();
    assert_eq!(
        leap.month_later(),
        Some(DateTime::new(2024, 6, 30, 23, 59, 59, 1_500_000_000).unwrap())
    );
}
