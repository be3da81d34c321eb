use lool::sched::cron_date::get_days_from_month;
use lool::sched::{LoolDate, TimeUnit, Weekday};

#[test]
fn test_get_days_from_month() {
    assert_eq!(get_days_from_month(2024, 1), 31);
    assert_eq!(get_days_from_month(2024, 2), 29);
    assert_eq!(get_days_from_month(2024, 3), 31);
    assert_eq!(get_days_from_month(2024, 4), 30);
    assert_eq!(get_days_from_month(2024, 5), 31);
    assert_eq!(get_days_from_month(2024, 6), 30);
    assert_eq!(get_days_from_month(2024, 7), 31);
    assert_eq!(get_days_from_month(2024, 8), 31);
    assert_eq!(get_days_from_month(2024, 9), 30);
    assert_eq!(get_days_from_month(2024, 10), 31);
    assert_eq!(get_days_from_month(2024, 11), 30);
    assert_eq!(get_days_from_month(2024, 12), 31);
}

#[test]
fn test_set_day() {
    let mut date = LoolDate::new(2024, 1, 1, 0, 0, 0);
    date.set_day(31);
    assert_eq!(date.day(), 31);
    assert_eq!(date.month(), 1);
    assert_eq!(date.year(), 2024);

    date.set_day(1);
    assert_eq!(date.day(), 1);
    assert_eq!(date.month(), 1);
    assert_eq!(date.year(), 2024);
}

#[test]
fn test_set_day_invalid_values() {
    let mut date = LoolDate::new(2024, 1, 1, 0, 0, 0);
    date.set_day(35);
    assert_eq!(date.day(), 31);
    assert_eq!(date.month(), 1);
    assert_eq!(date.year(), 2024);

    date.set_day(0);
    assert_eq!(date.day(), 1);
    assert_eq!(date.month(), 1);
    assert_eq!(date.year(), 2024);

    let mut date = LoolDate::new(2024, 2, 1, 0, 0, 0);
    date.set_day(30);
    assert_eq!(date.day(), 29);
    assert_eq!(date.month(), 2);
    assert_eq!(date.year(), 2024);
}

#[test]
fn test_set_month() {
    let mut date = LoolDate::new(2024, 1, 1, 0, 0, 0);
    date.set_month(12);
    assert_eq!(date.month(), 12);

    date.set_month(13);
    assert_eq!(date.month(), 12);

    date.set_month(1);
    assert_eq!(date.month(), 1);
}

#[test]
fn test_set_month_invalid_values() {
    let mut date = LoolDate::new(2024, 1, 10, 0, 0, 0);
    date.set_month(13);
    assert_eq!(date.month(), 12);
    assert_eq!(date.year(), 2024);
    assert_eq!(date.day(), 10);

    date.set_month(0);
    assert_eq!(date.month(), 1);
    assert_eq!(date.year(), 2024);
    assert_eq!(date.day(), 10);
}

#[test]
fn test_set_month_leap_years() {
    let mut date = LoolDate::new(2023, 1, 29, 0, 0, 0);
    date.set_month(2);
    assert_eq!(date.month(), 2);
    assert_eq!(date.year(), 2023);
    assert_eq!(date.day(), 28); // 2023 is not a leap year so, can't keep the original 29

    let mut date = LoolDate::new(2024, 1, 29, 0, 0, 0);
    date.set_month(2);
    assert_eq!(date.month(), 2);
    assert_eq!(date.year(), 2024);
    assert_eq!(date.day(), 29); // 2024 is a leap year so, 29 is a valid day
}

#[test]
fn test_set_month_month_overflow() {
    let mut date = LoolDate::new(2024, 1, 31, 0, 0, 0);
    date.set_month(4);
    assert_eq!(date.month(), 4);
    assert_eq!(date.year(), 2024);
    assert_eq!(date.day(), 30); // since april has 30 days, it cant keep the original 31

    let mut date = LoolDate::new(2024, 1, 31, 0, 0, 0);
    date.set_month(8);
    assert_eq!(date.month(), 8);
    assert_eq!(date.year(), 2024);
    assert_eq!(date.day(), 31); // august has 31 days, so it can keep the original 31

    let mut date = LoolDate::new(2024, 1, 31, 0, 0, 0);
    date.set_month(11);
    assert_eq!(date.month(), 11);
    assert_eq!(date.year(), 2024);
    assert_eq!(date.day(), 30); // november has 30 days, so it cant keep the original 31
}

#[test]
fn test_set_year() {
    let mut date = LoolDate::new(2024, 1, 1, 0, 0, 0);
    date.set_year(2021);
    assert_eq!(date.year(), 2021);
    assert_eq!(date.month(), 1);
    assert_eq!(date.day(), 1);

    date.set_year(2050);
    assert_eq!(date.year(), 2050);
    assert_eq!(date.month(), 1);
    assert_eq!(date.day(), 1);

    date.set_year(-5);
    assert_eq!(date.year(), -5);
    assert_eq!(date.month(), 1);
    assert_eq!(date.day(), 1);
}

#[test]
fn test_set_year_leap_years() {
    let mut date = LoolDate::new(2024, 2, 29, 0, 0, 0);
    date.set_year(2023);
    assert_eq!(date.year(), 2023);
    assert_eq!(date.month(), 2);
    assert_eq!(date.day(), 28); // 2023 is not a leap year so, can't keep the original 29

    let mut date = LoolDate::new(2023, 2, 28, 0, 0, 0);
    date.set_year(2024);
    assert_eq!(date.year(), 2024);
    assert_eq!(date.month(), 2);
    assert_eq!(date.day(), 28);
}

#[test]
fn add_units_roll_over_correctly() {
    let mut date = LoolDate::new(2023, 12, 31, 23, 59, 59);
    date.add_second();
    assert_eq!(date, LoolDate::new(2024, 1, 1, 0, 0, 0));

    let mut date = LoolDate::new(2024, 2, 28, 10, 30, 0);
    date.add_day();
    assert_eq!(date, LoolDate::new(2024, 2, 29, 0, 0, 0));
    date.add_day();
    assert_eq!(date, LoolDate::new(2024, 3, 1, 0, 0, 0));

    let mut date = LoolDate::new(2024, 12, 5, 10, 30, 0);
    date.add_month();
    assert_eq!(date, LoolDate::new(2025, 1, 1, 0, 0, 0));

    let mut date = LoolDate::new(2024, 4, 7, 16, 15, 5);
    date.add_hour();
    assert_eq!(date, LoolDate::new(2024, 4, 7, 17, 0, 0));

    let mut date = LoolDate::new(2024, 4, 7, 16, 59, 5);
    date.add_minute();
    assert_eq!(date, LoolDate::new(2024, 4, 7, 17, 0, 0));

    let mut date = LoolDate::new(2024, 4, 7, 16, 15, 5);
    date.add_year();
    assert_eq!(date, LoolDate::new(2025, 1, 1, 0, 0, 0));
}

#[test]
fn subs_units_borrow_correctly() {
    let mut date = LoolDate::new(2024, 1, 1, 0, 0, 0);
    date.subs_second();
    assert_eq!(date, LoolDate::new(2023, 12, 31, 23, 59, 59));

    let mut date = LoolDate::new(2024, 3, 31, 12, 0, 0);
    date.subs_month();
    assert_eq!(date, LoolDate::new(2024, 2, 29, 12, 0, 0));

    let mut date = LoolDate::new(2024, 2, 29, 12, 0, 0);
    date.subs_year();
    assert_eq!(date, LoolDate::new(2023, 2, 28, 12, 0, 0));

    let mut date = LoolDate::new(2024, 3, 1, 12, 0, 0);
    date.subs_day();
    assert_eq!(date, LoolDate::new(2024, 2, 29, 12, 0, 0));

    let mut date = LoolDate::new(2024, 4, 7, 0, 15, 5);
    date.subs_hour();
    assert_eq!(date, LoolDate::new(2024, 4, 6, 23, 15, 5));

    let mut date = LoolDate::new(2024, 4, 7, 16, 0, 5);
    date.subs_minute();
    assert_eq!(date, LoolDate::new(2024, 4, 7, 15, 59, 5));
}

#[test]
fn weekday_matches_the_calendar() {
    // 2024-04-07 was a Sunday
    let date = LoolDate::new(2024, 4, 7, 0, 0, 0);
    assert_eq!(date.weekday_from_sunday(), 0);
    assert_eq!(date.weekday_from_monday(), 6);
    assert_eq!(date.weekday(), Weekday::Sun);

    // 2024-04-10 was a Wednesday
    let date = LoolDate::new(2024, 4, 10, 0, 0, 0);
    assert_eq!(date.weekday_from_sunday(), 3);
    assert_eq!(date.weekday_from_monday(), 2);
    assert_eq!(date.weekday(), Weekday::Wed);

    // 2000-01-01 was a Saturday
    let date = LoolDate::new(2000, 1, 1, 0, 0, 0);
    assert_eq!(date.weekday_from_sunday(), 6);
    assert_eq!(date.weekday(), Weekday::Sat);
}

#[test]
fn set_start_of_aligns_each_unit() {
    let mut date = LoolDate::new(2024, 4, 7, 16, 15, 5);
    date.set_start_of(TimeUnit::Hour);
    assert_eq!(date, LoolDate::new(2024, 4, 7, 16, 0, 0));

    let mut date = LoolDate::new(2024, 4, 7, 16, 15, 5);
    date.set_start_of(TimeUnit::Day);
    assert_eq!(date, LoolDate::new(2024, 4, 7, 0, 0, 0));

    let mut date = LoolDate::new(2024, 4, 7, 16, 15, 5);
    date.set_start_of(TimeUnit::Year);
    assert_eq!(date, LoolDate::new(2024, 1, 1, 0, 0, 0));
}

#[test]
fn sub_second_setters_clamp() {
    let mut date = LoolDate::new(2024, 4, 7, 16, 15, 5);
    date.set_nanos(1_500_000_000);
    assert_eq!(date.nanos(), 1_500_000_000);
    date.set_nanos(2_100_000_000);
    assert_eq!(date.nanos(), 1_999_999_999);
    date.set_micros(1_234);
    assert_eq!(date.micros(), 1_234);
    assert_eq!(date.nanos(), 1_234_000);
    date.set_millis(42);
    assert_eq!(date.millis(), 42);
    date.set_hms(25, 61, 61);
    assert_eq!(date.hour(), 0);
    assert_eq!(date.minute(), 0);
    assert_eq!(date.second(), 0);

    let date = LoolDate::new(2024, 1, 31, 0, 0, 0);
    assert!(date.is_last_day_of_month());
    assert!(date.is_last_weekday_of_month());
    let date = LoolDate::new(2024, 1, 20, 0, 0, 0);
    assert!(!date.is_last_day_of_month());
    assert!(!date.is_last_weekday_of_month());
}
