use lool::sched::{many, range, ruleset, LoolDate};

#[test]
fn every_day_at_12_and_15() {
    let date = LoolDate::new(2024, 4, 7, 13, 15, 5);

    let mut rules = ruleset();
    rules.hours_rule(many(vec![12, 15]));
    rules.at_minute(0);
    rules.at_second(0);

    let next = rules.next_match_from(&date).unwrap();
    assert_eq!(next, LoolDate::new(2024, 4, 7, 15, 0, 0));

    let next = rules.next_match_from(&next).unwrap();
    assert_eq!(next, LoolDate::new(2024, 4, 8, 12, 0, 0));

    let next = rules.next_match_from(&next).unwrap();
    assert_eq!(next, LoolDate::new(2024, 4, 8, 15, 0, 0));

    let next = rules.next_match_from(&next).unwrap();
    assert_eq!(next, LoolDate::new(2024, 4, 9, 12, 0, 0));

    let next = rules.next_match_from(&next).unwrap();
    assert_eq!(next, LoolDate::new(2024, 4, 9, 15, 0, 0));
}

#[test]
fn recurrence_rules_by_many_each_day_between_9_and_17_at_hour_start() {
    // will start next day because it's already past 17:00:00
    let date = LoolDate::new(2024, 4, 25, 19, 15, 5);

    let mut rules = ruleset();
    rules.hours_rule(range(9, 17, 1));
    rules.at_minute(0);
    rules.at_second(0);

    let mut next = date;
    let initial_day = date.day() + 1;

    for i in 0..18 {
        let day = if i < 9 { initial_day } else { initial_day + 1 };
        let addend = if i < 9 { i } else { i - 9 };

        next = rules.next_match_from(&next).unwrap();
        assert_eq!(next, LoolDate::new(2024, 4, day, 9 + addend, 0, 0));
    }
}

#[test]
fn recurrence_rules_by_range_each_day_between_9_and_17_at_hour_start() {
    // will start next day because it's already past 17:00:00
    let date = LoolDate::new(2024, 4, 25, 19, 15, 5);

    let mut rules = ruleset();
    rules.hours_rule(range(9, 17, 1));
    rules.at_minute(0);
    rules.at_second(0);

    let mut next = date;
    let initial_day = date.day() + 1;

    for i in 0..18 {
        let day = if i < 9 { initial_day } else { initial_day + 1 };
        let addend = if i < 9 { i } else { i - 9 };

        next = rules.next_match_from(&next).unwrap();
        assert_eq!(next, LoolDate::new(2024, 4, day, 9 + addend, 0, 0));
    }
}

#[test]
fn between_10_and_20_seconds() {
    let date = LoolDate::new(2024, 4, 7, 16, 15, 5);

    let mut rules = ruleset();
    rules.seconds_rule(range(10, 20, 1));

    let mut next = date;
    let initial_minute = date.minute();

    for i in 0..20 {
        let addend = if i < 11 { i } else { i - 10 - 1 };
        let minute = if i < 11 { initial_minute } else { initial_minute + 1 };

        next = rules.next_match_from(&next).unwrap();
        assert_eq!(next, LoolDate::new(2024, 4, 7, 16, minute, 10 + addend));
    }
}

#[test]
fn at_second_1_of_each_minute() {
    // second 1 of this minute has passed, so it goes to the next minute
    let date = LoolDate::new(2024, 4, 7, 16, 15, 5);

    let mut rules = ruleset();
    rules.at_second(1);

    let mut next = date;
    let initial_minute = date.minute();

    for i in 0..10 {
        next = rules.next_match_from(&next).unwrap();
        // should match 16:16:01, 16:17:01, 16:18:01, ...
        assert_eq!(next, LoolDate::new(2024, 4, 7, 16, initial_minute + i + 1, 1));
    }
}

#[test]
fn at_hour_1_of_each_day() {
    // hour 1 of this day has passed, so it goes to the next day
    let date = LoolDate::new(2024, 4, 25, 16, 15, 5);

    let mut rules = ruleset();
    rules.at_time(1, 0, 0);

    let mut next = date;
    let mut initial_day = date.day() as i32;
    let mut initial_month = date.month();

    for i in 0..10 {
        next = rules.next_match_from(&next).unwrap();

        if initial_day + i + 1 == 31 {
            initial_day = -i;
            initial_month += 1;
        }

        // should match 2024-04-26 01:00:00, 2024-04-27 01:00:00, ...
        assert_eq!(
            next,
            LoolDate::new(2024, initial_month, (initial_day + i + 1) as u32, 1, 0, 0)
        );
    }
}

#[test]
fn each_1st_of_month() {
    // the 1st of this month has passed, so it goes to the next month
    let date = LoolDate::new(2024, 5, 7, 16, 15, 5);

    let mut rules = ruleset();
    rules.on_day(1);
    rules.at_time(0, 0, 0);

    let mut next = date;
    let mut initial_month = date.month() as i32;
    let mut initial_year = date.year();

    for i in 0..10 {
        next = rules.next_match_from(&next).unwrap();

        if initial_month + i + 1 == 13 {
            initial_month = -i;
            initial_year += 1;
        }

        // should match 2024-06-01 00:00:00, 2024-07-01 00:00:00, ...
        assert_eq!(
            next,
            LoolDate::new(initial_year, (initial_month + i + 1) as u32, 1, 0, 0, 0)
        );
    }
}

#[test]
fn each_wednesday() {
    // this Wednesday has passed, so it goes to the next Wednesday
    let date = LoolDate::new(2024, 4, 7, 16, 15, 5);
    let mut next_wednesday = LoolDate::new(2024, 4, 10, 0, 0, 0);

    let mut rules = ruleset();
    rules.on_dow(3);
    rules.at_time(0, 0, 0);

    let mut next = date;

    for _ in 0..10 {
        next = rules.next_match_from(&next).unwrap();
        assert_eq!(next, next_wednesday);
        for _ in 0..7 {
            next_wednesday.add_day();
        }
    }
}

#[test]
fn from_31th_may_schedule_first_of_each_june() {
    // the 31st of May has passed, so it goes to the 1st of June
    let date = LoolDate::new(2024, 5, 31, 16, 15, 5);

    let mut rules = ruleset();
    rules.in_month(6);
    rules.on_day(1);
    rules.at_time(0, 0, 0);

    let mut next = date;

    let initial_year = date.year();
    let initial_month = date.month();

    for i in 0..10 {
        next = rules.next_match_from(&next).unwrap();
        // should match 2024-06-01 00:00:00, 2025-06-01 00:00:00, ...
        assert_eq!(
            next,
            LoolDate::new(initial_year + i, initial_month + 1, 1, 0, 0, 0)
        );
    }
}

#[test]
fn from_1st_may_schedule_first_of_each_june() {
    let date = LoolDate::new(2024, 6, 1, 0, 0, 0);

    let mut rules = ruleset();
    rules.in_month(6);
    rules.on_day(1);
    rules.at_time(0, 0, 0);

    let mut next = date;
    let initial_year = date.year();

    for i in 0..10 {
        next = rules.next_match_from(&next).unwrap();
        assert_eq!(next, LoolDate::new(initial_year + i + 1, 6, 1, 0, 0, 0));
    }
}

#[test]
fn if_full_date_set_should_return_only_one_match_then_null() {
    let date = LoolDate::new(2024, 5, 14, 19, 44, 15);

    let mut rules = ruleset();
    rules.on_datetime(2024, 6, 1, 0, 0, 0);

    let next = rules.next_match_from(&date).unwrap();
    assert_eq!(next, LoolDate::new(2024, 6, 1, 0, 0, 0));

    let next = rules.next_match_from(&next);
    assert!(next.is_none());
}

#[test]
fn leap_day_rule_waits_for_a_leap_year() {
    let date = LoolDate::new(2024, 3, 1, 0, 0, 0);

    let mut rules = ruleset();
    rules.on_day(29);
    rules.in_month(2);
    rules.at_time(0, 0, 0);

    let next = rules.next_match_from(&date).unwrap();
    assert_eq!(next, LoolDate::new(2028, 2, 29, 0, 0, 0));
}

#[test]
fn invalid_ruleset_never_matches() {
    let date = LoolDate::new(2024, 4, 7, 13, 15, 5);

    // day 30 cannot fall in February
    let mut rules = ruleset();
    rules.on_day(30);
    rules.in_month(2);

    assert!(!rules.is_valid());
    assert!(rules.next_match_from(&date).is_none());

    // an empty rule-set is invalid too
    let rules = ruleset();
    assert!(!rules.is_valid());
    assert!(rules.next_match_from(&date).is_none());
}

#[test]
fn single_year_in_the_past_never_matches() {
    let date = LoolDate::new(2024, 4, 7, 13, 15, 5);

    let mut rules = ruleset();
    rules.in_year(2020);

    assert!(rules.is_valid());
    assert!(rules.next_match_from(&date).is_none());
}
