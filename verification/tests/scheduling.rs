use lool::sched::scheduler::{get_next_run_time, plan_step, DriverStep};
use lool::sched::{cron, once, recur, ruleset, LoolDate, Scheduler, SchedulingRule};

fn daily_rule() -> SchedulingRule {
    let mut rules = ruleset();
    rules.at_time(0, 0, 0);
    recur(&rules)
}

#[test]
fn cron_rule_delegates_to_the_cron_engine() {
    let rule = cron("0 0 * * *").unwrap();
    let base = LoolDate::new(2024, 4, 7, 13, 15, 5);
    let next = rule.next_from(&base).unwrap();
    assert_eq!(next, LoolDate::new(2024, 4, 8, 0, 0, 0));

    let next = rule.next_from(&next).unwrap();
    assert_eq!(next, LoolDate::new(2024, 4, 9, 0, 0, 0));

    assert!(cron("not a cron pattern").is_err());
}

#[test]
fn once_rule_fires_a_single_time() {
    let instant = LoolDate::new(2024, 6, 1, 0, 0, 0);
    let rule = once(instant);

    let before = LoolDate::new(2024, 5, 14, 19, 44, 15);
    assert_eq!(rule.next_from(&before), Some(instant));

    // from the instant itself, or later, it never fires again
    assert_eq!(rule.next_from(&instant), None);
    let after = LoolDate::new(2024, 6, 2, 0, 0, 0);
    assert_eq!(rule.next_from(&after), None);
}

#[test]
fn next_run_time_takes_the_earliest_rule() {
    let base = LoolDate::new(2024, 4, 7, 13, 15, 5);
    let rules = vec![
        once(LoolDate::new(2024, 4, 9, 0, 0, 0)),
        daily_rule(),
        once(LoolDate::new(2024, 4, 7, 13, 15, 6)),
    ];
    let next = get_next_run_time(&rules, &base).unwrap();
    assert_eq!(next, LoolDate::new(2024, 4, 7, 13, 15, 6));

    // with every rule exhausted there is no next run
    let spent = vec![once(LoolDate::new(2024, 4, 1, 0, 0, 0))];
    assert_eq!(get_next_run_time(&spent, &base), None);
}

#[test]
fn scheduler_lifecycle_stop_resume_remove() {
    let mut scheduler = Scheduler::new();
    let mut handler = scheduler.schedule("nightly", daily_rule()).unwrap();

    assert_eq!(handler.name(), "nightly");
    assert!(handler.is_active());
    assert!(!handler.is_running());
    assert!(!handler.is_stopped());
    assert!(!handler.is_removed());
    assert_eq!(handler.get_last_run(), None);

    let now = LoolDate::new(2024, 4, 7, 13, 15, 5);
    let next = handler.get_next_run_from(&now).unwrap();
    assert_eq!(next, LoolDate::new(2024, 4, 8, 0, 0, 0));

    scheduler.stop(&mut handler).unwrap();
    assert!(handler.is_stopped());
    assert!(!handler.is_active());
    // a stopped task reports no next run
    assert_eq!(handler.get_next_run_from(&now), None);

    scheduler.resume(&mut handler).unwrap();
    assert!(handler.is_active());

    scheduler.remove(&mut handler).unwrap();
    assert!(handler.is_removed());
    assert!(!handler.is_active());

    // the task is gone: a second removal reports not-found but still marks
    // the handle removed
    let err = scheduler.remove(&mut handler).unwrap_err();
    assert_eq!(err.message(), "task was not found");
    assert!(handler.is_removed());
}

#[test]
fn scheduler_rejects_duplicate_names() {
    let mut scheduler = Scheduler::new();
    scheduler.schedule("job", daily_rule()).unwrap();
    let err = scheduler.schedule("job", daily_rule()).unwrap_err();
    assert_eq!(err.message(), "a task with this name is already scheduled");
    // other names are still free
    scheduler.schedule("job2", daily_rule()).unwrap();
}

#[test]
fn handles_are_cloneable_observers() {
    let mut scheduler = Scheduler::new();
    let mut handler = scheduler
        .schedule_many_rules("pair", vec![daily_rule(), once(LoolDate::new(2024, 6, 1, 0, 0, 0))])
        .unwrap();
    let copy = handler.clone();
    assert_eq!(copy.name(), "pair");
    assert!(copy.is_active());

    scheduler.stop(&mut handler).unwrap();
    assert!(handler.is_stopped());
}

#[test]
fn plan_step_decides_the_drivers_move() {
    let now = LoolDate::new(2024, 4, 7, 13, 15, 5);
    let future = LoolDate::new(2024, 4, 8, 0, 0, 0);
    let past = LoolDate::new(2024, 4, 7, 0, 0, 0);

    assert_eq!(plan_step(None, &now), DriverStep::Finished);
    assert_eq!(plan_step(Some(future), &now), DriverStep::WaitUntil(future));
    // a missed fire runs at once
    assert_eq!(plan_step(Some(past), &now), DriverStep::FireNow(past));
    assert_eq!(plan_step(Some(now), &now), DriverStep::FireNow(now));
}
