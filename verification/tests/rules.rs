use lool::sched::{many, range, ranges, val};

#[test]
fn test_rule_val() {
    let rule = val(5);
    assert!(rule.matches(5));
    assert!(!rule.matches(6));
}

#[test]
fn test_rule_range() {
    let rule = range(5, 10, 1);
    assert!(rule.matches(5));
    assert!(rule.matches(6));
    assert!(rule.matches(10));
    assert!(!rule.matches(11));
}

#[test]
fn test_rule_range_step() {
    let rule = range(5, 10, 2);
    assert!(rule.matches(5));
    assert!(!rule.matches(6));
    assert!(rule.matches(7));
    assert!(!rule.matches(8));
    assert!(rule.matches(9));
    assert!(!rule.matches(10));
    assert!(!rule.matches(11));
}

#[test]
fn test_rule_wrapping_range() {
    // a week where 0 is Sunday and 6 is Saturday: a range from 5 to 2
    // should match 5, 6, 0, 1, 2 - and, since the rule knows no maximum,
    // any value >= 5
    let rule = range(5, 2, 1);
    assert!(rule.matches(5));
    assert!(rule.matches(6));
    assert!(rule.matches(0));
    assert!(rule.matches(1));
    assert!(rule.matches(2));
    assert!(!rule.matches(3));
    assert!(!rule.matches(4));

    // would match any value >= 5 too
    assert!(rule.matches(7));
}

#[test]
fn test_rule_many() {
    let rule = many(vec![5, 10, 15]);
    assert!(rule.matches(5));
    assert!(rule.matches(10));
    assert!(rule.matches(15));
    assert!(!rule.matches(11));
}

#[test]
fn test_rule_ranges() {
    let rule = ranges(vec![(5, 10, 1), (15, 20, 1)]);
    assert!(rule.matches(5));
    assert!(rule.matches(6));
    assert!(rule.matches(10));
    assert!(rule.matches(15));
    assert!(rule.matches(20));
    assert!(!rule.matches(11));
}

#[test]
fn test_rule_value_is_between() {
    let rule = range(1, 12, 1);
    assert!(rule.value_is_between(1, 12));
    assert!(!rule.value_is_between(1, 11));
    let rule = many(vec![3, 7, 11]);
    assert!(rule.value_is_between(0, 11));
    assert!(!rule.value_is_between(4, 11));
}
