//! A recurrence rule-set: a conjunction of per-field rules, and the search
//! for the next instant that satisfies all of them.

use vstd::prelude::*;

use crate::sched::cron_date::{
    agree_to_day, agree_to_hour, agree_to_minute, agree_to_month, agree_to_second, agree_to_year,
    date_add_day_spec, date_add_hour_spec, date_add_minute_spec, date_add_month_spec,
    date_add_second_spec, date_add_year_spec, date_lt, date_valid, days_in_month_of, dow_of,
    lemma_add_day_gap, lemma_add_hour_gap, lemma_add_minute_gap, lemma_add_month_gap,
    lemma_add_second_gap, lemma_add_year_gap, lemma_date_lt_total, DateSpec, LoolDate,
};
use crate::sched::rule_unit::{rule_matches, rule_within, Rule, RuleSpec};

verus! {

/// A recurrence rule-set: one optional rule per calendar field.
///
/// Use the fluent builder to create one.
#[derive(Debug)]
pub struct RecurrenceRuleSet {
    /// second of the minute (0..=59)
    pub second: Option<Rule>,
    /// minute of the hour (0..=59)
    pub minute: Option<Rule>,
    /// hour of the day (0..=23)
    pub hour: Option<Rule>,
    /// day of the week from Sunday (`0 = Sunday`, ..., `6 = Saturday`)
    pub dow: Option<Rule>,
    /// day of the month (1..=31)
    pub day: Option<Rule>,
    /// month of the year (1..=12)
    pub month: Option<Rule>,
    /// year
    pub year: Option<Rule>,
}

/// The mathematical model of a rule-set.
pub ghost struct RuleSetSpec {
    pub second: Option<RuleSpec>,
    pub minute: Option<RuleSpec>,
    pub hour: Option<RuleSpec>,
    pub dow: Option<RuleSpec>,
    pub day: Option<RuleSpec>,
    pub month: Option<RuleSpec>,
    pub year: Option<RuleSpec>,
}

/// The model of an optional rule.
pub open spec fn opt_rule_view(o: &Option<Rule>) -> Option<RuleSpec> {
    match o {
        Some(r) => Some(r.view()),
        None => None,
    }
}

impl View for RecurrenceRuleSet {
    type V = RuleSetSpec;

    open spec fn view(&self) -> RuleSetSpec {
        RuleSetSpec {
            second: opt_rule_view(&self.second),
            minute: opt_rule_view(&self.minute),
            hour: opt_rule_view(&self.hour),
            dow: opt_rule_view(&self.dow),
            day: opt_rule_view(&self.day),
            month: opt_rule_view(&self.month),
            year: opt_rule_view(&self.year),
        }
    }
}

fn clone_opt_rule(o: &Option<Rule>) -> (r: Option<Rule>)
    ensures
        opt_rule_view(&r) == opt_rule_view(o),
{
    match o {
        Some(rule) => Some(rule.clone()),
        None => None,
    }
}

impl Clone for RecurrenceRuleSet {
    /// A clone carries the same model.
    fn clone(&self) -> (res: RecurrenceRuleSet)
        ensures
            res@ == self@,
    {
        RecurrenceRuleSet {
            second: clone_opt_rule(&self.second),
            minute: clone_opt_rule(&self.minute),
            hour: clone_opt_rule(&self.hour),
            dow: clone_opt_rule(&self.dow),
            day: clone_opt_rule(&self.day),
            month: clone_opt_rule(&self.month),
            year: clone_opt_rule(&self.year),
        }
    }
}

/// An absent rule accepts every value.
pub open spec fn opt_rule_matches(o: Option<RuleSpec>, v: int) -> bool {
    match o {
        Some(r) => rule_matches(r, v),
        None => true,
    }
}

/// The instant `d` satisfies every rule that the set holds.
pub open spec fn set_matches(rs: RuleSetSpec, d: DateSpec) -> bool {
    &&& opt_rule_matches(rs.second, d.second)
    &&& opt_rule_matches(rs.minute, d.minute)
    &&& opt_rule_matches(rs.hour, d.hour)
    &&& opt_rule_matches(rs.dow, dow_of(d))
    &&& opt_rule_matches(rs.day, d.day)
    &&& opt_rule_matches(rs.month, d.month)
    &&& opt_rule_matches(rs.year, d.year)
}

/// The largest day of the month that validation allows, given which months
/// the month rule accepts.
pub open spec fn day_bound_of(rs: RuleSetSpec) -> int {
    match rs.month {
        Some(m) => if rule_matches(m, 2) {
            29
        } else if rule_matches(m, 4) || rule_matches(m, 6) || rule_matches(m, 9)
            || rule_matches(m, 11) {
            30
        } else {
            31
        },
        None => 31,
    }
}

/// A rule-set is valid when at least one field rule is present and every
/// present rule keeps to its field's domain; the day rule must also fit the
/// shortest month that the month rule accepts.
pub open spec fn ruleset_valid(rs: RuleSetSpec) -> bool {
    &&& (rs.second is Some || rs.minute is Some || rs.hour is Some || rs.dow is Some
        || rs.day is Some || rs.month is Some || rs.year is Some)
    &&& (rs.month matches Some(m) ==> rule_within(m, 1, 12))
    &&& (rs.dow matches Some(r) ==> rule_within(r, 0, 6))
    &&& (rs.day matches Some(r) ==> rule_within(r, 1, day_bound_of(rs)))
    &&& (rs.hour matches Some(r) ==> rule_within(r, 0, 23))
    &&& (rs.minute matches Some(r) ==> rule_within(r, 0, 59))
    &&& (rs.second matches Some(r) ==> rule_within(r, 0, 59))
}

/// No second-aligned instant strictly between `a` and `b` satisfies the set.
pub open spec fn no_match_between(rs: RuleSetSpec, a: DateSpec, b: DateSpec) -> bool {
    forall|t: DateSpec|
        date_valid(t) && t.nanos == 0 && date_lt(a, t) && date_lt(t, b) ==> !(#[trigger] set_matches(
            rs,
            t,
        ))
}

/// No second-aligned instant strictly after `a` satisfies the set.
pub open spec fn no_match_after(rs: RuleSetSpec, a: DateSpec) -> bool {
    forall|t: DateSpec|
        date_valid(t) && t.nanos == 0 && date_lt(a, t) ==> !(#[trigger] set_matches(rs, t))
}

/// Joins two stretches without a match: one from `base` to `cur` and one
/// from `cur` (which itself does not match) to `nxt`.
proof fn lemma_extend_no_match(
    rs: RuleSetSpec,
    base: DateSpec,
    cur: DateSpec,
    nxt: DateSpec,
)
    requires
        no_match_between(rs, base, cur),
        date_lt(base, cur),
        !set_matches(rs, cur),
        forall|t: DateSpec|
            date_valid(t) && date_lt(cur, t) && date_lt(t, nxt) ==> !(#[trigger] set_matches(
                rs,
                t,
            )),
    ensures
        no_match_between(rs, base, nxt),
{
    assert forall|t: DateSpec|
        date_valid(t) && t.nanos == 0 && date_lt(base, t) && date_lt(t, nxt) implies !set_matches(
        rs,
        t,
    ) by {
        lemma_date_lt_total(t, cur);
    }
}

} // verus!

verus! {

impl RecurrenceRuleSet {
    /// Check that every present rule keeps to its field's domain and that at
    /// least one rule is present.
    pub fn is_valid(&self) -> (r: bool)
        ensures
            r == ruleset_valid(self@),
    {
        let mut valid = self.second.is_some() || self.minute.is_some() || self.hour.is_some()
            || self.dow.is_some() || self.day.is_some() || self.month.is_some()
            || self.year.is_some();

        if let Some(month) = &self.month {
            valid = valid && month.value_is_between(1, 12);
        }
        if let Some(dow) = &self.dow {
            valid = valid && dow.value_is_between(0, 6);
        }
        if let Some(day) = &self.day {
            match &self.month {
                Some(month) => {
                    if month.matches(2) {
                        valid = valid && day.value_is_between(1, 29);
                    } else if month.matches(4) || month.matches(6) || month.matches(9)
                        || month.matches(11) {
                        valid = valid && day.value_is_between(1, 30);
                    } else {
                        valid = valid && day.value_is_between(1, 31);
                    }
                },
                None => {
                    valid = valid && day.value_is_between(1, 31);
                },
            }
        }
        if let Some(hour) = &self.hour {
            valid = valid && hour.value_is_between(0, 23);
        }
        if let Some(minute) = &self.minute {
            valid = valid && minute.value_is_between(0, 59);
        }
        if let Some(second) = &self.second {
            valid = valid && second.value_is_between(0, 59);
        }
        valid
    }

    /// Returns the next match of the rule set, judged from the current
    /// local time.
    pub fn next_match(&self) -> (r: Option<LoolDate>)
        ensures
            r matches Some(u) ==> {
                &&& ruleset_valid(self@)
                &&& date_valid(u@)
                &&& u@.nanos == 0
                &&& set_matches(self@, u@)
            },
    {
        let now = LoolDate::now();
        self.next_match_from(&now)
    }

    /// Returns the smallest second-aligned instant strictly after `from` that
    /// satisfies every rule of the set, or `None` when the set is invalid or
    /// no representable instant satisfies it.
    pub fn next_match_from(&self, from: &LoolDate) -> (r: Option<LoolDate>)
        requires
            date_valid(from@),
        ensures
            match r {
                Some(u) => {
                    &&& ruleset_valid(self@)
                    &&& date_valid(u@)
                    &&& u@.nanos == 0
                    &&& date_lt(from@, u@)
                    &&& set_matches(self@, u@)
                    &&& no_match_between(self@, from@, u@)
                },
                None => !ruleset_valid(self@) || no_match_after(self@, from@),
            },
            (match r {
                Some(u) => Some(u@),
                None => None,
            }) == ruleset_next(self@, from@),
    {
        let r = self._next_match(from);
        proof {
            match r {
                Some(u) => {
                    assert(is_next_match(self@, from@, u@));
                    let c = choose|w: DateSpec| is_next_match(self@, from@, w);
                    lemma_next_match_unique(self@, from@, u@, c);
                },
                None => {
                    if exists|w: DateSpec| is_next_match(self@, from@, w) {
                        let w = choose|w: DateSpec| is_next_match(self@, from@, w);
                        assert(false);
                    }
                },
            }
        }
        r
    }

    fn _next_match(&self, from: &LoolDate) -> (r: Option<LoolDate>)
        requires
            date_valid(from@),
        ensures
            match r {
                Some(u) => {
                    &&& ruleset_valid(self@)
                    &&& date_valid(u@)
                    &&& u@.nanos == 0
                    &&& date_lt(from@, u@)
                    &&& set_matches(self@, u@)
                    &&& no_match_between(self@, from@, u@)
                },
                None => !ruleset_valid(self@) || no_match_after(self@, from@),
            },
    {
        if !self.is_valid() {
            return None;
        }
        // a single-year rule lying wholly in the past can never match again
        if let Some(year_unit) = &self.year {
            if let Rule::Val(y) = year_unit {
                if *y < from.year() as i64 {
                    proof {
                        assert forall|t: DateSpec|
                            date_valid(t) && t.nanos == 0 && date_lt(from@, t) implies !set_matches(
                            self@,
                            t,
                        ) by {
                            assert(t.year >= from@.year);
                        }
                    }
                    return None;
                }
            }
        }
        // nothing is representable after the last second of the largest year
        if from.year() == i32::MAX && from.month() == 12 && from.day() == 31 && from.hour() == 23
            && from.minute() == 59 && from.second() == 59 {
            proof {
                assert forall|t: DateSpec|
                    date_valid(t) && t.nanos == 0 && date_lt(from@, t) implies !set_matches(
                    self@,
                    t,
                ) by {
                    assert(days_in_month_of(t.year, t.month) == 31);
                    assert(false);
                }
            }
            return None;
        }
        let mut next = *from;
        next.add_second();
        proof {
            lemma_add_second_gap(from@);
            assert forall|t: DateSpec|
                date_valid(t) && t.nanos == 0 && date_lt(from@, t) && date_lt(t, next@)
                implies !set_matches(self@, t) by {
                assert(agree_to_second(t, from@));
                assert(false);
            }
        }
        loop
            invariant
                ruleset_valid(self@),
                date_valid(from@),
                date_valid(next@),
                next@.nanos == 0,
                date_lt(from@, next@),
                no_match_between(self@, from@, next@),
            ensures
                date_valid(next@),
                next@.nanos == 0,
                date_lt(from@, next@),
                no_match_between(self@, from@, next@),
                set_matches(self@, next@),
            decreases
                    i32::MAX - next@.year,
                    12 - next@.month,
                    31 - next@.day,
                    23 - next@.hour,
                    59 - next@.minute,
                    59 - next@.second,
        {
            if let Some(year_unit) = &self.year {
                if let Rule::Val(y) = year_unit {
                    if *y < next.year() as i64 {
                        proof {
                            assert forall|t: DateSpec|
                                date_valid(t) && t.nanos == 0 && date_lt(from@, t)
                                implies !set_matches(self@, t) by {
                                lemma_date_lt_total(t, next@);
                                if !date_lt(t, next@) {
                                    assert(t.year >= next@.year);
                                }
                            }
                        }
                        return None;
                    }
                }
                if !year_unit.matches(next.year() as i64) {
                    if next.year() == i32::MAX {
                        proof {
                            assert forall|t: DateSpec|
                                date_valid(t) && t.nanos == 0 && date_lt(from@, t)
                                implies !set_matches(self@, t) by {
                                lemma_date_lt_total(t, next@);
                                if !date_lt(t, next@) {
                                    assert(t.year == next@.year);
                                }
                            }
                        }
                        return None;
                    }
                    let ghost prev = next@;
                    next.add_year();
                    proof {
                        lemma_add_year_gap(prev);
                        assert forall|t: DateSpec|
                            date_valid(t) && date_lt(prev, t) && date_lt(t, next@)
                            implies !set_matches(self@, t) by {
                            assert(agree_to_year(t, prev));
                        }
                        lemma_extend_no_match(self@, from@, prev, next@);
                    }
                    continue ;
                }
            }
            if let Some(month_unit) = &self.month {
                if !month_unit.matches(next.month() as i64) {
                    if next.month() == 12 && next.year() == i32::MAX {
                        proof {
                            assert forall|t: DateSpec|
                                date_valid(t) && t.nanos == 0 && date_lt(from@, t)
                                implies !set_matches(self@, t) by {
                                lemma_date_lt_total(t, next@);
                                if !date_lt(t, next@) {
                                    assert(t.year == next@.year && t.month == next@.month);
                                }
                            }
                        }
                        return None;
                    }
                    let ghost prev = next@;
                    next.add_month();
                    proof {
                        lemma_add_month_gap(prev);
                        assert forall|t: DateSpec|
                            date_valid(t) && date_lt(prev, t) && date_lt(t, next@)
                            implies !set_matches(self@, t) by {
                            assert(agree_to_month(t, prev));
                        }
                        lemma_extend_no_match(self@, from@, prev, next@);
                    }
                    continue ;
                }
            }
            if let Some(day_unit) = &self.day {
                if !day_unit.matches(next.day() as i64) {
                    if next.day() == 31 && next.month() == 12 && next.year() == i32::MAX {
                        proof {
                            assert forall|t: DateSpec|
                                date_valid(t) && t.nanos == 0 && date_lt(from@, t)
                                implies !set_matches(self@, t) by {
                                lemma_date_lt_total(t, next@);
                                if !date_lt(t, next@) && t != next@ {
                                    assert(t.year == next@.year && t.month == next@.month);
                                    assert(days_in_month_of(t.year, t.month) == 31);
                                    assert(t.day == next@.day);
                                }
                            }
                        }
                        return None;
                    }
                    let ghost prev = next@;
                    next.add_day();
                    proof {
                        lemma_add_day_gap(prev);
                        assert forall|t: DateSpec|
                            date_valid(t) && date_lt(prev, t) && date_lt(t, next@)
                            implies !set_matches(self@, t) by {
                            assert(agree_to_day(t, prev));
                        }
                        lemma_extend_no_match(self@, from@, prev, next@);
                    }
                    continue ;
                }
            }
            if let Some(dow_unit) = &self.dow {
                if !dow_unit.matches(next.weekday_from_sunday() as i64) {
                    if next.day() == 31 && next.month() == 12 && next.year() == i32::MAX {
                        proof {
                            assert forall|t: DateSpec|
                                date_valid(t) && t.nanos == 0 && date_lt(from@, t)
                                implies !set_matches(self@, t) by {
                                lemma_date_lt_total(t, next@);
                                if !date_lt(t, next@) && t != next@ {
                                    assert(t.year == next@.year && t.month == next@.month);
                                    assert(days_in_month_of(t.year, t.month) == 31);
                                    assert(t.day == next@.day);
                                    assert(dow_of(t) == dow_of(next@));
                                }
                            }
                        }
                        return None;
                    }
                    let ghost prev = next@;
                    next.add_day();
                    proof {
                        lemma_add_day_gap(prev);
                        assert forall|t: DateSpec|
                            date_valid(t) && date_lt(prev, t) && date_lt(t, next@)
                            implies !set_matches(self@, t) by {
                            assert(agree_to_day(t, prev));
                            assert(dow_of(t) == dow_of(prev));
                        }
                        lemma_extend_no_match(self@, from@, prev, next@);
                    }
                    continue ;
                }
            }
            if let Some(hour_unit) = &self.hour {
                if !hour_unit.matches(next.hour() as i64) {
                    if next.hour() == 23 && next.day() == 31 && next.month() == 12 && next.year()
                        == i32::MAX {
                        proof {
                            assert forall|t: DateSpec|
                                date_valid(t) && t.nanos == 0 && date_lt(from@, t)
                                implies !set_matches(self@, t) by {
                                lemma_date_lt_total(t, next@);
                                if !date_lt(t, next@) && t != next@ {
                                    assert(t.year == next@.year && t.month == next@.month);
                                    assert(days_in_month_of(t.year, t.month) == 31);
                                    assert(t.day == next@.day);
                                    assert(t.hour == next@.hour);
                                }
                            }
                        }
                        return None;
                    }
                    let ghost prev = next@;
                    next.add_hour();
                    proof {
                        lemma_add_hour_gap(prev);
                        assert forall|t: DateSpec|
                            date_valid(t) && date_lt(prev, t) && date_lt(t, next@)
                            implies !set_matches(self@, t) by {
                            assert(agree_to_hour(t, prev));
                        }
                        lemma_extend_no_match(self@, from@, prev, next@);
                    }
                    continue ;
                }
            }
            if let Some(minute_unit) = &self.minute {
                if !minute_unit.matches(next.minute() as i64) {
                    if next.minute() == 59 && next.hour() == 23 && next.day() == 31 && next.month()
                        == 12 && next.year() == i32::MAX {
                        proof {
                            assert forall|t: DateSpec|
                                date_valid(t) && t.nanos == 0 && date_lt(from@, t)
                                implies !set_matches(self@, t) by {
                                lemma_date_lt_total(t, next@);
                                if !date_lt(t, next@) && t != next@ {
                                    assert(t.year == next@.year && t.month == next@.month);
                                    assert(days_in_month_of(t.year, t.month) == 31);
                                    assert(t.day == next@.day);
                                    assert(t.hour == next@.hour);
                                    assert(t.minute == next@.minute);
                                }
                            }
                        }
                        return None;
                    }
                    let ghost prev = next@;
                    next.add_minute();
                    proof {
                        lemma_add_minute_gap(prev);
                        assert forall|t: DateSpec|
                            date_valid(t) && date_lt(prev, t) && date_lt(t, next@)
                            implies !set_matches(self@, t) by {
                            assert(agree_to_minute(t, prev));
                        }
                        lemma_extend_no_match(self@, from@, prev, next@);
                    }
                    continue ;
                }
            }
            if let Some(second_unit) = &self.second {
                if !second_unit.matches(next.second() as i64) {
                    if next.second() == 59 && next.minute() == 59 && next.hour() == 23 && next.day()
                        == 31 && next.month() == 12 && next.year() == i32::MAX {
                        proof {
                            assert forall|t: DateSpec|
                                date_valid(t) && t.nanos == 0 && date_lt(from@, t)
                                implies !set_matches(self@, t) by {
                                lemma_date_lt_total(t, next@);
                                if !date_lt(t, next@) && t != next@ {
                                    assert(t.year == next@.year && t.month == next@.month);
                                    assert(days_in_month_of(t.year, t.month) == 31);
                                    assert(t.day == next@.day);
                                    assert(t.hour == next@.hour);
                                    assert(t.minute == next@.minute);
                                    assert(t.second == next@.second);
                                }
                            }
                        }
                        return None;
                    }
                    let ghost prev = next@;
                    next.add_second();
                    proof {
                        lemma_add_second_gap(prev);
                        assert forall|t: DateSpec|
                            date_valid(t) && date_lt(prev, t) && date_lt(t, next@)
                            implies !set_matches(self@, t) by {
                            assert(agree_to_second(t, prev));
                        }
                        lemma_extend_no_match(self@, from@, prev, next@);
                    }
                    continue ;
                }
            }
            break ;
        }
        Some(next)
    }
}

} // verus!

verus! {

/// `u` is the first instant after `base` that satisfies the set: it matches,
/// lies strictly after `base`, and nothing between them matches.
pub open spec fn is_next_match(rs: RuleSetSpec, base: DateSpec, u: DateSpec) -> bool {
    &&& ruleset_valid(rs)
    &&& date_valid(u)
    &&& u.nanos == 0
    &&& date_lt(base, u)
    &&& set_matches(rs, u)
    &&& no_match_between(rs, base, u)
}

/// The first instant after `base` that satisfies the set, if one exists.
pub open spec fn ruleset_next(rs: RuleSetSpec, base: DateSpec) -> Option<DateSpec> {
    if exists|u: DateSpec| is_next_match(rs, base, u) {
        Some(choose|u: DateSpec| is_next_match(rs, base, u))
    } else {
        None
    }
}

/// The first instant after `base` is unique.
pub proof fn lemma_next_match_unique(rs: RuleSetSpec, base: DateSpec, u1: DateSpec, u2: DateSpec)
    requires
        is_next_match(rs, base, u1),
        is_next_match(rs, base, u2),
    ensures
        u1 == u2,
{
    lemma_date_lt_total(u1, u2);
}

} // verus!

verus! {

/// Fires are strictly monotone: when a rule-set fires at `u1` after `base`
/// and next at `u2` after `u1`, the three instants grow strictly.
pub proof fn lemma_repeat_fires_monotone(
    rs: RuleSetSpec,
    base: DateSpec,
    u1: DateSpec,
    u2: DateSpec,
)
    requires
        ruleset_next(rs, base) == Some(u1),
        ruleset_next(rs, u1) == Some(u2),
    ensures
        date_lt(base, u1),
        date_lt(u1, u2),
{
    assert(is_next_match(rs, base, choose|u: DateSpec| is_next_match(rs, base, u)));
    assert(is_next_match(rs, u1, choose|u: DateSpec| is_next_match(rs, u1, u)));
}

/// The instant a rule-set returns is minimal: no second-aligned instant
/// strictly between the base and the result satisfies every rule.
pub proof fn lemma_next_match_minimal(rs: RuleSetSpec, base: DateSpec, u: DateSpec, v: DateSpec)
    requires
        ruleset_next(rs, base) == Some(u),
        date_valid(v),
        v.nanos == 0,
        date_lt(base, v),
        date_lt(v, u),
    ensures
        !set_matches(rs, v),
{
    assert(is_next_match(rs, base, choose|w: DateSpec| is_next_match(rs, base, w)));
}

} // verus!
