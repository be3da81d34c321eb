//! The fluent builder for `RecurrenceRuleSet`.

use vstd::prelude::*;

use crate::sched::cron_date::Weekday;
use crate::sched::rule_unit::{Rule, RuleSpec};
use crate::sched::ruleset::{RecurrenceRuleSet, RuleSetSpec};

verus! {

/// Create a new, empty `RecurrenceRuleSet`.
pub fn ruleset() -> (r: RecurrenceRuleSet)
    ensures
        r@ == (RuleSetSpec {
            second: None,
            minute: None,
            hour: None,
            dow: None,
            day: None,
            month: None,
            year: None,
        }),
{
    RecurrenceRuleSet::recurring()
}

impl RecurrenceRuleSet {
    /// Create a new `RecurrenceRuleSet` with no rule set.
    pub fn recurring() -> (r: Self)
        ensures
            r@ == (RuleSetSpec {
                second: None,
                minute: None,
                hour: None,
                dow: None,
                day: None,
                month: None,
                year: None,
            }),
    {
        Self {
            second: None,
            minute: None,
            hour: None,
            dow: None,
            day: None,
            month: None,
            year: None,
        }
    }

    /// Set the second rule.
    pub fn seconds_rule(&mut self, rule: Rule)
        ensures
            final(self)@ == (RuleSetSpec { second: Some(rule@), ..old(self)@ }),
    {
        self.second = Some(rule);
    }

    /// Set the minute rule.
    pub fn minutes_rule(&mut self, rule: Rule)
        ensures
            final(self)@ == (RuleSetSpec { minute: Some(rule@), ..old(self)@ }),
    {
        self.minute = Some(rule);
    }

    /// Set the hour rule.
    pub fn hours_rule(&mut self, rule: Rule)
        ensures
            final(self)@ == (RuleSetSpec { hour: Some(rule@), ..old(self)@ }),
    {
        self.hour = Some(rule);
    }

    /// Set the hour, minute and second rules at once.
    pub fn time_rule(&mut self, hour: Rule, minute: Rule, second: Rule)
        ensures
            final(self)@ == (RuleSetSpec {
                hour: Some(hour@),
                minute: Some(minute@),
                second: Some(second@),
                ..old(self)@
            }),
    {
        self.hours_rule(hour);
        self.minutes_rule(minute);
        self.seconds_rule(second);
    }

    /// Set the day-of-week rule.
    pub fn dow_rule(&mut self, rule: Rule)
        ensures
            final(self)@ == (RuleSetSpec { dow: Some(rule@), ..old(self)@ }),
    {
        self.dow = Some(rule);
    }

    /// Set the day-of-month rule.
    pub fn day_ryle(&mut self, rule: Rule)
        ensures
            final(self)@ == (RuleSetSpec { day: Some(rule@), ..old(self)@ }),
    {
        self.day = Some(rule);
    }

    /// Set the month rule.
    pub fn month_rule(&mut self, rule: Rule)
        ensures
            final(self)@ == (RuleSetSpec { month: Some(rule@), ..old(self)@ }),
    {
        self.month = Some(rule);
    }

    /// Set the year rule.
    pub fn year_rule(&mut self, rule: Rule)
        ensures
            final(self)@ == (RuleSetSpec { year: Some(rule@), ..old(self)@ }),
    {
        self.year = Some(rule);
    }

    /// Set the second rule to a single value.
    pub fn at_second(&mut self, value: u32)
        ensures
            final(self)@ == (RuleSetSpec {
                second: Some(RuleSpec::Val(value as i64)),
                ..old(self)@
            }),
    {
        self.seconds_rule(Rule::Val(value as i64));
    }

    /// Set the minute rule to a single value.
    pub fn at_minute(&mut self, value: u32)
        ensures
            final(self)@ == (RuleSetSpec {
                minute: Some(RuleSpec::Val(value as i64)),
                ..old(self)@
            }),
    {
        self.minutes_rule(Rule::Val(value as i64));
    }

    /// Set the hour rule to a single value.
    pub fn at_hour(&mut self, value: u32)
        ensures
            final(self)@ == (RuleSetSpec { hour: Some(RuleSpec::Val(value as i64)), ..old(self)@ }),
    {
        self.hours_rule(Rule::Val(value as i64));
    }

    /// Set the hour, minute and second rules to single values.
    pub fn at_time(&mut self, hour: u32, minute: u32, second: u32)
        ensures
            final(self)@ == (RuleSetSpec {
                hour: Some(RuleSpec::Val(hour as i64)),
                minute: Some(RuleSpec::Val(minute as i64)),
                second: Some(RuleSpec::Val(second as i64)),
                ..old(self)@
            }),
    {
        self.time_rule(
            Rule::Val(hour as i64),
            Rule::Val(minute as i64),
            Rule::Val(second as i64),
        );
    }

    /// Set the day-of-week rule to a single weekday.
    pub fn on_weekday(&mut self, value: Weekday)
        ensures
            final(self)@ == (RuleSetSpec {
                dow: Some(RuleSpec::Val(value.spec_num_days_from_sunday() as i64)),
                ..old(self)@
            }),
    {
        let n = value.num_days_from_sunday();
        self.dow_rule(Rule::Val(n as i64));
    }

    /// Set the day-of-week rule to a single value counted from Sunday.
    pub fn on_dow(&mut self, value: u32)
        ensures
            final(self)@ == (RuleSetSpec { dow: Some(RuleSpec::Val(value as i64)), ..old(self)@ }),
    {
        self.dow_rule(Rule::Val(value as i64));
    }

    /// Set the day-of-week rule to a range between two weekdays; equal
    /// endpoints leave the set unchanged.
    pub fn from_to_weekdays(&mut self, from: Weekday, to: Weekday)
        ensures
            final(self)@ == if from == to {
                old(self)@
            } else {
                RuleSetSpec {
                    dow: Some(
                        RuleSpec::Range(
                            from.spec_num_days_from_sunday() as i64,
                            to.spec_num_days_from_sunday() as i64,
                            1,
                        ),
                    ),
                    ..old(self)@
                }
            },
    {
        if from == to {
            return ;
        }
        let f = from.num_days_from_sunday();
        let t = to.num_days_from_sunday();
        self.dow_rule(Rule::Range(f as i64, t as i64, 1));
    }

    /// Set the day-of-week rule to a range between two values counted from
    /// Sunday; equal endpoints leave the set unchanged.
    pub fn from_to_dow(&mut self, from: u32, to: u32)
        ensures
            final(self)@ == if from == to {
                old(self)@
            } else {
                RuleSetSpec {
                    dow: Some(RuleSpec::Range(from as i64, to as i64, 1)),
                    ..old(self)@
                }
            },
    {
        if from == to {
            return ;
        }
        self.dow_rule(Rule::Range(from as i64, to as i64, 1));
    }

    /// Set the day-of-month rule to a single value.
    pub fn on_day(&mut self, value: u32)
        ensures
            final(self)@ == (RuleSetSpec { day: Some(RuleSpec::Val(value as i64)), ..old(self)@ }),
    {
        self.day_ryle(Rule::Val(value as i64));
    }

    /// Set the month rule to a single value.
    pub fn in_month(&mut self, value: u32)
        ensures
            final(self)@ == (RuleSetSpec {
                month: Some(RuleSpec::Val(value as i64)),
                ..old(self)@
            }),
    {
        self.month_rule(Rule::Val(value as i64));
    }

    /// Set the year rule to a single value.
    pub fn in_year(&mut self, value: i32)
        ensures
            final(self)@ == (RuleSetSpec { year: Some(RuleSpec::Val(value as i64)), ..old(self)@ }),
    {
        self.year_rule(Rule::Val(value as i64));
    }

    /// Set the full date as single values.
    pub fn on_date(&mut self, year: i32, month: u32, day: u32)
        ensures
            final(self)@ == (RuleSetSpec {
                year: Some(RuleSpec::Val(year as i64)),
                month: Some(RuleSpec::Val(month as i64)),
                day: Some(RuleSpec::Val(day as i64)),
                ..old(self)@
            }),
    {
        self.in_year(year);
        self.in_month(month);
        self.on_day(day);
    }

    /// Set the full datetime as single values.
    pub fn on_datetime(&mut self, year: i32, month: u32, day: u32, hour: u32, minute: u32, second: u32)
        ensures
            final(self)@ == (RuleSetSpec {
                year: Some(RuleSpec::Val(year as i64)),
                month: Some(RuleSpec::Val(month as i64)),
                day: Some(RuleSpec::Val(day as i64)),
                hour: Some(RuleSpec::Val(hour as i64)),
                minute: Some(RuleSpec::Val(minute as i64)),
                second: Some(RuleSpec::Val(second as i64)),
                ..old(self)@
            }),
    {
        self.on_date(year, month, day);
        self.at_time(hour, minute, second);
    }
}

} // verus!
