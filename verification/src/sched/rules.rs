//! Scheduling rules: run once, on a recurrence rule-set, or on a cron
//! pattern.

use vstd::prelude::*;

pub use crate::sched::builder::ruleset;
pub use crate::sched::cron::Cron;
pub use crate::sched::rule_unit::{many, range, ranges, val, Rule};
pub use crate::sched::ruleset::RecurrenceRuleSet;

use crate::sched::cron::{cron_next_of, cron_pattern_ok, CronPatternError};
use crate::sched::cron_date::{date_lt, date_valid, DateSpec, LoolDate};
use crate::sched::ruleset::{ruleset_next, RuleSetSpec};

verus! {

/// A scheduling rule.
///
/// It can be:
///   - `Once`: runs only at a specific instant
///   - `Repeat`: runs at the instants of a `RecurrenceRuleSet`
///   - `Cron`: runs at the instants of a cron expression
#[derive(Debug)]
pub enum SchedulingRule {
    /// runs only once, at the given instant
    Once(LoolDate),
    /// runs at the instants described by a recurrence rule-set
    Repeat(RecurrenceRuleSet),
    /// runs at the instants described by a cron expression
    Cron(Cron),
}

/// The mathematical model of a scheduling rule.
pub ghost enum SchedulingRuleSpec {
    Once(DateSpec),
    Repeat(RuleSetSpec),
    Cron(Seq<char>),
}

impl View for SchedulingRule {
    type V = SchedulingRuleSpec;

    open spec fn view(&self) -> SchedulingRuleSpec {
        match self {
            SchedulingRule::Once(d) => SchedulingRuleSpec::Once(d.view()),
            SchedulingRule::Repeat(rs) => SchedulingRuleSpec::Repeat(rs.view()),
            SchedulingRule::Cron(c) => SchedulingRuleSpec::Cron(c.pattern_view()),
        }
    }
}

/// A well-formed scheduling rule: a `Once` instant is a real calendar date,
/// and a cron pattern has been accepted by the cron engine.
pub open spec fn sched_rule_wf(r: &SchedulingRule) -> bool {
    match r {
        SchedulingRule::Once(d) => date_valid(d.view()),
        SchedulingRule::Repeat(_) => true,
        SchedulingRule::Cron(c) => c.wf(),
    }
}

/// The next instant strictly after `base` at which the rule fires.
pub open spec fn sched_next(r: SchedulingRuleSpec, base: DateSpec) -> Option<DateSpec> {
    match r {
        SchedulingRuleSpec::Once(t) => if date_lt(base, t) {
            Some(t)
        } else {
            None
        },
        SchedulingRuleSpec::Repeat(rs) => ruleset_next(rs, base),
        SchedulingRuleSpec::Cron(p) => cron_next_of(p, base),
    }
}

impl SchedulingRule {
    /// The next execution instant strictly after `base`, or `None` when the
    /// rule will never fire again.
    pub fn next_from(&self, base: &LoolDate) -> (r: Option<LoolDate>)
        requires
            sched_rule_wf(self),
            date_valid(base@),
        ensures
            (match r {
                Some(u) => Some(u@),
                None => None,
            }) == sched_next(self@, base@),
            r matches Some(u) ==> date_valid(u@) && date_lt(base@, u@),
    {
        match self {
            SchedulingRule::Once(date) => {
                proof {
                    assert(self@->Once_0 == date@);
                }
                if base.is_before(date) {
                    Some(*date)
                } else {
                    None
                }
            },
            SchedulingRule::Repeat(rule) => {
                proof {
                    assert(self@->Repeat_0 == rule@);
                }
                rule.next_match_from(base)
            },
            SchedulingRule::Cron(pattern) => {
                proof {
                    assert(self@->Cron_0 == pattern.pattern_view());
                }
                pattern.find_next_occurrence(base)
            },
        }
    }

    /// The next execution instant strictly after the current local time.
    pub fn next(&self) -> (r: Option<LoolDate>)
        requires
            sched_rule_wf(self),
        ensures
            r matches Some(u) ==> date_valid(u@),
    {
        let now = LoolDate::now();
        self.next_from(&now)
    }
}

impl Clone for SchedulingRule {
    /// A clone carries the same model and stays well formed.
    fn clone(&self) -> (res: SchedulingRule)
        ensures
            res@ == self@,
            sched_rule_wf(self) ==> sched_rule_wf(&res),
    {
        match self {
            SchedulingRule::Once(d) => SchedulingRule::Once(*d),
            SchedulingRule::Repeat(rs) => SchedulingRule::Repeat(rs.clone()),
            SchedulingRule::Cron(c) => SchedulingRule::Cron(c.clone()),
        }
    }
}

/// Create a `SchedulingRule` that runs at the instants of a cron expression,
/// rejecting patterns that the cron engine does not accept.
pub fn cron(pattern: &str) -> (r: Result<SchedulingRule, CronPatternError>)
    ensures
        match r {
            Ok(sr) => {
                &&& cron_pattern_ok(pattern@)
                &&& sr@ == SchedulingRuleSpec::Cron(pattern@)
                &&& sched_rule_wf(&sr)
            },
            Err(_) => !cron_pattern_ok(pattern@),
        },
{
    match Cron::new(pattern) {
        Ok(c) => Ok(SchedulingRule::Cron(c)),
        Err(e) => Err(e),
    }
}

/// Create a `SchedulingRule` that runs at the instants of a recurrence
/// rule-set.
pub fn recur(rule: &RecurrenceRuleSet) -> (r: SchedulingRule)
    ensures
        r@ == SchedulingRuleSpec::Repeat(rule@),
        sched_rule_wf(&r),
{
    SchedulingRule::Repeat(rule.clone())
}

/// Create a `SchedulingRule` that runs only once, at the given instant.
pub fn once(datetime: LoolDate) -> (r: SchedulingRule)
    requires
        date_valid(datetime@),
    ensures
        r@ == SchedulingRuleSpec::Once(datetime@),
        sched_rule_wf(&r),
{
    SchedulingRule::Once(datetime)
}

} // verus!
