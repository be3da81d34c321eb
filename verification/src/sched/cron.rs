//! Cron-expression scheduling, delegated to the `croner` engine.

use vstd::prelude::*;

use crate::sched::cron_date::{date_lt, date_valid, DateSpec, LoolDate};

verus! {

/// Whether `croner` accepts the pattern: the outcome of parsing it.
pub uninterp spec fn cron_pattern_ok(pat: Seq<char>) -> bool;

/// What `croner` answers when asked for the first occurrence of the pattern
/// strictly after the given instant. The answer depends on the pattern and
/// the instant alone.
pub uninterp spec fn cron_next_of(pat: Seq<char>, from: DateSpec) -> Option<DateSpec>;

/// Relies on croner's `Cron::from_str`: parsing depends on the pattern text
/// alone.
#[verifier::external_body]
fn cron_pattern_parses(pattern: &str) -> (r: bool)
    ensures
        r == cron_pattern_ok(pattern@),
{
    <croner::Cron as core::str::FromStr>::from_str(pattern).is_ok()
}

/// Relies on croner's `find_next_occurrence` with `inclusive == false` on a
/// `chrono::NaiveDateTime`: the search starts one second past `from`, walks
/// wall-clock seconds, and returns the first hit, a well-formed calendar
/// instant strictly later than `from`; its outcome depends on the pattern
/// and `from` alone.
#[verifier::external_body]
fn croner_find_next(pattern: &str, from: &LoolDate) -> (r: Option<LoolDate>)
    requires
        cron_pattern_ok(pattern@),
        date_valid(from@),
    ensures
        (match r {
            Some(u) => Some(u@),
            None => None,
        }) == cron_next_of(pattern@, from@),
        r matches Some(u) ==> date_valid(u@) && u@.nanos == 0 && date_lt(from@, u@),
{
    let cron = <croner::Cron as core::str::FromStr>::from_str(pattern).ok()?;
    let nd = chrono::NaiveDate::from_ymd_opt(from.year(), from.month(), from.day())?;
    let ndt = nd.and_hms_opt(from.hour(), from.minute(), from.second())?;
    let n = cron.find_next_occurrence(&ndt, false).ok()?;
    Some(LoolDate::new(
        chrono::Datelike::year(&n),
        chrono::Datelike::month(&n),
        chrono::Datelike::day(&n),
        chrono::Timelike::hour(&n),
        chrono::Timelike::minute(&n),
        chrono::Timelike::second(&n),
    ))
}

/// A parsed cron scheduling rule: a pattern that `croner` has accepted.
#[derive(Debug)]
pub struct Cron {
    pattern: String,
}

impl Cron {
    /// The pattern has been accepted by the cron engine.
    pub closed spec fn wf(&self) -> bool {
        cron_pattern_ok(self.pattern@)
    }

    /// The pattern text.
    pub closed spec fn pattern_view(&self) -> Seq<char> {
        self.pattern@
    }

    /// Create a new `Cron` scheduling rule, rejecting patterns that the cron
    /// engine does not accept.
    pub fn new(pattern: &str) -> (r: Result<Cron, CronPatternError>)
        ensures
            match r {
                Ok(c) => cron_pattern_ok(pattern@) && c.wf() && c.pattern_view() == pattern@,
                Err(e) => !cron_pattern_ok(pattern@) && e.pattern@ == pattern@,
            },
    {
        if cron_pattern_parses(pattern) {
            Ok(Cron { pattern: pattern.to_owned() })
        } else {
            Err(CronPatternError { pattern: pattern.to_owned() })
        }
    }

    /// The first occurrence of the pattern strictly after `from`.
    pub fn find_next_occurrence(&self, from: &LoolDate) -> (r: Option<LoolDate>)
        requires
            self.wf(),
            date_valid(from@),
        ensures
            (match r {
                Some(u) => Some(u@),
                None => None,
            }) == cron_next_of(self.pattern_view(), from@),
            r matches Some(u) ==> date_valid(u@) && u@.nanos == 0 && date_lt(from@, u@),
    {
        croner_find_next(self.pattern.as_str(), from)
    }
}

impl Clone for Cron {
    /// A clone carries the same pattern.
    fn clone(&self) -> (res: Cron)
        ensures
            res == *self,
    {
        Cron { pattern: self.pattern.clone() }
    }
}

/// The error returned when the cron engine rejects a pattern.
#[derive(Debug)]
pub struct CronPatternError {
    /// The rejected pattern.
    pub pattern: String,
}

impl CronPatternError {
    /// A human-readable description of the error.
    pub fn message(&self) -> (r: String)
        ensures
            r@ == "invalid cron pattern"@,
    {
        "invalid cron pattern".to_owned()
    }
}

} // verus!
