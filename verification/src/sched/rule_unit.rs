//! A recurrence rule unit: a predicate over a single calendar field.

use vstd::prelude::*;

verus! {

/// A single rule unit that can be used to match a calendar field value.
///
/// Values are held as `i64` so that one type covers every calendar field,
/// from seconds (`0..=59`) up to years (`i32` range).
#[derive(Debug)]
pub enum Rule {
    /// a single value
    Val(i64),
    /// range from `start` to `end` with `step` increment
    Range(i64, i64, i64),
    /// a list of single values
    Many(Vec<i64>),
    /// a list of ranges
    Ranges(Vec<(i64, i64, i64)>),
}

/// The mathematical model of a rule unit: lists become sequences.
pub ghost enum RuleSpec {
    Val(i64),
    Range(i64, i64, i64),
    Many(Seq<i64>),
    Ranges(Seq<(i64, i64, i64)>),
}

impl View for Rule {
    type V = RuleSpec;

    open spec fn view(&self) -> RuleSpec {
        match self {
            Rule::Val(v) => RuleSpec::Val(*v),
            Rule::Range(s, e, st) => RuleSpec::Range(*s, *e, *st),
            Rule::Many(vs) => RuleSpec::Many(vs@),
            Rule::Ranges(rs) => RuleSpec::Ranges(rs@),
        }
    }
}

/// What it means for a stepped range `(start, end, step)` to accept `v`.
///
/// A range with `start > end` wraps around: it accepts values at or above
/// `start` as well as values at or below `end`.
pub open spec fn range_matches(start: int, end: int, step: int, v: int) -> bool {
    if start == end {
        v == start
    } else if step == 0 || step == 1 {
        if start < end {
            start <= v <= end
        } else {
            v >= start || v <= end
        }
    } else {
        if start < end {
            start <= v <= end && (v - start) % step == 0
        } else {
            (v >= start || v <= end) && (start - v) % step == 0
        }
    }
}

/// What it means for a rule unit to accept the field value `v`.
pub open spec fn rule_matches(r: RuleSpec, v: int) -> bool {
    match r {
        RuleSpec::Val(x) => v == x,
        RuleSpec::Range(start, end, step) => range_matches(start as int, end as int, step as int, v),
        RuleSpec::Many(vs) => exists|i: int| 0 <= i < vs.len() && vs[i] == v,
        RuleSpec::Ranges(rs) => exists|i: int|
            0 <= i < rs.len() && range_matches(rs[i].0 as int, rs[i].1 as int, rs[i].2 as int, v),
    }
}

/// Every value that the rule unit can accept lies within `[min, max]`,
/// judged, as the validation does, by the listed endpoints alone.
pub open spec fn rule_within(r: RuleSpec, min: int, max: int) -> bool {
    match r {
        RuleSpec::Val(x) => min <= x <= max,
        RuleSpec::Range(start, end, _) => min <= start && end <= max,
        RuleSpec::Many(vs) => forall|i: int| 0 <= i < vs.len() ==> min <= #[trigger] vs[i] <= max,
        RuleSpec::Ranges(rs) => forall|i: int|
            0 <= i < rs.len() ==> min <= (#[trigger] rs[i]).0 && rs[i].1 <= max,
    }
}

/// Divisibility test matching the `% step == 0` clauses of `range_matches`.
fn divides(step: i64, diff_a: i64, diff_b: i64) -> (r: bool)
    requires
        step != 0 && step != 1,
    ensures
        r == ((diff_a - diff_b) % (step as int) == 0),
{
    let wide: i128 = diff_a as i128 - diff_b as i128;
    match wide.checked_rem_euclid(step as i128) {
        Some(m) => m == 0,
        None => false,
    }
}

fn range_matches_exec(start: i64, end: i64, step: i64, value: i64) -> (r: bool)
    ensures
        r == range_matches(start as int, end as int, step as int, value as int),
{
    if start == end {
        value == start
    } else if step == 0 || step == 1 {
        if start < end {
            value >= start && value <= end
        } else {
            value >= start || value <= end
        }
    } else {
        if start < end {
            value >= start && value <= end && divides(step, value, start)
        } else {
            (value >= start || value <= end) && divides(step, start, value)
        }
    }
}

fn copy_vals(v: &Vec<i64>) -> (r: Vec<i64>)
    ensures
        r@ == v@,
{
    let mut r: Vec<i64> = Vec::new();
    for i in 0..v.len()
        invariant
            r@ == v@.subrange(0, i as int),
    {
        r.push(v[i]);
        assert(r@ =~= v@.subrange(0, i + 1));
    }
    assert(r@ =~= v@);
    r
}

fn copy_triples(v: &Vec<(i64, i64, i64)>) -> (r: Vec<(i64, i64, i64)>)
    ensures
        r@ == v@,
{
    let mut r: Vec<(i64, i64, i64)> = Vec::new();
    for i in 0..v.len()
        invariant
            r@ == v@.subrange(0, i as int),
    {
        r.push(v[i]);
        assert(r@ =~= v@.subrange(0, i + 1));
    }
    assert(r@ =~= v@);
    r
}

impl Clone for Rule {
    /// A clone carries the same model.
    fn clone(&self) -> (res: Rule)
        ensures
            res@ == self@,
    {
        match self {
            Rule::Val(v) => Rule::Val(*v),
            Rule::Range(s, e, st) => Rule::Range(*s, *e, *st),
            Rule::Many(vs) => Rule::Many(copy_vals(vs)),
            Rule::Ranges(rs) => Rule::Ranges(copy_triples(rs)),
        }
    }
}

impl Rule {
    /// Check whether `value` matches this rule unit.
    pub fn matches(&self, value: i64) -> (r: bool)
        ensures
            r == rule_matches(self@, value as int),
    {
        Self::_matches(self, value)
    }

    fn _matches(matcher: &Rule, value: i64) -> (r: bool)
        ensures
            r == rule_matches(matcher@, value as int),
    {
        match matcher {
            Rule::Val(v) => value == *v,
            Rule::Range(start, end, step) => range_matches_exec(*start, *end, *step, value),
            Rule::Many(vs) => {
                proof {
                    assert(matcher@->Many_0 == vs@);
                }
                let mut found = false;
                for i in 0..vs.len()
                    invariant
                        found == exists|j: int| 0 <= j < i && vs@[j] == value,
                {
                    if vs[i] == value {
                        found = true;
                    }
                }
                found
            },
            Rule::Ranges(rs) => {
                proof {
                    assert(matcher@->Ranges_0 == rs@);
                }
                let mut found = false;
                for i in 0..rs.len()
                    invariant
                        found == exists|j: int|
                            0 <= j < i && range_matches(
                                rs@[j].0 as int,
                                rs@[j].1 as int,
                                rs@[j].2 as int,
                                value as int,
                            ),
                {
                    let (s, e, st) = rs[i];
                    if range_matches_exec(s, e, st, value) {
                        found = true;
                    }
                }
                found
            },
        }
    }

    /// True when every endpoint listed by the rule lies within `[min, max]`.
    pub fn value_is_between(&self, min: i64, max: i64) -> (r: bool)
        ensures
            r == rule_within(self@, min as int, max as int),
    {
        match self {
            Rule::Val(v) => *v >= min && *v <= max,
            Rule::Range(start, end, _) => *start >= min && *end <= max,
            Rule::Many(values) => {
                proof {
                    assert(self@->Many_0 == values@);
                }
                let mut ok = true;
                for i in 0..values.len()
                    invariant
                        ok == forall|j: int| 0 <= j < i ==> min <= #[trigger] values@[j] <= max,
                {
                    if values[i] < min || values[i] > max {
                        ok = false;
                    }
                }
                ok
            },
            Rule::Ranges(ranges) => {
                proof {
                    assert(self@->Ranges_0 == ranges@);
                }
                let mut ok = true;
                for i in 0..ranges.len()
                    invariant
                        ok == forall|j: int|
                            0 <= j < i ==> min <= (#[trigger] ranges@[j]).0 && ranges@[j].1 <= max,
                {
                    let (s, e, _) = ranges[i];
                    if s < min || e > max {
                        ok = false;
                    }
                }
                ok
            },
        }
    }
}

/// Create a `Rule` that will match a single value.
pub fn val(value: i64) -> (r: Rule)
    ensures
        r == Rule::Val(value),
{
    Rule::Val(value)
}

/// Create a `Rule` that will match a stepped range of values.
pub fn range(start: i64, end: i64, step: i64) -> (r: Rule)
    ensures
        r == Rule::Range(start, end, step),
{
    Rule::Range(start, end, step)
}

/// Create a `Rule` that will match any of the listed values.
pub fn many(values: Vec<i64>) -> (r: Rule)
    ensures
        r == Rule::Many(values),
{
    Rule::Many(values)
}

/// Create a `Rule` that will match any of the listed ranges.
pub fn ranges(rs: Vec<(i64, i64, i64)>) -> (r: Rule)
    ensures
        r == Rule::Ranges(rs),
{
    Rule::Ranges(rs)
}

} // verus!

verus! {

/// A stepped upward range enumerates exactly the arithmetic progression
/// `start, start + step, start + 2 * step, ...` up to `end`: a rule unit
/// matches a value exactly when the value is one of those.
pub proof fn lemma_range_step_values(start: int, end: int, step: int, v: int)
    requires
        step >= 2,
        start < end,
    ensures
        range_matches(start, end, step, v) <==> (exists|k: int|
            0 <= k && v == start + #[trigger] (k * step) && v <= end),
{
    if range_matches(start, end, step, v) {
        let d = v - start;
        vstd::arithmetic::div_mod::lemma_fundamental_div_mod(d, step);
        let k = d / step;
        assert(d == step * k + d % step);
        assert(k >= 0) by (nonlinear_arith)
            requires
                step * k == d,
                d >= 0,
                step >= 2,
        ;
        assert(v == start + k * step) by (nonlinear_arith)
            requires
                d == step * k,
                v == start + d,
        ;
        assert(0 <= k && v == start + k * step && v <= end);
    }
    if exists|k: int| 0 <= k && v == start + #[trigger] (k * step) && v <= end {
        let k = choose|k: int| 0 <= k && v == start + #[trigger] (k * step) && v <= end;
        assert(k * step >= 0) by (nonlinear_arith)
            requires
                k >= 0,
                step >= 2,
        ;
        vstd::arithmetic::div_mod::lemma_mod_multiples_basic(k, step);
        assert((v - start) % step == 0);
    }
}

} // verus!
