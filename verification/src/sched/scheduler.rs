//! The task registry: per-task observable state, handles, and the choice of
//! the earliest next run over a task's rules.

use vstd::prelude::*;

use crate::sched::cron_date::{date_lt, date_valid, lemma_date_lt_total, DateSpec, LoolDate};
use crate::sched::rules::{sched_next, sched_rule_wf, SchedulingRule};
use crate::sched::utils::str_eq;

verus! {

/// The observable state of one scheduled task.
///
/// The driver is the sole writer of `is_running` and `last_run`; the
/// scheduler writes `is_stopped` and `is_removed`.
#[derive(Clone, Copy, Debug)]
pub struct TaskState {
    /// true while the action is executing
    pub is_running: bool,
    /// paused; the task stays in the registry
    pub is_stopped: bool,
    /// removed; the driver must terminate
    pub is_removed: bool,
    /// the most recent fire time
    pub last_run: Option<LoolDate>,
}

impl TaskState {
    /// Neither stopped nor removed.
    pub open spec fn active(self) -> bool {
        !self.is_stopped && !self.is_removed
    }

    /// Any recorded fire time is a real calendar instant.
    pub open spec fn last_run_valid(self) -> bool {
        self.last_run matches Some(d) ==> date_valid(d@)
    }

    /// The state of a freshly scheduled task.
    pub fn new() -> (r: TaskState)
        ensures
            r == (TaskState { is_running: false, is_stopped: false, is_removed: false, last_run: None }),
    {
        TaskState { is_running: false, is_stopped: false, is_removed: false, last_run: None }
    }

    /// Neither stopped nor removed.
    pub fn is_active(&self) -> (r: bool)
        ensures
            r == self.active(),
    {
        !self.is_stopped && !self.is_removed
    }

    /// Record a fire: the task is running and the fire time becomes the last
    /// run. Fire times must advance strictly, so the recorded run times of a
    /// task grow strictly over its life.
    pub fn begin_run(&mut self, fire: LoolDate)
        requires
            date_valid(fire@),
            old(self).last_run matches Some(p) ==> date_lt(p@, fire@),
        ensures
            *final(self) == (TaskState { is_running: true, last_run: Some(fire), ..*old(self) }),
            (*final(self)).last_run_valid(),
    {
        self.is_running = true;
        self.last_run = Some(fire);
    }

    /// The action has returned.
    pub fn end_run(&mut self)
        ensures
            *final(self) == (TaskState { is_running: false, ..*old(self) }),
    {
        self.is_running = false;
    }
}

/// Every rule in the sequence is well formed.
pub open spec fn rules_wf(rules: Seq<SchedulingRule>) -> bool {
    forall|i: int| 0 <= i < rules.len() ==> sched_rule_wf(&rules[i])
}

/// The earlier of two optional instants; a present instant beats an absent
/// one, and the first argument wins a tie.
pub open spec fn opt_min(a: Option<DateSpec>, b: Option<DateSpec>) -> Option<DateSpec> {
    match (a, b) {
        (Some(x), Some(y)) => if date_lt(y, x) {
            Some(y)
        } else {
            Some(x)
        },
        (Some(x), None) => Some(x),
        (None, rest) => rest,
    }
}

/// The earliest next fire over the rules from position `i` on.
pub open spec fn rules_next_from(rules: Seq<SchedulingRule>, base: DateSpec, i: int) -> Option<
    DateSpec,
>
    decreases rules.len() - i,
{
    if i < 0 || i >= rules.len() {
        None
    } else {
        opt_min(sched_next(rules[i]@, base), rules_next_from(rules, base, i + 1))
    }
}

/// The earliest instant after `base` at which any of the rules fires.
pub open spec fn rules_next(rules: Seq<SchedulingRule>, base: DateSpec) -> Option<DateSpec> {
    rules_next_from(rules, base, 0)
}

proof fn lemma_opt_min_assoc(a: Option<DateSpec>, b: Option<DateSpec>, c: Option<DateSpec>)
    ensures
        opt_min(opt_min(a, b), c) == opt_min(a, opt_min(b, c)),
{
    match (a, b, c) {
        (Some(x), Some(y), Some(z)) => {
            lemma_date_lt_total(x, y);
            lemma_date_lt_total(y, z);
            lemma_date_lt_total(x, z);
        },
        _ => {},
    }
}

/// The earliest next run over a list of rules: each rule's next fire from
/// `from` is computed and the earliest is returned. `None` when every rule
/// is exhausted.
pub fn get_next_run_time(rules: &Vec<SchedulingRule>, from: &LoolDate) -> (r: Option<LoolDate>)
    requires
        rules_wf(rules@),
        date_valid(from@),
    ensures
        (match r {
            Some(u) => Some(u@),
            None => None,
        }) == rules_next(rules@, from@),
        r matches Some(u) ==> date_valid(u@) && date_lt(from@, u@),
{
    let mut next_run_so_far: Option<LoolDate> = None;
    for i in 0..rules.len()
        invariant
            rules_wf(rules@),
            date_valid(from@),
            opt_min(
                match next_run_so_far {
                    Some(u) => Some(u@),
                    None => None,
                },
                rules_next_from(rules@, from@, i as int),
            ) == rules_next(rules@, from@),
            next_run_so_far matches Some(u) ==> date_valid(u@) && date_lt(from@, u@),
    {
        let ghost acc = match next_run_so_far {
            Some(u) => Some(u@),
            None => None,
        };
        let ghost head = sched_next(rules@[i as int]@, from@);
        let ghost rest = rules_next_from(rules@, from@, i as int + 1);
        let rule_next_run = rules[i].next_from(from);
        if let Some(next_run) = rule_next_run {
            if let Some(d) = next_run_so_far {
                if next_run.is_before(&d) {
                    next_run_so_far = Some(next_run);
                }
            } else {
                next_run_so_far = Some(next_run);
            }
        }
        proof {
            lemma_opt_min_assoc(acc, head, rest);
        }
    }
    next_run_so_far
}

/// The scheduler's record for one submitted task.
#[derive(Debug)]
pub struct ScheduledTask {
    /// the unique key in the registry
    pub name: String,
    /// the observable state shared with handles
    pub state: TaskState,
    /// the rules that drive the task
    pub rules: Vec<SchedulingRule>,
}

impl ScheduledTask {
    /// Rules are well formed and the recorded run time is a real date.
    pub open spec fn wf(&self) -> bool {
        rules_wf(self.rules@) && self.state.last_run_valid()
    }

    /// Neither stopped nor removed.
    pub fn is_active(&self) -> (r: bool)
        ensures
            r == self.state.active(),
    {
        self.state.is_active()
    }

    /// The task has been removed.
    pub fn is_removed(&self) -> (r: bool)
        ensures
            r == self.state.is_removed,
    {
        self.state.is_removed
    }
}

} // verus!

verus! {

/// The error returned when a handle's task is not in the registry.
#[derive(Debug)]
pub struct TaskNotFoundError {
    /// The name that was looked up.
    pub name: String,
}

impl TaskNotFoundError {
    /// A human-readable description of the error.
    pub fn message(&self) -> (r: String)
        ensures
            r@ == "task was not found"@,
    {
        "task was not found".to_owned()
    }
}

/// The error returned when a task name is already taken.
#[derive(Debug)]
pub struct DuplicateTaskError {
    /// The name that was already registered.
    pub name: String,
}

impl DuplicateTaskError {
    /// A human-readable description of the error.
    pub fn message(&self) -> (r: String)
        ensures
            r@ == "a task with this name is already scheduled"@,
    {
        "a task with this name is already scheduled".to_owned()
    }
}

/// A cloneable observer of one task: a snapshot of the task's observable
/// state together with its name and rules.
#[derive(Debug)]
pub struct TaskHandler {
    /// the task's name
    pub name: String,
    /// the task's rules
    pub rules: Vec<SchedulingRule>,
    /// the observable state as last published to this handle
    pub state: TaskState,
}

impl TaskHandler {
    /// Rules are well formed and the recorded run time is a real date.
    pub open spec fn wf(&self) -> bool {
        rules_wf(self.rules@) && self.state.last_run_valid()
    }

    /// The name of the task.
    pub fn name(&self) -> (r: &str)
        ensures
            r@ == self.name@,
    {
        self.name.as_str()
    }

    /// The task's action is executing at this moment.
    pub fn is_running(&self) -> (r: bool)
        ensures
            r == self.state.is_running,
    {
        self.state.is_running
    }

    /// The task has been paused but stays in the scheduler.
    pub fn is_stopped(&self) -> (r: bool)
        ensures
            r == self.state.is_stopped,
    {
        self.state.is_stopped
    }

    /// The task has been removed and cannot be resumed.
    pub fn is_removed(&self) -> (r: bool)
        ensures
            r == self.state.is_removed,
    {
        self.state.is_removed
    }

    /// Neither stopped nor removed.
    pub fn is_active(&self) -> (r: bool)
        ensures
            r == self.state.active(),
    {
        self.state.is_active()
    }

    /// The last time the task was run, or `None` if it has never run.
    pub fn get_last_run(&self) -> (r: Option<LoolDate>)
        ensures
            r == self.state.last_run,
    {
        self.state.last_run
    }

    /// The next time the task is due, judged from `now`: the earliest fire
    /// over its rules, strictly after `now`, or `None` when the task is not
    /// active or every rule is exhausted.
    pub fn get_next_run_from(&self, now: &LoolDate) -> (r: Option<LoolDate>)
        requires
            self.wf(),
            date_valid(now@),
        ensures
            !self.state.active() ==> r is None,
            self.state.active() ==> (match r {
                Some(u) => Some(u@),
                None => None,
            }) == rules_next(self.rules@, now@),
            r matches Some(u) ==> date_valid(u@) && date_lt(now@, u@),
    {
        if self.is_active() {
            get_next_run_time(&self.rules, now)
        } else {
            None
        }
    }

    /// The next time the task is due, judged from the current local time.
    pub fn get_next_run(&self) -> (r: Option<LoolDate>)
        requires
            self.wf(),
        ensures
            !self.state.active() ==> r is None,
            r matches Some(u) ==> self.state.active() && date_valid(u@),
    {
        let now = LoolDate::now();
        self.get_next_run_from(&now)
    }
}

impl Clone for TaskHandler {
    /// A clone observes the same task: same name, same rules, same state.
    fn clone(&self) -> (res: TaskHandler)
        ensures
            res.name@ == self.name@,
            res.rules@.len() == self.rules@.len(),
            forall|i: int| 0 <= i < self.rules@.len() ==> res.rules@[i]@ == self.rules@[i]@,
            res.state == self.state,
            self.wf() ==> res.wf(),
    {
        TaskHandler {
            name: self.name.clone(),
            rules: clone_rules(&self.rules),
            state: self.state,
        }
    }
}

/// Copy a rule list, keeping each rule's model and well-formedness.
fn clone_rules(rules: &Vec<SchedulingRule>) -> (r: Vec<SchedulingRule>)
    ensures
        r@.len() == rules@.len(),
        forall|i: int| 0 <= i < rules@.len() ==> r@[i]@ == rules@[i]@,
        forall|i: int|
            0 <= i < rules@.len() && sched_rule_wf(&rules@[i]) ==> sched_rule_wf(&r@[i]),
{
    let mut r: Vec<SchedulingRule> = Vec::new();
    for i in 0..rules.len()
        invariant
            r@.len() == i,
            forall|j: int| 0 <= j < i ==> r@[j]@ == rules@[j]@,
            forall|j: int| 0 <= j < i && sched_rule_wf(&rules@[j]) ==> sched_rule_wf(&r@[j]),
    {
        r.push(rules[i].clone());
    }
    r
}

} // verus!

verus! {

/// Some task in the registry bears this name.
pub open spec fn has_task(tasks: Seq<ScheduledTask>, name: Seq<char>) -> bool {
    exists|i: int| 0 <= i < tasks.len() && tasks[i].name@ == name
}

/// The task scheduler: a registry of tasks keyed by unique names.
///
/// The registry holds each task's rules and observable state; running the
/// tasks on a clock is the caller's substrate's business.
#[derive(Debug)]
pub struct Scheduler {
    /// the registered tasks
    pub tasks: Vec<ScheduledTask>,
}

impl Scheduler {
    /// Every task is well formed and names are unique.
    pub open spec fn wf(&self) -> bool {
        &&& forall|i: int| 0 <= i < self.tasks@.len() ==> (#[trigger] self.tasks@[i]).wf()
        &&& forall|i: int, j: int|
            0 <= i < j < self.tasks@.len() ==> (#[trigger] self.tasks@[i]).name@ != (
            #[trigger] self.tasks@[j]).name@
    }

    /// Create a new, empty scheduler.
    pub fn new() -> (r: Scheduler)
        ensures
            r.tasks@.len() == 0,
            r.wf(),
    {
        Scheduler { tasks: Vec::new() }
    }

    fn find_index(&self, name: &str) -> (r: Option<usize>)
        ensures
            match r {
                Some(i) => i < self.tasks@.len() && self.tasks@[i as int].name@ == name@,
                None => forall|i: int|
                    0 <= i < self.tasks@.len() ==> (#[trigger] self.tasks@[i]).name@ != name@,
            },
    {
        for i in 0..self.tasks.len()
            invariant
                forall|j: int| 0 <= j < i ==> (#[trigger] self.tasks@[j]).name@ != name@,
        {
            if str_eq(self.tasks[i].name.as_str(), name) {
                return Some(i);
            }
        }
        None
    }

    /// Schedule a task under a fresh name with a single rule; the task
    /// starts out active and never run. A name already in the registry is
    /// rejected.
    pub fn schedule(&mut self, name: &str, rule: SchedulingRule) -> (r: Result<
        TaskHandler,
        DuplicateTaskError,
    >)
        requires
            old(self).wf(),
            sched_rule_wf(&rule),
        ensures
            final(self).wf(),
            match r {
                Ok(h) => {
                    &&& !has_task(old(self).tasks@, name@)
                    &&& final(self).tasks@.len() == old(self).tasks@.len() + 1
                    &&& final(self).tasks@.subrange(0, old(self).tasks@.len() as int) =~= old(
                        self,
                    ).tasks@
                    &&& final(self).tasks@.last().name@ == name@
                    &&& final(self).tasks@.last().state == (TaskState {
                        is_running: false,
                        is_stopped: false,
                        is_removed: false,
                        last_run: None,
                    })
                    &&& final(self).tasks@.last().rules@.len() == 1
                    &&& final(self).tasks@.last().rules@[0]@ == rule@
                    &&& h.name@ == name@
                    &&& h.state == final(self).tasks@.last().state
                    &&& h.rules@.len() == 1 && h.rules@[0]@ == rule@
                    &&& h.wf()
                },
                Err(_) => has_task(old(self).tasks@, name@) && *final(self) == *old(self),
            },
    {
        let mut rules: Vec<SchedulingRule> = Vec::new();
        rules.push(rule);
        self.schedule_many_rules(name, rules)
    }

    /// Schedule a task under a fresh name with a list of rules; the task
    /// starts out active and never run. A name already in the registry is
    /// rejected.
    pub fn schedule_many_rules(&mut self, name: &str, rules: Vec<SchedulingRule>) -> (r: Result<
        TaskHandler,
        DuplicateTaskError,
    >)
        requires
            old(self).wf(),
            rules_wf(rules@),
        ensures
            final(self).wf(),
            match r {
                Ok(h) => {
                    &&& !has_task(old(self).tasks@, name@)
                    &&& final(self).tasks@.len() == old(self).tasks@.len() + 1
                    &&& final(self).tasks@.subrange(0, old(self).tasks@.len() as int) =~= old(
                        self,
                    ).tasks@
                    &&& final(self).tasks@.last().name@ == name@
                    &&& final(self).tasks@.last().state == (TaskState {
                        is_running: false,
                        is_stopped: false,
                        is_removed: false,
                        last_run: None,
                    })
                    &&& final(self).tasks@.last().rules == rules
                    &&& h.name@ == name@
                    &&& h.state == final(self).tasks@.last().state
                    &&& h.rules@.len() == rules@.len()
                    &&& forall|i: int| 0 <= i < rules@.len() ==> h.rules@[i]@ == rules@[i]@
                    &&& h.wf()
                },
                Err(_) => has_task(old(self).tasks@, name@) && *final(self) == *old(self),
            },
    {
        if let Some(_) = self.find_index(name) {
            return Err(DuplicateTaskError { name: name.to_owned() });
        }
        let handler = TaskHandler {
            name: name.to_owned(),
            rules: clone_rules(&rules),
            state: TaskState::new(),
        };
        let task = ScheduledTask { name: name.to_owned(), state: TaskState::new(), rules };
        self.tasks.push(task);
        Ok(handler)
    }

    /// Pause the handle's task: it stays in the registry and skips its
    /// fires. Fails when the name is not registered.
    pub fn stop(&mut self, handler: &mut TaskHandler) -> (r: Result<(), TaskNotFoundError>)
        requires
            old(self).wf(),
        ensures
            final(self).wf(),
            final(handler).name == old(handler).name,
            final(handler).rules == old(handler).rules,
            match r {
                Ok(()) => {
                    &&& exists|i: int|
                        {
                            &&& 0 <= i < old(self).tasks@.len()
                            &&& (#[trigger] old(self).tasks@[i]).name@ == old(handler).name@
                            &&& final(self).tasks@ =~= old(self).tasks@.update(
                                i,
                                ScheduledTask {
                                    state: TaskState { is_stopped: true, ..old(self).tasks@[i].state },
                                    ..old(self).tasks@[i]
                                },
                            )
                        }
                    &&& final(handler).state == (TaskState {
                        is_stopped: true,
                        ..old(handler).state
                    })
                },
                Err(_) => {
                    &&& !has_task(old(self).tasks@, old(handler).name@)
                    &&& *final(self) == *old(self)
                    &&& final(handler).state == old(handler).state
                },
            },
    {
        match self.find_index(handler.name.as_str()) {
            Some(i) => {
                let mut task = self.tasks.remove(i);
                task.state.is_stopped = true;
                self.tasks.insert(i, task);
                handler.state.is_stopped = true;
                Ok(())
            },
            None => Err(TaskNotFoundError { name: handler.name.clone() }),
        }
    }

    /// Resume the handle's task after a pause. Fails when the name is not
    /// registered.
    pub fn resume(&mut self, handler: &mut TaskHandler) -> (r: Result<(), TaskNotFoundError>)
        requires
            old(self).wf(),
        ensures
            final(self).wf(),
            final(handler).name == old(handler).name,
            final(handler).rules == old(handler).rules,
            match r {
                Ok(()) => {
                    &&& exists|i: int|
                        {
                            &&& 0 <= i < old(self).tasks@.len()
                            &&& (#[trigger] old(self).tasks@[i]).name@ == old(handler).name@
                            &&& final(self).tasks@ =~= old(self).tasks@.update(
                                i,
                                ScheduledTask {
                                    state: TaskState {
                                        is_stopped: false,
                                        ..old(self).tasks@[i].state
                                    },
                                    ..old(self).tasks@[i]
                                },
                            )
                        }
                    &&& final(handler).state == (TaskState {
                        is_stopped: false,
                        ..old(handler).state
                    })
                },
                Err(_) => {
                    &&& !has_task(old(self).tasks@, old(handler).name@)
                    &&& *final(self) == *old(self)
                    &&& final(handler).state == old(handler).state
                },
            },
    {
        match self.find_index(handler.name.as_str()) {
            Some(i) => {
                let mut task = self.tasks.remove(i);
                task.state.is_stopped = false;
                self.tasks.insert(i, task);
                handler.state.is_stopped = false;
                Ok(())
            },
            None => Err(TaskNotFoundError { name: handler.name.clone() }),
        }
    }

    /// Remove the handle's task from the registry; its driver must then
    /// terminate. The handle is marked removed even when the name is not
    /// registered.
    pub fn remove(&mut self, handler: &mut TaskHandler) -> (r: Result<(), TaskNotFoundError>)
        requires
            old(self).wf(),
        ensures
            final(self).wf(),
            final(handler).name == old(handler).name,
            final(handler).rules == old(handler).rules,
            final(handler).state == (TaskState { is_removed: true, ..old(handler).state }),
            match r {
                Ok(()) => exists|i: int|
                    {
                        &&& 0 <= i < old(self).tasks@.len()
                        &&& (#[trigger] old(self).tasks@[i]).name@ == old(handler).name@
                        &&& final(self).tasks@ =~= old(self).tasks@.remove(i)
                    },
                Err(_) => !has_task(old(self).tasks@, old(handler).name@) && *final(self) == *old(
                    self,
                ),
            },
    {
        match self.find_index(handler.name.as_str()) {
            Some(i) => {
                let _task = self.tasks.remove(i);
                handler.state.is_removed = true;
                Ok(())
            },
            None => {
                handler.state.is_removed = true;
                Err(TaskNotFoundError { name: handler.name.clone() })
            },
        }
    }
}

/// What the per-task driver does at a wake-up, judged from the next fire
/// time and the current time.
#[derive(Clone, Copy, Debug, PartialEq, Eq, Structural)]
pub enum DriverStep {
    /// no rule will ever fire again: the driver terminates
    Finished,
    /// the fire time is still ahead: sleep until it, then fire
    WaitUntil(LoolDate),
    /// the fire time has passed: fire immediately
    FireNow(LoolDate),
}

/// Decide the driver's next move: with no next fire it finishes; a future
/// fire is waited for; a missed fire runs at once.
pub fn plan_step(next: Option<LoolDate>, now: &LoolDate) -> (r: DriverStep)
    ensures
        match next {
            None => r == DriverStep::Finished,
            Some(d) => r == if date_lt(now@, d@) {
                DriverStep::WaitUntil(d)
            } else {
                DriverStep::FireNow(d)
            },
        },
{
    match next {
        None => DriverStep::Finished,
        Some(d) => {
            if now.is_before(&d) {
                DriverStep::WaitUntil(d)
            } else {
                DriverStep::FireNow(d)
            }
        },
    }
}

} // verus!
