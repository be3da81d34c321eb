//! The observable counters of a bounded worker pool, modelled exactly: a
//! job is queued, taken by a worker, and finished, and the counters follow.

use vstd::prelude::*;

verus! {

/// The status of a worker pool: the pending and running job counts, and the
/// number of workers. The ghost totals count every submission and every
/// completed job over the pool's whole history.
pub struct PoolStatus {
    /// the number of pending jobs in the queue
    queued_count: usize,
    /// the number of currently running jobs
    active_count: usize,
    /// the number of workers
    pool_size: usize,
    /// how many jobs have ever been submitted
    submitted: Ghost<nat>,
    /// how many jobs have ever finished
    finished: Ghost<nat>,
}

impl PoolStatus {
    /// The counters balance the history: pending plus running jobs account
    /// exactly for every submitted job that has not finished.
    pub closed spec fn wf(&self) -> bool {
        self.submitted@ == self.finished@ + self.queued_count + self.active_count
    }

    pub closed spec fn spec_queued(&self) -> int {
        self.queued_count as int
    }

    pub closed spec fn spec_active(&self) -> int {
        self.active_count as int
    }

    pub closed spec fn spec_submitted(&self) -> nat {
        self.submitted@
    }

    pub closed spec fn spec_finished(&self) -> nat {
        self.finished@
    }

    /// A fresh status for a pool of `pool_size` workers: no job pending,
    /// none running, none ever submitted.
    pub fn create(pool_size: usize) -> (r: PoolStatus)
        ensures
            r.wf(),
            r.spec_queued() == 0,
            r.spec_active() == 0,
            r.spec_submitted() == 0,
            r.spec_finished() == 0,
            r.spec_pool_size() == pool_size,
    {
        PoolStatus {
            queued_count: 0,
            active_count: 0,
            pool_size,
            submitted: Ghost(0),
            finished: Ghost(0),
        }
    }

    pub closed spec fn spec_pool_size(&self) -> int {
        self.pool_size as int
    }

    /// There is work somewhere: a job is pending or one is running. Under
    /// well-formedness this is exactly "some submitted job has not finished".
    pub fn has_work(&self) -> (r: bool)
        ensures
            r == (self.spec_queued() > 0 || self.spec_active() > 0),
            self.wf() ==> r == (self.spec_submitted() != self.spec_finished()),
    {
        self.queued_count > 0 || self.active_count > 0
    }

    /// The number of pending jobs.
    pub fn queued_jobs(&self) -> (r: usize)
        ensures
            r == self.spec_queued(),
    {
        self.queued_count
    }

    /// The number of running jobs.
    pub fn active_jobs(&self) -> (r: usize)
        ensures
            r == self.spec_active(),
    {
        self.active_count
    }

    /// The number of workers.
    pub fn pool_size(&self) -> (r: usize)
        ensures
            r == self.spec_pool_size(),
    {
        self.pool_size
    }

    /// A job enters the queue: one more pending, one more ever submitted.
    pub fn enqueue_job(&mut self)
        requires
            old(self).wf(),
            old(self).spec_queued() < usize::MAX,
        ensures
            final(self).wf(),
            final(self).spec_queued() == old(self).spec_queued() + 1,
            final(self).spec_active() == old(self).spec_active(),
            final(self).spec_submitted() == old(self).spec_submitted() + 1,
            final(self).spec_finished() == old(self).spec_finished(),
            final(self).spec_pool_size() == old(self).spec_pool_size(),
    {
        self.queued_count = self.queued_count + 1;
        proof {
            self.submitted@ = self.submitted@ + 1;
        }
    }

    /// A worker takes a pending job: it moves from the queue to the running
    /// count, atomically in this model.
    pub fn take_job(&mut self)
        requires
            old(self).wf(),
            old(self).spec_queued() > 0,
            old(self).spec_active() < usize::MAX,
        ensures
            final(self).wf(),
            final(self).spec_queued() == old(self).spec_queued() - 1,
            final(self).spec_active() == old(self).spec_active() + 1,
            final(self).spec_submitted() == old(self).spec_submitted(),
            final(self).spec_finished() == old(self).spec_finished(),
            final(self).spec_pool_size() == old(self).spec_pool_size(),
    {
        self.active_count = self.active_count + 1;
        self.queued_count = self.queued_count - 1;
    }

    /// A running job returns: one fewer running, one more ever finished.
    pub fn finish_job(&mut self)
        requires
            old(self).wf(),
            old(self).spec_active() > 0,
        ensures
            final(self).wf(),
            final(self).spec_queued() == old(self).spec_queued(),
            final(self).spec_active() == old(self).spec_active() - 1,
            final(self).spec_submitted() == old(self).spec_submitted(),
            final(self).spec_finished() == old(self).spec_finished() + 1,
            final(self).spec_pool_size() == old(self).spec_pool_size(),
    {
        self.active_count = self.active_count - 1;
        proof {
            self.finished@ = self.finished@ + 1;
        }
    }
}

/// The pool's counters never overstate the outstanding work: pending plus
/// running jobs equal the submitted jobs not yet finished, and when every
/// submitted job has finished — as after a drained `join` — both counters
/// are zero.
pub proof fn lemma_pool_counters_balance(s: PoolStatus)
    requires
        s.wf(),
    ensures
        s.spec_queued() + s.spec_active() == s.spec_submitted() - s.spec_finished(),
        s.spec_submitted() == s.spec_finished() ==> s.spec_queued() == 0 && s.spec_active() == 0,
{
}

} // verus!
