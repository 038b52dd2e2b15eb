//! A verified model of the pool's lifecycle: the pool-level and per-worker
//! state machines, the FIFO handout of queued jobs, and the queue invariants.
//!
//! The running pool hands its concurrency to the operating system's threads
//! and the standard channel, so the protocol they follow is stated and proved
//! here over an explicit state: one status per submitted job, one phase per
//! worker, and one phase for the pool. The transitions are exactly the events
//! of the running pool — submit, claim, finish, close, retire, stop — and the
//! well-formedness invariant they preserve pins down the guarantees: a queued
//! job is claimed by exactly one worker, jobs leave the queue in submission
//! order, and the pool stops only after every job is done and every worker
//! has terminated.

use vstd::prelude::*;

verus! {

/// The phase of one worker thread.
#[derive(PartialEq, Eq, Structural, Clone, Copy, Debug)]
pub enum WorkerPhase {
    /// Parked at the queue, waiting for its next job.
    Running,
    /// Running the job with the given submission index.
    Executing { job: usize },
    /// Exited after observing the closed, drained queue.
    Terminated,
}

/// The phase of the pool as a whole.
#[derive(PartialEq, Eq, Structural, Clone, Copy, Debug)]
pub enum PoolPhase {
    /// Accepting submissions.
    Active,
    /// The sending half is closed; workers are draining the queue.
    ShuttingDown,
    /// Every worker has been joined.
    Stopped,
}

/// The status of one submitted job. A job's status only ever advances, from
/// `Queued` to `Claimed` to `Done`, so no job runs twice.
#[derive(PartialEq, Eq, Structural, Clone, Copy, Debug)]
pub enum JobStatus {
    /// Waiting in the queue.
    Queued,
    /// Taken by the one worker with this index, currently running.
    Claimed { worker: usize },
    /// Ran to completion.
    Done,
}

/// The pool's abstract state: jobs in submission order, workers by id, and
/// the count of jobs that have left the queue so far.
pub struct PoolLifecycle {
    /// The pool-level phase.
    pub phase: PoolPhase,
    /// One phase per worker, indexed by worker id.
    pub workers: Vec<WorkerPhase>,
    /// One status per submitted job, in submission order.
    pub jobs: Vec<JobStatus>,
    /// Jobs with index below this have left the queue; the rest wait in it.
    pub handed_out: usize,
}

impl PoolLifecycle {
    /// How many jobs wait in the queue.
    pub open spec fn queue_len(&self) -> int {
        self.jobs@.len() - self.handed_out
    }

    /// The status of job `j` agrees with the rest of the state: a queued job
    /// has not been handed out, and a claimed job is held by exactly the
    /// worker recorded for it, who is executing exactly this job.
    pub open spec fn job_ok(&self, j: int) -> bool {
        match self.jobs@[j] {
            JobStatus::Queued => self.handed_out <= j,
            JobStatus::Claimed { worker } => {
                &&& j < self.handed_out
                &&& worker < self.workers@.len()
                &&& self.workers@[worker as int] matches WorkerPhase::Executing { job }
                      && job == j
            },
            JobStatus::Done => j < self.handed_out,
        }
    }

    /// The phase of worker `w` agrees with the rest of the state: an
    /// executing worker holds a handed-out job that is claimed by it, and a
    /// worker terminates only once shutdown has begun.
    pub open spec fn worker_ok(&self, w: int) -> bool {
        match self.workers@[w] {
            WorkerPhase::Running => true,
            WorkerPhase::Executing { job } => {
                &&& job < self.handed_out
                &&& self.jobs@[job as int] matches JobStatus::Claimed { worker }
                      && worker == w
            },
            WorkerPhase::Terminated => !(self.phase is Active),
        }
    }

    /// Every worker has exited.
    pub open spec fn all_terminated(&self) -> bool {
        forall|w: int| 0 <= w < self.workers@.len()
            ==> #[trigger] self.workers@[w] is Terminated
    }

    /// The invariant every transition preserves.
    pub open spec fn wf(&self) -> bool {
        &&& self.workers@.len() >= 1
        &&& self.handed_out <= self.jobs@.len()
        &&& forall|j: int| 0 <= j < self.jobs@.len() ==> #[trigger] self.job_ok(j)
        &&& forall|j: int| self.handed_out <= j < self.jobs@.len()
                ==> (#[trigger] self.jobs@[j]) is Queued
        &&& forall|w: int| 0 <= w < self.workers@.len() ==> #[trigger] self.worker_ok(w)
        // Once every worker is gone nothing is left in the queue.
        &&& (self.phase is ShuttingDown && self.all_terminated())
                ==> self.handed_out == self.jobs@.len()
        // The pool stops only drained, with every worker joined.
        &&& self.phase is Stopped ==> self.all_terminated() && self.handed_out == self.jobs@.len()
    }

    /// A fresh pool: `size` workers, all running, an empty queue, accepting
    /// submissions. A pool with no executors is not allowed.
    pub fn new(size: usize) -> (pool: PoolLifecycle)
        requires
            size >= 1,
        ensures
            pool.wf(),
            pool.phase == PoolPhase::Active,
            pool.workers@.len() == size,
            forall|w: int| 0 <= w < size ==> pool.workers@[w] == WorkerPhase::Running,
            pool.jobs@.len() == 0,
    {
        let mut workers: Vec<WorkerPhase> = Vec::new();
        let mut i: usize = 0;
        while i < size
            invariant
                i <= size,
                workers@.len() == i,
                forall|w: int| 0 <= w < i ==> workers@[w] == WorkerPhase::Running,
            decreases size - i,
        {
            workers.push(WorkerPhase::Running);
            i = i + 1;
        }
        let pool = PoolLifecycle {
            phase: PoolPhase::Active,
            workers,
            jobs: Vec::new(),
            handed_out: 0,
        };
        proof {
            assert forall|w: int| 0 <= w < pool.workers@.len()
                implies #[trigger] pool.worker_ok(w) by {
                assert(pool.workers@[w] == WorkerPhase::Running);
            }
        }
        pool
    }

    /// Submission: while the pool is active, a new job enters at the back of
    /// the queue and nothing else moves.
    pub fn submit(&mut self) -> (id: usize)
        requires
            old(self).wf(),
            old(self).phase == PoolPhase::Active,
            old(self).jobs@.len() < usize::MAX,
        ensures
            final(self).wf(),
            id == old(self).jobs@.len(),
            final(self).jobs@ == old(self).jobs@.push(JobStatus::Queued),
            final(self).phase == old(self).phase,
            final(self).workers@ == old(self).workers@,
            final(self).handed_out == old(self).handed_out,
    {
        let id = self.jobs.len();
        self.jobs.push(JobStatus::Queued);
        proof {
            assert forall|j: int| 0 <= j < self.jobs@.len() implies #[trigger] self.job_ok(j) by {
                if j < id {
                    assert(old(self).job_ok(j));
                }
            }
            assert forall|w: int| 0 <= w < self.workers@.len()
                implies #[trigger] self.worker_ok(w) by {
                assert(old(self).worker_ok(w));
            }
        }
        id
    }

    /// Dequeue: a running worker claims the *oldest* queued job — jobs are
    /// handed out in submission order.
    pub fn claim(&mut self, w: usize) -> (id: usize)
        requires
            old(self).wf(),
            w < old(self).workers@.len(),
            old(self).workers@[w as int] == WorkerPhase::Running,
            old(self).queue_len() > 0,
        ensures
            final(self).wf(),
            id == old(self).handed_out,
            final(self).handed_out == old(self).handed_out + 1,
            final(self).jobs@ == old(self).jobs@.update(id as int, JobStatus::Claimed { worker: w }),
            final(self).workers@ == old(self).workers@.update(w as int, WorkerPhase::Executing { job: id }),
            final(self).phase == old(self).phase,
    {
        let id = self.handed_out;
        let count = self.jobs.len();
        self.jobs.set(id, JobStatus::Claimed { worker: w });
        self.workers.set(w, WorkerPhase::Executing { job: id });
        self.handed_out = id + 1;
        proof {
            assert forall|j: int| 0 <= j < self.jobs@.len() implies #[trigger] self.job_ok(j) by {
                assert(old(self).job_ok(j));
                if j != id {
                    match self.jobs@[j] {
                        JobStatus::Claimed { worker } => {
                            assert(old(self).workers@[worker as int]
                                == self.workers@[worker as int]);
                        },
                        _ => {},
                    }
                }
            }
            assert forall|ww: int| 0 <= ww < self.workers@.len()
                implies #[trigger] self.worker_ok(ww) by {
                assert(old(self).worker_ok(ww));
                if ww != w {
                    match self.workers@[ww] {
                        WorkerPhase::Executing { job } => {
                            assert(old(self).jobs@[job as int] == self.jobs@[job as int]);
                        },
                        _ => {},
                    }
                }
            }
            assert(!(old(self).workers@[w as int] is Terminated));
            assert(!old(self).all_terminated());
            assert(!(self.workers@[w as int] is Terminated));
            assert(!self.all_terminated());
        }
        id
    }

    /// Completion: the worker's current job is done and the worker returns
    /// to the queue for its next one.
    pub fn finish(&mut self, w: usize) -> (id: usize)
        requires
            old(self).wf(),
            w < old(self).workers@.len(),
            old(self).workers@[w as int] is Executing,
        ensures
            final(self).wf(),
            old(self).workers@[w as int] == (WorkerPhase::Executing { job: id }),
            final(self).jobs@ == old(self).jobs@.update(id as int, JobStatus::Done),
            final(self).workers@ == old(self).workers@.update(w as int, WorkerPhase::Running),
            final(self).phase == old(self).phase,
            final(self).handed_out == old(self).handed_out,
    {
        proof {
            assert(old(self).worker_ok(w as int));
        }
        let phase = self.workers[w];
        let id = match phase {
            WorkerPhase::Executing { job } => job,
            _ => 0,
        };
        self.jobs.set(id, JobStatus::Done);
        self.workers.set(w, WorkerPhase::Running);
        proof {
            assert forall|j: int| 0 <= j < self.jobs@.len() implies #[trigger] self.job_ok(j) by {
                assert(old(self).job_ok(j));
                if j != id {
                    match self.jobs@[j] {
                        JobStatus::Claimed { worker } => {
                            assert(old(self).workers@[worker as int]
                                == self.workers@[worker as int]);
                        },
                        _ => {},
                    }
                }
            }
            assert forall|ww: int| 0 <= ww < self.workers@.len()
                implies #[trigger] self.worker_ok(ww) by {
                assert(old(self).worker_ok(ww));
                if ww != w {
                    match self.workers@[ww] {
                        WorkerPhase::Executing { job } => {
                            assert(old(self).jobs@[job as int] == self.jobs@[job as int]);
                        },
                        _ => {},
                    }
                }
            }
            assert(!(old(self).workers@[w as int] is Terminated));
            assert(!old(self).all_terminated());
            assert(!(self.workers@[w as int] is Terminated));
            assert(!self.all_terminated());
        }
        id
    }

    /// Teardown begins: the sending half closes. This is the only transition
    /// out of `Active`, so a pool never goes straight from `Active` to
    /// `Stopped`.
    pub fn close(&mut self)
        requires
            old(self).wf(),
            old(self).phase == PoolPhase::Active,
        ensures
            final(self).wf(),
            final(self).phase == PoolPhase::ShuttingDown,
            final(self).workers@ == old(self).workers@,
            final(self).jobs@ == old(self).jobs@,
            final(self).handed_out == old(self).handed_out,
    {
        proof {
            // While active, no worker has terminated, so shutdown starts
            // with every worker still to be seen off.
            assert(old(self).worker_ok(0));
            assert(!(old(self).workers@[0] is Terminated));
        }
        self.phase = PoolPhase::ShuttingDown;
        proof {
            assert(!self.all_terminated());
            assert forall|j: int| 0 <= j < self.jobs@.len() implies #[trigger] self.job_ok(j) by {
                assert(old(self).job_ok(j));
            }
            assert forall|w: int| 0 <= w < self.workers@.len()
                implies #[trigger] self.worker_ok(w) by {
                assert(old(self).worker_ok(w));
            }
        }
    }

    /// A worker observes the closed, drained queue and exits its loop.
    pub fn retire(&mut self, w: usize)
        requires
            old(self).wf(),
            old(self).phase == PoolPhase::ShuttingDown,
            w < old(self).workers@.len(),
            old(self).workers@[w as int] == WorkerPhase::Running,
            old(self).queue_len() == 0,
        ensures
            final(self).wf(),
            final(self).workers@ == old(self).workers@.update(w as int, WorkerPhase::Terminated),
            final(self).phase == old(self).phase,
            final(self).jobs@ == old(self).jobs@,
            final(self).handed_out == old(self).handed_out,
    {
        self.workers.set(w, WorkerPhase::Terminated);
        proof {
            assert forall|j: int| 0 <= j < self.jobs@.len() implies #[trigger] self.job_ok(j) by {
                assert(old(self).job_ok(j));
                match self.jobs@[j] {
                    JobStatus::Claimed { worker } => {
                        assert(old(self).workers@[worker as int] is Executing);
                        assert(worker != w);
                    },
                    _ => {},
                }
            }
            assert forall|ww: int| 0 <= ww < self.workers@.len()
                implies #[trigger] self.worker_ok(ww) by {
                assert(old(self).worker_ok(ww));
            }
        }
    }

    /// Teardown ends: every worker has been joined. The invariant then
    /// forces the queue to be empty and every submitted job to be done — the
    /// pool never returns control while work is queued or in flight.
    pub fn stop(&mut self)
        requires
            old(self).wf(),
            old(self).phase == PoolPhase::ShuttingDown,
            old(self).all_terminated(),
        ensures
            final(self).wf(),
            final(self).phase == PoolPhase::Stopped,
            final(self).jobs@ == old(self).jobs@,
            forall|j: int| 0 <= j < final(self).jobs@.len()
                ==> (#[trigger] final(self).jobs@[j]) is Done,
    {
        self.phase = PoolPhase::Stopped;
        proof {
            assert forall|j: int| 0 <= j < self.jobs@.len()
                implies (#[trigger] self.jobs@[j]) is Done by {
                assert(old(self).job_ok(j));
                match self.jobs@[j] {
                    JobStatus::Claimed { worker } => {
                        assert(old(self).workers@[worker as int] is Executing);
                        assert(old(self).workers@[worker as int] is Terminated);
                    },
                    JobStatus::Queued => {
                        assert(self.handed_out <= j);
                    },
                    _ => {},
                }
            }
            assert forall|j: int| 0 <= j < self.jobs@.len() implies #[trigger] self.job_ok(j) by {
                assert(old(self).job_ok(j));
            }
            assert forall|w: int| 0 <= w < self.workers@.len()
                implies #[trigger] self.worker_ok(w) by {
                assert(old(self).worker_ok(w));
                assert(self.workers@[w] is Terminated);
            }
        }
    }
}

/// No job is ever run by two workers: if two workers are both executing job
/// `j`, they are the same worker.
pub proof fn lemma_one_executor(m: PoolLifecycle, w1: usize, w2: usize, j: usize)
    requires
        m.wf(),
        w1 < m.workers@.len(),
        w2 < m.workers@.len(),
        m.workers@[w1 as int] == (WorkerPhase::Executing { job: j }),
        m.workers@[w2 as int] == (WorkerPhase::Executing { job: j }),
    ensures
        w1 == w2,
{
    assert(m.worker_ok(w1 as int));
    assert(m.worker_ok(w2 as int));
}

/// A stopped pool left nothing behind: every submitted job is done, every
/// worker has terminated, and the queue is empty — no job was abandoned and
/// no thread was leaked.
pub proof fn lemma_stopped_is_drained(m: PoolLifecycle)
    requires
        m.wf(),
        m.phase == PoolPhase::Stopped,
    ensures
        forall|j: int| 0 <= j < m.jobs@.len() ==> (#[trigger] m.jobs@[j]) is Done,
        m.all_terminated(),
        m.queue_len() == 0,
{
    assert forall|j: int| 0 <= j < m.jobs@.len() implies (#[trigger] m.jobs@[j]) is Done by {
        assert(m.job_ok(j));
        match m.jobs@[j] {
            JobStatus::Claimed { worker } => {
                assert(m.workers@[worker as int] is Executing);
                assert(m.workers@[worker as int] is Terminated);
            },
            JobStatus::Queued => {
                assert(m.handed_out <= j);
            },
            _ => {},
        }
    }
}

/// An active pool can never stop directly: `stop` asks for every worker to
/// have terminated, and while the pool is active none has — teardown must
/// pass through `ShuttingDown`.
pub proof fn lemma_active_cannot_stop(m: PoolLifecycle)
    requires
        m.wf(),
        m.phase == PoolPhase::Active,
    ensures
        !m.all_terminated(),
{
    assert(m.worker_ok(0));
    assert(!(m.workers@[0] is Terminated));
}

/// While the pool is active every worker is alive: none has terminated.
pub proof fn lemma_active_workers_alive(m: PoolLifecycle)
    requires
        m.wf(),
        m.phase == PoolPhase::Active,
    ensures
        forall|w: int| 0 <= w < m.workers@.len() ==> !(#[trigger] m.workers@[w] is Terminated),
{
    assert forall|w: int| 0 <= w < m.workers@.len()
        implies !(#[trigger] m.workers@[w] is Terminated) by {
        assert(m.worker_ok(w));
    }
}

} // verus!
