//! A fixed-size pool of worker threads draining one shared FIFO job queue.
//!
//! Construction spawns the workers; `execute` enqueues a job for some idle
//! worker; `shutdown` closes the queue and then joins every worker, so it
//! returns only once all submitted jobs have run to completion.
//!
//! The protocol the pool, queue and workers follow — jobs handed out in
//! submission order, each to exactly one worker, none abandoned at teardown
//! — is stated and proved over an explicit model in `crate::lifecycle`.

use vstd::prelude::*;
use vstd as vs;
use crate::channel::{job_channel, JobSender, SharedReceiver};

verus! {

/// One unit of work: consumed by the worker that runs it, so a job can run
/// at most once.
pub trait Job: Sized {
    /// Run the job to completion on the worker's thread.
    fn run(self);
}

/// What went wrong while tearing a pool down.
#[derive(PartialEq, Eq, Structural, Clone, Copy, Debug)]
pub enum PoolError {
    /// A worker thread ended abnormally instead of exiting its loop, so the
    /// pool cannot promise that all submitted work completed.
    WorkerFailed,
}

/// One worker: an id and the handle of its dedicated thread.
struct Worker {
    id: usize,
    thread: vs::thread::JoinHandle<()>,
}

/// A fixed-size worker pool. It owns the sending half of the job queue and
/// the handles of its worker threads.
///
/// Tear a pool down with [`ThreadPool::shutdown`]: it closes the queue and
/// joins every worker. A pool that is merely dropped closes the queue too,
/// but detaches its threads instead of joining them, so the owner gets no
/// word that the remaining jobs have finished.
#[verifier::reject_recursive_types(J)]
pub struct ThreadPool<J: Job + Send + 'static> {
    workers: Vec<Worker>,
    sender: JobSender<J>,
}

/// A worker's turn of duty: take the next job from the shared queue, run it,
/// repeat; exit once the queue is empty and closed. The queue lock is
/// released before the job runs, so jobs execute in parallel.
///
/// The loop's termination measure is a job counter that starts at `u64::MAX`:
/// a worker would need centuries of continuous work to exhaust it, and the
/// counter is what lets the loop carry a `decreases` clause.
fn worker_loop<J: Job + Send + 'static>(receiver: SharedReceiver<J>) {
    let mut remaining: u64 = u64::MAX;
    while remaining > 0
        decreases remaining,
    {
        let message = receiver.recv_next();
        match message {
            Some(job) => {
                job.run();
                remaining = remaining - 1;
            },
            None => {
                break ;
            },
        }
    }
}

impl Worker {
    /// Spawn the worker's thread, holding one handle to the shared queue.
    fn new<J: Job + Send + 'static>(id: usize, receiver: SharedReceiver<J>) -> (w: Worker)
        ensures
            w.id == id,
    {
        let thread = vs::thread::spawn(
            (move || {
                worker_loop(receiver);
            }),
        );
        Worker { id, thread }
    }
}

impl<J: Job + Send + 'static> ThreadPool<J> {
    /// How many workers the pool owns.
    pub closed spec fn worker_count(&self) -> nat {
        self.workers@.len()
    }

    /// Build a pool of exactly `size` workers, all drawing from one fresh,
    /// empty job queue. A pool with no executors is not a pool, so `size`
    /// must be positive.
    pub fn new(size: usize) -> (pool: ThreadPool<J>)
        requires
            size > 0,
        ensures
            pool.worker_count() == size,
    {
        let (sender, receiver) = job_channel::<J>();

        let mut workers: Vec<Worker> = Vec::new();
        let mut id: usize = 0;
        while id < size
            invariant
                id <= size,
                workers@.len() == id,
            decreases size - id,
        {
            workers.push(Worker::new(id, receiver.clone_handle()));
            id = id + 1;
        }

        ThreadPool { workers, sender }
    }

    /// Build a pool if `size` is positive. A zero worker count is refused
    /// outright: no queue is created and no thread is spawned.
    pub fn try_new(size: usize) -> (r: Option<ThreadPool<J>>)
        ensures
            match r {
                Some(pool) => size > 0 && pool.worker_count() == size,
                None => size == 0,
            },
    {
        if size == 0 {
            None
        } else {
            Some(Self::new(size))
        }
    }

    /// How many workers the pool owns, as a value.
    pub fn size(&self) -> (n: usize)
        ensures
            n == self.worker_count(),
    {
        self.workers.len()
    }

    /// Enqueue one job; exactly one worker will eventually take and run it.
    /// Submission never blocks: the queue is unbounded, so a job submitted
    /// while every worker is busy simply waits its turn.
    ///
    /// While the pool is alive its workers hold the receiving end open, so
    /// delivery fails only if every worker thread has already died abnormally;
    /// in that case the job is handed back unrun.
    pub fn execute(&self, job: J) -> (r: Result<(), J>)
        ensures
            r matches Err(returned) ==> returned == job,
    {
        self.sender.send(job)
    }

    /// Tear the pool down: close the sending half first, so workers blocked
    /// on the empty queue wake and drain what remains, then join every worker
    /// in turn. Returns only once every previously submitted job has run and
    /// every worker thread has exited; `Ok` then carries the number of
    /// workers joined, which is all of them.
    pub fn shutdown(self) -> (r: Result<usize, PoolError>)
        ensures
            r matches Ok(joined) ==> joined == self.worker_count(),
    {
        let ThreadPool { mut workers, sender } = self;

        // Closing the queue before any join is what lets blocked workers
        // observe end-of-stream instead of waiting forever.
        drop_sender(sender);

        let total: usize = workers.len();
        let mut joined: usize = 0;
        while workers.len() > 0
            invariant
                joined + workers@.len() == total,
                total == self.worker_count(),
            decreases workers@.len(),
        {
            let worker = workers.remove(0);
            match worker.thread.join() {
                Ok(_) => {
                    joined = joined + 1;
                },
                Err(_) => {
                    return Err(PoolError::WorkerFailed);
                },
            }
        }
        Ok(joined)
    }
}

/// Give the sending half back to the runtime, disconnecting the queue once
/// the last sender is gone.
fn drop_sender<J>(sender: JobSender<J>) {
}

} // verus!
