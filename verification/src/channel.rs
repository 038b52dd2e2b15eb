//! The job queue: an unbounded multi-producer FIFO channel whose single
//! receiving end is shared by all workers behind a mutex.
//!
//! The queue itself is `std::sync::mpsc`, which Verus has no specification
//! for, so the two halves live behind trusted wrappers. Their contracts state
//! only what the `std` documentation plainly promises: sending fails exactly
//! when no receiving handle is left, and a failed send hands the job back.

use vstd::prelude::*;

verus! {

/// The sending half of the job queue.
///
/// Relies on `std::sync::mpsc::Sender`: values sent while a receiving handle
/// exists are delivered, in the order they were sent.
#[verifier::external_body]
#[verifier::reject_recursive_types(J)]
pub struct JobSender<J> {
    inner: std::sync::mpsc::Sender<J>,
}

/// The receiving half of the job queue, shared among workers.
///
/// Relies on `std::sync::mpsc::Receiver` behind `std::sync::Arc` and
/// `std::sync::Mutex`: each queued value is received by exactly one caller,
/// and values come out in the order they were sent.
#[verifier::external_body]
#[verifier::reject_recursive_types(J)]
pub struct SharedReceiver<J> {
    inner: std::sync::Arc<std::sync::Mutex<std::sync::mpsc::Receiver<J>>>,
}

/// Relies on `std::sync::mpsc::channel`: creates a connected sender/receiver
/// pair with an unbounded buffer.
#[verifier::external_body]
pub fn job_channel<J>() -> (ends: (JobSender<J>, SharedReceiver<J>))
{
    let (tx, rx) = std::sync::mpsc::channel();
    let shared = std::sync::Arc::new(std::sync::Mutex::new(rx));
    (JobSender { inner: tx }, SharedReceiver { inner: shared })
}

impl<J> JobSender<J> {
    /// Relies on `std::sync::mpsc::Sender::send`: it fails only when every
    /// receiving handle has been dropped, and the error carries the unsent
    /// value back to the caller.
    #[verifier::external_body]
    pub fn send(&self, job: J) -> (r: Result<(), J>)
        ensures
            r matches Err(returned) ==> returned == job,
    {
        match self.inner.send(job) {
            Ok(()) => Ok(()),
            Err(e) => Err(e.0),
        }
    }
}

impl<J> SharedReceiver<J> {
    /// Relies on `std::sync::Arc::clone`: another handle to the same shared
    /// receiving end.
    #[verifier::external_body]
    pub fn clone_handle(&self) -> (r: SharedReceiver<J>)
    {
        SharedReceiver { inner: std::sync::Arc::clone(&self.inner) }
    }

    /// Relies on `std::sync::Mutex::lock` and `std::sync::mpsc::Receiver::recv`:
    /// blocks until a value is available or every sender is gone, and each
    /// queued value is handed to exactly one caller. Returns `None` once the
    /// queue is both empty and closed, or if another worker poisoned the lock.
    #[verifier::external_body]
    pub fn recv_next(&self) -> (r: Option<J>)
    {
        let message = match self.inner.lock() {
            Ok(guard) => guard.recv(),
            Err(_) => return None,
        };
        message.ok()
    }
}

} // verus!
