//! The work queue: the standard multi-producer single-consumer channel,
//! with its receiving end shared among all workers behind a
//! reference-counted mutual-exclusion lock.
//!
//! The channel and the lock are outside code; each operation the pool
//! needs is one trusted wrapper here. Every claiming wrapper holds the
//! lock only across the dequeue attempt itself and has released it by
//! the time it returns — so a unit of work never runs under the lock,
//! and no worker can starve the others by executing something slow.

use vstd::prelude::*;
use std::sync::Arc;
use std::sync::Mutex;
use std::sync::mpsc::Receiver;
use std::sync::mpsc::Sender;
use crate::pool::ClaimAttempt;
use crate::task::Job;

verus! {

#[verifier::external_type_specification]
#[verifier::external_body]
#[verifier::reject_recursive_types(T)]
pub struct ExSender<T>(Sender<T>);

#[verifier::external_type_specification]
#[verifier::external_body]
#[verifier::reject_recursive_types(T)]
pub struct ExReceiver<T>(Receiver<T>);

/// The single shared consumption point: the receiving end of the work
/// queue behind a reference-counted mutual-exclusion lock, jointly owned
/// by every worker. The guard of the standard lock carries a lifetime
/// Verus cannot declare, so the combination is held opaquely, and the
/// few operations the pool needs are the trusted wrappers below.
#[verifier::external_body]
pub struct SharedReceiver {
    endpoint: Arc<Mutex<Receiver<Job>>>,
}

impl SharedReceiver {
    /// Relies on Arc::new and Mutex::new: wraps the receiving end as
    /// the shared, lock-protected endpoint.
    #[verifier::external_body]
    pub(crate) fn new(receiver: Receiver<Job>) -> (shared: SharedReceiver) {
        SharedReceiver { endpoint: Arc::new(Mutex::new(receiver)) }
    }

    /// Relies on Arc::clone: a fresh jointly-owning handle to the very
    /// same endpoint.
    #[verifier::external_body]
    pub(crate) fn share(&self) -> (r: SharedReceiver) {
        SharedReceiver { endpoint: Arc::clone(&self.endpoint) }
    }

    /// Relies on Mutex::lock and mpsc::Receiver::recv: waits for
    /// exclusive access to the receiving end — other workers, not this
    /// one, may be claiming — then for one unit of work, the oldest
    /// queued. The lock is released by the time the call returns, so
    /// nothing runs under it. Returns nothing once the channel is empty
    /// and every sender is gone. A poisoned lock is answered the same
    /// way; it cannot arise, since no claiming thread panics between
    /// acquire and release.
    #[verifier::external_body]
    pub(crate) fn claim_blocking(&self) -> (msg: Option<Job>) {
        let receiver = match self.endpoint.lock() {
            Ok(guard) => guard,
            Err(_) => return None,
        };
        match receiver.recv() {
            Ok(job) => Some(job),
            Err(_) => None,
        }
    }

    /// Relies on Mutex::lock and mpsc::Receiver::try_recv: like
    /// [`Self::claim_blocking`], but never waits for work — an empty
    /// queue is reported, not sat out. The lock is likewise released by
    /// the time the call returns.
    #[verifier::external_body]
    pub(crate) fn claim_available(&self) -> (attempt: ClaimAttempt) {
        let receiver = match self.endpoint.lock() {
            Ok(guard) => guard,
            Err(_) => return ClaimAttempt::Closed,
        };
        match receiver.try_recv() {
            Ok(job) => ClaimAttempt::Work(job),
            Err(std::sync::mpsc::TryRecvError::Empty) => ClaimAttempt::Empty,
            Err(std::sync::mpsc::TryRecvError::Disconnected) => ClaimAttempt::Closed,
        }
    }
}

/// Relies on std::sync::mpsc::channel: a fresh unbounded channel whose
/// two ends are returned connected, sender first.
#[verifier::external_body]
pub(crate) fn job_channel() -> (ends: (Sender<Job>, Receiver<Job>))
{
    std::sync::mpsc::channel()
}

/// Relies on std::sync::mpsc::Sender::send: places the unit of work at
/// the back of the channel's queue without waiting for it to run, and
/// fails only when every receiving end has been dropped.
#[verifier::external_body]
pub(crate) fn send_job(sender: &Sender<Job>, job: Job) -> (delivered: bool)
{
    match sender.send(job) {
        Ok(()) => true,
        Err(_) => false,
    }
}

} // verus!
