//! The fixed-size worker thread pool.
//!
//! A pool is created once with a positive number of workers and then
//! accepts units of work from any thread; each unit is enqueued on one
//! shared channel and executed exactly once by whichever worker claims
//! it first. The lifecycle the pool follows — and the guarantees that
//! claiming gives — are stated and proved in [`crate::protocol`].
//!
//! A worker's service loop is deliberately unbounded — the pool never
//! signals its workers to stop — and verified code cannot express such
//! a loop, nor own the thread that would run it. So the library does
//! not spawn threads; it holds everything else a worker is instead:
//! [`ThreadPool::new`] builds the queue, the shared receiving end, and
//! one [`Worker`] per slot, and a worker's whole service round — claim
//! one unit at the lock-protected receiving end, then run it with the
//! lock long released — is [`Worker::serve_blocking`]. The embedder's
//! only duty is to hand each worker to a thread and repeat that call
//! until it reports the channel closed.

use vstd::prelude::*;
use std::sync::mpsc::Sender;
use crate::chan::SharedReceiver;
use crate::chan::job_channel;
use crate::chan::send_job;
use crate::protocol::PoolState;
use crate::task::Job;

verus! {

/// What one service round found.
#[derive(Clone, Copy, Debug, PartialEq, Eq, Structural)]
pub enum ServeOutcome {
    /// One unit of work was claimed and has been run to completion.
    Ran,
    /// Nothing was queued; the round did nothing.
    Empty,
    /// The sending side is gone; the worker should stop.
    Closed,
}

/// What a non-blocking dequeue attempt found.
pub enum ClaimAttempt {
    /// One unit of work, removed from the queue.
    Work(Job),
    /// Nothing queued right now.
    Empty,
    /// Nothing queued, and every sending end is gone.
    Closed,
}

/// What a worker does with the outcome of a blocking claim: a claimed
/// unit of work is invoked, once, to completion, before the round ends;
/// no unit means every sender is gone. The report is exactly the
/// claim's outcome — true when and only when a unit was claimed (and
/// has then been run), false when and only when the claim reported the
/// channel closed.
pub fn serve_claimed(msg: Option<Job>) -> (channel_open: bool)
    ensures
        channel_open == (msg is Some),
{
    match msg {
        Some(job) => {
            job.invoke();
            true
        },
        None => false,
    }
}

/// What a worker does with the outcome of a non-blocking claim: a
/// claimed unit of work is invoked, once, to completion, before the
/// round ends; the round's outcome is exactly the claim's — ran when
/// and only when a unit was claimed, and the empty and closed reports
/// passed through unchanged.
pub fn serve_attempt(attempt: ClaimAttempt) -> (outcome: ServeOutcome)
    ensures
        (outcome is Ran) == (attempt is Work),
        (outcome is Empty) == (attempt is Empty),
        (outcome is Closed) == (attempt is Closed),
{
    match attempt {
        ClaimAttempt::Work(job) => {
            job.invoke();
            ServeOutcome::Ran
        },
        ClaimAttempt::Empty => ServeOutcome::Empty,
        ClaimAttempt::Closed => ServeOutcome::Closed,
    }
}

/// One long-lived execution unit: a numeric identity (for diagnostics
/// only — work is never routed by it) and a jointly owned handle to the
/// shared receiving end of the work queue.
pub struct Worker {
    id: usize,
    shared: SharedReceiver,
}

impl Worker {
    /// The worker's numeric identity.
    pub closed spec fn id_spec(&self) -> nat {
        self.id as nat
    }

    fn new(id: usize, shared: SharedReceiver) -> (worker: Worker)
        ensures
            worker.id_spec() == id,
    {
        Worker { id, shared }
    }

    /// The worker's numeric identity, as given at construction.
    pub fn id(&self) -> (i: usize)
        ensures
            i == self.id_spec(),
    {
        self.id
    }

    /// One round of the worker's service loop: claim one unit of work
    /// at the shared receiving end — waiting for exclusive access, then
    /// for work — and run it only after the claim has returned, with the
    /// lock released, so every other worker can claim while this one
    /// executes. Returns false once the sending side is gone and the
    /// worker should stop; that is the loop's only exit. Which unit is
    /// dequeued depends on every other thread working the same queue,
    /// so nothing is promised at this signature; what the round does
    /// with whatever the claim found — and that its report is exactly
    /// the claim's outcome — is the contract of [`serve_claimed`].
    pub fn serve_blocking(&self) -> (channel_open: bool) {
        serve_claimed(self.shared.claim_blocking())
    }

    /// Like [`Self::serve_blocking`], but never waits: if the queue is
    /// empty the round says so instead of blocking. The lock is likewise
    /// released before the claimed unit of work runs; the round's
    /// outcome mirrors the claim's exactly, per [`serve_attempt`].
    pub fn serve_available(&self) -> (outcome: ServeOutcome) {
        serve_attempt(self.shared.claim_available())
    }
}

/// The pool: owns the sending end of the work queue and one worker per
/// slot. The worker count is fixed at construction, is always positive,
/// and never changes.
pub struct ThreadPool {
    workers: Vec<Worker>,
    sender: Sender<Job>,
    initial: Ghost<PoolState>,
}

impl ThreadPool {
    /// The fixed number of workers.
    pub closed spec fn num_workers(&self) -> nat {
        self.workers@.len()
    }

    /// The protocol state the pool was constructed in: its workers'
    /// count of phases, all waiting, with nothing submitted — see
    /// [`crate::protocol::lemma_init_wf`]. Every later state of the
    /// running pool is reached from this one by protocol events.
    pub closed spec fn initial_protocol(&self) -> PoolState {
        self.initial@
    }

    /// Well-formedness: at least one worker, each carrying its slot
    /// number as identity, and the construction-time protocol state on
    /// record is the initial one for this worker count.
    pub closed spec fn wf(&self) -> bool {
        &&& self.num_workers() > 0
        &&& forall|i: int|
                0 <= i < self.workers@.len() ==> (#[trigger] self.workers@[i]).id_spec() == i
        &&& self.initial_protocol() == PoolState::init(self.num_workers())
    }

    /// Creates a pool of exactly `size` workers, all sharing one work
    /// queue and all idle until work is submitted. The size must be
    /// positive.
    pub fn new(size: usize) -> (pool: ThreadPool)
        requires
            size > 0,
        ensures
            pool.wf(),
            pool.num_workers() == size,
            pool.initial_protocol() == PoolState::init(size as nat),
    {
        let (sender, receiver) = job_channel();
        let shared = SharedReceiver::new(receiver);
        let mut workers: Vec<Worker> = Vec::with_capacity(size);
        let mut id: usize = 0;
        while id < size
            invariant
                id <= size,
                workers@.len() == id,
                forall|i: int| 0 <= i < id ==> (#[trigger] workers@[i]).id_spec() == i,
            decreases size - id,
        {
            workers.push(Worker::new(id, shared.share()));
            id = id + 1;
        }
        ThreadPool { workers, sender, initial: Ghost(PoolState::init(size as nat)) }
    }

    /// Creates a pool, reporting a zero size as `None` — deterministically,
    /// before the queue is allocated or any worker is made — instead of
    /// requiring the caller to rule it out.
    pub fn try_new(size: usize) -> (pool: Option<ThreadPool>)
        ensures
            match pool {
                Some(p) => p.wf() && p.num_workers() == size && size > 0,
                None => size == 0,
            },
    {
        if size == 0 {
            None
        } else {
            Some(Self::new(size))
        }
    }

    /// The worker count the pool was constructed with.
    pub fn worker_count(&self) -> (n: usize)
        ensures
            n == self.num_workers(),
    {
        self.workers.len()
    }

    /// An owned handle to the worker in the given slot: the same
    /// identity, and a fresh reference-counted handle to the same shared
    /// receiving end. This is what the embedder hands to the thread that
    /// will run the worker's loop.
    pub fn worker_handle(&self, slot: usize) -> (worker: Worker)
        requires
            slot < self.num_workers(),
        ensures
            worker.id_spec() == slot,
    {
        Worker::new(slot, self.workers[slot].shared.share())
    }

    /// Hands one unit of work to the pool: the closure is boxed and
    /// enqueued, and the call returns as soon as that is done — it never
    /// waits for execution, and no result comes back. Exactly one worker
    /// will dequeue and run the unit, in queue order relative to other
    /// submissions. Returns whether the unit was enqueued; enqueueing
    /// fails only when the receiving side is gone, which does not happen
    /// while the pool owns its workers.
    pub fn execute<F: FnOnce() + Send + 'static>(&self, f: F) -> (delivered: bool)
        requires
            f.requires(()),
    {
        let job = Job::new(f);
        send_job(&self.sender, job)
    }
}

} // verus!
