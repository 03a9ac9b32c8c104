//! An executable twin of the protocol state machine.
//!
//! The running pool hands work across threads, where a single test can
//! observe no global state; the protocol in [`crate::protocol`] states
//! that global behaviour instead, and its lemmas prove it. This module
//! makes the same machine executable: concrete integers for identities,
//! vectors for the queue and the records, and one operation per protocol
//! event, each proved to perform exactly the corresponding step. A test
//! can therefore replay any schedule of events — claims racing a busy
//! worker, a crashing unit of work — and watch what the lemmas promise.

use vstd::prelude::*;
use crate::protocol::PoolState;
use crate::protocol::WorkerPhase;

verus! {

/// One worker's phase, in executable form.
#[derive(Clone, Copy, Debug, PartialEq, Eq, Structural)]
pub enum SimPhase {
    /// Ready to claim work.
    Waiting,
    /// Running the unit of work with the given identity.
    Executing { task: u64 },
    /// Stopped after a failed unit of work.
    Stopped,
}

/// The protocol phase an executable phase stands for.
pub open spec fn phase_view(p: SimPhase) -> WorkerPhase {
    match p {
        SimPhase::Waiting => WorkerPhase::Waiting,
        SimPhase::Executing { task } => WorkerPhase::Executing { task: task as nat },
        SimPhase::Stopped => WorkerPhase::Stopped,
    }
}

/// The protocol state machine with concrete representation. The fields
/// are public: a test reads them directly after each step.
pub struct PoolSim {
    /// Identities of the units submitted but not yet claimed, oldest first.
    pub queue: Vec<u64>,
    /// One phase per worker.
    pub workers: Vec<SimPhase>,
    /// How many units of work have been submitted so far.
    pub submitted: u64,
    /// Units of work that ran to completion, in completion order.
    pub completed: Vec<u64>,
    /// Units of work whose execution failed, in failure order.
    pub failed: Vec<u64>,
}

impl View for PoolSim {
    type V = PoolState;

    open spec fn view(&self) -> PoolState {
        PoolState {
            queue: self.queue@.map_values(|x: u64| x as nat),
            workers: self.workers@.map_values(|p: SimPhase| phase_view(p)),
            submitted: self.submitted as nat,
            completed: self.completed@.map_values(|x: u64| x as nat).to_set(),
            failed: self.failed@.map_values(|x: u64| x as nat).to_set(),
        }
    }
}

impl PoolSim {
    /// A fresh machine with `n` workers: the protocol's initial state.
    pub fn new_sim(n: usize) -> (s: PoolSim)
        ensures
            s@ == PoolState::init(n as nat),
    {
        let mut workers: Vec<SimPhase> = Vec::with_capacity(n);
        let mut i: usize = 0;
        while i < n
            invariant
                i <= n,
                workers@.len() == i,
                forall|k: int| 0 <= k < i ==> workers@[k] == SimPhase::Waiting,
            decreases n - i,
        {
            workers.push(SimPhase::Waiting);
            i = i + 1;
        }
        let s = PoolSim {
            queue: Vec::new(),
            workers,
            submitted: 0,
            completed: Vec::new(),
            failed: Vec::new(),
        };
        proof {
            assert(s@.queue =~= Seq::<nat>::empty());
            assert(s@.workers =~= Seq::new(n as nat, |i: int| WorkerPhase::Waiting));
            assert(s@.completed =~= Set::<nat>::empty());
            assert(s@.failed =~= Set::<nat>::empty());
        }
        s
    }

    /// Performs the protocol's submit event: the next identity joins the
    /// back of the queue.
    pub fn submit(&mut self)
        requires
            old(self).submitted < u64::MAX,
        ensures
            final(self)@ == old(self)@.submit_step(),
    {
        let id = self.submitted;
        self.queue.push(id);
        self.submitted = self.submitted + 1;
        proof {
            assert(self@.queue =~= old(self)@.queue.push(old(self)@.submitted));
            assert(self@.workers =~= old(self)@.workers);
            assert(self@.completed =~= old(self)@.completed);
            assert(self@.failed =~= old(self)@.failed);
        }
    }

    /// Performs the protocol's claim event: worker `w` takes the oldest
    /// queued unit of work.
    pub fn claim(&mut self, w: usize)
        requires
            old(self)@.claim_enabled(w as int),
        ensures
            final(self)@ == old(self)@.claim_step(w as int),
    {
        let task = self.queue.remove(0);
        self.workers.set(w, SimPhase::Executing { task });
        proof {
            assert(self@.queue =~= old(self)@.queue.subrange(1, old(self)@.queue.len() as int));
            assert(self@.workers =~= old(self)@.workers.update(
                w as int,
                WorkerPhase::Executing { task: old(self)@.queue[0] },
            ));
            assert(self@.completed =~= old(self)@.completed);
            assert(self@.failed =~= old(self)@.failed);
        }
    }

    /// Performs the protocol's finish event: worker `w` completes its
    /// unit of work and waits again.
    pub fn finish(&mut self, w: usize)
        requires
            old(self)@.finish_enabled(w as int),
        ensures
            final(self)@ == old(self)@.finish_step(w as int),
    {
        let task = match self.workers[w] {
            SimPhase::Executing { task } => task,
            _ => 0,
        };
        self.workers.set(w, SimPhase::Waiting);
        self.completed.push(task);
        proof {
            broadcast use vstd::seq_lib::lemma_seq_contains_after_push;

            assert(self@.queue =~= old(self)@.queue);
            assert(self@.workers =~= old(self)@.workers.update(w as int, WorkerPhase::Waiting));
            assert(self.completed@.map_values(|x: u64| x as nat) =~= old(
                self,
            ).completed@.map_values(|x: u64| x as nat).push(old(self)@.task_of(w as int)));
            assert(self@.completed =~= old(self)@.completed.insert(old(self)@.task_of(w as int)));
            assert(self@.failed =~= old(self)@.failed);
        }
    }

    /// Performs the protocol's crash event: the unit of work on worker
    /// `w` fails, is recorded so, and the worker stops.
    pub fn crash(&mut self, w: usize)
        requires
            old(self)@.finish_enabled(w as int),
        ensures
            final(self)@ == old(self)@.crash_step(w as int),
    {
        let task = match self.workers[w] {
            SimPhase::Executing { task } => task,
            _ => 0,
        };
        self.workers.set(w, SimPhase::Stopped);
        self.failed.push(task);
        proof {
            broadcast use vstd::seq_lib::lemma_seq_contains_after_push;

            assert(self@.queue =~= old(self)@.queue);
            assert(self@.workers =~= old(self)@.workers.update(w as int, WorkerPhase::Stopped));
            assert(self.failed@.map_values(|x: u64| x as nat) =~= old(
                self,
            ).failed@.map_values(|x: u64| x as nat).push(old(self)@.task_of(w as int)));
            assert(self@.failed =~= old(self)@.failed.insert(old(self)@.task_of(w as int)));
            assert(self@.completed =~= old(self)@.completed);
        }
    }
}

} // verus!
