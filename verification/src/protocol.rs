//! The pool's lifecycle as a state machine.
//!
//! The executable pool hands units of work across threads, where Verus
//! cannot follow a single thread of control. This module therefore states
//! the pool's protocol mathematically: a queue of submitted units of work,
//! one phase per worker, and a record of what became of each unit. Each
//! observable step of the running pool is one event here, and the lemmas
//! below prove the guarantees the pool gives: every submitted unit is in
//! exactly one place at any time, claims are served oldest first, a busy
//! worker never blocks an idle one, and a failing unit of work stops only
//! its own worker.

use vstd::prelude::*;

verus! {

/// What one worker is doing.
pub enum WorkerPhase {
    /// Blocked at the shared receiving end, ready to claim work.
    Waiting,
    /// Running the unit of work with the given identity.
    Executing { task: nat },
    /// Gone: its unit of work failed, and the worker serves no more.
    Stopped,
}

/// One observable step of the running pool.
pub enum PoolEvent {
    /// A caller hands one unit of work to the pool.
    Submit,
    /// Worker `w` takes the oldest queued unit of work.
    Claim { w: int },
    /// Worker `w` runs its unit of work to completion.
    Finish { w: int },
    /// The unit of work running on worker `w` fails, taking the worker
    /// with it.
    Crash { w: int },
}

/// The whole pool at one instant. Units of work are named by the order
/// they were submitted in: the `k`th submission has identity `k`.
pub struct PoolState {
    /// Identities of the units submitted but not yet claimed, oldest first.
    pub queue: Seq<nat>,
    /// One phase per worker; the length never changes.
    pub workers: Seq<WorkerPhase>,
    /// How many units of work have been submitted so far.
    pub submitted: nat,
    /// Units of work that ran to completion.
    pub completed: Set<nat>,
    /// Units of work whose execution failed.
    pub failed: Set<nat>,
}

impl PoolState {
    /// A freshly constructed pool: `n` workers, all waiting, nothing
    /// submitted.
    pub open spec fn init(n: nat) -> PoolState {
        PoolState {
            queue: Seq::empty(),
            workers: Seq::new(n, |i: int| WorkerPhase::Waiting),
            submitted: 0,
            completed: Set::empty(),
            failed: Set::empty(),
        }
    }

    /// Worker `w` is executing the unit of work `j`.
    pub open spec fn running_at(self, w: int, j: nat) -> bool {
        &&& 0 <= w < self.workers.len()
        &&& self.workers[w] matches WorkerPhase::Executing { task } && task == j
    }

    /// Some worker is executing the unit of work `j`.
    pub open spec fn running(self, j: nat) -> bool {
        exists|w: int| self.running_at(w, j)
    }

    /// The unit of work `j` sits in the queue, not yet claimed.
    pub open spec fn pending(self, j: nat) -> bool {
        self.queue.contains(j)
    }

    /// The unit of work `j` is over, one way or the other.
    pub open spec fn settled(self, j: nat) -> bool {
        self.completed.contains(j) || self.failed.contains(j)
    }

    /// The unit of work `j` is somewhere: queued, running, or over.
    pub open spec fn accounted(self, j: nat) -> bool {
        self.pending(j) || self.running(j) || self.settled(j)
    }

    /// The identity run by worker `w`, when it is executing one.
    pub open spec fn task_of(self, w: int) -> nat {
        match self.workers[w] {
            WorkerPhase::Executing { task } => task,
            _ => 0,
        }
    }

    /// Queued identities stand in submission order, oldest first.
    pub open spec fn fifo_ordered(self) -> bool {
        forall|i: int, k: int|
            0 <= i < k < self.queue.len() ==> self.queue[i] < self.queue[k]
    }

    /// The pool's invariant: identities are in range, and every submitted
    /// unit of work is in exactly one place — the queue, exactly one
    /// worker, the completed record, or the failed record.
    pub open spec fn wf(self) -> bool {
        &&& self.fifo_ordered()
        &&& forall|i: int| 0 <= i < self.queue.len() ==> #[trigger] self.queue[i] < self.submitted
        &&& forall|w: int, j: nat| #[trigger] self.running_at(w, j) ==> j < self.submitted
        &&& forall|j: nat| #[trigger] self.completed.contains(j) ==> j < self.submitted
        &&& forall|j: nat| #[trigger] self.failed.contains(j) ==> j < self.submitted
        &&& forall|j: nat| j < self.submitted ==> #[trigger] self.accounted(j)
        &&& forall|j: nat| #[trigger] self.pending(j) ==> !self.running(j) && !self.settled(j)
        &&& forall|w: int, j: nat| #[trigger] self.running_at(w, j) ==> !self.settled(j)
        &&& forall|j: nat| #[trigger] self.completed.contains(j) ==> !self.failed.contains(j)
        &&& forall|w1: int, w2: int, j: nat|
                self.running_at(w1, j) && self.running_at(w2, j) ==> w1 == w2
    }

    /// A caller may always submit; the new unit of work takes the next
    /// identity and joins the back of the queue.
    pub open spec fn submit_step(self) -> PoolState {
        PoolState {
            queue: self.queue.push(self.submitted),
            submitted: self.submitted + 1,
            ..self
        }
    }

    /// Worker `w` can claim when it is waiting and work is queued.
    pub open spec fn claim_enabled(self, w: int) -> bool {
        &&& 0 <= w < self.workers.len()
        &&& self.workers[w] is Waiting
        &&& self.queue.len() > 0
    }

    /// Worker `w` takes the oldest queued unit of work.
    pub open spec fn claim_step(self, w: int) -> PoolState {
        PoolState {
            queue: self.queue.subrange(1, self.queue.len() as int),
            workers: self.workers.update(w, WorkerPhase::Executing { task: self.queue[0] }),
            ..self
        }
    }

    /// Worker `w` can finish — or crash — only while executing.
    pub open spec fn finish_enabled(self, w: int) -> bool {
        &&& 0 <= w < self.workers.len()
        &&& self.workers[w] is Executing
    }

    /// Worker `w` runs its unit of work to completion and waits again.
    pub open spec fn finish_step(self, w: int) -> PoolState {
        PoolState {
            workers: self.workers.update(w, WorkerPhase::Waiting),
            completed: self.completed.insert(self.task_of(w)),
            ..self
        }
    }

    /// The unit of work on worker `w` fails: it is recorded as failed,
    /// and the worker stops. Nothing else changes — in particular the
    /// queue and the other workers are untouched.
    pub open spec fn crash_step(self, w: int) -> PoolState {
        PoolState {
            workers: self.workers.update(w, WorkerPhase::Stopped),
            failed: self.failed.insert(self.task_of(w)),
            ..self
        }
    }

    /// Whether the event `e` can happen in this state.
    pub open spec fn enabled(self, e: PoolEvent) -> bool {
        match e {
            PoolEvent::Submit => true,
            PoolEvent::Claim { w } => self.claim_enabled(w),
            PoolEvent::Finish { w } => self.finish_enabled(w),
            PoolEvent::Crash { w } => self.finish_enabled(w),
        }
    }

    /// The state after the event `e`.
    pub open spec fn step(self, e: PoolEvent) -> PoolState {
        match e {
            PoolEvent::Submit => self.submit_step(),
            PoolEvent::Claim { w } => self.claim_step(w),
            PoolEvent::Finish { w } => self.finish_step(w),
            PoolEvent::Crash { w } => self.crash_step(w),
        }
    }

    /// The state after a whole sequence of events.
    pub open spec fn run(self, evs: Seq<PoolEvent>) -> PoolState
        decreases evs.len(),
    {
        if evs.len() == 0 {
            self
        } else {
            self.step(evs[0]).run(evs.subrange(1, evs.len() as int))
        }
    }

    /// Every event of the sequence is enabled when its turn comes.
    pub open spec fn valid_run(self, evs: Seq<PoolEvent>) -> bool
        decreases evs.len(),
    {
        evs.len() == 0 || {
            &&& self.enabled(evs[0])
            &&& self.step(evs[0]).valid_run(evs.subrange(1, evs.len() as int))
        }
    }
}

/// A pool of `n` workers starts well formed: exactly `n` workers, all of
/// them waiting, with nothing submitted, queued, or settled.
pub proof fn lemma_init_wf(n: nat)
    ensures
        PoolState::init(n).wf(),
        PoolState::init(n).workers.len() == n,
        forall|w: int| 0 <= w < n ==> PoolState::init(n).workers[w] is Waiting,
        PoolState::init(n).queue.len() == 0,
        PoolState::init(n).submitted == 0,
{
}

/// Submitting preserves the invariant: the fresh unit of work joins the
/// back of the queue, and nothing already accounted for moves.
pub proof fn lemma_submit_preserves_wf(s: PoolState)
    requires
        s.wf(),
    ensures
        s.submit_step().wf(),
        s.submit_step().pending(s.submitted),
{
    let t = s.submit_step();
    assert(t.queue[t.queue.len() - 1] == s.submitted);
    assert(t.pending(s.submitted));
    assert forall|j: nat| #[trigger] t.pending(j) implies s.pending(j) || j == s.submitted by {
        let i = choose|i: int| 0 <= i < t.queue.len() && t.queue[i] == j;
        if i < s.queue.len() {
            assert(s.queue[i] == j);
        }
    }
    assert forall|j: nat| #[trigger] s.pending(j) implies t.pending(j) by {
        let i = choose|i: int| 0 <= i < s.queue.len() && s.queue[i] == j;
        assert(t.queue[i] == j);
    }
    assert forall|w: int, j: nat| #[trigger] t.running_at(w, j) implies s.running_at(w, j) by {}
    assert forall|j: nat| j < t.submitted implies #[trigger] t.accounted(j) by {
        if j < s.submitted {
            assert(s.accounted(j));
            if s.running(j) {
                let w = choose|w: int| s.running_at(w, j);
                assert(t.running_at(w, j));
            }
        } else {
            assert(j == s.submitted);
        }
    }
    assert forall|j: nat| #[trigger] t.pending(j) implies !t.running(j) && !t.settled(j) by {
        if t.running(j) {
            let w = choose|w: int| t.running_at(w, j);
            assert(s.running_at(w, j));
            assert(j < s.submitted);
            assert(s.pending(j));
        }
        if t.settled(j) {
            assert(j < s.submitted);
            assert(s.pending(j));
        }
    }
}

/// Claiming preserves the invariant: the oldest queued unit of work moves
/// from the queue to the claiming worker, and to that worker alone.
pub proof fn lemma_claim_preserves_wf(s: PoolState, w: int)
    requires
        s.wf(),
        s.claim_enabled(w),
    ensures
        s.claim_step(w).wf(),
        s.claim_step(w).running_at(w, s.queue[0]),
{
    let t = s.claim_step(w);
    let j0 = s.queue[0];
    assert(s.pending(j0));
    assert(!s.running(j0) && !s.settled(j0));
    assert forall|i: int| 0 <= i < t.queue.len() implies #[trigger] t.queue[i] == s.queue[i + 1] by {}
    assert forall|j: nat| #[trigger] t.pending(j) implies s.pending(j) && j != j0 by {
        let i = choose|i: int| 0 <= i < t.queue.len() && t.queue[i] == j;
        assert(s.queue[i + 1] == j);
        assert(s.queue[0] < s.queue[i + 1]);
    }
    assert forall|j: nat| #[trigger] s.pending(j) && j != j0 implies t.pending(j) by {
        let i = choose|i: int| 0 <= i < s.queue.len() && s.queue[i] == j;
        assert(i != 0);
        assert(t.queue[i - 1] == j);
    }
    assert forall|w2: int, j: nat| #[trigger] t.running_at(w2, j) implies (w2 == w && j == j0)
        || (w2 != w && s.running_at(w2, j)) by {}
    assert(t.running_at(w, j0));
    assert forall|j: nat| j < t.submitted implies #[trigger] t.accounted(j) by {
        assert(s.accounted(j));
        if s.pending(j) {
            if j == j0 {
                assert(t.running_at(w, j0));
            } else {
                assert(t.pending(j));
            }
        } else if s.running(j) {
            let w2 = choose|w2: int| s.running_at(w2, j);
            assert(w2 != w);
            assert(t.running_at(w2, j));
        }
    }
    assert forall|j: nat| #[trigger] t.pending(j) implies !t.running(j) && !t.settled(j) by {
        assert(s.pending(j) && j != j0);
        if t.running(j) {
            let w2 = choose|w2: int| t.running_at(w2, j);
            if w2 != w {
                assert(s.running_at(w2, j));
            }
        }
    }
    assert forall|w2: int, j: nat| #[trigger] t.running_at(w2, j) implies !t.settled(j) by {
        if w2 != w {
            assert(s.running_at(w2, j));
        }
    }
    assert forall|w1: int, w2: int, j: nat|
        t.running_at(w1, j) && t.running_at(w2, j) implies w1 == w2 by {
        if w1 != w && w2 != w {
            assert(s.running_at(w1, j) && s.running_at(w2, j));
        } else if w1 == w && w2 != w {
            assert(s.running_at(w2, j0));
        } else if w1 != w && w2 == w {
            assert(s.running_at(w1, j0));
        }
    }
}

/// Completing preserves the invariant: the unit of work moves from its
/// worker to the completed record, and the worker waits again.
pub proof fn lemma_finish_preserves_wf(s: PoolState, w: int)
    requires
        s.wf(),
        s.finish_enabled(w),
    ensures
        s.finish_step(w).wf(),
        s.finish_step(w).completed.contains(s.task_of(w)),
        s.finish_step(w).workers[w] is Waiting,
{
    let t = s.finish_step(w);
    let js = s.task_of(w);
    assert(s.running_at(w, js));
    assert(!s.settled(js));
    assert(!s.pending(js));
    assert forall|w2: int, j: nat| #[trigger] t.running_at(w2, j) implies w2 != w
        && s.running_at(w2, j) && j != js by {
        if s.running_at(w2, j) && j == js {
            assert(s.running_at(w, js));
        }
    }
    assert forall|j: nat| j < t.submitted implies #[trigger] t.accounted(j) by {
        assert(s.accounted(j));
        if s.running(j) {
            let w2 = choose|w2: int| s.running_at(w2, j);
            if w2 == w {
                assert(j == js);
                assert(t.settled(j));
            } else {
                assert(t.running_at(w2, j));
            }
        }
    }
    assert forall|j: nat| #[trigger] t.pending(j) implies !t.running(j) && !t.settled(j) by {
        assert(s.pending(j));
        assert(j != js);
        if t.running(j) {
            let w2 = choose|w2: int| t.running_at(w2, j);
            assert(s.running_at(w2, j));
        }
    }
}

/// A failing unit of work is isolated: it is recorded as failed, its
/// worker stops, and nothing else — not the queue, not any other worker —
/// changes.
pub proof fn lemma_crash_preserves_wf(s: PoolState, w: int)
    requires
        s.wf(),
        s.finish_enabled(w),
    ensures
        s.crash_step(w).wf(),
        s.crash_step(w).failed.contains(s.task_of(w)),
        s.crash_step(w).workers[w] is Stopped,
        s.crash_step(w).queue == s.queue,
        forall|w2: int| 0 <= w2 < s.workers.len() && w2 != w
            ==> s.crash_step(w).workers[w2] == s.workers[w2],
{
    let t = s.crash_step(w);
    let js = s.task_of(w);
    assert(s.running_at(w, js));
    assert(!s.settled(js));
    assert(!s.pending(js));
    assert forall|w2: int, j: nat| #[trigger] t.running_at(w2, j) implies w2 != w
        && s.running_at(w2, j) && j != js by {
        if s.running_at(w2, j) && j == js {
            assert(s.running_at(w, js));
        }
    }
    assert forall|j: nat| j < t.submitted implies #[trigger] t.accounted(j) by {
        assert(s.accounted(j));
        if s.running(j) {
            let w2 = choose|w2: int| s.running_at(w2, j);
            if w2 == w {
                assert(j == js);
                assert(t.settled(j));
            } else {
                assert(t.running_at(w2, j));
            }
        }
    }
    assert forall|j: nat| #[trigger] t.pending(j) implies !t.running(j) && !t.settled(j) by {
        assert(s.pending(j));
        assert(j != js);
        if t.running(j) {
            let w2 = choose|w2: int| t.running_at(w2, j);
            assert(s.running_at(w2, j));
        }
    }
    assert forall|j: nat| #[trigger] t.completed.contains(j) implies !t.failed.contains(j) by {
        assert(j != js);
    }
}

/// Any enabled event preserves the invariant, and never shrinks what is
/// settled: work once completed or failed stays so.
pub proof fn lemma_step_preserves_wf(s: PoolState, e: PoolEvent)
    requires
        s.wf(),
        s.enabled(e),
    ensures
        s.step(e).wf(),
        s.step(e).workers.len() == s.workers.len(),
        s.step(e).submitted >= s.submitted,
        s.completed.subset_of(s.step(e).completed),
        s.failed.subset_of(s.step(e).failed),
{
    match e {
        PoolEvent::Submit => lemma_submit_preserves_wf(s),
        PoolEvent::Claim { w } => lemma_claim_preserves_wf(s, w),
        PoolEvent::Finish { w } => lemma_finish_preserves_wf(s, w),
        PoolEvent::Crash { w } => lemma_crash_preserves_wf(s, w),
    }
}

/// A whole run of enabled events preserves the invariant and never
/// shrinks what is settled.
pub proof fn lemma_run_preserves_wf(s: PoolState, evs: Seq<PoolEvent>)
    requires
        s.wf(),
        s.valid_run(evs),
    ensures
        s.run(evs).wf(),
        s.run(evs).workers.len() == s.workers.len(),
        s.run(evs).submitted >= s.submitted,
        s.completed.subset_of(s.run(evs).completed),
        s.failed.subset_of(s.run(evs).failed),
    decreases evs.len(),
{
    if evs.len() > 0 {
        lemma_step_preserves_wf(s, evs[0]);
        lemma_run_preserves_wf(s.step(evs[0]), evs.subrange(1, evs.len() as int));
    }
}

/// Exactly-once delivery, as a safety statement: in a well-formed state a
/// submitted unit of work is in exactly one place — still queued, running
/// on exactly one worker, completed, or failed — and never in two.
pub proof fn lemma_exactly_one_place(s: PoolState, j: nat)
    requires
        s.wf(),
        j < s.submitted,
    ensures
        s.accounted(j),
        s.pending(j) ==> !s.running(j) && !s.settled(j),
        s.running(j) ==> !s.pending(j) && !s.settled(j),
        s.settled(j) ==> !s.pending(j) && !s.running(j),
        !(s.completed.contains(j) && s.failed.contains(j)),
        forall|w1: int, w2: int| s.running_at(w1, j) && s.running_at(w2, j) ==> w1 == w2,
{
    if s.running(j) {
        let w = choose|w: int| s.running_at(w, j);
        assert(s.running_at(w, j));
    }
}

/// A valid run stays valid when cut short: whatever holds of the state
/// after every run holds at every intermediate point of a run too.
pub proof fn lemma_valid_run_prefix(s: PoolState, evs: Seq<PoolEvent>, k: int)
    requires
        s.valid_run(evs),
        0 <= k <= evs.len(),
    ensures
        s.valid_run(evs.take(k)),
    decreases evs.len(),
{
    if k > 0 {
        let rest = evs.subrange(1, evs.len() as int);
        lemma_valid_run_prefix(s.step(evs[0]), rest, k - 1);
        assert(evs.take(k)[0] == evs[0]);
        assert(evs.take(k).subrange(1, k) =~= rest.take(k - 1));
    }
}

/// A unit of work that is over never runs again: after any further events
/// it is still settled, neither queued nor on any worker — and by
/// [`lemma_valid_run_prefix`] the same holds at every point along the way.
pub proof fn lemma_settled_stays(s: PoolState, evs: Seq<PoolEvent>, j: nat)
    requires
        s.wf(),
        s.valid_run(evs),
        s.settled(j),
    ensures
        s.run(evs).settled(j),
        !s.run(evs).pending(j),
        !s.run(evs).running(j),
{
    lemma_run_preserves_wf(s, evs);
    let t = s.run(evs);
    if t.running(j) {
        let w = choose|w: int| t.running_at(w, j);
        assert(t.running_at(w, j));
    }
}

/// Two units of work submitted back to back join the queue in that order:
/// the first sits immediately before the second.
pub proof fn lemma_submit_pair_in_order(s: PoolState)
    requires
        s.wf(),
    ensures
        ({
            let t = s.submit_step().submit_step();
            &&& t.queue.len() == s.queue.len() + 2
            &&& t.queue[s.queue.len() as int] == s.submitted
            &&& t.queue[s.queue.len() + 1int] == s.submitted + 1
        }),
{
}

/// The queue is served oldest first: a claim always takes the front of
/// the queue, which is the earliest-submitted unit still pending.
pub proof fn lemma_claim_takes_oldest(s: PoolState, w: int)
    requires
        s.wf(),
        s.claim_enabled(w),
    ensures
        s.claim_step(w).running_at(w, s.queue[0]),
        forall|j: nat| #[trigger] s.pending(j) ==> s.queue[0] <= j,
{
    lemma_claim_preserves_wf(s, w);
    assert forall|j: nat| #[trigger] s.pending(j) implies s.queue[0] <= j by {
        let i = choose|i: int| 0 <= i < s.queue.len() && s.queue[i] == j;
        if i > 0 {
            assert(s.queue[0] < s.queue[i]);
        }
    }
}

/// A busy worker stalls nobody: while worker `w1` is executing, any
/// waiting worker `w2` can still claim queued work, and the claim leaves
/// `w1` untouched.
pub proof fn lemma_busy_worker_no_stall(s: PoolState, w1: int, w2: int)
    requires
        s.wf(),
        0 <= w1 < s.workers.len(),
        s.workers[w1] is Executing,
        0 <= w2 < s.workers.len(),
        s.workers[w2] is Waiting,
        s.queue.len() > 0,
    ensures
        s.claim_enabled(w2),
        s.claim_step(w2).workers[w1] == s.workers[w1],
        s.claim_step(w2).running_at(w2, s.queue[0]),
{
    lemma_claim_preserves_wf(s, w2);
}

/// A failing unit of work locks nothing up: after the crash every other
/// waiting worker can still claim queued work.
pub proof fn lemma_crash_leaves_others_able(s: PoolState, w: int, w2: int)
    requires
        s.wf(),
        s.finish_enabled(w),
        0 <= w2 < s.workers.len(),
        w2 != w,
        s.workers[w2] is Waiting,
        s.queue.len() > 0,
    ensures
        s.crash_step(w).claim_enabled(w2),
        s.crash_step(w).failed.contains(s.task_of(w)),
{
    lemma_crash_preserves_wf(s, w);
}

/// How many workers are executing a unit of work.
pub open spec fn executing_count(ws: Seq<WorkerPhase>) -> nat
    decreases ws.len(),
{
    if ws.len() == 0 {
        0
    } else {
        executing_count(ws.drop_last()) + (if ws.last() is Executing {
            1nat
        } else {
            0nat
        })
    }
}

/// With a count of zero, no worker is executing.
pub proof fn lemma_executing_count_zero(ws: Seq<WorkerPhase>)
    requires
        executing_count(ws) == 0,
    ensures
        forall|w: int| 0 <= w < ws.len() ==> !((#[trigger] ws[w]) is Executing),
    decreases ws.len(),
{
    if ws.len() > 0 {
        lemma_executing_count_zero(ws.drop_last());
        assert forall|w: int| 0 <= w < ws.len() implies !((#[trigger] ws[w]) is Executing) by {
            if w < ws.len() - 1 {
                assert(ws.drop_last()[w] == ws[w]);
            }
        }
    }
}

/// With a positive count, some worker is executing.
pub proof fn lemma_executing_count_pos(ws: Seq<WorkerPhase>) -> (w: int)
    requires
        executing_count(ws) > 0,
    ensures
        0 <= w < ws.len(),
        ws[w] is Executing,
    decreases ws.len(),
{
    if ws.last() is Executing {
        ws.len() - 1
    } else {
        let w = lemma_executing_count_pos(ws.drop_last());
        assert(ws.drop_last()[w] == ws[w]);
        w
    }
}

/// Replacing one worker's phase changes the count by exactly the phases'
/// difference.
pub proof fn lemma_executing_count_update(ws: Seq<WorkerPhase>, w: int, p: WorkerPhase)
    requires
        0 <= w < ws.len(),
    ensures
        executing_count(ws.update(w, p)) + (if ws[w] is Executing {
            1nat
        } else {
            0nat
        }) == executing_count(ws) + (if p is Executing {
            1nat
        } else {
            0nat
        }),
    decreases ws.len(),
{
    let t = ws.update(w, p);
    if w == ws.len() - 1 {
        assert(t.drop_last() =~= ws.drop_last());
        assert(t.last() == p);
    } else {
        lemma_executing_count_update(ws.drop_last(), w, p);
        assert(t.drop_last() =~= ws.drop_last().update(w, p));
        assert(t.last() == ws.last());
    }
}

/// Liveness of the backlog: from any well-formed state that still has a
/// worker able to serve, a run of claims and completions alone — no new
/// submissions needed, no further failures — ends with the queue empty,
/// every worker idle, and every submitted unit of work settled. However
/// far the backlog exceeds the worker count, nothing is left behind.
pub proof fn lemma_backlog_drains(s: PoolState) -> (evs: Seq<PoolEvent>)
    requires
        s.wf(),
        exists|w: int| 0 <= w < s.workers.len() && !((#[trigger] s.workers[w]) is Stopped),
    ensures
        s.valid_run(evs),
        forall|i: int| 0 <= i < evs.len() ==> ((#[trigger] evs[i]) is Claim || evs[i] is Finish),
        s.run(evs).queue.len() == 0,
        executing_count(s.run(evs).workers) == 0,
        s.run(evs).submitted == s.submitted,
        forall|j: nat| j < s.submitted ==> #[trigger] s.run(evs).settled(j),
    decreases 2 * s.queue.len() + executing_count(s.workers),
{
    if executing_count(s.workers) > 0 {
        let w = lemma_executing_count_pos(s.workers);
        let e = PoolEvent::Finish { w };
        let t = s.finish_step(w);
        lemma_finish_preserves_wf(s, w);
        lemma_executing_count_update(s.workers, w, WorkerPhase::Waiting);
        assert(!((t.workers[w]) is Stopped));
        let rest = lemma_backlog_drains(t);
        let evs = seq![e] + rest;
        assert(evs.subrange(1, evs.len() as int) =~= rest);
        assert(s.run(evs) == t.run(rest));
        evs
    } else if s.queue.len() > 0 {
        let w0 = choose|w: int| 0 <= w < s.workers.len() && !((#[trigger] s.workers[w]) is Stopped);
        lemma_executing_count_zero(s.workers);
        assert(s.workers[w0] is Waiting);
        let e = PoolEvent::Claim { w: w0 };
        let t = s.claim_step(w0);
        lemma_claim_preserves_wf(s, w0);
        lemma_executing_count_update(s.workers, w0, WorkerPhase::Executing { task: s.queue[0] });
        assert(executing_count(t.workers) == 1);
        assert(!((t.workers[w0]) is Stopped));
        let rest = lemma_backlog_drains(t);
        let evs = seq![e] + rest;
        assert(evs.subrange(1, evs.len() as int) =~= rest);
        assert(s.run(evs) == t.run(rest));
        evs
    } else {
        lemma_executing_count_zero(s.workers);
        assert forall|j: nat| j < s.submitted implies #[trigger] s.settled(j) by {
            assert(s.accounted(j));
            if s.running(j) {
                let w = choose|w: int| s.running_at(w, j);
                assert(s.running_at(w, j));
            }
        }
        Seq::empty()
    }
}

} // verus!
