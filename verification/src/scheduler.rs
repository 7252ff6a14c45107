//! The Refresh Scheduler: a start/stop-able periodic driver.
//!
//! The scheduler itself is a state machine from `(state, operation)` to
//! `(state, actions)`. The timed waiting, the worker it commands and the
//! delivery to the consumer are performed by the surrounding driver, which
//! executes each returned action list in order: that split keeps every
//! scheduling decision here, where it is verified, while the driver owns
//! the clocks and threads. The decisions guarantee an immediate first
//! tick on start, silence after stop, and a single live worker at all
//! times; the driver must additionally keep each wait interruptible well
//! below the tick interval, so that stopping never waits out a full
//! interval.

use vstd::prelude::*;

verus! {

/// One instruction to the driver. Each returned list is executed in
/// order, to completion, before the next operation is accepted.
#[derive(Clone, Copy, Debug, PartialEq, Eq, Structural)]
pub enum SchedulerAction {
    /// Cancel the live periodic worker and join it to completion before
    /// going on: no delivery of its may happen after this action is done.
    StopWorker,
    /// Deliver one `on_tick` snapshot to the consumer sink, on the
    /// privileged context.
    DeliverTick,
    /// Start the periodic worker: after each full `interval_ms` wait it
    /// reports an elapsed interval (and its wait must be cancellable at a
    /// granularity much finer than `interval_ms`).
    StartWorker { interval_ms: u64 },
}

/// The scheduler is either idle or running one periodic task; there are
/// no other states.
#[derive(Clone, Copy, Debug, PartialEq, Eq, Structural)]
pub enum SchedulerState {
    Idle,
    Running { interval_ms: u64 },
}

/// How many periodic workers are live in a state: the state machine never
/// allows more than one.
pub open spec fn workers_of(state: SchedulerState) -> int {
    match state {
        SchedulerState::Idle => 0,
        SchedulerState::Running { .. } => 1,
    }
}

/// Workers live after executing a prefix of actions, starting from
/// `start` live workers. Stopping an already-stopped worker is harmless;
/// starting adds one; a delivery changes nothing.
pub open spec fn workers_after(start: int, acts: Seq<SchedulerAction>) -> int
    decreases acts.len(),
{
    if acts.len() == 0 {
        start
    } else {
        let w = workers_after(start, acts.drop_last());
        match acts.last() {
            SchedulerAction::StopWorker => if w > 0 {
                w - 1
            } else {
                0
            },
            SchedulerAction::DeliverTick => w,
            SchedulerAction::StartWorker { .. } => w + 1,
        }
    }
}

/// The actions a start operation issues: an already-running task is fully
/// stopped first, then one immediate tick is delivered, then the new
/// periodic worker begins. The immediate tick precedes the worker, so it
/// arrives with no wait.
pub open spec fn start_actions(before: SchedulerState, interval_ms: u64) -> Seq<SchedulerAction> {
    if before is Running {
        seq![
            SchedulerAction::StopWorker,
            SchedulerAction::DeliverTick,
            SchedulerAction::StartWorker { interval_ms },
        ]
    } else {
        seq![SchedulerAction::DeliverTick, SchedulerAction::StartWorker { interval_ms }]
    }
}

/// The actions a stop operation issues: join the worker if one is live,
/// and deliver nothing.
pub open spec fn stop_actions(before: SchedulerState) -> Seq<SchedulerAction> {
    if before is Running {
        seq![SchedulerAction::StopWorker]
    } else {
        Seq::empty()
    }
}

/// The actions issued when the worker reports an elapsed interval: one
/// delivery while running; a stale report arriving after a stop is
/// dropped.
pub open spec fn elapsed_actions(state: SchedulerState) -> Seq<SchedulerAction> {
    if state is Running {
        seq![SchedulerAction::DeliverTick]
    } else {
        Seq::empty()
    }
}

/// The Refresh Scheduler's state. At most one periodic task is ever live;
/// `start` while running first stops the old task completely.
pub struct Scheduler {
    pub state: SchedulerState,
}

impl Scheduler {
    /// A scheduler with no task running.
    pub fn new() -> (s: Self)
        ensures
            s.state == SchedulerState::Idle,
    {
        Scheduler { state: SchedulerState::Idle }
    }

    /// Begin periodic refreshing: hands the driver the stop-first /
    /// immediate-tick / start-worker action list for the current state.
    pub fn start(&mut self, interval_ms: u64) -> (acts: Vec<SchedulerAction>)
        ensures
            final(self).state == (SchedulerState::Running { interval_ms }),
            acts@ =~= start_actions(old(self).state, interval_ms),
    {
        let mut acts: Vec<SchedulerAction> = Vec::new();
        match self.state {
            SchedulerState::Running { .. } => {
                acts.push(SchedulerAction::StopWorker);
            },
            SchedulerState::Idle => {},
        }
        acts.push(SchedulerAction::DeliverTick);
        acts.push(SchedulerAction::StartWorker { interval_ms });
        self.state = SchedulerState::Running { interval_ms };
        acts
    }

    /// Stop refreshing. The returned actions contain no delivery, so once
    /// the driver has executed them (joining the worker), no further
    /// `on_tick` can occur until the next start.
    pub fn stop(&mut self) -> (acts: Vec<SchedulerAction>)
        ensures
            final(self).state == SchedulerState::Idle,
            acts@ =~= stop_actions(old(self).state),
    {
        let mut acts: Vec<SchedulerAction> = Vec::new();
        match self.state {
            SchedulerState::Running { .. } => {
                acts.push(SchedulerAction::StopWorker);
            },
            SchedulerState::Idle => {},
        }
        self.state = SchedulerState::Idle;
        acts
    }

    /// The worker reports that one interval elapsed: deliver one tick if
    /// still running, nothing if the task was stopped meanwhile.
    pub fn interval_elapsed(&self) -> (acts: Vec<SchedulerAction>)
        ensures
            acts@ =~= elapsed_actions(self.state),
    {
        let mut acts: Vec<SchedulerAction> = Vec::new();
        match self.state {
            SchedulerState::Running { .. } => {
                acts.push(SchedulerAction::DeliverTick);
            },
            SchedulerState::Idle => {},
        }
        acts
    }
}

/// Immediate first tick: every start operation delivers exactly one tick
/// before its new periodic worker is even started, so the first delivery
/// happens with no wait, and any previous worker is stopped before it.
pub proof fn lemma_start_immediate_tick(before: SchedulerState, interval_ms: u64)
    ensures
        ({
            let a = start_actions(before, interval_ms);
            exists|i: int|
                0 <= i < a.len() && a[i] is DeliverTick && (forall|j: int|
                    0 <= j < i ==> (a[j] is StopWorker))
        }),
{
    let a = start_actions(before, interval_ms);
    if before is Running {
        assert(a[1] is DeliverTick && (forall|j: int| 0 <= j < 1 ==> (a[j] is StopWorker)));
    } else {
        assert(a[0] is DeliverTick && (forall|j: int| 0 <= j < 0 ==> (a[j] is StopWorker)));
    }
}

/// Silence after stop: a stop operation delivers nothing itself, and a
/// worker report that arrives after the scheduler went idle is dropped,
/// so no `on_tick` follows a completed stop until the next start.
pub proof fn lemma_stop_is_silent(before: SchedulerState)
    ensures
        forall|i: int| 0 <= i < stop_actions(before).len() ==> !(stop_actions(before)[i] is DeliverTick),
        elapsed_actions(SchedulerState::Idle).len() == 0,
{
    let a = stop_actions(before);
    assert forall|i: int| 0 <= i < a.len() implies !(a[i] is DeliverTick) by {
        assert(a[i] is StopWorker);
    }
}

/// Single-flight: starting from a state with at most one live worker, at
/// no point while the driver executes a start, stop or elapsed-interval
/// action list are two workers live, and afterwards exactly as many are
/// live as the new state says. Starting twice in succession therefore
/// never leaves two periodic tasks delivering ticks for the same sink.
pub proof fn lemma_single_flight(before: SchedulerState, interval_ms: u64)
    ensures
        forall|k: int|
            0 <= k <= start_actions(before, interval_ms).len() ==> 0 <= workers_after(
                workers_of(before),
                #[trigger] start_actions(before, interval_ms).take(k),
            ) <= 1,
        workers_after(
            workers_of(before),
            start_actions(before, interval_ms),
        ) == 1,
        forall|k: int|
            0 <= k <= stop_actions(before).len() ==> 0 <= workers_after(
                workers_of(before),
                #[trigger] stop_actions(before).take(k),
            ) <= 1,
        workers_after(workers_of(before), stop_actions(before)) == 0,
        workers_after(workers_of(before), elapsed_actions(before)) == workers_of(before),
{
    let w0 = workers_of(before);
    let sa = start_actions(before, interval_ms);
    let pa = stop_actions(before);
    let ea = elapsed_actions(before);
    lemma_workers_prefix_step(w0, sa, 0);
    lemma_workers_prefix_step(w0, sa, 1);
    lemma_workers_prefix_step(w0, sa, 2);
    if sa.len() == 3 {
        lemma_workers_prefix_step(w0, sa, 3);
    }
    assert(sa.take(sa.len() as int) =~= sa);
    lemma_workers_prefix_step(w0, pa, 0);
    if pa.len() == 1 {
        lemma_workers_prefix_step(w0, pa, 1);
    }
    assert(pa.take(pa.len() as int) =~= pa);
    lemma_workers_prefix_step(w0, ea, 0);
    if ea.len() == 1 {
        lemma_workers_prefix_step(w0, ea, 1);
    }
    assert(ea.take(ea.len() as int) =~= ea);
    assert forall|k: int| 0 <= k <= sa.len() implies 0 <= workers_after(w0, #[trigger] sa.take(k))
        <= 1 by {}
    assert forall|k: int| 0 <= k <= pa.len() implies 0 <= workers_after(w0, #[trigger] pa.take(k))
        <= 1 by {}
}

/// Relates `workers_after` on the prefix of length `k` to the prefix of
/// length `k - 1`, unfolding one step of the recursion.
proof fn lemma_workers_prefix_step(w0: int, a: Seq<SchedulerAction>, k: int)
    requires
        0 <= k <= a.len(),
    ensures
        k == 0 ==> workers_after(w0, a.take(0)) == w0,
        k > 0 ==> workers_after(w0, a.take(k)) == ({
            let w = workers_after(w0, a.take(k - 1));
            match a[k - 1] {
                SchedulerAction::StopWorker => if w > 0 {
                    w - 1
                } else {
                    0
                },
                SchedulerAction::DeliverTick => w,
                SchedulerAction::StartWorker { .. } => w + 1,
            }
        }),
{
    if k == 0 {
        assert(a.take(0) =~= Seq::empty());
    } else {
        let p = a.take(k);
        assert(p.drop_last() =~= a.take(k - 1));
        assert(p.last() == a[k - 1]);
    }
}

/// One operation arriving at the scheduler: the collaborator's start and
/// stop requests, and the worker's elapsed-interval reports.
#[derive(Clone, Copy, Debug, PartialEq, Eq, Structural)]
pub enum SchedulerOp {
    Start { interval_ms: u64 },
    Stop,
    IntervalElapsed,
}

/// The actions one operation makes the driver execute in a given state.
pub open spec fn op_actions(state: SchedulerState, op: SchedulerOp) -> Seq<SchedulerAction> {
    match op {
        SchedulerOp::Start { interval_ms } => start_actions(state, interval_ms),
        SchedulerOp::Stop => stop_actions(state),
        SchedulerOp::IntervalElapsed => elapsed_actions(state),
    }
}

/// The state after one operation.
pub open spec fn op_next(state: SchedulerState, op: SchedulerOp) -> SchedulerState {
    match op {
        SchedulerOp::Start { interval_ms } => SchedulerState::Running { interval_ms },
        SchedulerOp::Stop => SchedulerState::Idle,
        SchedulerOp::IntervalElapsed => state,
    }
}

/// The state after a whole sequence of operations.
pub open spec fn run_ops(state: SchedulerState, ops: Seq<SchedulerOp>) -> SchedulerState
    decreases ops.len(),
{
    if ops.len() == 0 {
        state
    } else {
        run_ops(op_next(state, ops.first()), ops.drop_first())
    }
}

/// Whether any operation of the sequence, run from `state`, makes the
/// driver deliver a tick.
pub open spec fn any_tick(state: SchedulerState, ops: Seq<SchedulerOp>) -> bool
    decreases ops.len(),
{
    if ops.len() == 0 {
        false
    } else {
        op_actions(state, ops.first()).contains(SchedulerAction::DeliverTick) || any_tick(
            op_next(state, ops.first()),
            ops.drop_first(),
        )
    }
}

/// Nothing is delivered after a stop: once the scheduler is idle — which
/// every stop leaves it — no sequence of further stops and worker
/// reports, however a stale worker races, makes the driver deliver a
/// tick; only the next start can. Together with the driver joining the
/// worker inside `StopWorker`, this is what lets the collaborator tear
/// down its sink the moment a stop returns.
pub proof fn lemma_no_tick_after_stop(ops: Seq<SchedulerOp>)
    requires
        forall|i: int| 0 <= i < ops.len() ==> !((#[trigger] ops[i]) is Start),
    ensures
        !any_tick(SchedulerState::Idle, ops),
        run_ops(SchedulerState::Idle, ops) == SchedulerState::Idle,
    decreases ops.len(),
{
    if ops.len() > 0 {
        assert(!(ops[0] is Start));
        assert(op_actions(SchedulerState::Idle, ops.first()).len() == 0);
        assert(op_next(SchedulerState::Idle, ops.first()) == SchedulerState::Idle);
        assert(forall|i: int|
            0 <= i < ops.drop_first().len() ==> !((#[trigger] ops.drop_first()[i]) is Start));
        lemma_no_tick_after_stop(ops.drop_first());
    }
}

/// Holds the consumer's refresh callback. The slot is write-once: the
/// first callback published stays, and later attempts are ignored, so
/// every delivery path observes one stable callback.
pub struct CallbackSlot<F> {
    pub cb: Option<F>,
}

impl<F> CallbackSlot<F> {
    /// A slot with no callback published yet.
    pub fn empty() -> (s: Self)
        ensures
            s.cb is None,
    {
        CallbackSlot { cb: None }
    }

    /// The published callback, if any.
    pub fn callback(&self) -> (r: &Option<F>)
        ensures
            r == &self.cb,
    {
        &self.cb
    }
}

/// Publishes the consumer's refresh callback into the slot, keeping the
/// first one if a callback was already published.
pub fn set_refresh_callback<F>(slot: &mut CallbackSlot<F>, cb: F)
    ensures
        old(slot).cb is None ==> final(slot).cb == Some(cb),
        old(slot).cb is Some ==> final(slot).cb == old(slot).cb,
{
    if slot.cb.is_none() {
        slot.cb = Some(cb);
    }
}

} // verus!
