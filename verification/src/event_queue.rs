//! Readiness of the native X11 event queue, not just of its socket.
//!
//! A reader thread blocks in a peek at the native queue, which observes an
//! event without removing it. It then announces readiness and pauses while
//! the application drains the queue, so filtering and ownership of
//! dispatched events stay on the application thread. Dropping the queue
//! stops the reader. The decisions of that protocol are made here, over
//! the state that the reader and the application share; the caller holds
//! the state under a lock and performs the actions.
use vstd::prelude::*;

verus! {

/// Where the reader of the native queue stands.
#[derive(Clone, Copy, Debug, PartialEq, Eq, Structural)]
pub enum ReaderState {
    /// The reader is (or is about to be) blocked in its peek at the queue.
    Waiting,
    /// An event is queued and the application has not drained it yet.
    Ready,
    /// The queue is shutting down; the reader must exit.
    Stopped,
}

/// What the reader does next.
#[derive(Clone, Copy, Debug, PartialEq, Eq, Structural)]
pub enum ReaderAction {
    /// Leave the reader loop.
    Exit,
    /// Wake the application's event loop, then wait while the state is `Ready`.
    NotifyAndWait,
    /// Peek at the native queue again.
    Peek,
}

/// The reader's step after its peek saw an event.
pub open spec fn peeked_step(state: ReaderState) -> (ReaderState, ReaderAction) {
    match state {
        ReaderState::Stopped => (ReaderState::Stopped, ReaderAction::Exit),
        _ => (ReaderState::Ready, ReaderAction::NotifyAndWait),
    }
}

/// The reader's step once its wait ended, the state being no longer `Ready`.
pub open spec fn resumed_step(state: ReaderState) -> ReaderAction {
    match state {
        ReaderState::Stopped => ReaderAction::Exit,
        _ => ReaderAction::Peek,
    }
}

/// The state and whether the blocked peek must be woken, when the queue is dropped.
pub open spec fn shutdown_step(state: ReaderState) -> (ReaderState, bool) {
    (ReaderState::Stopped, state == ReaderState::Waiting)
}

/// The reader waits as long as this holds.
pub open spec fn reader_pauses(state: ReaderState) -> bool {
    state == ReaderState::Ready
}

/// The reader's peek saw an event: unless the queue is stopping, it marks
/// the queue ready and wakes the application.
pub fn event_peeked(state: ReaderState) -> (r: (ReaderState, ReaderAction))
    ensures
        r == peeked_step(state),
{
    match state {
        ReaderState::Stopped => (ReaderState::Stopped, ReaderAction::Exit),
        _ => (ReaderState::Ready, ReaderAction::NotifyAndWait),
    }
}

/// Whether the reader, woken while waiting, must keep waiting.
pub fn must_keep_waiting(state: ReaderState) -> (r: bool)
    ensures
        r == reader_pauses(state),
{
    state == ReaderState::Ready
}

/// The reader's wait ended: it exits if the queue is stopping and
/// otherwise peeks again.
pub fn reader_resumed(state: ReaderState) -> (r: ReaderAction)
    requires
        !reader_pauses(state),
    ensures
        r == resumed_step(state),
{
    match state {
        ReaderState::Stopped => ReaderAction::Exit,
        _ => ReaderAction::Peek,
    }
}

/// Whether events are waiting for the application, so that it may drain
/// the queue.
pub fn is_ready(state: ReaderState) -> (r: bool)
    ensures
        r == (state == ReaderState::Ready),
{
    state == ReaderState::Ready
}

/// The application finished draining a batch: the reader may peek again.
/// A batch exists only while the queue is ready.
pub fn drain_finished(state: ReaderState) -> (r: ReaderState)
    requires
        state == ReaderState::Ready,
    ensures
        r == ReaderState::Waiting,
{
    ReaderState::Waiting
}

/// The queue is dropped: the state becomes `Stopped`, and the result says
/// whether the reader must also be woken from its blocking peek, which is
/// the case exactly when it was waiting in it. A reader paused for a drain
/// only needs the notification of the shared state.
pub fn shut_down(state: ReaderState) -> (r: (ReaderState, bool))
    ensures
        r == shutdown_step(state),
{
    (ReaderState::Stopped, state == ReaderState::Waiting)
}

/// Once the queue is shut down, from whatever state, the reader exits at
/// its next decision, whether its peek returns or its wait ends, and the
/// queue stays stopped.
pub proof fn law_shutdown_stops_reader(state: ReaderState)
    ensures
        peeked_step(shutdown_step(state).0) == (ReaderState::Stopped, ReaderAction::Exit),
        !reader_pauses(shutdown_step(state).0),
        resumed_step(shutdown_step(state).0) == ReaderAction::Exit,
{
}

/// A reader that announced readiness stays paused until the application
/// has finished its drain, and then peeks again: the application alone
/// removes events from the queue while it is ready.
pub proof fn law_drain_pauses_reader(state: ReaderState)
    requires
        state != ReaderState::Stopped,
    ensures
        peeked_step(state) == (ReaderState::Ready, ReaderAction::NotifyAndWait),
        reader_pauses(peeked_step(state).0),
        !reader_pauses(ReaderState::Waiting),
        resumed_step(ReaderState::Waiting) == ReaderAction::Peek,
{
}

/// Where the reader thread is.
#[derive(Clone, Copy, Debug, PartialEq, Eq, Structural)]
pub enum ReaderPhase {
    /// Blocked in its native peek at the queue.
    Peeking,
    /// Waiting on the shared state.
    Paused,
    /// Left its loop.
    Exited,
}

/// The shared state together with where the reader thread is.
pub struct Protocol {
    pub shared: ReaderState,
    pub reader: ReaderPhase,
}

/// The things that happen to a live queue.
pub enum ProtocolStep {
    /// The reader's peek returns because an event is queued.
    Peeked,
    /// The reader is woken from its wait.
    Woke,
    /// The application drops the batch it drained.
    Drained,
    /// The application drops the queue.
    ShutDown,
}

/// A new queue: the reader peeks, nothing is ready.
pub open spec fn initial_protocol() -> Protocol {
    Protocol { shared: ReaderState::Waiting, reader: ReaderPhase::Peeking }
}

/// Whether `step` can happen in `p`: the reader's steps need the reader in
/// the matching place (a wake is only heard once the state is no longer
/// ready), a drained batch exists only while the queue is ready, and the
/// queue is dropped once.
pub open spec fn step_enabled(p: Protocol, step: ProtocolStep) -> bool {
    match step {
        ProtocolStep::Peeked => p.reader == ReaderPhase::Peeking,
        ProtocolStep::Woke => p.reader == ReaderPhase::Paused && !reader_pauses(p.shared),
        ProtocolStep::Drained => p.shared == ReaderState::Ready,
        ProtocolStep::ShutDown => p.shared != ReaderState::Stopped,
    }
}

/// The protocol after `step`, built from the decisions above, and whether
/// the step wakes the application's event loop.
pub open spec fn protocol_step(p: Protocol, step: ProtocolStep) -> (Protocol, bool) {
    match step {
        ProtocolStep::Peeked => {
            let (shared, action) = peeked_step(p.shared);
            if action == ReaderAction::Exit {
                (Protocol { shared, reader: ReaderPhase::Exited }, false)
            } else {
                (Protocol { shared, reader: ReaderPhase::Paused }, true)
            }
        },
        ProtocolStep::Woke => {
            if resumed_step(p.shared) == ReaderAction::Exit {
                (Protocol { shared: p.shared, reader: ReaderPhase::Exited }, false)
            } else {
                (Protocol { shared: p.shared, reader: ReaderPhase::Peeking }, false)
            }
        },
        ProtocolStep::Drained => (Protocol { shared: ReaderState::Waiting, reader: p.reader }, false),
        ProtocolStep::ShutDown => (
            Protocol { shared: shutdown_step(p.shared).0, reader: p.reader },
            false,
        ),
    }
}

/// What holds of every reachable protocol state: a peeking reader never
/// sees a ready queue, a ready queue has its reader paused, and an exited
/// reader saw the queue stopped.
pub open spec fn protocol_inv(p: Protocol) -> bool {
    &&& p.reader == ReaderPhase::Peeking ==> p.shared != ReaderState::Ready
    &&& p.shared == ReaderState::Ready ==> p.reader == ReaderPhase::Paused
    &&& p.reader == ReaderPhase::Exited ==> p.shared == ReaderState::Stopped
}

/// The state after a run of steps, each enabled when it happens.
pub open spec fn run_protocol(p: Protocol, steps: Seq<ProtocolStep>) -> Protocol
    decreases steps.len(),
{
    if steps.len() == 0 {
        p
    } else {
        run_protocol(protocol_step(p, steps[0]).0, steps.drop_first())
    }
}

/// Every step of the run is enabled when it happens.
pub open spec fn run_enabled(p: Protocol, steps: Seq<ProtocolStep>) -> bool
    decreases steps.len(),
{
    if steps.len() == 0 {
        true
    } else {
        step_enabled(p, steps[0]) && run_enabled(protocol_step(p, steps[0]).0, steps.drop_first())
    }
}

/// Over the whole life of a queue, the shared state changes only from
/// waiting to ready (by the reader, after its peek saw an event), from
/// ready to waiting (when a drained batch is dropped) and to stopped (when
/// the queue is dropped); stopped is never left, and the reader exits only
/// once it has observed the queue stopped.
pub proof fn law_reader_lifetime(p: Protocol, step: ProtocolStep)
    requires
        protocol_inv(p),
        step_enabled(p, step),
    ensures
        protocol_inv(initial_protocol()),
        protocol_inv(protocol_step(p, step).0),
        ({
            let q = protocol_step(p, step).0;
            ||| q.shared == p.shared
            ||| (p.shared == ReaderState::Waiting && q.shared == ReaderState::Ready
                && step is Peeked)
            ||| (p.shared == ReaderState::Ready && q.shared == ReaderState::Waiting
                && step is Drained)
            ||| (q.shared == ReaderState::Stopped && step is ShutDown)
        }),
        p.shared == ReaderState::Stopped ==> protocol_step(p, step).0.shared
            == ReaderState::Stopped,
        protocol_step(p, step).0.reader == ReaderPhase::Exited ==> p.shared
            == ReaderState::Stopped,
{
}

/// Stopped is never left, whatever happens afterwards.
pub proof fn law_stopped_is_final(p: Protocol, steps: Seq<ProtocolStep>)
    requires
        p.shared == ReaderState::Stopped,
        run_enabled(p, steps),
    ensures
        run_protocol(p, steps).shared == ReaderState::Stopped,
    decreases steps.len(),
{
    if steps.len() > 0 {
        law_stopped_is_final(protocol_step(p, steps[0]).0, steps.drop_first());
    }
}

/// Every state that a live queue reaches satisfies the protocol invariant.
pub proof fn law_runs_keep_invariant(steps: Seq<ProtocolStep>)
    requires
        run_enabled(initial_protocol(), steps),
    ensures
        protocol_inv(run_protocol(initial_protocol(), steps)),
{
    lemma_run_keeps_invariant(initial_protocol(), steps);
}

proof fn lemma_run_keeps_invariant(p: Protocol, steps: Seq<ProtocolStep>)
    requires
        protocol_inv(p),
        run_enabled(p, steps),
    ensures
        protocol_inv(run_protocol(p, steps)),
    decreases steps.len(),
{
    if steps.len() > 0 {
        lemma_run_keeps_invariant(protocol_step(p, steps[0]).0, steps.drop_first());
    }
}

/// The application's event loop is woken exactly once per change of the
/// queue from waiting to ready, right at that change, and at no other
/// step: never while the queue is ready already, and never once it is
/// stopped.
pub proof fn law_one_wake_per_readiness(p: Protocol, step: ProtocolStep)
    requires
        protocol_inv(p),
        step_enabled(p, step),
    ensures
        protocol_step(p, step).1 <==> (p.shared == ReaderState::Waiting
            && protocol_step(p, step).0.shared == ReaderState::Ready),
        protocol_step(p, step).1 ==> step is Peeked,
{
}

/// While the queue is ready, the reader is paused and none of its steps
/// can happen: it makes no native call and does not change the shared
/// state until the application has dropped its drained batch (or the
/// queue); removing and filtering events stays with the application.
pub proof fn law_ready_queue_belongs_to_application(p: Protocol)
    requires
        protocol_inv(p),
        p.shared == ReaderState::Ready,
    ensures
        p.reader == ReaderPhase::Paused,
        !step_enabled(p, ProtocolStep::Peeked),
        !step_enabled(p, ProtocolStep::Woke),
        protocol_step(p, ProtocolStep::Drained).0.shared == ReaderState::Waiting,
{
}

} // verus!
