//! The worker that acts on Escape, with its debounce.
//!
//! The keyboard hook only signals the worker. The worker waits for a signal,
//! then keeps swallowing further signals for as long as they keep arriving
//! within `DEBOUNCE_MS` milliseconds of each other, and acts once when they
//! stop. So a burst of Escape presses is handled once.

use vstd::prelude::*;

verus! {

/// Milliseconds within which a further Escape signal joins the current burst.
pub const DEBOUNCE_MS: u64 = 5;

/// Where the worker is.
#[derive(PartialEq, Eq, Structural, Clone, Copy, Debug)]
pub enum WorkerState {
    /// Waiting, without a time limit, for the first signal of a burst.
    Idle,
    /// Swallowing the rest of a burst.
    Draining,
}

/// What the last wait of the worker ended with.
#[derive(PartialEq, Eq, Structural, Clone, Copy, Debug)]
pub enum WorkerEvent {
    /// A signal arrived.
    Signal,
    /// The time limit passed without a signal.
    Timeout,
    /// The sending side is gone.
    Disconnected,
}

/// What the worker does next.
#[derive(PartialEq, Eq, Structural, Clone, Copy, Debug)]
pub enum WorkerAction {
    /// Wait for a signal without a time limit.
    Wait,
    /// Wait for a signal for at most `DEBOUNCE_MS` milliseconds.
    WaitBriefly,
    /// Handle Escape once, then wait for a signal without a time limit.
    Act,
    /// Stop the worker.
    Stop,
}

/// The next state and action of the worker after event `e` in state `s`.
pub open spec fn worker_next(s: WorkerState, e: WorkerEvent) -> (WorkerState, WorkerAction) {
    match s {
        WorkerState::Idle => match e {
            WorkerEvent::Signal => (WorkerState::Draining, WorkerAction::WaitBriefly),
            WorkerEvent::Timeout => (WorkerState::Idle, WorkerAction::Wait),
            WorkerEvent::Disconnected => (WorkerState::Idle, WorkerAction::Stop),
        },
        WorkerState::Draining => match e {
            WorkerEvent::Signal => (WorkerState::Draining, WorkerAction::WaitBriefly),
            _ => (WorkerState::Idle, WorkerAction::Act),
        },
    }
}

/// One step of the worker: in `Idle` a signal opens a burst and a closed
/// channel stops the worker; in `Draining` a signal extends the burst, and the
/// end of the burst (time limit passed, or channel closed) makes the worker act.
pub fn worker_step(s: WorkerState, e: WorkerEvent) -> (r: (WorkerState, WorkerAction))
    ensures
        r == worker_next(s, e),
{
    match s {
        WorkerState::Idle => match e {
            WorkerEvent::Signal => (WorkerState::Draining, WorkerAction::WaitBriefly),
            WorkerEvent::Timeout => (WorkerState::Idle, WorkerAction::Wait),
            WorkerEvent::Disconnected => (WorkerState::Idle, WorkerAction::Stop),
        },
        WorkerState::Draining => match e {
            WorkerEvent::Signal => (WorkerState::Draining, WorkerAction::WaitBriefly),
            _ => (WorkerState::Idle, WorkerAction::Act),
        },
    }
}

/// The state after feeding the events `es` to the worker from state `s`.
pub open spec fn worker_state_after(s: WorkerState, es: Seq<WorkerEvent>) -> WorkerState
    decreases es.len(),
{
    if es.len() == 0 {
        s
    } else {
        worker_next(worker_state_after(s, es.drop_last()), es.last()).0
    }
}

/// How many times the worker acts while being fed `es` from state `s`.
pub open spec fn acts_during(s: WorkerState, es: Seq<WorkerEvent>) -> nat
    decreases es.len(),
{
    if es.len() == 0 {
        0
    } else {
        let before = worker_state_after(s, es.drop_last());
        acts_during(s, es.drop_last()) + if worker_next(before, es.last()).1 == WorkerAction::Act {
            1nat
        } else {
            0nat
        }
    }
}

/// A burst of `n` signals.
pub open spec fn burst(n: nat) -> Seq<WorkerEvent> {
    Seq::new(n, |i: int| WorkerEvent::Signal)
}

/// While signals keep coming, an idle worker never acts and stays draining.
proof fn lemma_burst_drains(n: nat)
    requires
        n > 0,
    ensures
        worker_state_after(WorkerState::Idle, burst(n)) == WorkerState::Draining,
        acts_during(WorkerState::Idle, burst(n)) == 0,
    decreases n,
{
    assert(burst(n).last() == WorkerEvent::Signal);
    if n > 1 {
        lemma_burst_drains((n - 1) as nat);
        assert(burst(n).drop_last() =~= burst((n - 1) as nat));
    } else {
        assert(burst(n).drop_last() =~= Seq::<WorkerEvent>::empty());
        assert(acts_during(WorkerState::Idle, Seq::<WorkerEvent>::empty()) == 0);
        assert(worker_state_after(WorkerState::Idle, Seq::<WorkerEvent>::empty())
            == WorkerState::Idle);
    }
    let before = worker_state_after(WorkerState::Idle, burst(n).drop_last());
    assert(worker_next(before, WorkerEvent::Signal).1 == WorkerAction::WaitBriefly);
}

/// A burst of any number of Escape signals, followed by a quiet spell, makes
/// an idle worker act exactly once, after which it is idle again.
pub proof fn law_burst_acts_once(n: nat)
    requires
        n > 0,
    ensures
        acts_during(WorkerState::Idle, burst(n).push(WorkerEvent::Timeout)) == 1,
        worker_state_after(WorkerState::Idle, burst(n).push(WorkerEvent::Timeout))
            == WorkerState::Idle,
{
    lemma_burst_drains(n);
    assert(burst(n).push(WorkerEvent::Timeout).drop_last() =~= burst(n));
}

/// An idle worker stops when the sending side is gone, and acts on the
/// burst in progress before it stops.
pub proof fn law_worker_stops_when_disconnected()
    ensures
        worker_next(WorkerState::Idle, WorkerEvent::Disconnected).1 == WorkerAction::Stop,
        worker_next(WorkerState::Draining, WorkerEvent::Disconnected) == (
            WorkerState::Idle,
            WorkerAction::Act,
        ),
{
}

} // verus!
