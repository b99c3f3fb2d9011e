use vstd::prelude::*;

verus! {

/// Where the device worker stands.
#[derive(Debug, Clone, Copy, PartialEq, Eq, Structural)]
pub enum WorkerState {
    /// Waiting for an event, or handing one to the device.
    Running,
    /// Stopped for good.
    Terminated,
}

/// What the worker last observed, carrying the received event `E`.
#[derive(Debug, PartialEq, Eq)]
pub enum WorkerEvent<E> {
    /// An event came off the queue.
    Received(E),
    /// Every sender is gone: the queue will never yield again.
    ChannelClosed,
    /// The device took the last event.
    Emitted,
    /// The device refused the last event.
    EmitFailed,
}

/// What the worker does next.
#[derive(Debug, PartialEq, Eq)]
pub enum WorkerAction<E> {
    /// Hand this event to the device, unchanged.
    Emit(E),
    /// Block on the queue for the next event.
    Receive,
    /// Leave the loop.
    Stop,
}

/// The worker's transition: forward each event verbatim, wait again after a
/// successful emit, and stop for good when the queue closes or the device fails.
pub open spec fn worker_step<E>(state: WorkerState, ev: WorkerEvent<E>) -> (WorkerState, WorkerAction<E>) {
    match state {
        WorkerState::Terminated => (WorkerState::Terminated, WorkerAction::Stop),
        WorkerState::Running => match ev {
            WorkerEvent::Received(e) => (WorkerState::Running, WorkerAction::Emit(e)),
            WorkerEvent::Emitted => (WorkerState::Running, WorkerAction::Receive),
            WorkerEvent::ChannelClosed => (WorkerState::Terminated, WorkerAction::Stop),
            WorkerEvent::EmitFailed => (WorkerState::Terminated, WorkerAction::Stop),
        },
    }
}

/// Decides the worker's next state and action.
pub fn worker_next<E>(state: WorkerState, ev: WorkerEvent<E>) -> (r: (WorkerState, WorkerAction<E>))
    ensures
        r == worker_step(state, ev),
{
    match state {
        WorkerState::Terminated => (WorkerState::Terminated, WorkerAction::Stop),
        WorkerState::Running => match ev {
            WorkerEvent::Received(e) => (WorkerState::Running, WorkerAction::Emit(e)),
            WorkerEvent::Emitted => (WorkerState::Running, WorkerAction::Receive),
            WorkerEvent::ChannelClosed => (WorkerState::Terminated, WorkerAction::Stop),
            WorkerEvent::EmitFailed => (WorkerState::Terminated, WorkerAction::Stop),
        },
    }
}

/// The events a worker hands to the device while it observes `evs` from `state`, in order.
pub open spec fn emitted_by<E>(state: WorkerState, evs: Seq<WorkerEvent<E>>) -> Seq<E>
    decreases evs.len(),
{
    if evs.len() == 0 {
        Seq::empty()
    } else {
        let (next, action) = worker_step(state, evs[0]);
        let rest = emitted_by(next, evs.drop_first());
        match action {
            WorkerAction::Emit(e) => seq![e] + rest,
            _ => rest,
        }
    }
}

/// The state a worker reaches from `state` after observing `evs`.
pub open spec fn state_after<E>(state: WorkerState, evs: Seq<WorkerEvent<E>>) -> WorkerState
    decreases evs.len(),
{
    if evs.len() == 0 {
        state
    } else {
        state_after(worker_step(state, evs[0]).0, evs.drop_first())
    }
}

/// A closed queue stops a running worker at once, whether or not it ever
/// received an event; once stopped, it emits nothing more whatever it observes.
pub proof fn closure_stops_worker<E>(evs: Seq<WorkerEvent<E>>)
    ensures
        worker_step(WorkerState::Running, WorkerEvent::<E>::ChannelClosed) == (
        WorkerState::Terminated,
        WorkerAction::<E>::Stop,
        ),
        state_after(WorkerState::Terminated, evs) == WorkerState::Terminated,
        emitted_by(WorkerState::Terminated, evs) == Seq::<E>::empty(),
    decreases evs.len(),
{
    if evs.len() > 0 {
        closure_stops_worker(evs.drop_first());
    }
}

/// A running worker that receives events `es` one by one, each followed by a
/// successful emit, hands the device exactly `es`, in the same order.
pub proof fn worker_forwards_in_order<E>(es: Seq<E>)
    ensures
        emitted_by(WorkerState::Running, received_then_emitted(es)) == es,
        state_after(WorkerState::Running, received_then_emitted(es)) == WorkerState::Running,
    decreases es.len(),
{
    if es.len() > 0 {
        let evs = received_then_emitted(es);
        let tail = received_then_emitted(es.drop_first());
        worker_forwards_in_order(es.drop_first());
        assert(evs[0] == WorkerEvent::Received(es[0]));
        assert(evs.drop_first()[0] == WorkerEvent::<E>::Emitted);
        assert(evs.drop_first().drop_first() =~= tail);
        assert(emitted_by(WorkerState::Running, evs.drop_first()) == emitted_by(WorkerState::Running, tail));
        assert(state_after(WorkerState::Running, evs.drop_first()) == state_after(WorkerState::Running, tail));
        assert(seq![es[0]] + es.drop_first() =~= es);
    } else {
        assert(es =~= Seq::<E>::empty());
    }
}

/// Each of `es` received, then acknowledged by the device.
pub open spec fn received_then_emitted<E>(es: Seq<E>) -> Seq<WorkerEvent<E>>
    decreases es.len(),
{
    if es.len() == 0 {
        Seq::empty()
    } else {
        seq![WorkerEvent::Received(es[0]), WorkerEvent::Emitted] + received_then_emitted(es.drop_first())
    }
}

} // verus!
