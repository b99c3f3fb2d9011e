use vstd::prelude::*;

use crate::wire::{TypedEvent, WireKind};
use evdev::InputEvent;
use std::sync::mpsc::Sender;

verus! {

#[verifier::external_type_specification]
#[verifier::external_body]
#[verifier::reject_recursive_types(T)]
pub struct ExSender<T>(std::sync::mpsc::Sender<T>);

#[verifier::external_type_specification]
#[verifier::external_body]
pub struct ExInputEvent(evdev::InputEvent);

/// Why a commit could not hand its event over.
#[derive(Debug, Clone, Copy, PartialEq, Eq, Structural)]
pub enum CommitError {
    /// The receiving end of the channel is gone: the device worker has stopped.
    ChannelClosed,
}

/// Relies on evdev::InputEvent::new: builds the raw device event with the given
/// type, code and value (and a zero timestamp).
#[verifier::external_body]
fn to_input_event(e: TypedEvent) -> InputEvent {
    let kind = match e.kind {
        WireKind::Absolute => evdev::EventType::ABSOLUTE,
        WireKind::Key => evdev::EventType::KEY,
    };
    InputEvent::new(kind, e.code, e.value)
}

/// Relies on std::sync::mpsc::Sender::send: queues the event, and fails only
/// when the receiver is gone, which depends on the other thread.
#[verifier::external_body]
fn channel_send(tx: &Sender<InputEvent>, ev: InputEvent) -> bool {
    tx.send(ev).is_ok()
}

/// Relies on std::sync::mpsc::Sender::clone: another handle on the same channel.
#[verifier::external_body]
fn clone_sender(tx: &Sender<InputEvent>) -> Sender<InputEvent> {
    tx.clone()
}

/// A handle on the channel that feeds the device worker.
///
/// Besides the std sender it records, as ghost state, every event that was
/// successfully handed to the channel through this handle, in order.
pub struct EventSender {
    tx: Sender<InputEvent>,
    sent: Ghost<Seq<TypedEvent>>,
}

impl EventSender {
    /// The events handed to the channel through this handle, oldest first.
    pub closed spec fn sent(&self) -> Seq<TypedEvent> {
        self.sent@
    }

    pub fn new(tx: Sender<InputEvent>) -> (r: Self)
        ensures
            r.sent() == Seq::<TypedEvent>::empty(),
    {
        EventSender { tx, sent: Ghost(Seq::empty()) }
    }

    /// Another handle on the same channel, with nothing sent through it yet.
    pub fn clone_handle(&self) -> (r: Self)
        ensures
            r.sent() == Seq::<TypedEvent>::empty(),
    {
        EventSender { tx: clone_sender(&self.tx), sent: Ghost(Seq::empty()) }
    }

    /// Queues `e` for the device worker; never blocks.
    pub fn send(&mut self, e: TypedEvent) -> (r: Result<(), CommitError>)
        ensures
            r is Ok ==> final(self).sent() == old(self).sent().push(e),
            r is Err ==> final(self).sent() == old(self).sent(),
    {
        if channel_send(&self.tx, to_input_event(e)) {
            self.sent = Ghost(self.sent@.push(e));
            Ok(())
        } else {
            Err(CommitError::ChannelClosed)
        }
    }
}

} // verus!
