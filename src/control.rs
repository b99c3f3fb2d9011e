use vstd::prelude::*;

use crate::channel::{CommitError, EventSender};
use crate::wire::{event_of, ControllerValue, TypedEvent};

verus! {

/// Stable identifier of the physical control an event reports on.
pub type EventCode = u16;

/// An analog axis.
pub type AnalogAxis = Control<i8>;

/// A button.
pub type Button = Control<bool>;

/// What a control is, as the contracts see it.
pub struct ControlModel<T> {
    /// The control's event code.
    pub code: EventCode,
    /// The value the device was last told.
    pub last: T,
    /// The value the user wants.
    pub pending: T,
    /// The events handed to the channel through this control, oldest first.
    pub sent: Seq<TypedEvent>,
}

impl<T: ControllerValue> ControlModel<T> {
    /// Both the last value sent and the wanted value lie in the domain.
    pub open spec fn valid(self) -> bool {
        self.last.in_domain() && self.pending.in_domain()
    }
}

/// The event a commit of `c` sends when its pending value differs from the last one.
pub open spec fn pending_event<T: ControllerValue>(c: ControlModel<T>) -> TypedEvent {
    event_of(c.code, c.pending)
}

/// The events a commit of `c` sends: none, or the one for its pending value.
pub open spec fn emitted<T: ControllerValue>(c: ControlModel<T>) -> Seq<TypedEvent> {
    if c.pending == c.last {
        Seq::empty()
    } else {
        seq![pending_event(c)]
    }
}

/// `c` after a successful commit.
pub open spec fn committed<T: ControllerValue>(c: ControlModel<T>) -> ControlModel<T> {
    ControlModel { code: c.code, last: c.pending, pending: c.pending, sent: c.sent + emitted(c) }
}

/// `c` after its pending value was set to `v`.
pub open spec fn with_pending<T: ControllerValue>(c: ControlModel<T>, v: T) -> ControlModel<T> {
    ControlModel { code: c.code, last: c.last, pending: v.bounded(), sent: c.sent }
}

/// `c` after setting each value of `vs` in turn, without committing.
pub open spec fn with_pendings<T: ControllerValue>(c: ControlModel<T>, vs: Seq<T>) -> ControlModel<T>
    decreases vs.len(),
{
    if vs.len() == 0 {
        c
    } else {
        with_pendings(with_pending(c, vs[0]), vs.drop_first())
    }
}

/// `c` after setting each value of `vs` and committing successfully right after each one.
pub open spec fn commit_each<T: ControllerValue>(c: ControlModel<T>, vs: Seq<T>) -> ControlModel<T>
    decreases vs.len(),
{
    if vs.len() == 0 {
        c
    } else {
        commit_each(committed(with_pending(c, vs[0])), vs.drop_first())
    }
}

/// The values of `vs` that differ from the one before them, starting from `prev`.
pub open spec fn changes<T>(prev: T, vs: Seq<T>) -> Seq<T>
    decreases vs.len(),
{
    if vs.len() == 0 {
        Seq::empty()
    } else if vs[0] == prev {
        changes(prev, vs.drop_first())
    } else {
        seq![vs[0]] + changes(vs[0], vs.drop_first())
    }
}

/// One typed control: its code, the value last sent, the value wanted, and its
/// handle on the device channel.
pub struct Control<T: ControllerValue> {
    event_code: EventCode,
    old_value: T,
    new_value: T,
    event_sender: EventSender,
    name: &'static str,
}

impl<T: ControllerValue> Control<T> {
    pub closed spec fn model(&self) -> ControlModel<T> {
        ControlModel {
            code: self.event_code,
            last: self.old_value,
            pending: self.new_value,
            sent: self.event_sender.sent(),
        }
    }

    /// The label shown for this control.
    pub closed spec fn label(&self) -> Seq<char> {
        self.name@
    }

    /// Both values start at rest.
    pub fn new(event_code: EventCode, event_sender: EventSender, name: &'static str) -> (r: Self)
        ensures
            r.model() == (ControlModel {
                code: event_code,
                last: T::rest(),
                pending: T::rest(),
                sent: event_sender.sent(),
            }),
            r.label() == name@,
    {
        Control {
            event_code,
            old_value: T::resting(),
            new_value: T::resting(),
            event_sender,
            name,
        }
    }

    /// Sends the pending value to the device if it differs from the last value
    /// sent; the last value changes only once the event is on the channel.
    pub fn new_value(&mut self) -> (r: Result<(), CommitError>)
        ensures
            old(self).model().pending == old(self).model().last ==> r is Ok,
            r is Ok ==> final(self).model() == committed(old(self).model()),
            r is Err ==> final(self).model() == old(self).model(),
            final(self).label() == old(self).label(),
    {
        if self.new_value.same_as(&self.old_value) {
            proof {
                assert(self.event_sender.sent() + Seq::<TypedEvent>::empty() =~= self.event_sender.sent());
            }
            return Ok(());
        }
        let event = TypedEvent {
            code: self.event_code,
            kind: T::controller_type(),
            value: self.new_value.controller_value(),
        };
        match self.event_sender.send(event) {
            Ok(()) => {
                self.old_value = self.new_value;
                proof {
                    assert(old(self).model().sent.push(event) =~= old(self).model().sent + emitted(old(self).model()));
                }
                Ok(())
            },
            Err(e) => Err(e),
        }
    }

    /// Sets the wanted value, brought into the control's domain; sends nothing.
    pub fn set_pending(&mut self, value: T)
        ensures
            final(self).model() == with_pending(old(self).model(), value),
            final(self).label() == old(self).label(),
    {
        self.new_value = value.clamped();
    }

    pub fn pending(&self) -> (r: T)
        ensures
            r == self.model().pending,
    {
        self.new_value
    }

    pub fn name(&self) -> (r: &'static str)
        ensures
            r@ == self.label(),
    {
        self.name
    }
}

/// A commit right after setting pending values that end on the last value sent
/// sends nothing.
pub proof fn unchanged_pending_sends_nothing<T: ControllerValue>(c: ControlModel<T>, vs: Seq<T>)
    requires
        with_pendings(c, vs).pending == c.last,
    ensures
        committed(with_pendings(c, vs)).sent == c.sent,
{
    lemma_with_pendings_keeps(c, vs);
    assert(c.sent + Seq::<TypedEvent>::empty() =~= c.sent);
}

proof fn lemma_with_pendings_keeps<T: ControllerValue>(c: ControlModel<T>, vs: Seq<T>)
    ensures
        with_pendings(c, vs).code == c.code,
        with_pendings(c, vs).last == c.last,
        with_pendings(c, vs).sent == c.sent,
    decreases vs.len(),
{
    if vs.len() > 0 {
        lemma_with_pendings_keeps(with_pending(c, vs[0]), vs.drop_first());
    }
}

/// When each value of `vs` is set and committed in turn, and every commit
/// succeeds, the control sends, in order, exactly the events for the values
/// (as clamped) that differ from the one committed before them.
pub proof fn commits_send_changes<T: ControllerValue>(c: ControlModel<T>, vs: Seq<T>)
    ensures
        commit_each(c, vs).sent == c.sent + changes(c.last, vs.map_values(|v: T| v.bounded())).map_values(
            |v: T| event_of(c.code, v),
        ),
    decreases vs.len(),
{
    let bounded = vs.map_values(|v: T| v.bounded());
    if vs.len() == 0 {
        assert(changes(c.last, bounded) =~= Seq::<T>::empty());
        assert(c.sent + Seq::<TypedEvent>::empty() =~= c.sent);
    } else {
        let c1 = committed(with_pending(c, vs[0]));
        let rest = vs.drop_first();
        commits_send_changes(c1, rest);
        assert(bounded.drop_first() =~= rest.map_values(|v: T| v.bounded()));
        let ev = |v: T| event_of(c.code, v);
        if vs[0].bounded() == c.last {
            assert(c1.sent =~= c.sent);
        } else {
            let tail = changes(vs[0].bounded(), rest.map_values(|v: T| v.bounded()));
            assert((seq![vs[0].bounded()] + tail).map_values(ev) =~= seq![ev(vs[0].bounded())] + tail.map_values(ev));
            assert(c1.sent + tail.map_values(ev) =~= c.sent + (seq![ev(vs[0].bounded())] + tail.map_values(ev)));
        }
    }
}

/// An axis holds a value in `[AXIS_MIN, AXIS_MAX]` whatever it is set to: values
/// beyond the domain are clamped to its nearest end, values inside are kept.
pub proof fn axis_pending_is_clamped(c: ControlModel<i8>, v: i8)
    ensures
        crate::wire::AXIS_MIN <= with_pending(c, v).pending <= crate::wire::AXIS_MAX,
        v < crate::wire::AXIS_MIN ==> with_pending(c, v).pending == crate::wire::AXIS_MIN,
        v > crate::wire::AXIS_MAX ==> with_pending(c, v).pending == crate::wire::AXIS_MAX,
        crate::wire::AXIS_MIN <= v <= crate::wire::AXIS_MAX ==> with_pending(c, v).pending == v,
{
}

/// A control starts with both values in the domain, and setting a value or
/// committing keeps them there: no value outside the domain is ever sent.
pub proof fn values_stay_in_domain<T: ControllerValue>(c: ControlModel<T>, v: T)
    requires
        c.valid(),
    ensures
        (ControlModel { code: c.code, last: T::rest(), pending: T::rest(), sent: c.sent }).valid(),
        with_pending(c, v).valid(),
        committed(c).valid(),
        committed(c).sent.len() > c.sent.len() ==> committed(c).sent.last() == event_of(c.code, c.pending)
            && c.pending.in_domain(),
{
    T::rest_in_domain();
    T::bounded_in_domain(v);
}

/// A button commit that sends something sends a key event with value 1 for
/// pressed and 0 for released.
pub proof fn button_wire_values(c: ControlModel<bool>)
    requires
        c.pending != c.last,
    ensures
        committed(c).sent.last().kind == crate::wire::WireKind::Key,
        committed(c).sent.last().value == (if c.pending { 1i32 } else { 0i32 }),
        committed(c).sent.last().code == c.code,
{
}

/// One control per entry of each setup list, in the same order, each with its
/// own handle on `sender`'s channel and both values at rest.
pub fn build_controls(
    axis_setup: &Vec<(EventCode, &'static str)>,
    button_setup: &Vec<(EventCode, &'static str)>,
    sender: &EventSender,
) -> (r: (Vec<AnalogAxis>, Vec<Button>))
    ensures
        r.0@.len() == axis_setup@.len(),
        r.1@.len() == button_setup@.len(),
        forall|i: int|
            0 <= i < axis_setup@.len() ==> (#[trigger] r.0@[i]).model() == (ControlModel {
                code: axis_setup@[i].0,
                last: 0i8,
                pending: 0i8,
                sent: Seq::<TypedEvent>::empty(),
            }) && r.0@[i].label() == axis_setup@[i].1@,
        forall|i: int|
            0 <= i < button_setup@.len() ==> (#[trigger] r.1@[i]).model() == (ControlModel {
                code: button_setup@[i].0,
                last: false,
                pending: false,
                sent: Seq::<TypedEvent>::empty(),
            }) && r.1@[i].label() == button_setup@[i].1@,
{
    let mut axes: Vec<AnalogAxis> = Vec::new();
    let mut k: usize = 0;
    while k < axis_setup.len()
        invariant
            k <= axis_setup@.len(),
            axes@.len() == k,
            forall|i: int|
                0 <= i < k ==> (#[trigger] axes@[i]).model() == (ControlModel {
                    code: axis_setup@[i].0,
                    last: 0i8,
                    pending: 0i8,
                    sent: Seq::<TypedEvent>::empty(),
                }) && axes@[i].label() == axis_setup@[i].1@,
        decreases axis_setup@.len() - k,
    {
        let (code, name) = axis_setup[k];
        axes.push(AnalogAxis::new(code, sender.clone_handle(), name));
        k = k + 1;
    }
    let mut buttons: Vec<Button> = Vec::new();
    let mut k: usize = 0;
    while k < button_setup.len()
        invariant
            k <= button_setup@.len(),
            buttons@.len() == k,
            forall|i: int|
                0 <= i < k ==> (#[trigger] buttons@[i]).model() == (ControlModel {
                    code: button_setup@[i].0,
                    last: false,
                    pending: false,
                    sent: Seq::<TypedEvent>::empty(),
                }) && buttons@[i].label() == button_setup@[i].1@,
        decreases button_setup@.len() - k,
    {
        let (code, name) = button_setup[k];
        buttons.push(Button::new(code, sender.clone_handle(), name));
        k = k + 1;
    }
    (axes, buttons)
}

} // verus!
