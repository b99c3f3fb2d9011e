use vstd::prelude::*;

verus! {

/// The value carried by a device event.
pub type EventValue = i32;

/// Lowest value an analog axis can hold.
pub const AXIS_MIN: i8 = -100;

/// Highest value an analog axis can hold.
pub const AXIS_MAX: i8 = 100;

/// The device-level category of an event.
#[derive(Debug, Clone, Copy, PartialEq, Eq, Structural)]
pub enum WireKind {
    /// Absolute axis movement; the value is a signed position.
    Absolute,
    /// Key state; the value is 0 (released) or 1 (pressed).
    Key,
}

/// One event as it is handed to the device: which control, what kind, what value.
#[derive(Debug, Clone, Copy, PartialEq, Eq, Structural)]
pub struct TypedEvent {
    pub code: u16,
    pub kind: WireKind,
    pub value: EventValue,
}

/// The event that reports value `v` for the control with code `code`.
pub open spec fn event_of<T: ControllerValue>(code: u16, v: T) -> TypedEvent {
    TypedEvent { code, kind: T::wire_kind(), value: v.wire_value() }
}

/// A kind of value a control can hold, with its mapping onto the wire.
pub trait ControllerValue: Sized + Copy {
    /// The wire kind that every value of this type maps to.
    spec fn wire_kind() -> WireKind;

    /// The wire value of `self`.
    spec fn wire_value(self) -> EventValue;

    /// The value a control holds before anything was set.
    spec fn rest() -> Self;

    /// Whether `self` lies in the domain a control accepts.
    spec fn in_domain(self) -> bool;

    /// `self` brought into the domain.
    spec fn bounded(self) -> Self;

    /// Bringing a value into the domain lands in it, and keeps a value already there.
    proof fn bounded_in_domain(v: Self)
        ensures
            v.bounded().in_domain(),
            v.in_domain() ==> v.bounded() == v,
    ;

    /// The resting value lies in the domain.
    proof fn rest_in_domain()
        ensures
            Self::rest().in_domain(),
    ;

    fn controller_type() -> (r: WireKind)
        ensures
            r == Self::wire_kind(),
    ;

    fn controller_value(&self) -> (r: EventValue)
        ensures
            r == self.wire_value(),
    ;

    fn resting() -> (r: Self)
        ensures
            r == Self::rest(),
            r.in_domain(),
    ;

    fn clamped(self) -> (r: Self)
        ensures
            r == self.bounded(),
            r.in_domain(),
            self.in_domain() ==> r == self,
    ;

    fn same_as(&self, other: &Self) -> (r: bool)
        ensures
            r == (*self == *other),
    ;
}

/// Analog axes: a signed position in `[AXIS_MIN, AXIS_MAX]`, sent unchanged.
impl ControllerValue for i8 {
    open spec fn wire_kind() -> WireKind {
        WireKind::Absolute
    }

    open spec fn wire_value(self) -> EventValue {
        self as i32
    }

    open spec fn rest() -> i8 {
        0
    }

    open spec fn in_domain(self) -> bool {
        AXIS_MIN <= self <= AXIS_MAX
    }

    open spec fn bounded(self) -> i8 {
        if self < AXIS_MIN {
            AXIS_MIN
        } else if self > AXIS_MAX {
            AXIS_MAX
        } else {
            self
        }
    }

    proof fn bounded_in_domain(v: i8) {
    }

    proof fn rest_in_domain() {
    }

    fn controller_type() -> (r: WireKind) {
        WireKind::Absolute
    }

    fn controller_value(&self) -> (r: EventValue) {
        *self as i32
    }

    fn resting() -> (r: i8) {
        0
    }

    fn clamped(self) -> (r: i8) {
        if self < AXIS_MIN {
            AXIS_MIN
        } else if self > AXIS_MAX {
            AXIS_MAX
        } else {
            self
        }
    }

    fn same_as(&self, other: &i8) -> (r: bool) {
        *self == *other
    }
}

/// Buttons: released or pressed, sent as 0 or 1.
impl ControllerValue for bool {
    open spec fn wire_kind() -> WireKind {
        WireKind::Key
    }

    open spec fn wire_value(self) -> EventValue {
        if self {
            1
        } else {
            0
        }
    }

    open spec fn rest() -> bool {
        false
    }

    open spec fn in_domain(self) -> bool {
        true
    }

    open spec fn bounded(self) -> bool {
        self
    }

    proof fn bounded_in_domain(v: bool) {
    }

    proof fn rest_in_domain() {
    }

    fn controller_type() -> (r: WireKind) {
        WireKind::Key
    }

    fn controller_value(&self) -> (r: EventValue) {
        if *self {
            1
        } else {
            0
        }
    }

    fn resting() -> (r: bool) {
        false
    }

    fn clamped(self) -> (r: bool) {
        self
    }

    fn same_as(&self, other: &bool) -> (r: bool) {
        *self == *other
    }
}

} // verus!
