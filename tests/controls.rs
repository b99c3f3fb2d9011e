use std::sync::mpsc;

use evdev::{EventType, InputEvent};
use virtual_joystick::{
    build_controls, AnalogAxis, Button, CommitError, ControllerValue, EventSender, TypedEvent,
    WireKind, AXIS_MAX, AXIS_MIN, UI,
};

const THROTTLE: u16 = 6;
const BUTTON_A: u16 = 0x130;

#[test]
fn scenario_throttle_and_button() {
    let (tx, rx) = mpsc::channel::<InputEvent>();
    let sender = EventSender::new(tx);
    let (axes, buttons) = build_controls(&vec![(THROTTLE, "Throttle")], &vec![(BUTTON_A, "A")], &sender);
    drop(sender);
    let mut ui = UI::new(axes, buttons);

    ui.set_axis(0, 50);
    assert_eq!(ui.commit_axis(0), Ok(()));
    let ev = rx.try_recv().unwrap();
    assert_eq!(ev.event_type(), EventType::ABSOLUTE);
    assert_eq!(ev.code(), THROTTLE);
    assert_eq!(ev.value(), 50);

    assert_eq!(ui.commit_axis(0), Ok(()));
    assert!(rx.try_recv().is_err());

    ui.set_button(0, true);
    assert_eq!(ui.commit_button(0), Ok(()));
    let ev = rx.try_recv().unwrap();
    assert_eq!(ev.event_type(), EventType::KEY);
    assert_eq!(ev.code(), BUTTON_A);
    assert_eq!(ev.value(), 1);
    assert!(rx.try_recv().is_err());
}

#[test]
fn unchanged_value_sends_nothing() {
    let (tx, rx) = mpsc::channel::<InputEvent>();
    let mut axis = AnalogAxis::new(1, EventSender::new(tx), "Left Y");
    axis.set_pending(30);
    axis.set_pending(-20);
    axis.set_pending(0);
    assert_eq!(axis.new_value(), Ok(()));
    assert!(rx.try_recv().is_err());

    axis.set_pending(40);
    assert_eq!(axis.new_value(), Ok(()));
    assert_eq!(rx.try_recv().unwrap().value(), 40);
    axis.set_pending(10);
    axis.set_pending(40);
    assert_eq!(axis.new_value(), Ok(()));
    assert!(rx.try_recv().is_err());
}

#[test]
fn commits_send_only_changes_in_order() {
    let (tx, rx) = mpsc::channel::<InputEvent>();
    let mut axis = AnalogAxis::new(0, EventSender::new(tx), "Left X");
    for v in [5i8, 5, 7, 7, 7, -3, 5, 5] {
        axis.set_pending(v);
        assert_eq!(axis.new_value(), Ok(()));
    }
    let seen: Vec<i32> = rx.try_iter().map(|e| e.value()).collect();
    assert_eq!(seen, vec![5, 7, -3, 5]);
}

#[test]
fn interleaved_commits_arrive_in_order() {
    let (tx, rx) = mpsc::channel::<InputEvent>();
    let sender = EventSender::new(tx);
    let (axes, buttons) =
        build_controls(&vec![(0, "Left X")], &vec![(0x131, "B (East)")], &sender);
    let mut ui = UI::new(axes, buttons);
    ui.set_axis(0, 10);
    assert_eq!(ui.commit_axis(0), Ok(()));
    ui.set_button(0, true);
    assert_eq!(ui.commit_button(0), Ok(()));
    ui.set_axis(0, -10);
    assert_eq!(ui.commit_axis(0), Ok(()));
    let seen: Vec<(u16, u16, i32)> =
        rx.try_iter().map(|e| (e.event_type().0, e.code(), e.value())).collect();
    assert_eq!(
        seen,
        vec![
            (EventType::ABSOLUTE.0, 0, 10),
            (EventType::KEY.0, 0x131, 1),
            (EventType::ABSOLUTE.0, 0, -10)
        ]
    );
}

#[test]
fn boolean_wire_values() {
    assert_eq!(false.controller_value(), 0);
    assert_eq!(true.controller_value(), 1);
    assert_eq!(<bool as ControllerValue>::controller_type(), WireKind::Key);
    assert_eq!(<i8 as ControllerValue>::controller_type(), WireKind::Absolute);
    assert_eq!((-100i8).controller_value(), -100);

    let (tx, rx) = mpsc::channel::<InputEvent>();
    let mut button = Button::new(BUTTON_A, EventSender::new(tx), "A");
    button.set_pending(true);
    assert_eq!(button.new_value(), Ok(()));
    button.set_pending(false);
    assert_eq!(button.new_value(), Ok(()));
    let seen: Vec<i32> = rx.try_iter().map(|e| e.value()).collect();
    assert_eq!(seen, vec![1, 0]);
}

#[test]
fn axis_values_are_clamped() {
    assert_eq!(AXIS_MIN, -100);
    assert_eq!(AXIS_MAX, 100);
    assert_eq!(120i8.clamped(), 100);
    assert_eq!((-128i8).clamped(), -100);
    assert_eq!(127i8.clamped(), 100);
    assert_eq!(100i8.clamped(), 100);
    assert_eq!((-37i8).clamped(), -37);

    let (tx, rx) = mpsc::channel::<InputEvent>();
    let mut axis = AnalogAxis::new(10, EventSender::new(tx), "Break");
    axis.set_pending(127);
    assert_eq!(axis.pending(), 100);
    assert_eq!(axis.new_value(), Ok(()));
    axis.set_pending(-128);
    assert_eq!(axis.pending(), -100);
    assert_eq!(axis.new_value(), Ok(()));
    let seen: Vec<i32> = rx.try_iter().map(|e| e.value()).collect();
    assert_eq!(seen, vec![100, -100]);
}

#[test]
fn dropping_every_handle_closes_the_channel() {
    let (tx, rx) = mpsc::channel::<InputEvent>();
    let sender = EventSender::new(tx);
    let (axes, buttons) = build_controls(
        &vec![(0, "Left X"), (1, "Left Y")],
        &vec![(0x130, "A"), (0x131, "B")],
        &sender,
    );
    drop(sender);
    let ui = UI::new(axes, buttons);
    assert!(rx.try_recv().is_err());
    drop(ui);
    assert!(rx.recv().is_err());
}

#[test]
fn commit_on_closed_channel_fails_and_keeps_state() {
    let (tx, rx) = mpsc::channel::<InputEvent>();
    drop(rx);
    let mut button = Button::new(BUTTON_A, EventSender::new(tx), "A");
    assert_eq!(button.new_value(), Ok(()));
    button.set_pending(true);
    assert_eq!(button.new_value(), Err(CommitError::ChannelClosed));
    assert_eq!(button.new_value(), Err(CommitError::ChannelClosed));
    assert!(button.pending());
}

#[test]
fn commit_all_sends_axes_then_buttons() {
    let (tx, rx) = mpsc::channel::<InputEvent>();
    let sender = EventSender::new(tx);
    let (axes, buttons) = build_controls(
        &vec![(0, "Left X"), (1, "Left Y"), (3, "Right X")],
        &vec![(0x130, "A"), (0x131, "B")],
        &sender,
    );
    let mut ui = UI::new(axes, buttons);
    assert_eq!(ui.commit_all(), Ok(()));
    assert!(rx.try_recv().is_err());
    ui.set_button(1, true);
    ui.set_axis(2, -55);
    ui.set_axis(0, 12);
    assert_eq!(ui.commit_all(), Ok(()));
    let seen: Vec<(u16, i32)> = rx.try_iter().map(|e| (e.code(), e.value())).collect();
    assert_eq!(seen, vec![(0, 12), (3, -55), (0x131, 1)]);
    assert_eq!(ui.commit_all(), Ok(()));
    assert!(rx.try_recv().is_err());
}

#[test]
fn registry_reports_names_and_values() {
    let (tx, _rx) = mpsc::channel::<InputEvent>();
    let sender = EventSender::new(tx);
    let (axes, buttons) = build_controls(
        &vec![(4, "Right Y"), (6, "Throttle")],
        &vec![(0x13c, "Mode")],
        &sender,
    );
    assert_eq!(axes[1].name(), "Throttle");
    let mut ui = UI::new(axes, buttons);
    assert_eq!(ui.axis_count(), 2);
    assert_eq!(ui.button_count(), 1);
    assert_eq!(ui.axis_name(0), "Right Y");
    assert_eq!(ui.button_name(0), "Mode");
    assert_eq!(ui.axis_pending(1), 0);
    assert!(!ui.button_pending(0));
    ui.set_axis(1, -101);
    assert_eq!(ui.axis_pending(1), -100);
    ui.set_button(0, true);
    assert!(ui.button_pending(0));
}

#[test]
fn typed_event_fields() {
    let e = TypedEvent { code: 3, kind: WireKind::Absolute, value: -7 };
    assert_eq!(e.code, 3);
    assert_eq!(e.kind, WireKind::Absolute);
    assert_eq!(e.value, -7);
}

#[test]
fn commit_all_stops_at_first_failure() {
    let (tx, rx) = mpsc::channel::<InputEvent>();
    let sender = EventSender::new(tx);
    let (axes, buttons) = build_controls(&vec![(0, "Left X"), (1, "Left Y")], &vec![(0x130, "A")], &sender);
    drop(sender);
    let mut ui = UI::new(axes, buttons);
    assert_eq!(ui.commit_all(), Ok(()));
    drop(rx);
    ui.set_axis(1, 9);
    ui.set_button(0, true);
    assert_eq!(ui.commit_all(), Err(CommitError::ChannelClosed));
    assert_eq!(ui.axis_pending(1), 9);
    assert!(ui.button_pending(0));
    assert_eq!(ui.commit_all(), Err(CommitError::ChannelClosed));
}
