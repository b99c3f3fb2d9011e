//! A virtual game controller: typed controls whose changes become ordered
//! device events on one shared channel, read by a single device worker.

pub mod channel;
pub mod control;
pub mod ui;
pub mod wire;
pub mod worker;

pub use channel::{CommitError, EventSender};
pub use control::{build_controls, AnalogAxis, Button, Control, ControlModel, EventCode};
pub use ui::UI;
pub use wire::{ControllerValue, EventValue, TypedEvent, WireKind, AXIS_MAX, AXIS_MIN};
pub use worker::{worker_next, WorkerAction, WorkerEvent, WorkerState};
