//! The two event vocabularies of the input layer: the raw kernel record
//! read off a device file, and the semantic device event handed to the
//! consuming layer.

use vstd::prelude::*;
use crate::buttons::{ButtonCode, ButtonStatus};
use crate::codes::{EV_KEY, KEY_BUTTON_SCHEME, KEY_ROTATE_DISPLAY};
use crate::geom::Point;

verus! {

/// A wall-clock timestamp as the kernel reports it: whole seconds and
/// microseconds within the second.
#[derive(Debug, Clone, Copy, PartialEq, Eq, Structural)]
pub struct TimeVal {
    pub sec: i64,
    pub usec: i64,
}

/// One raw kernel input record: timestamp, event kind, event code and a
/// signed value. The byte layout on the wire is the kernel's; this type
/// holds the four fields once decoded.
#[derive(Debug, Clone, Copy, PartialEq, Eq, Structural)]
pub struct InputEvent {
    pub time: TimeVal,
    pub kind: u16,
    pub code: u16,
    pub value: i32,
}

/// The virtual key record that announces a display rotation change; the
/// caller supplies the timestamp.
pub fn display_rotate_event(n: i8, time: TimeVal) -> (r: InputEvent)
    ensures
        r == (InputEvent { time, kind: EV_KEY, code: KEY_ROTATE_DISPLAY, value: n as i32 }),
{
    InputEvent { time, kind: EV_KEY, code: KEY_ROTATE_DISPLAY, value: n as i32 }
}

/// The virtual key record that announces a button-scheme change; the
/// caller supplies the timestamp.
pub fn button_scheme_event(v: i32, time: TimeVal) -> (r: InputEvent)
    ensures
        r == (InputEvent { time, kind: EV_KEY, code: KEY_BUTTON_SCHEME, value: v }),
{
    InputEvent { time, kind: EV_KEY, code: KEY_BUTTON_SCHEME, value: v }
}

/// What happened to one finger or pen contact.
#[derive(Debug, Clone, Copy, PartialEq, Eq, Structural)]
pub enum FingerStatus {
    Down,
    Motion,
    Up,
}

/// Where power is drawn from when plugged.
#[derive(Debug, Clone, Copy, PartialEq, Eq, Structural)]
pub enum PowerSource {
    Host,
    Wall,
}

/// A semantic device event: the sole contract between this layer and its
/// consumer.
#[derive(Debug, Clone, Copy, PartialEq, Eq, Structural)]
pub enum DeviceEvent {
    Finger { id: i32, time: TimeVal, status: FingerStatus, position: Point },
    Button { time: TimeVal, code: ButtonCode, status: ButtonStatus },
    Plug(PowerSource),
    Unplug(PowerSource),
    RotateScreen(i8),
    CoverOn,
    CoverOff,
    NetUp,
    UserActivity,
}

} // verus!
