//! The device-event translator: a state machine that consumes raw kernel
//! records in arrival order, tracks per-slot finger state and the rotation
//! context, and emits semantic device events at synchronization
//! boundaries. It performs no reads itself; the caller feeds it one record
//! at a time and forwards what comes back.

use vstd::prelude::*;
use crate::buttons::{ButtonCode, ButtonScheme, ButtonStatus};
use crate::codes::{
    spec_gyroscope_index, gyroscope_index, TouchCodes, TouchProto, ABS_MT_PRESSURE, ABS_MT_SLOT,
    ABS_MT_TRACKING_ID, ABS_PRESSURE, ABS_X, ABS_Y, EV_ABS, EV_KEY, EV_MSC, EV_SYN,
    KEY_BUTTON_SCHEME, KEY_ROTATE_DISPLAY, MSC_RAW, SLEEP_COVER, SYN_REPORT, VAL_PRESS,
    VAL_RELEASE,
};
use crate::events::{DeviceEvent, FingerStatus, InputEvent, TimeVal};
use crate::geom::Point;

verus! {

/// The slot id reserved for the stylus digitizer, outside the range of
/// real multi-touch slot numbers.
pub const PEN_SLOT: i32 = 100;

/// The display as the consumer sees it at startup: its pixel dimensions
/// and its canonical rotation.
#[derive(Debug, Clone, Copy)]
pub struct Display {
    pub dims: (u32, u32),
    pub rotation: i8,
}

/// An exact pixel scale: a raw axis value is multiplied by `num` and
/// divided by `den` (display dimension over native report dimension).
#[derive(Debug, Clone, Copy, PartialEq, Eq, Structural)]
pub struct Scale {
    pub num: u16,
    pub den: u16,
}

impl Scale {
    pub open spec fn wf(self) -> bool {
        self.den > 0
    }
}

/// Everything device-specific the translator needs, supplied once at
/// construction: the touch protocol, the mirror and axis-swap rules per
/// canonical rotation, the gyroscope canonicalization table, and the two
/// pixel scales.
#[derive(Debug, Clone, Copy)]
pub struct DeviceProfile {
    pub proto: TouchProto,
    pub mirror_x: [bool; 4],
    pub mirror_y: [bool; 4],
    pub swap_axes: [bool; 4],
    pub gyro: [i8; 4],
    pub touch_scale: Scale,
    pub pen_scale: Scale,
}

impl DeviceProfile {
    pub open spec fn wf(self) -> bool {
        self.touch_scale.wf() && self.pen_scale.wf()
    }
}

/// The value clipped to the i32 range.
pub open spec fn sat_i32(x: int) -> int {
    if x > 0x7fff_ffff {
        0x7fff_ffff
    } else if x < -0x8000_0000 {
        -0x8000_0000
    } else {
        x
    }
}

/// The raw value scaled by `num / den`, truncated toward zero.
pub open spec fn spec_scaled(value: int, scale: Scale) -> int {
    if value >= 0 {
        (value * scale.num) / (scale.den as int)
    } else {
        -(((-value) * scale.num) / (scale.den as int))
    }
}

/// The pixel coordinate a raw axis value lands on: scaled, clipped to the
/// i32 range, and mirrored against the display dimension if asked.
pub open spec fn spec_axis_pixel(value: i32, scale: Scale, mirror: bool, dim: u32) -> i32 {
    let scaled = sat_i32(spec_scaled(value as int, scale));
    (if mirror {
        sat_i32(dim - 1 - scaled)
    } else {
        scaled
    }) as i32
}

fn clamp_to_i32(x: i64) -> (r: i32)
    ensures
        r as int == sat_i32(x as int),
{
    if x > 0x7fff_ffff {
        0x7fff_ffff
    } else if x < -0x8000_0000 {
        -0x8000_0000
    } else {
        x as i32
    }
}

fn axis_pixel(value: i32, scale: Scale, mirror: bool, dim: u32) -> (r: i32)
    requires
        scale.wf(),
        dim <= 0x7fff_ffff,
    ensures
        r == spec_axis_pixel(value, scale, mirror, dim),
{
    let v: i64 = value as i64;
    let num: u64 = scale.num as u64;
    let den: u64 = scale.den as u64;
    let mag: u64 = if v >= 0 {
        v as u64
    } else {
        (-v) as u64
    };
    proof {
        assert(mag as int * num as int <= 0x8000_0000 * 0xffff) by (nonlinear_arith)
            requires
                mag as int <= 0x8000_0000,
                num as int <= 0xffff,
        ;
        assert((mag as int * num as int) / (den as int) <= mag as int * num as int)
            by (nonlinear_arith)
            requires
                den as int >= 1,
        ;
    }
    let q: u64 = (mag * num) / den;
    let scaled64: i64 = if v >= 0 {
        q as i64
    } else {
        -(q as i64)
    };
    let scaled: i32 = clamp_to_i32(scaled64);
    if mirror {
        clamp_to_i32(dim as i64 - 1 - scaled as i64)
    } else {
        scaled
    }
}

/// The buffered state of one touch or pen slot.
#[derive(Debug, Clone, Copy, PartialEq, Eq, Structural)]
pub struct Finger {
    pub pos: Point,
    pub pos_updated: bool,
    pub last_pressed: bool,
    pub pressed: bool,
}

impl Finger {
    /// A slot before any update: position at the unset sentinel, nothing
    /// pressed, nothing dirty.
    pub open spec fn spec_unset() -> Finger {
        Finger {
            pos: Point { x: -1i32, y: -1i32 },
            pos_updated: false,
            last_pressed: false,
            pressed: false,
        }
    }
}

impl Default for Finger {
    fn default() -> (r: Finger)
        ensures
            r == Finger::spec_unset(),
    {
        Finger {
            pos: Point { x: -1, y: -1 },
            pos_updated: false,
            last_pressed: false,
            pressed: false,
        }
    }
}

/// The event one slot emits at a synchronization report: down when the
/// pressed flag rose since the last report, up when it fell, motion when
/// it stayed set and the position is dirty, and nothing otherwise.
pub open spec fn spec_finger_event(slot: i32, f: Finger, time: TimeVal) -> Option<DeviceEvent> {
    if !f.last_pressed && f.pressed {
        Some(DeviceEvent::Finger { id: slot, time, status: FingerStatus::Down, position: f.pos })
    } else if f.last_pressed && !f.pressed {
        Some(DeviceEvent::Finger { id: slot, time, status: FingerStatus::Up, position: f.pos })
    } else if f.last_pressed && f.pressed && f.pos_updated {
        Some(DeviceEvent::Finger { id: slot, time, status: FingerStatus::Motion, position: f.pos })
    } else {
        None
    }
}

#[verifier::when_used_as_spec(spec_finger_event)]
fn finger_event(slot: i32, f: Finger, time: TimeVal) -> (r: Option<DeviceEvent>)
    ensures
        r == spec_finger_event(slot, f, time),
{
    if !f.last_pressed && f.pressed {
        Some(DeviceEvent::Finger { id: slot, time, status: FingerStatus::Down, position: f.pos })
    } else if f.last_pressed && !f.pressed {
        Some(DeviceEvent::Finger { id: slot, time, status: FingerStatus::Up, position: f.pos })
    } else if f.last_pressed && f.pressed && f.pos_updated {
        Some(DeviceEvent::Finger { id: slot, time, status: FingerStatus::Motion, position: f.pos })
    } else {
        None
    }
}

/// A slot's state after a synchronization report: the pressed flag is
/// remembered and the position is clean again.
pub open spec fn spec_finger_after(f: Finger) -> Finger {
    Finger { pos: f.pos, pos_updated: false, last_pressed: f.pressed, pressed: f.pressed }
}

#[verifier::when_used_as_spec(spec_finger_after)]
fn finger_after(f: Finger) -> (r: Finger)
    ensures
        r == spec_finger_after(f),
{
    Finger { pos: f.pos, pos_updated: false, last_pressed: f.pressed, pressed: f.pressed }
}

/// The events a synchronization report emits, one walk over the slots in
/// storage order.
pub open spec fn spec_report_events(fingers: Seq<(i32, Finger)>, time: TimeVal) -> Seq<DeviceEvent>
    decreases fingers.len(),
{
    if fingers.len() == 0 {
        Seq::empty()
    } else {
        spec_report_events(fingers.drop_last(), time) + (match spec_finger_event(
            fingers.last().0,
            fingers.last().1,
            time,
        ) {
            Some(e) => seq![e],
            None => Seq::empty(),
        })
    }
}

/// Every slot after a synchronization report.
pub open spec fn spec_fingers_after(fingers: Seq<(i32, Finger)>) -> Seq<(i32, Finger)> {
    fingers.map_values(|sf: (i32, Finger)| (sf.0, spec_finger_after(sf.1)))
}

/// The storage index of a slot, or -1 if the slot has not been touched
/// yet.
pub open spec fn spec_slot_index(fingers: Seq<(i32, Finger)>, slot: i32) -> int
    decreases fingers.len(),
{
    if fingers.len() == 0 {
        -1
    } else if fingers[0].0 == slot {
        0
    } else {
        let r = spec_slot_index(fingers.skip(1), slot);
        if r < 0 {
            -1
        } else {
            r + 1
        }
    }
}

/// The slot's buffered state, or the unset state if it has none yet.
pub open spec fn spec_finger_at(fingers: Seq<(i32, Finger)>, slot: i32) -> Finger {
    let i = spec_slot_index(fingers, slot);
    if i >= 0 {
        fingers[i].1
    } else {
        Finger::spec_unset()
    }
}

/// The slots with one slot's state replaced, or appended if it was new.
pub open spec fn spec_with_finger(fingers: Seq<(i32, Finger)>, slot: i32, f: Finger) -> Seq<
    (i32, Finger),
> {
    let i = spec_slot_index(fingers, slot);
    if i >= 0 {
        fingers.update(i, (slot, f))
    } else {
        fingers.push((slot, f))
    }
}

proof fn lemma_slot_index_from_scan(fingers: Seq<(i32, Finger)>, slot: i32, i: int)
    requires
        0 <= i <= fingers.len(),
        forall|k: int| 0 <= k < i ==> fingers[k].0 != slot,
        i < fingers.len() ==> fingers[i].0 == slot,
    ensures
        spec_slot_index(fingers, slot) == if i == fingers.len() {
            -1int
        } else {
            i
        },
    decreases fingers.len(),
{
    if fingers.len() == 0 {
    } else if fingers[0].0 == slot {
        assert(i == 0);
    } else {
        assert(i >= 1) by {
            assert(i < fingers.len() ==> fingers[i].0 == slot);
        }
        let rest = fingers.skip(1);
        assert forall|k: int| 0 <= k < i - 1 implies rest[k].0 != slot by {
            assert(rest[k] == fingers[k + 1]);
        }
        if i - 1 < rest.len() {
            assert(rest[i - 1] == fingers[i]);
        }
        lemma_slot_index_from_scan(rest, slot, i - 1);
    }
}

/// Whether the pen axes arrive swapped at this rotation: they do in the
/// two landscape orientations.
pub open spec fn spec_wacom_swap(rotation: i8) -> bool {
    rotation % 2 == 0
}

#[verifier::when_used_as_spec(spec_wacom_swap)]
fn wacom_swap(rotation: i8) -> (r: bool)
    requires
        rotation >= 0,
    ensures
        r == spec_wacom_swap(rotation),
{
    rotation % 2 == 0
}

/// Whether the pen's x coordinate is mirrored at this rotation. The
/// digitizer's origin differs from the touchscreen's, so these rules are
/// independent of the touch mirror rules.
pub open spec fn spec_wacom_mirror_x(rotation: i8) -> bool {
    rotation == 2 || rotation == 3
}

#[verifier::when_used_as_spec(spec_wacom_mirror_x)]
fn wacom_mirror_x(rotation: i8) -> (r: bool)
    ensures
        r == spec_wacom_mirror_x(rotation),
{
    rotation == 2 || rotation == 3
}

/// Whether the pen's y coordinate is mirrored at this rotation.
pub open spec fn spec_wacom_mirror_y(rotation: i8) -> bool {
    rotation == 1 || rotation == 2
}

#[verifier::when_used_as_spec(spec_wacom_mirror_y)]
fn wacom_mirror_y(rotation: i8) -> (r: bool)
    ensures
        r == spec_wacom_mirror_y(rotation),
{
    rotation == 1 || rotation == 2
}

/// The translator's state, as the contracts speak of it.
pub struct TransState {
    pub fingers: Seq<(i32, Finger)>,
    pub current_slot: i32,
    pub last_activity: i64,
    pub tc: TouchCodes,
    pub rotation: i8,
    pub dims: (u32, u32),
    pub mirror_x: bool,
    pub mirror_y: bool,
    pub button_scheme: ButtonScheme,
    pub profile: DeviceProfile,
}

impl TransState {
    pub open spec fn wf(self) -> bool {
        &&& self.profile.wf()
        &&& 0 <= self.rotation < 4
        &&& self.dims.0 <= 0x7fff_ffff
        &&& self.dims.1 <= 0x7fff_ffff
    }
}

/// The state the translator starts in.
pub open spec fn spec_initial(
    display: Display,
    button_scheme: ButtonScheme,
    profile: DeviceProfile,
) -> TransState {
    let base = TouchCodes::spec_for_proto(profile.proto);
    TransState {
        fingers: Seq::empty(),
        current_slot: 0,
        last_activity: -60i64,
        tc: if profile.swap_axes[display.rotation as int] {
            base.spec_swapped()
        } else {
            base
        },
        rotation: display.rotation,
        dims: display.dims,
        mirror_x: profile.mirror_x[display.rotation as int],
        mirror_y: profile.mirror_y[display.rotation as int],
        button_scheme,
        profile,
    }
}

/// The state after an absolute-axis record. Dispatch precedence: pen y,
/// pen x, slot selector, touch x, touch y, multi-touch pressure,
/// tracking id, single-touch pressure; anything else changes nothing.
/// Absolute-axis records never emit events.
pub open spec fn spec_abs_state(s: TransState, evt: InputEvent) -> TransState {
    let code = evt.code;
    let value = evt.value;
    if code == (if spec_wacom_swap(s.rotation) {
        ABS_Y
    } else {
        ABS_X
    }) {
        let f = spec_finger_at(s.fingers, PEN_SLOT);
        let y = spec_axis_pixel(value, s.profile.pen_scale, spec_wacom_mirror_y(s.rotation), s.dims.1);
        TransState {
            fingers: spec_with_finger(
                s.fingers,
                PEN_SLOT,
                Finger { pos: Point { x: f.pos.x, y }, pos_updated: true, ..f },
            ),
            ..s
        }
    } else if code == (if spec_wacom_swap(s.rotation) {
        ABS_X
    } else {
        ABS_Y
    }) {
        let f = spec_finger_at(s.fingers, PEN_SLOT);
        let x = spec_axis_pixel(value, s.profile.pen_scale, spec_wacom_mirror_x(s.rotation), s.dims.0);
        TransState {
            fingers: spec_with_finger(
                s.fingers,
                PEN_SLOT,
                Finger { pos: Point { x, y: f.pos.y }, pos_updated: true, ..f },
            ),
            ..s
        }
    } else if code == ABS_MT_SLOT {
        TransState { current_slot: value, ..s }
    } else if code == s.tc.x {
        let f = spec_finger_at(s.fingers, s.current_slot);
        let x = spec_axis_pixel(value, s.profile.touch_scale, s.mirror_x, s.dims.0);
        TransState {
            fingers: spec_with_finger(
                s.fingers,
                s.current_slot,
                Finger { pos: Point { x, y: f.pos.y }, pos_updated: true, ..f },
            ),
            ..s
        }
    } else if code == s.tc.y {
        let f = spec_finger_at(s.fingers, s.current_slot);
        let y = spec_axis_pixel(value, s.profile.touch_scale, s.mirror_y, s.dims.1);
        TransState {
            fingers: spec_with_finger(
                s.fingers,
                s.current_slot,
                Finger { pos: Point { x: f.pos.x, y }, pos_updated: true, ..f },
            ),
            ..s
        }
    } else if code == ABS_MT_PRESSURE {
        if value > 0 {
            let f = spec_finger_at(s.fingers, s.current_slot);
            TransState {
                fingers: spec_with_finger(s.fingers, s.current_slot, Finger { pressed: true, ..f }),
                ..s
            }
        } else {
            s
        }
    } else if code == ABS_MT_TRACKING_ID {
        if value == -1 {
            let f = spec_finger_at(s.fingers, s.current_slot);
            TransState {
                fingers: spec_with_finger(s.fingers, s.current_slot, Finger { pressed: false, ..f }),
                ..s
            }
        } else {
            s
        }
    } else if code == ABS_PRESSURE {
        let f = spec_finger_at(s.fingers, PEN_SLOT);
        TransState {
            fingers: spec_with_finger(s.fingers, PEN_SLOT, Finger { pressed: value > 0, ..f }),
            ..s
        }
    } else {
        s
    }
}

/// Whether a synchronization record fires the user-activity heartbeat:
/// its whole seconds lie a minute or more from the last heartbeat, in
/// either direction to allow for clock wrap-around.
pub open spec fn spec_heartbeat(last_activity: i64, sec: i64) -> bool {
    let d = sec - last_activity;
    (if d < 0 {
        -d
    } else {
        d
    }) >= 60
}

/// The state after a synchronization record: the heartbeat timestamp is
/// taken when it fires, and a report marks every slot reported.
pub open spec fn spec_syn_state(s: TransState, evt: InputEvent) -> TransState {
    let s1 = if spec_heartbeat(s.last_activity, evt.time.sec) {
        TransState { last_activity: evt.time.sec, ..s }
    } else {
        s
    };
    if evt.code == SYN_REPORT {
        TransState { fingers: spec_fingers_after(s1.fingers), ..s1 }
    } else {
        s1
    }
}

/// The events of a synchronization record: the heartbeat if it fires,
/// then, on a report, each slot's event in storage order. Unknown
/// synchronization codes report nothing.
pub open spec fn spec_syn_events(s: TransState, evt: InputEvent) -> Seq<DeviceEvent> {
    (if spec_heartbeat(s.last_activity, evt.time.sec) {
        seq![DeviceEvent::UserActivity]
    } else {
        Seq::empty()
    }) + (if evt.code == SYN_REPORT {
        spec_report_events(s.fingers, evt.time)
    } else {
        Seq::empty()
    })
}

/// Whether the parity of the rotation changes, i.e. portrait and
/// landscape trade places.
pub open spec fn spec_parity_changed(rotation: i8, next: i8) -> bool {
    (if rotation >= next {
        rotation - next
    } else {
        next - rotation
    }) % 2 == 1
}

/// The state after a key record. The cover and button keys change
/// nothing; the scheme key sets the button scheme; the rotate key, when
/// it names a canonical rotation other than the current one, installs the
/// new rotation context — swapping the stored touch x/y codes and the
/// stored display dimensions exactly when the parity changed.
pub open spec fn spec_key_state(s: TransState, evt: InputEvent) -> TransState {
    let code = evt.code;
    let value = evt.value;
    if code == SLEEP_COVER {
        s
    } else if code == KEY_BUTTON_SCHEME {
        TransState {
            button_scheme: if value == VAL_PRESS {
                ButtonScheme::Inverted
            } else {
                ButtonScheme::Natural
            },
            ..s
        }
    } else if code == KEY_ROTATE_DISPLAY {
        if 0 <= value < 4 && value != s.rotation as i32 {
            let next = value as i8;
            let swap = spec_parity_changed(s.rotation, next);
            TransState {
                rotation: next,
                tc: if swap {
                    s.tc.spec_swapped()
                } else {
                    s.tc
                },
                dims: if swap {
                    (s.dims.1, s.dims.0)
                } else {
                    s.dims
                },
                mirror_x: s.profile.mirror_x[next as int],
                mirror_y: s.profile.mirror_y[next as int],
                ..s
            }
        } else {
            s
        }
    } else {
        s
    }
}

/// The events of a key record: the sleep cover toggles the cover events,
/// the two virtual keys emit nothing, and every other key code becomes a
/// button event if its value decodes to a status.
pub open spec fn spec_key_events(s: TransState, evt: InputEvent) -> Seq<DeviceEvent> {
    let code = evt.code;
    let value = evt.value;
    if code == SLEEP_COVER {
        if value == VAL_PRESS {
            seq![DeviceEvent::CoverOn]
        } else if value == VAL_RELEASE {
            seq![DeviceEvent::CoverOff]
        } else {
            Seq::empty()
        }
    } else if code == KEY_BUTTON_SCHEME || code == KEY_ROTATE_DISPLAY {
        Seq::empty()
    } else {
        match ButtonStatus::spec_from_raw(value) {
            Some(status) => seq![
                DeviceEvent::Button {
                    time: evt.time,
                    code: ButtonCode::spec_from_raw(code, s.rotation, s.button_scheme),
                    status,
                },
            ],
            None => Seq::empty(),
        }
    }
}

/// The events of a miscellaneous record: a gyroscope value within the
/// four quadrant constants broadcasts the canonical rotation the device
/// profile assigns to its clockwise index.
pub open spec fn spec_msc_events(s: TransState, evt: InputEvent) -> Seq<DeviceEvent> {
    if evt.code == MSC_RAW {
        match spec_gyroscope_index(evt.value) {
            Some(i) => seq![DeviceEvent::RotateScreen(s.profile.gyro[i as int])],
            None => Seq::empty(),
        }
    } else {
        Seq::empty()
    }
}

/// The translator's whole transition: the state after one raw record.
pub open spec fn spec_step_state(s: TransState, evt: InputEvent) -> TransState {
    if evt.kind == EV_ABS {
        spec_abs_state(s, evt)
    } else if evt.kind == EV_SYN {
        spec_syn_state(s, evt)
    } else if evt.kind == EV_KEY {
        spec_key_state(s, evt)
    } else {
        s
    }
}

/// The translator's whole transition: the events one raw record emits,
/// in order.
pub open spec fn spec_step_events(s: TransState, evt: InputEvent) -> Seq<DeviceEvent> {
    if evt.kind == EV_ABS {
        Seq::empty()
    } else if evt.kind == EV_SYN {
        spec_syn_events(s, evt)
    } else if evt.kind == EV_KEY {
        spec_key_events(s, evt)
    } else if evt.kind == EV_MSC {
        spec_msc_events(s, evt)
    } else {
        Seq::empty()
    }
}

/// The device-event translator.
pub struct Translator {
    fingers: Vec<(i32, Finger)>,
    current_slot: i32,
    last_activity: i64,
    tc: TouchCodes,
    rotation: i8,
    dims: (u32, u32),
    mirror_x: bool,
    mirror_y: bool,
    button_scheme: ButtonScheme,
    profile: DeviceProfile,
}

impl View for Translator {
    type V = TransState;

    closed spec fn view(&self) -> TransState {
        TransState {
            fingers: self.fingers@,
            current_slot: self.current_slot,
            last_activity: self.last_activity,
            tc: self.tc,
            rotation: self.rotation,
            dims: self.dims,
            mirror_x: self.mirror_x,
            mirror_y: self.mirror_y,
            button_scheme: self.button_scheme,
            profile: self.profile,
        }
    }
}

impl Translator {
    /// Start translating for the given display, scheme and device
    /// profile. The heartbeat timestamp starts one minute in the past so
    /// that the first synchronization record reports activity.
    pub fn new(display: Display, button_scheme: ButtonScheme, profile: DeviceProfile) -> (r:
        Translator)
        requires
            profile.wf(),
            0 <= display.rotation < 4,
            display.dims.0 <= 0x7fff_ffff,
            display.dims.1 <= 0x7fff_ffff,
        ensures
            r@ == spec_initial(display, button_scheme, profile),
            r@.wf(),
    {
        let base = TouchCodes::for_proto(profile.proto);
        let tc = if profile.swap_axes[display.rotation as usize] {
            base.swapped()
        } else {
            base
        };
        Translator {
            fingers: Vec::new(),
            current_slot: 0,
            last_activity: -60,
            tc,
            rotation: display.rotation,
            dims: display.dims,
            mirror_x: profile.mirror_x[display.rotation as usize],
            mirror_y: profile.mirror_y[display.rotation as usize],
            button_scheme,
            profile,
        }
    }

    pub fn rotation(&self) -> (r: i8)
        ensures
            r == self@.rotation,
    {
        self.rotation
    }

    pub fn dims(&self) -> (r: (u32, u32))
        ensures
            r == self@.dims,
    {
        self.dims
    }

    pub fn touch_codes(&self) -> (r: TouchCodes)
        ensures
            r == self@.tc,
    {
        self.tc
    }

    pub fn button_scheme(&self) -> (r: ButtonScheme)
        ensures
            r == self@.button_scheme,
    {
        self.button_scheme
    }

    /// The storage index of a slot, if it has been touched before.
    fn find_slot(&self, slot: i32) -> (r: Option<usize>)
        ensures
            match r {
                Some(i) => i < self.fingers@.len() && spec_slot_index(self@.fingers, slot)
                    == i as int,
                None => spec_slot_index(self@.fingers, slot) == -1,
            },
    {
        let n = self.fingers.len();
        for i in 0..n
            invariant
                n == self.fingers@.len(),
                forall|k: int| 0 <= k < i ==> self.fingers@[k].0 != slot,
        {
            if self.fingers[i].0 == slot {
                proof {
                    lemma_slot_index_from_scan(self@.fingers, slot, i as int);
                }
                return Some(i);
            }
        }
        proof {
            lemma_slot_index_from_scan(self@.fingers, slot, n as int);
        }
        None
    }

    /// The slot's buffered state, or the unset state.
    fn get_finger(&self, slot: i32) -> (f: Finger)
        ensures
            f == spec_finger_at(self@.fingers, slot),
    {
        match self.find_slot(slot) {
            Some(i) => self.fingers[i].1,
            None => Finger::default(),
        }
    }

    /// Store the slot's new state, appending the slot if it is new.
    fn set_finger(&mut self, slot: i32, f: Finger)
        ensures
            final(self)@ == (TransState {
                fingers: spec_with_finger(old(self)@.fingers, slot, f),
                ..old(self)@
            }),
    {
        match self.find_slot(slot) {
            Some(i) => {
                self.fingers[i] = (slot, f);
            },
            None => {
                self.fingers.push((slot, f));
            },
        }
    }

    /// Apply an absolute-axis record: buffer position and pressure
    /// changes, or move the slot cursor. Emits nothing.
    fn handle_abs(&mut self, evt: &InputEvent)
        requires
            old(self)@.wf(),
            evt.kind == EV_ABS,
        ensures
            final(self)@ == spec_abs_state(old(self)@, *evt),
            final(self)@.wf(),
    {
        let swap = wacom_swap(self.rotation);
        let pen_y_code = if swap {
            ABS_Y
        } else {
            ABS_X
        };
        let pen_x_code = if swap {
            ABS_X
        } else {
            ABS_Y
        };
        if evt.code == pen_y_code {
            let f = self.get_finger(PEN_SLOT);
            let y = axis_pixel(evt.value, self.profile.pen_scale, wacom_mirror_y(self.rotation), self.dims.1);
            self.set_finger(
                PEN_SLOT,
                Finger { pos: Point { x: f.pos.x, y }, pos_updated: true, ..f },
            );
        } else if evt.code == pen_x_code {
            let f = self.get_finger(PEN_SLOT);
            let x = axis_pixel(evt.value, self.profile.pen_scale, wacom_mirror_x(self.rotation), self.dims.0);
            self.set_finger(
                PEN_SLOT,
                Finger { pos: Point { x, y: f.pos.y }, pos_updated: true, ..f },
            );
        } else if evt.code == ABS_MT_SLOT {
            self.current_slot = evt.value;
        } else if evt.code == self.tc.x {
            let f = self.get_finger(self.current_slot);
            let x = axis_pixel(evt.value, self.profile.touch_scale, self.mirror_x, self.dims.0);
            self.set_finger(
                self.current_slot,
                Finger { pos: Point { x, y: f.pos.y }, pos_updated: true, ..f },
            );
        } else if evt.code == self.tc.y {
            let f = self.get_finger(self.current_slot);
            let y = axis_pixel(evt.value, self.profile.touch_scale, self.mirror_y, self.dims.1);
            self.set_finger(
                self.current_slot,
                Finger { pos: Point { x: f.pos.x, y }, pos_updated: true, ..f },
            );
        } else if evt.code == ABS_MT_PRESSURE {
            if evt.value > 0 {
                let f = self.get_finger(self.current_slot);
                self.set_finger(self.current_slot, Finger { pressed: true, ..f });
            }
        } else if evt.code == ABS_MT_TRACKING_ID {
            if evt.value == -1 {
                let f = self.get_finger(self.current_slot);
                self.set_finger(self.current_slot, Finger { pressed: false, ..f });
            }
        } else if evt.code == ABS_PRESSURE {
            let f = self.get_finger(PEN_SLOT);
            self.set_finger(PEN_SLOT, Finger { pressed: evt.value > 0, ..f });
        }
    }

    /// Apply a synchronization record: fire the heartbeat when due, and
    /// on a report emit each slot's event and mark it reported.
    fn handle_syn(&mut self, evt: &InputEvent) -> (out: Vec<DeviceEvent>)
        requires
            old(self)@.wf(),
            evt.kind == EV_SYN,
        ensures
            final(self)@ == spec_syn_state(old(self)@, *evt),
            out@ == spec_syn_events(old(self)@, *evt),
            final(self)@.wf(),
    {
        let mut out: Vec<DeviceEvent> = Vec::new();
        let diff: i128 = evt.time.sec as i128 - self.last_activity as i128;
        if diff >= 60 || diff <= -60 {
            self.last_activity = evt.time.sec;
            out.push(DeviceEvent::UserActivity);
        }
        let ghost mid = self@;
        let ghost out_hb = out@;
        if evt.code == SYN_REPORT {
            let ghost fs0 = self.fingers@;
            let n = self.fingers.len();
            proof {
                assert(fs0.take(0) =~= Seq::<(i32, Finger)>::empty());
            }
            for i in 0..n
                invariant
                    n == self.fingers@.len(),
                    fs0.len() == n,
                    forall|j: int| i <= j < n ==> self.fingers@[j] == fs0[j],
                    forall|j: int|
                        0 <= j < i ==> self.fingers@[j] == (fs0[j].0, spec_finger_after(fs0[j].1)),
                    out@ == out_hb + spec_report_events(fs0.take(i as int), evt.time),
                    self@ == (TransState { fingers: self.fingers@, ..mid }),
            {
                let (slot, f) = self.fingers[i];
                proof {
                    assert(fs0.take(i + 1).drop_last() =~= fs0.take(i as int));
                    assert(fs0.take(i + 1).last() == fs0[i as int]);
                }
                match finger_event(slot, f, evt.time) {
                    Some(e) => {
                        out.push(e);
                    },
                    None => {},
                }
                self.fingers[i] = (slot, finger_after(f));
            }
            proof {
                assert(fs0.take(n as int) =~= fs0);
                assert(self.fingers@ =~= spec_fingers_after(fs0));
            }
        }
        out
    }

    /// Apply a key record: toggle the cover, set the scheme, install a
    /// new rotation context, or emit a resolved button event.
    fn handle_key(&mut self, evt: &InputEvent) -> (out: Vec<DeviceEvent>)
        requires
            old(self)@.wf(),
            evt.kind == EV_KEY,
        ensures
            final(self)@ == spec_key_state(old(self)@, *evt),
            out@ == spec_key_events(old(self)@, *evt),
            final(self)@.wf(),
    {
        let mut out: Vec<DeviceEvent> = Vec::new();
        if evt.code == SLEEP_COVER {
            if evt.value == VAL_PRESS {
                out.push(DeviceEvent::CoverOn);
            } else if evt.value == VAL_RELEASE {
                out.push(DeviceEvent::CoverOff);
            }
        } else if evt.code == KEY_BUTTON_SCHEME {
            self.button_scheme = if evt.value == VAL_PRESS {
                ButtonScheme::Inverted
            } else {
                ButtonScheme::Natural
            };
        } else if evt.code == KEY_ROTATE_DISPLAY {
            if evt.value >= 0 && evt.value < 4 {
                let next: i8 = evt.value as i8;
                if next != self.rotation {
                    let delta: i32 = if self.rotation >= next {
                        self.rotation as i32 - next as i32
                    } else {
                        next as i32 - self.rotation as i32
                    };
                    if delta % 2 == 1 {
                        self.tc = self.tc.swapped();
                        self.dims = (self.dims.1, self.dims.0);
                    }
                    self.rotation = next;
                    self.mirror_x = self.profile.mirror_x[next as usize];
                    self.mirror_y = self.profile.mirror_y[next as usize];
                }
            }
        } else {
            match ButtonStatus::try_from_raw(evt.value) {
                Some(status) => {
                    out.push(
                        DeviceEvent::Button {
                            time: evt.time,
                            code: ButtonCode::from_raw(evt.code, self.rotation, self.button_scheme),
                            status,
                        },
                    );
                },
                None => {},
            }
        }
        out
    }

    /// Apply a miscellaneous record: broadcast the canonical rotation a
    /// gyroscope quadrant value calls for.
    fn handle_msc(&self, evt: &InputEvent) -> (out: Vec<DeviceEvent>)
        requires
            evt.kind == EV_MSC,
        ensures
            out@ == spec_msc_events(self@, *evt),
    {
        let mut out: Vec<DeviceEvent> = Vec::new();
        if evt.code == MSC_RAW {
            match gyroscope_index(evt.value) {
                Some(i) => {
                    out.push(DeviceEvent::RotateScreen(self.profile.gyro[i as usize]));
                },
                None => {},
            }
        }
        out
    }

    /// Consume one raw record and return the events it emits, in order.
    /// The state advances by exactly one transition of the step relation.
    pub fn handle_event(&mut self, evt: &InputEvent) -> (out: Vec<DeviceEvent>)
        requires
            old(self)@.wf(),
        ensures
            final(self)@ == spec_step_state(old(self)@, *evt),
            out@ == spec_step_events(old(self)@, *evt),
            final(self)@.wf(),
    {
        if evt.kind == EV_ABS {
            self.handle_abs(evt);
            Vec::new()
        } else if evt.kind == EV_SYN {
            self.handle_syn(evt)
        } else if evt.kind == EV_KEY {
            self.handle_key(evt)
        } else if evt.kind == EV_MSC {
            self.handle_msc(evt)
        } else {
            Vec::new()
        }
    }
}

/// Law: a slot whose pressed flag rose since the last report emits
/// exactly one down event carrying its buffered position, and its
/// previously-pressed flag becomes true.
pub proof fn lemma_report_emits_down(slot: i32, f: Finger, time: TimeVal)
    requires
        !f.last_pressed,
        f.pressed,
    ensures
        spec_report_events(seq![(slot, f)], time) == seq![
            DeviceEvent::Finger { id: slot, time, status: FingerStatus::Down, position: f.pos },
        ],
        spec_finger_after(f).last_pressed,
{
    lemma_report_events_singleton(slot, f, time);
}

/// The report events of a single slot are exactly its finger event.
proof fn lemma_report_events_singleton(slot: i32, f: Finger, time: TimeVal)
    ensures
        spec_report_events(seq![(slot, f)], time) == (match spec_finger_event(slot, f, time) {
            Some(e) => seq![e],
            None => Seq::<DeviceEvent>::empty(),
        }),
{
    let s = seq![(slot, f)];
    assert(s.drop_last() =~= Seq::<(i32, Finger)>::empty());
    assert(spec_report_events(Seq::<(i32, Finger)>::empty(), time) == Seq::<DeviceEvent>::empty());
    assert(s.last() == (slot, f));
    assert(Seq::<DeviceEvent>::empty() + (match spec_finger_event(slot, f, time) {
        Some(e) => seq![e],
        None => Seq::<DeviceEvent>::empty(),
    }) =~= (match spec_finger_event(slot, f, time) {
        Some(e) => seq![e],
        None => Seq::<DeviceEvent>::empty(),
    }));
}

/// Law: a slot that stays pressed across two reports, with its position
/// updated in between, emits down at the first report and motion — not
/// down — at the second, and its position-dirty flag is clear after each
/// report.
pub proof fn lemma_down_then_motion(slot: i32, f: Finger, p: Point, t1: TimeVal, t2: TimeVal)
    requires
        !f.last_pressed,
        f.pressed,
    ensures
        spec_report_events(seq![(slot, f)], t1) == seq![
            DeviceEvent::Finger { id: slot, time: t1, status: FingerStatus::Down, position: f.pos },
        ],
        !spec_finger_after(f).pos_updated,
        ({
            let moved = Finger { pos: p, pos_updated: true, ..spec_finger_after(f) };
            spec_report_events(seq![(slot, moved)], t2) == seq![
                DeviceEvent::Finger { id: slot, time: t2, status: FingerStatus::Motion, position: p },
            ] && !spec_finger_after(moved).pos_updated
        }),
{
    lemma_report_emits_down(slot, f, t1);
    let moved = Finger { pos: p, pos_updated: true, ..spec_finger_after(f) };
    lemma_report_events_singleton(slot, moved, t2);
}

/// Law: a slot whose pressed flag fell since the last report emits
/// exactly one up event at the next report, and stays silent at later
/// reports as long as its pressed flag stays false — whatever happens to
/// its position meanwhile.
pub proof fn lemma_up_then_silence(slot: i32, f: Finger, time: TimeVal)
    requires
        f.last_pressed,
        !f.pressed,
    ensures
        spec_report_events(seq![(slot, f)], time) == seq![
            DeviceEvent::Finger { id: slot, time, status: FingerStatus::Up, position: f.pos },
        ],
        !spec_finger_after(f).last_pressed,
        forall|g: Finger, t: TimeVal|
            !g.last_pressed && !g.pressed ==> #[trigger] spec_finger_event(slot, g, t) is None,
{
    lemma_report_events_singleton(slot, f, time);
}

/// Law: a rotation change whose parity differs from the current rotation
/// swaps the stored touch x/y codes and the stored display dimensions; a
/// same-parity change leaves both as they are. Either way the new
/// rotation and its mirror flags are installed, and nothing is emitted.
pub proof fn lemma_rotation_change_swaps_by_parity(s: TransState, evt: InputEvent)
    requires
        s.wf(),
        evt.kind == EV_KEY,
        evt.code == KEY_ROTATE_DISPLAY,
        0 <= evt.value < 4,
        evt.value != s.rotation as i32,
    ensures
        spec_step_events(s, evt) == Seq::<DeviceEvent>::empty(),
        ({
            let next = spec_step_state(s, evt);
            &&& next.rotation == evt.value as i8
            &&& next.mirror_x == s.profile.mirror_x[evt.value as int]
            &&& next.mirror_y == s.profile.mirror_y[evt.value as int]
            &&& (s.rotation % 2 != next.rotation % 2 ==> next.tc == s.tc.spec_swapped()
                && next.dims == (s.dims.1, s.dims.0))
            &&& (s.rotation % 2 == next.rotation % 2 ==> next.tc == s.tc && next.dims == s.dims)
        }),
{
}

} // verus!
