use tablet_input::buttons::{ButtonCode, ButtonScheme, ButtonStatus};
use tablet_input::codes::{
    TouchProto, ABS_MT_POSITION_X, ABS_MT_POSITION_Y, ABS_MT_PRESSURE, ABS_MT_SLOT,
    ABS_MT_TRACKING_ID, ABS_PRESSURE, ABS_X, ABS_Y, EV_ABS, EV_KEY, EV_MSC, EV_SYN, KEY_HOME,
    MSC_RAW, MSC_RAW_GSENSOR_PORTRAIT_UP, SLEEP_COVER, SYN_REPORT, VAL_PRESS, VAL_RELEASE,
};
use tablet_input::events::{
    display_rotate_event, DeviceEvent, FingerStatus, InputEvent, TimeVal,
};
use tablet_input::geom::Point;
use tablet_input::translator::{DeviceProfile, Display, Scale, Translator, PEN_SLOT};

fn unit_scale() -> Scale {
    Scale { num: 1, den: 1 }
}

fn plain_profile(proto: TouchProto) -> DeviceProfile {
    DeviceProfile {
        proto,
        mirror_x: [false; 4],
        mirror_y: [false; 4],
        swap_axes: [false; 4],
        gyro: [0, 1, 2, 3],
        touch_scale: unit_scale(),
        pen_scale: unit_scale(),
    }
}

fn multi_translator() -> Translator {
    Translator::new(
        Display { dims: (1404, 1872), rotation: 0 },
        ButtonScheme::Natural,
        plain_profile(TouchProto::MultiB),
    )
}

fn at(sec: i64) -> TimeVal {
    TimeVal { sec, usec: 0 }
}

fn ev(kind: u16, code: u16, value: i32, sec: i64) -> InputEvent {
    InputEvent { time: at(sec), kind, code, value }
}

/// Feed one record, asserting that it emits nothing.
fn feed_silent(tr: &mut Translator, evt: InputEvent) {
    let out = tr.handle_event(&evt);
    assert!(out.is_empty(), "expected no events, got {:?}", out);
}

#[test]
fn single_slot_down_on_report() {
    let mut tr = multi_translator();
    // burn the first user-activity heartbeat on an unknown syn code
    let out = tr.handle_event(&ev(EV_SYN, 7, 0, 1000));
    assert_eq!(out, vec![DeviceEvent::UserActivity]);

    feed_silent(&mut tr, ev(EV_ABS, ABS_MT_SLOT, 4, 1000));
    feed_silent(&mut tr, ev(EV_ABS, ABS_MT_POSITION_X, 100, 1000));
    feed_silent(&mut tr, ev(EV_ABS, ABS_MT_POSITION_Y, 200, 1000));
    feed_silent(&mut tr, ev(EV_ABS, ABS_MT_PRESSURE, 10, 1000));

    let out = tr.handle_event(&ev(EV_SYN, SYN_REPORT, 0, 1000));
    assert_eq!(
        out,
        vec![DeviceEvent::Finger {
            id: 4,
            time: at(1000),
            status: FingerStatus::Down,
            position: Point { x: 100, y: 200 },
        }]
    );
}

#[test]
fn pressed_slot_reports_motion_not_down() {
    let mut tr = multi_translator();
    tr.handle_event(&ev(EV_SYN, 7, 0, 1000));
    feed_silent(&mut tr, ev(EV_ABS, ABS_MT_POSITION_X, 100, 1000));
    feed_silent(&mut tr, ev(EV_ABS, ABS_MT_POSITION_Y, 200, 1000));
    feed_silent(&mut tr, ev(EV_ABS, ABS_MT_PRESSURE, 10, 1000));

    let first = tr.handle_event(&ev(EV_SYN, SYN_REPORT, 0, 1000));
    assert_eq!(
        first,
        vec![DeviceEvent::Finger {
            id: 0,
            time: at(1000),
            status: FingerStatus::Down,
            position: Point { x: 100, y: 200 },
        }]
    );

    // position changes between the two reports
    feed_silent(&mut tr, ev(EV_ABS, ABS_MT_POSITION_X, 150, 1001));
    feed_silent(&mut tr, ev(EV_ABS, ABS_MT_PRESSURE, 10, 1001));
    let second = tr.handle_event(&ev(EV_SYN, SYN_REPORT, 0, 1001));
    assert_eq!(
        second,
        vec![DeviceEvent::Finger {
            id: 0,
            time: at(1001),
            status: FingerStatus::Motion,
            position: Point { x: 150, y: 200 },
        }]
    );

    // position-dirty was reset: a report without updates emits nothing
    feed_silent(&mut tr, ev(EV_ABS, ABS_MT_PRESSURE, 10, 1002));
    let third = tr.handle_event(&ev(EV_SYN, SYN_REPORT, 0, 1002));
    assert_eq!(third, Vec::new());
}

#[test]
fn released_slot_reports_one_up_then_nothing() {
    let mut tr = multi_translator();
    tr.handle_event(&ev(EV_SYN, 7, 0, 1000));
    feed_silent(&mut tr, ev(EV_ABS, ABS_MT_POSITION_X, 100, 1000));
    feed_silent(&mut tr, ev(EV_ABS, ABS_MT_POSITION_Y, 200, 1000));
    feed_silent(&mut tr, ev(EV_ABS, ABS_MT_PRESSURE, 10, 1000));
    tr.handle_event(&ev(EV_SYN, SYN_REPORT, 0, 1000));

    // lift-off: tracking id goes to -1
    feed_silent(&mut tr, ev(EV_ABS, ABS_MT_TRACKING_ID, -1, 1001));
    let up = tr.handle_event(&ev(EV_SYN, SYN_REPORT, 0, 1001));
    assert_eq!(
        up,
        vec![DeviceEvent::Finger {
            id: 0,
            time: at(1001),
            status: FingerStatus::Up,
            position: Point { x: 100, y: 200 },
        }]
    );

    // nothing more for that slot while it stays unpressed
    let quiet = tr.handle_event(&ev(EV_SYN, SYN_REPORT, 0, 1002));
    assert_eq!(quiet, Vec::new());
    feed_silent(&mut tr, ev(EV_ABS, ABS_MT_POSITION_X, 300, 1003));
    let quiet = tr.handle_event(&ev(EV_SYN, SYN_REPORT, 0, 1003));
    assert_eq!(quiet, Vec::new());
}

#[test]
fn rotation_change_swaps_codes_and_dims_on_parity_change() {
    let mut tr = multi_translator();
    assert_eq!(tr.touch_codes().x, ABS_MT_POSITION_X);
    assert_eq!(tr.touch_codes().y, ABS_MT_POSITION_Y);
    assert_eq!(tr.dims(), (1404, 1872));

    // parity differs: 0 -> 1
    feed_silent(&mut tr, display_rotate_event(1, at(0)));
    assert_eq!(tr.rotation(), 1);
    assert_eq!(tr.touch_codes().x, ABS_MT_POSITION_Y);
    assert_eq!(tr.touch_codes().y, ABS_MT_POSITION_X);
    assert_eq!(tr.dims(), (1872, 1404));

    // same parity: 1 -> 3
    feed_silent(&mut tr, display_rotate_event(3, at(0)));
    assert_eq!(tr.rotation(), 3);
    assert_eq!(tr.touch_codes().x, ABS_MT_POSITION_Y);
    assert_eq!(tr.dims(), (1872, 1404));

    // no actual change: nothing moves
    feed_silent(&mut tr, display_rotate_event(3, at(0)));
    assert_eq!(tr.rotation(), 3);
    assert_eq!(tr.dims(), (1872, 1404));
}

#[test]
fn single_touch_end_to_end_down() {
    // a single-touch device at rotation 0, unit scale, no mirroring
    let mut tr = Translator::new(
        Display { dims: (1404, 1872), rotation: 0 },
        ButtonScheme::Natural,
        plain_profile(TouchProto::Single),
    );
    tr.handle_event(&ev(EV_SYN, 7, 0, 1000));

    feed_silent(&mut tr, ev(EV_ABS, ABS_X, 100, 1000));
    feed_silent(&mut tr, ev(EV_ABS, ABS_Y, 200, 1000));
    feed_silent(&mut tr, ev(EV_ABS, ABS_PRESSURE, 10, 1000));
    let out = tr.handle_event(&ev(EV_SYN, SYN_REPORT, 0, 1000));
    assert_eq!(
        out,
        vec![DeviceEvent::Finger {
            id: PEN_SLOT,
            time: at(1000),
            status: FingerStatus::Down,
            position: Point { x: 100, y: 200 },
        }]
    );
}

#[test]
fn touch_scaling_and_mirroring() {
    // scale 2/1 on x and y, mirrored x at rotation 0, display 1000 wide
    let mut profile = plain_profile(TouchProto::MultiB);
    profile.touch_scale = Scale { num: 2, den: 1 };
    profile.mirror_x = [true, false, false, false];
    let mut tr = Translator::new(
        Display { dims: (1000, 2000), rotation: 0 },
        ButtonScheme::Natural,
        profile,
    );
    tr.handle_event(&ev(EV_SYN, 7, 0, 1000));
    feed_silent(&mut tr, ev(EV_ABS, ABS_MT_POSITION_X, 100, 1000));
    feed_silent(&mut tr, ev(EV_ABS, ABS_MT_POSITION_Y, 300, 1000));
    feed_silent(&mut tr, ev(EV_ABS, ABS_MT_PRESSURE, 1, 1000));
    let out = tr.handle_event(&ev(EV_SYN, SYN_REPORT, 0, 1000));
    // x: 100 * 2 = 200, mirrored: 1000 - 1 - 200 = 799; y: 300 * 2 = 600
    assert_eq!(
        out,
        vec![DeviceEvent::Finger {
            id: 0,
            time: at(1000),
            status: FingerStatus::Down,
            position: Point { x: 799, y: 600 },
        }]
    );
}

#[test]
fn user_activity_heartbeat_debounce() {
    let mut tr = multi_translator();
    let out = tr.handle_event(&ev(EV_SYN, 7, 0, 0));
    assert_eq!(out, vec![DeviceEvent::UserActivity]);
    // less than a minute later: no heartbeat
    let out = tr.handle_event(&ev(EV_SYN, 7, 0, 59));
    assert_eq!(out, Vec::new());
    // a minute later: heartbeat again
    let out = tr.handle_event(&ev(EV_SYN, 7, 0, 60));
    assert_eq!(out, vec![DeviceEvent::UserActivity]);
}

#[test]
fn sleep_cover_toggles() {
    let mut tr = multi_translator();
    let on = tr.handle_event(&ev(EV_KEY, SLEEP_COVER, VAL_PRESS, 0));
    assert_eq!(on, vec![DeviceEvent::CoverOn]);
    let off = tr.handle_event(&ev(EV_KEY, SLEEP_COVER, VAL_RELEASE, 0));
    assert_eq!(off, vec![DeviceEvent::CoverOff]);
    let none = tr.handle_event(&ev(EV_KEY, SLEEP_COVER, 2, 0));
    assert_eq!(none, Vec::new());
}

#[test]
fn buttons_resolve_against_scheme_toggle() {
    let mut tr = multi_translator();
    let out = tr.handle_event(&ev(EV_KEY, KEY_HOME, VAL_PRESS, 0));
    assert_eq!(
        out,
        vec![DeviceEvent::Button {
            time: at(0),
            code: ButtonCode::Home,
            status: ButtonStatus::Pressed,
        }]
    );
    // a raw value outside {0, 1, 2} decodes to nothing: the event is dropped
    let out = tr.handle_event(&ev(EV_KEY, KEY_HOME, 5, 0));
    assert_eq!(out, Vec::new());

    // flip the scheme through the virtual key, then check a direction key
    feed_silent(
        &mut tr,
        tablet_input::events::button_scheme_event(VAL_PRESS, at(0)),
    );
    let out = tr.handle_event(&ev(EV_KEY, tablet_input::codes::KEY_BACKWARD, VAL_PRESS, 0));
    assert_eq!(
        out,
        vec![DeviceEvent::Button {
            time: at(0),
            code: ButtonCode::Forward,
            status: ButtonStatus::Pressed,
        }]
    );
}

#[test]
fn gyroscope_broadcasts_canonical_rotation() {
    let mut profile = plain_profile(TouchProto::MultiB);
    profile.gyro = [2, 3, 0, 1];
    let mut tr = Translator::new(
        Display { dims: (1404, 1872), rotation: 0 },
        ButtonScheme::Natural,
        profile,
    );
    // portrait-up sits at index 1 of the clockwise ordering
    let out = tr.handle_event(&ev(EV_MSC, MSC_RAW, MSC_RAW_GSENSOR_PORTRAIT_UP, 0));
    assert_eq!(out, vec![DeviceEvent::RotateScreen(3)]);
    // a value outside the four quadrant constants is ignored
    let out = tr.handle_event(&ev(EV_MSC, MSC_RAW, 0x42, 0));
    assert_eq!(out, Vec::new());
}

#[test]
fn unknown_kinds_and_codes_are_ignored() {
    let mut tr = multi_translator();
    feed_silent(&mut tr, ev(9, 0, 1, 0));
    feed_silent(&mut tr, ev(EV_ABS, 0x2a, 5, 0));
    feed_silent(&mut tr, ev(EV_MSC, 0x01, 5, 0));
}
