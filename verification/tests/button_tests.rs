use tablet_input::buttons::{ButtonCode, ButtonScheme, ButtonStatus};
use tablet_input::codes::{
    EV_KEY, KEY_BACKWARD, KEY_BUTTON_SCHEME, KEY_FORWARD, KEY_HOME, KEY_LIGHT, KEY_POWER,
    KEY_ROTATE_DISPLAY, VAL_PRESS, VAL_RELEASE, VAL_REPEAT,
};
use tablet_input::events::{button_scheme_event, display_rotate_event, TimeVal};

#[test]
fn test_button_status_try_from_raw() {
    assert_eq!(ButtonStatus::try_from_raw(VAL_RELEASE).unwrap(), ButtonStatus::Released);
    assert_eq!(ButtonStatus::try_from_raw(VAL_PRESS).unwrap(), ButtonStatus::Pressed);
    assert_eq!(ButtonStatus::try_from_raw(VAL_REPEAT).unwrap(), ButtonStatus::Repeated);
    assert_eq!(ButtonStatus::try_from_raw(3), Option::None);
}

#[test]
fn test_button_code_from_raw() {
    assert_eq!(ButtonCode::from_raw(KEY_POWER, 0, ButtonScheme::Natural), ButtonCode::Power);
    assert_eq!(ButtonCode::from_raw(KEY_HOME, 0, ButtonScheme::Natural), ButtonCode::Home);
    assert_eq!(ButtonCode::from_raw(KEY_LIGHT, 0, ButtonScheme::Natural), ButtonCode::Light);
    assert_eq!(ButtonCode::from_raw(KEY_BACKWARD, 0, ButtonScheme::Natural), ButtonCode::Backward);
    assert_eq!(ButtonCode::from_raw(KEY_FORWARD, 0, ButtonScheme::Natural), ButtonCode::Forward);
    assert_eq!(
        ButtonCode::from_raw(KEY_ROTATE_DISPLAY, 0, ButtonScheme::Natural),
        ButtonCode::Raw(KEY_ROTATE_DISPLAY)
    );
}

#[test]
fn test_button_code_directions_natural_button_scheme() {
    assert_eq!(ButtonCode::from_raw(KEY_BACKWARD, 0, ButtonScheme::Natural), ButtonCode::Backward);
    assert_eq!(ButtonCode::from_raw(KEY_BACKWARD, 1, ButtonScheme::Natural), ButtonCode::Backward);
    assert_eq!(ButtonCode::from_raw(KEY_BACKWARD, 2, ButtonScheme::Natural), ButtonCode::Forward);
    assert_eq!(ButtonCode::from_raw(KEY_BACKWARD, 3, ButtonScheme::Natural), ButtonCode::Forward);

    assert_eq!(ButtonCode::from_raw(KEY_FORWARD, 0, ButtonScheme::Natural), ButtonCode::Forward);
    assert_eq!(ButtonCode::from_raw(KEY_FORWARD, 1, ButtonScheme::Natural), ButtonCode::Forward);
    assert_eq!(ButtonCode::from_raw(KEY_FORWARD, 2, ButtonScheme::Natural), ButtonCode::Backward);
    assert_eq!(ButtonCode::from_raw(KEY_FORWARD, 3, ButtonScheme::Natural), ButtonCode::Backward);
}

#[test]
fn test_button_code_directions_inverted_button_scheme() {
    assert_eq!(ButtonCode::from_raw(KEY_BACKWARD, 0, ButtonScheme::Inverted), ButtonCode::Forward);
    assert_eq!(ButtonCode::from_raw(KEY_BACKWARD, 1, ButtonScheme::Inverted), ButtonCode::Forward);
    assert_eq!(ButtonCode::from_raw(KEY_BACKWARD, 2, ButtonScheme::Inverted), ButtonCode::Backward);
    assert_eq!(ButtonCode::from_raw(KEY_BACKWARD, 3, ButtonScheme::Inverted), ButtonCode::Backward);

    assert_eq!(ButtonCode::from_raw(KEY_FORWARD, 0, ButtonScheme::Inverted), ButtonCode::Backward);
    assert_eq!(ButtonCode::from_raw(KEY_FORWARD, 1, ButtonScheme::Inverted), ButtonCode::Backward);
    assert_eq!(ButtonCode::from_raw(KEY_FORWARD, 2, ButtonScheme::Inverted), ButtonCode::Forward);
    assert_eq!(ButtonCode::from_raw(KEY_FORWARD, 3, ButtonScheme::Inverted), ButtonCode::Forward);
}

#[test]
fn test_display_rotate_event() {
    let input = display_rotate_event(2, TimeVal { sec: 0, usec: 0 });

    assert_eq!(input.kind, EV_KEY);
    assert_eq!(input.code, KEY_ROTATE_DISPLAY);
    assert_eq!(input.value, 2);
}

#[test]
fn test_button_scheme_event() {
    let input = button_scheme_event(VAL_PRESS, TimeVal { sec: 0, usec: 0 });

    assert_eq!(input.kind, EV_KEY);
    assert_eq!(input.code, KEY_BUTTON_SCHEME);
    assert_eq!(input.value, VAL_PRESS);
}
