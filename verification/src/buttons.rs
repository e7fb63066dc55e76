//! Decoding of physical-button events: the raw press/release/repeat value,
//! and the resolution of a raw key code into a logical button code, which
//! for the page-turn keys depends on the current rotation and the active
//! button scheme.

use vstd::prelude::*;
use crate::codes::{
    KEY_BACKWARD, KEY_FORWARD, KEY_HOME, KEY_LIGHT, KEY_POWER, VAL_PRESS, VAL_RELEASE, VAL_REPEAT,
};
use crate::geom::LinearDir;

verus! {

/// How the page-turn keys are to be interpreted: as the hardware labels
/// them, or exchanged.
#[derive(Debug, Clone, Copy, PartialEq, Eq, Structural)]
pub enum ButtonScheme {
    Natural,
    Inverted,
}

/// What a raw key value says happened to the button.
#[derive(Debug, Clone, Copy, PartialEq, Eq, Structural)]
pub enum ButtonStatus {
    Pressed,
    Released,
    Repeated,
}

impl ButtonStatus {
    /// The decoding of a raw key value: 0, 1 and 2 mean released, pressed
    /// and repeated; every other value decodes to nothing.
    pub open spec fn spec_from_raw(value: i32) -> Option<ButtonStatus> {
        if value == VAL_RELEASE {
            Some(ButtonStatus::Released)
        } else if value == VAL_PRESS {
            Some(ButtonStatus::Pressed)
        } else if value == VAL_REPEAT {
            Some(ButtonStatus::Repeated)
        } else {
            None
        }
    }

    #[verifier::when_used_as_spec(spec_from_raw)]
    pub fn try_from_raw(value: i32) -> (r: Option<ButtonStatus>)
        ensures
            r == ButtonStatus::spec_from_raw(value),
    {
        if value == VAL_RELEASE {
            Some(ButtonStatus::Released)
        } else if value == VAL_PRESS {
            Some(ButtonStatus::Pressed)
        } else if value == VAL_REPEAT {
            Some(ButtonStatus::Repeated)
        } else {
            None
        }
    }
}

/// The logical identity of a physical button.
#[derive(Debug, Clone, Copy, PartialEq, Eq, Hash, Structural)]
pub enum ButtonCode {
    Power,
    Home,
    Light,
    Backward,
    Forward,
    Raw(u16),
}

/// Whether the device's page-turn keys trade places at this rotation:
/// they do in the two upside-down orientations.
pub open spec fn spec_should_invert_buttons(rotation: i8) -> bool {
    rotation == 2 || rotation == 3
}

#[verifier::when_used_as_spec(spec_should_invert_buttons)]
pub fn should_invert_buttons(rotation: i8) -> (r: bool)
    ensures
        r == spec_should_invert_buttons(rotation),
{
    rotation == 2 || rotation == 3
}

/// The button code that announces movement in `direction`.
pub open spec fn direction_code(direction: LinearDir) -> ButtonCode {
    match direction {
        LinearDir::Forward => ButtonCode::Forward,
        LinearDir::Backward => ButtonCode::Backward,
    }
}

/// The logical direction a page-turn key resolves to: its labelled
/// direction, reversed once if the rotation inverts the keys and once
/// more if the scheme is inverted.
pub open spec fn spec_resolve_button_direction(
    direction: LinearDir,
    rotation: i8,
    button_scheme: ButtonScheme,
) -> ButtonCode {
    if spec_should_invert_buttons(rotation) != (button_scheme == ButtonScheme::Inverted) {
        direction_code(direction.opposite())
    } else {
        direction_code(direction)
    }
}

pub fn resolve_button_direction(
    direction: LinearDir,
    rotation: i8,
    button_scheme: ButtonScheme,
) -> (r: ButtonCode)
    ensures
        r == spec_resolve_button_direction(direction, rotation, button_scheme),
{
    let mut direction = direction;
    if should_invert_buttons(rotation) ^ (button_scheme == ButtonScheme::Inverted) {
        direction = direction.opposite();
    }
    if direction == LinearDir::Forward {
        return ButtonCode::Forward;
    }
    ButtonCode::Backward
}

impl ButtonCode {
    /// The resolution of a raw key code: the power, home and light keys
    /// map to themselves, the page-turn keys resolve against rotation and
    /// scheme, and every other code is passed through as raw.
    pub open spec fn spec_from_raw(code: u16, rotation: i8, button_scheme: ButtonScheme) -> ButtonCode {
        if code == KEY_POWER {
            ButtonCode::Power
        } else if code == KEY_HOME {
            ButtonCode::Home
        } else if code == KEY_LIGHT {
            ButtonCode::Light
        } else if code == KEY_BACKWARD {
            spec_resolve_button_direction(LinearDir::Backward, rotation, button_scheme)
        } else if code == KEY_FORWARD {
            spec_resolve_button_direction(LinearDir::Forward, rotation, button_scheme)
        } else {
            ButtonCode::Raw(code)
        }
    }

    pub fn from_raw(code: u16, rotation: i8, button_scheme: ButtonScheme) -> (r: ButtonCode)
        ensures
            r == ButtonCode::spec_from_raw(code, rotation, button_scheme),
    {
        if code == KEY_POWER {
            ButtonCode::Power
        } else if code == KEY_HOME {
            ButtonCode::Home
        } else if code == KEY_LIGHT {
            ButtonCode::Light
        } else if code == KEY_BACKWARD {
            resolve_button_direction(LinearDir::Backward, rotation, button_scheme)
        } else if code == KEY_FORWARD {
            resolve_button_direction(LinearDir::Forward, rotation, button_scheme)
        } else {
            ButtonCode::Raw(code)
        }
    }
}

/// Law: under the Natural scheme the page-turn keys keep their labelled
/// meaning at rotations 0 and 1 and trade places at rotations 2 and 3;
/// the Inverted scheme flips every mapping relative to Natural at the
/// same rotation.
pub proof fn lemma_button_direction_resolution(direction: LinearDir, rotation: i8)
    requires
        0 <= rotation < 4,
    ensures
        rotation < 2 ==> spec_resolve_button_direction(direction, rotation, ButtonScheme::Natural)
            == direction_code(direction),
        rotation >= 2 ==> spec_resolve_button_direction(direction, rotation, ButtonScheme::Natural)
            == direction_code(direction.opposite()),
        spec_resolve_button_direction(direction, rotation, ButtonScheme::Inverted)
            == direction_code(direction) || spec_resolve_button_direction(
            direction,
            rotation,
            ButtonScheme::Inverted,
        ) == direction_code(direction.opposite()),
        spec_resolve_button_direction(direction, rotation, ButtonScheme::Inverted)
            != spec_resolve_button_direction(direction, rotation, ButtonScheme::Natural),
{
}

} // verus!
