//! The raw input-event vocabulary: event kinds, event codes, raw status
//! values, and the per-protocol tables selecting which absolute-axis codes
//! carry touch data.
//!
//! The numeric values are the Linux input event ABI constants used by the
//! device's kernel drivers, plus two virtual key codes injected by the
//! application itself to signal display rotation and button-scheme changes.

use vstd::prelude::*;

verus! {

// Event kinds.
pub const EV_SYN: u16 = 0x00;

pub const EV_KEY: u16 = 0x01;

pub const EV_ABS: u16 = 0x03;

pub const EV_MSC: u16 = 0x04;

// Event codes.
pub const ABS_MT_TRACKING_ID: u16 = 0x39;

pub const ABS_MT_SLOT: u16 = 0x2f;

pub const ABS_MT_POSITION_X: u16 = 0x35;

pub const ABS_MT_POSITION_Y: u16 = 0x36;

pub const ABS_MT_PRESSURE: u16 = 0x3a;

pub const ABS_MT_TOUCH_MAJOR: u16 = 0x30;

pub const SYN_MT_REPORT: u16 = 0x02;

pub const ABS_X: u16 = 0x00;

pub const ABS_Y: u16 = 0x01;

pub const ABS_PRESSURE: u16 = 0x18;

pub const MSC_RAW: u16 = 0x03;

pub const SYN_REPORT: u16 = 0x00;

// Raw values of the gyroscope's miscellaneous axis, one per quadrant.
pub const MSC_RAW_GSENSOR_PORTRAIT_DOWN: i32 = 0x17;

pub const MSC_RAW_GSENSOR_PORTRAIT_UP: i32 = 0x18;

pub const MSC_RAW_GSENSOR_LANDSCAPE_RIGHT: i32 = 0x19;

pub const MSC_RAW_GSENSOR_LANDSCAPE_LEFT: i32 = 0x1a;

// Raw values of a key event.
pub const VAL_RELEASE: i32 = 0;

pub const VAL_PRESS: i32 = 1;

pub const VAL_REPEAT: i32 = 2;

// Key codes.
pub const KEY_POWER: u16 = 116;

pub const KEY_HOME: u16 = 102;

pub const KEY_LIGHT: u16 = 90;

pub const KEY_BACKWARD: u16 = 105;

pub const KEY_FORWARD: u16 = 106;

// Virtual key codes injected by the application, outside the range the
// hardware uses.
pub const KEY_ROTATE_DISPLAY: u16 = 0xffff;

pub const KEY_BUTTON_SCHEME: u16 = 0xfffe;

pub const SLEEP_COVER: u16 = 59;

/// The index of a raw gyroscope value in the fixed clockwise ordering of
/// the four quadrant constants; the indices match the device's canonical
/// rotation values.
pub open spec fn spec_gyroscope_index(value: i32) -> Option<u8> {
    if value == MSC_RAW_GSENSOR_LANDSCAPE_LEFT {
        Some(0u8)
    } else if value == MSC_RAW_GSENSOR_PORTRAIT_UP {
        Some(1u8)
    } else if value == MSC_RAW_GSENSOR_LANDSCAPE_RIGHT {
        Some(2u8)
    } else if value == MSC_RAW_GSENSOR_PORTRAIT_DOWN {
        Some(3u8)
    } else {
        None
    }
}

#[verifier::when_used_as_spec(spec_gyroscope_index)]
pub fn gyroscope_index(value: i32) -> (r: Option<u8>)
    ensures
        r == spec_gyroscope_index(value),
{
    if value == MSC_RAW_GSENSOR_LANDSCAPE_LEFT {
        Some(0)
    } else if value == MSC_RAW_GSENSOR_PORTRAIT_UP {
        Some(1)
    } else if value == MSC_RAW_GSENSOR_LANDSCAPE_RIGHT {
        Some(2)
    } else if value == MSC_RAW_GSENSOR_PORTRAIT_DOWN {
        Some(3)
    } else {
        None
    }
}

/// Which touch protocol the active touch controller speaks.
#[derive(Debug, Clone, Copy, PartialEq, Eq, Structural)]
pub enum TouchProto {
    Single,
    MultiA,
    MultiB,
}

/// The triple of absolute-axis codes that carry touch data under the
/// active protocol. The x and y codes are swapped at runtime when the
/// rotation calls for an axis swap.
#[derive(Debug, Clone, Copy, PartialEq, Eq, Structural)]
pub struct TouchCodes {
    pub pressure: u16,
    pub x: u16,
    pub y: u16,
}

impl TouchCodes {
    /// The code table each protocol starts from.
    pub open spec fn spec_for_proto(proto: TouchProto) -> TouchCodes {
        match proto {
            TouchProto::Single => TouchCodes { pressure: ABS_PRESSURE, x: ABS_X, y: ABS_Y },
            TouchProto::MultiA => TouchCodes {
                pressure: ABS_MT_TOUCH_MAJOR,
                x: ABS_MT_POSITION_X,
                y: ABS_MT_POSITION_Y,
            },
            TouchProto::MultiB => TouchCodes {
                pressure: ABS_MT_PRESSURE,
                x: ABS_MT_POSITION_X,
                y: ABS_MT_POSITION_Y,
            },
        }
    }

    #[verifier::when_used_as_spec(spec_for_proto)]
    pub fn for_proto(proto: TouchProto) -> (r: TouchCodes)
        ensures
            r == TouchCodes::spec_for_proto(proto),
    {
        match proto {
            TouchProto::Single => TouchCodes { pressure: ABS_PRESSURE, x: ABS_X, y: ABS_Y },
            TouchProto::MultiA => TouchCodes {
                pressure: ABS_MT_TOUCH_MAJOR,
                x: ABS_MT_POSITION_X,
                y: ABS_MT_POSITION_Y,
            },
            TouchProto::MultiB => TouchCodes {
                pressure: ABS_MT_PRESSURE,
                x: ABS_MT_POSITION_X,
                y: ABS_MT_POSITION_Y,
            },
        }
    }

    /// The same table with the x and y codes exchanged.
    pub open spec fn spec_swapped(self) -> TouchCodes {
        TouchCodes { pressure: self.pressure, x: self.y, y: self.x }
    }

    #[verifier::when_used_as_spec(spec_swapped)]
    pub fn swapped(self) -> (r: TouchCodes)
        ensures
            r == self.spec_swapped(),
    {
        TouchCodes { pressure: self.pressure, x: self.y, y: self.x }
    }
}

} // verus!
