//! Verified core of an e-ink tablet's input layer.
//!
//! Raw kernel input records (timestamp, kind, code, value) are translated
//! into semantic device events: finger down/motion/up per touch slot,
//! button presses resolved against rotation and button scheme, cover and
//! rotation signals, and coarse power/network events read from a status
//! line protocol. The translation is a pure state machine; the blocking
//! reads that feed it live outside this crate.

pub mod battery;
pub mod buttons;
pub mod codes;
pub mod events;
pub mod filter;
pub mod geom;
pub mod translator;
pub mod usb;
pub mod view;

pub use battery::Status;
pub use buttons::{ButtonCode, ButtonScheme, ButtonStatus};
pub use codes::{TouchCodes, TouchProto};
pub use events::{DeviceEvent, FingerStatus, InputEvent, PowerSource, TimeVal};
pub use filter::{FilterSet, InputFilterCommand};
pub use geom::{LinearDir, Point, Rectangle};
pub use translator::{DeviceProfile, Display, Finger, Scale, Translator};
pub use usb::parse_status_buffer;
pub use view::{ViewId, ViewKind, ViewNode};
