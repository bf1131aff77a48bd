//! State and decision logic of a panel applet that shows whether Caps Lock is on.
//!
//! The applet watches the keyboard's Caps Lock LEDs. One task lists the LED
//! directory once a second and keeps the brightness files of the Caps Lock
//! LEDs ([`watch`]). Another reads those files twenty times a second and
//! reports whether one of them is lit, or else what kept it from finding
//! out ([`sample`]). The applet shows the last report: `CAPS`, nothing, or
//! the description of the failure ([`indicator`]).
//!
//! This crate holds what those tasks decide. Reading directories and files,
//! waiting and drawing are left to the program around it, which hands in
//! names and texts and gets back paths, reports and labels.

pub mod indicator;
pub mod leds;
pub mod message;
pub mod sample;
pub mod text;
pub mod watch;

pub use indicator::CapsLockIndicator;
pub use message::Message;
