//! Command marshalling and channel logic for a virtual HID input device.
//!
//! The crate performs no I/O. It builds the wire records, decides which
//! request the channel makes next, and plans pointer movement; a driver
//! carries the requests to the operating system and reports the outcomes.

pub mod action;
pub mod device;
pub mod keyboard;
pub mod mouse;
pub mod wire;
pub mod util;
