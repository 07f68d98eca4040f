//! Decoding and dispatch logic for the BeoSound 5 navigation controller, a USB
//! HID device with three wheels and four buttons.
//!
//! - `decode`: which wheel moved and which button a report holds.
//! - `state`: what the controller remembers between reports, and the
//!   notifications one report raises, in dispatch order.
//! - `runs`: what a sequence of reports raises; edge detection of buttons.
//! - `polling`: what the polling loop does after each read.
//! - `dispatch`: the subscriber registries and the routing of notifications.
//! - `controller`: the lifecycle and the outbound commands.

pub mod controller;
pub mod decode;
pub mod dispatch;
pub mod polling;
pub mod runs;
pub mod state;
pub mod types;

pub use types::{Button, SystemEvent, Wheel};
