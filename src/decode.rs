//! The report decoder: a pure function of the report just read and the one
//! read before it.
//!
//! A report is six bytes: byte 0 is the front wheel, byte 1 the back wheel,
//! byte 2 the angular wheel and byte 3 the button code; bytes 4 and 5 are
//! reserved.

use vstd::prelude::*;
use crate::types::{Button, Wheel};

verus! {

/// Index of the front wheel's position in a report.
pub const FRONT_BYTE: usize = 0;

/// Index of the back wheel's position in a report.
pub const BACK_BYTE: usize = 1;

/// Index of the angular wheel's position in a report.
pub const ANGULAR_BYTE: usize = 2;

/// Index of the button code in a report.
pub const BUTTON_BYTE: usize = 3;

pub open spec fn front_of(r: [u8; 6]) -> u8 {
    r@[0]
}

pub open spec fn back_of(r: [u8; 6]) -> u8 {
    r@[1]
}

pub open spec fn angular_of(r: [u8; 6]) -> u8 {
    r@[2]
}

pub open spec fn button_code_of(r: [u8; 6]) -> u8 {
    r@[3]
}

/// Which wheel moved between `previous` and `current`, and its new position.
///
/// The front and back wheels read nonzero only while they turn, so a nonzero
/// value is motion. The angular wheel reads an absolute position, so it moved
/// when the value differs from the previous report. The front wheel wins over
/// the angular wheel, which wins over the back wheel.
pub open spec fn wheel_moved(current: [u8; 6], previous: [u8; 6]) -> (Wheel, u8) {
    if front_of(current) != 0 {
        (Wheel::Front, front_of(current))
    } else if angular_of(current) != angular_of(previous) {
        (Wheel::Angular, angular_of(current))
    } else if back_of(current) != 0 {
        (Wheel::Back, back_of(current))
    } else {
        (Wheel::NoWheel, 0)
    }
}

/// The button that a button code stands for.
pub open spec fn button_of_code(code: u8) -> Button {
    if code == 0x20 {
        Button::Left
    } else if code == 0x10 {
        Button::Right
    } else if code == 0x40 {
        Button::Go
    } else if code == 0x80 {
        Button::Standby
    } else {
        Button::NoButton
    }
}

/// Decodes which wheel moved, with its position; `(Wheel::NoWheel, 0)` when
/// none did.
pub fn get_wheel_moved(event: [u8; 6], last_read: [u8; 6]) -> (r: (Wheel, u8))
    ensures
        r == wheel_moved(event, last_read),
        front_of(event) != 0 ==> r.0 == Wheel::Front,
        front_of(event) == 0 && angular_of(event) != angular_of(last_read) ==> r.0
            == Wheel::Angular,
        front_of(event) == 0 && angular_of(event) == angular_of(last_read) && back_of(event)
            != 0 ==> r.0 == Wheel::Back,
        front_of(event) == 0 && angular_of(event) == angular_of(last_read) && back_of(event)
            == 0 ==> r.0 == Wheel::NoWheel,
{
    let front_wheel_pos = event[FRONT_BYTE];
    let angular_wheel_pos = event[ANGULAR_BYTE];
    let back_wheel_pos = event[BACK_BYTE];

    if front_wheel_pos != 0 {
        (Wheel::Front, front_wheel_pos)
    } else if last_read[ANGULAR_BYTE] != angular_wheel_pos {
        (Wheel::Angular, angular_wheel_pos)
    } else if back_wheel_pos != 0 {
        (Wheel::Back, back_wheel_pos)
    } else {
        (Wheel::NoWheel, 0)
    }
}

/// Decodes the button code of a report by table lookup.
pub fn get_button_pressed(event: [u8; 6]) -> (r: Button)
    ensures
        r == button_of_code(button_code_of(event)),
        button_code_of(event) == 0x00 ==> r == Button::NoButton,
        button_code_of(event) == 0x20 ==> r == Button::Left,
        button_code_of(event) == 0x10 ==> r == Button::Right,
        button_code_of(event) == 0x40 ==> r == Button::Go,
        button_code_of(event) == 0x80 ==> r == Button::Standby,
        !(button_code_of(event) == 0x20 || button_code_of(event) == 0x10 || button_code_of(event)
            == 0x40 || button_code_of(event) == 0x80) ==> r == Button::NoButton,
{
    match event[BUTTON_BYTE] {
        0x00 => Button::NoButton,
        0x20 => Button::Left,
        0x10 => Button::Right,
        0x40 => Button::Go,
        0x80 => Button::Standby,
        _ => Button::NoButton,
    }
}

} // verus!
