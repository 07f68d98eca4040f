//! The values that a decode cycle produces.

use vstd::prelude::*;

verus! {

/// One of the four buttons of the controller, or none of them.
#[derive(Debug, Clone, Copy, PartialEq, Eq, Structural)]
pub enum Button {
    NoButton,
    Left,
    Right,
    Go,
    Standby,
}

/// Which of the three wheels moved in a decode cycle, if any.
#[derive(Debug, Clone, Copy, PartialEq, Eq, Structural)]
pub enum Wheel {
    Front,
    Angular,
    Back,
    NoWheel,
}

/// The human-readable name of a button.
pub open spec fn button_name(b: Button) -> Seq<char> {
    match b {
        Button::NoButton => "None"@,
        Button::Left => "Left"@,
        Button::Right => "Right"@,
        Button::Go => "Go"@,
        Button::Standby => "Standby"@,
    }
}

/// The human-readable name of a wheel.
pub open spec fn wheel_name(w: Wheel) -> Seq<char> {
    match w {
        Wheel::Front => "Front"@,
        Wheel::Angular => "Angular"@,
        Wheel::Back => "Back"@,
        Wheel::NoWheel => "None"@,
    }
}

impl Button {
    /// The name of the button, as it is shown to users.
    pub fn as_str(&self) -> (r: &'static str)
        ensures
            r@ == button_name(*self),
    {
        match *self {
            Button::NoButton => "None",
            Button::Left => "Left",
            Button::Right => "Right",
            Button::Go => "Go",
            Button::Standby => "Standby",
        }
    }

    /// The name of the button as an owned string.
    pub fn to_string(&self) -> (r: String)
        ensures
            r@ == button_name(*self),
    {
        String::from_str(self.as_str())
    }
}

impl Wheel {
    /// The name of the wheel, as it is shown to users.
    pub fn as_str(&self) -> (r: &'static str)
        ensures
            r@ == wheel_name(*self),
    {
        match *self {
            Wheel::Front => "Front",
            Wheel::Angular => "Angular",
            Wheel::Back => "Back",
            Wheel::NoWheel => "None",
        }
    }

    /// The name of the wheel as an owned string.
    pub fn to_string(&self) -> (r: String)
        ensures
            r@ == wheel_name(*self),
    {
        String::from_str(self.as_str())
    }
}

/// Everything that one read cycle observed: the report just read, the report
/// read before it, the three wheel positions and the decoded button.
#[derive(Debug, Clone, Copy)]
pub struct SystemEvent {
    pub event_bytes: [u8; 6],
    pub last_read_bytes: [u8; 6],
    pub front_wheel_pos: u8,
    pub angular_wheel_pos: u8,
    pub back_wheel_pos: u8,
    pub button_pressed: Button,
}

} // verus!
