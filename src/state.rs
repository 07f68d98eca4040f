//! The state store and the decode cycle: what one report changes and which
//! notifications it raises, in the order in which they are dispatched.

use vstd::prelude::*;
use crate::decode::{
    angular_of, back_of, button_code_of, button_of_code, front_of, get_button_pressed,
    get_wheel_moved, wheel_moved, ANGULAR_BYTE, BACK_BYTE, FRONT_BYTE,
};
use crate::types::{Button, SystemEvent, Wheel};

verus! {

/// When a device event (a `SystemEvent`) is raised.
#[derive(Debug, Clone, Copy, PartialEq, Eq, Structural)]
pub enum SystemEventPolicy {
    /// On every report that was read.
    EveryRead,
    /// Only on a report that also raised a wheel or a button notification.
    OnChange,
}

/// One notification for the subscribers of one category.
#[derive(Debug, Clone, Copy)]
pub enum Notification {
    /// A wheel moved, to the given position.
    WheelMoved(Wheel, u8),
    /// The decoded button differs from the one dispatched before.
    ButtonChanged(Button),
    /// The whole decoded state of a read cycle.
    Device(SystemEvent),
}

/// What the controller remembers between two reports.
#[derive(Debug, Clone, Copy)]
pub struct ControllerState {
    /// The report read last.
    pub last_report: [u8; 6],
    /// The button dispatched last (`NoButton` before any).
    pub last_button: Button,
    pub last_front: u8,
    pub last_angular: u8,
    pub last_back: u8,
}

/// The state before any report was read: all zero, no button dispatched.
pub open spec fn is_initial(s: ControllerState) -> bool {
    &&& s.last_report@ == seq![0u8, 0u8, 0u8, 0u8, 0u8, 0u8]
    &&& s.last_button == Button::NoButton
    &&& s.last_front == 0
    &&& s.last_angular == 0
    &&& s.last_back == 0
}

/// The state after `event` was handled: every field comes from `event`.
pub open spec fn next_state(event: [u8; 6]) -> ControllerState {
    ControllerState {
        last_report: event,
        last_button: button_of_code(button_code_of(event)),
        last_front: front_of(event),
        last_angular: angular_of(event),
        last_back: back_of(event),
    }
}

/// The wheel notification of a cycle: one when a wheel moved, none otherwise.
pub open spec fn wheel_notifications(s: ControllerState, event: [u8; 6]) -> Seq<Notification> {
    let m = wheel_moved(event, s.last_report);
    if m.0 != Wheel::NoWheel {
        seq![Notification::WheelMoved(m.0, m.1)]
    } else {
        Seq::empty()
    }
}

/// The button notification of a cycle: one when the decoded button differs
/// from the one dispatched last, none otherwise. A release, back to
/// `NoButton`, is such a change and is dispatched like a press.
pub open spec fn button_notifications(s: ControllerState, event: [u8; 6]) -> Seq<Notification> {
    let b = button_of_code(button_code_of(event));
    if b != s.last_button {
        seq![Notification::ButtonChanged(b)]
    } else {
        Seq::empty()
    }
}

/// The device event of a cycle, carrying the report before it as the last one.
pub open spec fn system_event_of(s: ControllerState, event: [u8; 6]) -> SystemEvent {
    SystemEvent {
        event_bytes: event,
        last_read_bytes: s.last_report,
        front_wheel_pos: front_of(event),
        angular_wheel_pos: angular_of(event),
        back_wheel_pos: back_of(event),
        button_pressed: button_of_code(button_code_of(event)),
    }
}

/// All notifications of one cycle, in dispatch order: the wheel, then the
/// button, then the device event where the policy asks for it.
pub open spec fn cycle_notifications(
    s: ControllerState,
    event: [u8; 6],
    policy: SystemEventPolicy,
) -> Seq<Notification> {
    let changes = wheel_notifications(s, event) + button_notifications(s, event);
    if policy == SystemEventPolicy::EveryRead || changes.len() > 0 {
        changes.push(Notification::Device(system_event_of(s, event)))
    } else {
        changes
    }
}

impl ControllerState {
    /// The state of a controller that has read nothing yet.
    pub fn new() -> (r: ControllerState)
        ensures
            is_initial(r),
    {
        let r = ControllerState {
            last_report: [0u8; 6],
            last_button: Button::NoButton,
            last_front: 0,
            last_angular: 0,
            last_back: 0,
        };
        assert(r.last_report@ =~= seq![0u8, 0u8, 0u8, 0u8, 0u8, 0u8]);
        r
    }

    /// Handles one report: returns the notifications to dispatch, in order,
    /// and records the report as the last one.
    pub fn handle_device_event(&mut self, event: [u8; 6], policy: SystemEventPolicy) -> (r: Vec<
        Notification,
    >)
        ensures
            r@ == cycle_notifications(*old(self), event, policy),
            *final(self) == next_state(event),
    {
        let wheel_changed = get_wheel_moved(event, self.last_report);
        let button_pressed = get_button_pressed(event);
        let mut out: Vec<Notification> = Vec::new();
        if wheel_changed.0 != Wheel::NoWheel {
            out.push(Notification::WheelMoved(wheel_changed.0, wheel_changed.1));
        }
        if button_pressed != self.last_button {
            out.push(Notification::ButtonChanged(button_pressed));
        }
        assert(out@ == wheel_notifications(*old(self), event) + button_notifications(
            *old(self),
            event,
        ));
        if policy == SystemEventPolicy::EveryRead || out.len() > 0 {
            let sys_event = SystemEvent {
                event_bytes: event,
                last_read_bytes: self.last_report,
                front_wheel_pos: event[FRONT_BYTE],
                angular_wheel_pos: event[ANGULAR_BYTE],
                back_wheel_pos: event[BACK_BYTE],
                button_pressed,
            };
            out.push(Notification::Device(sys_event));
        }
        self.last_report = event;
        self.last_button = button_pressed;
        self.last_front = event[FRONT_BYTE];
        self.last_angular = event[ANGULAR_BYTE];
        self.last_back = event[BACK_BYTE];
        out
    }
}

} // verus!
