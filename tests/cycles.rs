use beolyd5_controller::polling::{poll_step, PollAction, ReadOutcome};
use beolyd5_controller::state::{ControllerState, Notification, SystemEventPolicy};
use beolyd5_controller::{Button, Wheel};

fn buttons(ns: &[Notification]) -> Vec<Button> {
    ns.iter()
        .filter_map(|n| match n {
            Notification::ButtonChanged(b) => Some(*b),
            _ => None,
        })
        .collect()
}

fn wheels(ns: &[Notification]) -> Vec<(Wheel, u8)> {
    ns.iter()
        .filter_map(|n| match n {
            Notification::WheelMoved(w, p) => Some((*w, *p)),
            _ => None,
        })
        .collect()
}

#[test]
fn held_then_released_button_fires_twice() {
    let mut s = ControllerState::new();
    let mut all = Vec::new();
    for report in [[0, 0, 0, 0x20, 0, 0], [0, 0, 0, 0x20, 0, 0], [0, 0, 0, 0x00, 0, 0]] {
        all.extend(s.handle_device_event(report, SystemEventPolicy::EveryRead));
    }
    assert_eq!(buttons(&all), vec![Button::Left, Button::NoButton]);
}

#[test]
fn front_turn_then_rest() {
    let mut s = ControllerState::new();
    let first = s.handle_device_event([5, 0, 0, 0, 0, 0], SystemEventPolicy::EveryRead);
    assert_eq!(wheels(&first), vec![(Wheel::Front, 5)]);
    let second = s.handle_device_event([0, 0, 0, 0, 0, 0], SystemEventPolicy::EveryRead);
    assert!(wheels(&second).is_empty());
    assert_eq!(second.len(), 1);
}

#[test]
fn held_button_fires_once_over_many_reports() {
    let mut s = ControllerState::new();
    let mut all = Vec::new();
    for _ in 0..10 {
        all.extend(s.handle_device_event([0, 0, 0, 0x40, 0, 0], SystemEventPolicy::OnChange));
    }
    assert_eq!(buttons(&all), vec![Button::Go]);
}

#[test]
fn still_wheels_raise_no_wheel_notification() {
    let mut s = ControllerState::new();
    s.handle_device_event([0, 0, 7, 0, 0, 0], SystemEventPolicy::EveryRead);
    let ns = s.handle_device_event([0, 0, 7, 0, 0, 0], SystemEventPolicy::EveryRead);
    assert!(wheels(&ns).is_empty());
}

#[test]
fn notifications_come_wheel_then_button_then_device() {
    let mut s = ControllerState::new();
    let ns = s.handle_device_event([0, 3, 0, 0x10, 0, 0], SystemEventPolicy::EveryRead);
    assert_eq!(ns.len(), 3);
    assert!(matches!(ns[0], Notification::WheelMoved(Wheel::Back, 3)));
    assert!(matches!(ns[1], Notification::ButtonChanged(Button::Right)));
    match ns[2] {
        Notification::Device(e) => {
            assert_eq!(e.event_bytes, [0, 3, 0, 0x10, 0, 0]);
            assert_eq!(e.last_read_bytes, [0, 0, 0, 0, 0, 0]);
            assert_eq!(e.front_wheel_pos, 0);
            assert_eq!(e.back_wheel_pos, 3);
            assert_eq!(e.angular_wheel_pos, 0);
            assert_eq!(e.button_pressed, Button::Right);
        }
        _ => panic!("expected a device event"),
    }
}

#[test]
fn device_event_carries_previous_report() {
    let mut s = ControllerState::new();
    s.handle_device_event([1, 2, 3, 0x20, 4, 5], SystemEventPolicy::EveryRead);
    let ns = s.handle_device_event([0, 0, 3, 0x20, 0, 0], SystemEventPolicy::EveryRead);
    assert_eq!(ns.len(), 1);
    match ns[0] {
        Notification::Device(e) => {
            assert_eq!(e.event_bytes, [0, 0, 3, 0x20, 0, 0]);
            assert_eq!(e.last_read_bytes, [1, 2, 3, 0x20, 4, 5]);
        }
        _ => panic!("expected a device event"),
    }
}

#[test]
fn on_change_policy_suppresses_quiet_device_events() {
    let mut s = ControllerState::new();
    let ns = s.handle_device_event([0, 0, 0, 0, 0, 0], SystemEventPolicy::OnChange);
    assert!(ns.is_empty());
    let ns = s.handle_device_event([2, 0, 0, 0, 0, 0], SystemEventPolicy::OnChange);
    assert_eq!(ns.len(), 2);
}

#[test]
fn state_records_last_report() {
    let mut s = ControllerState::new();
    assert_eq!(s.last_report, [0; 6]);
    assert_eq!(s.last_button, Button::NoButton);
    s.handle_device_event([9, 8, 7, 0x80, 0, 0], SystemEventPolicy::EveryRead);
    assert_eq!(s.last_report, [9, 8, 7, 0x80, 0, 0]);
    assert_eq!(s.last_button, Button::Standby);
    assert_eq!((s.last_front, s.last_back, s.last_angular), (9, 8, 7));
}

#[test]
fn poll_step_failed_read_stops() {
    let mut s = ControllerState::new();
    let a = poll_step(&mut s, ReadOutcome::Failed, SystemEventPolicy::EveryRead);
    assert!(matches!(a, PollAction::Stop));
    assert_eq!(s.last_report, [0; 6]);
}

#[test]
fn poll_step_empty_read_skips() {
    let mut s = ControllerState::new();
    let a = poll_step(
        &mut s,
        ReadOutcome::Read { count: 0, report: [5, 0, 0, 0, 0, 0] },
        SystemEventPolicy::EveryRead,
    );
    assert!(matches!(a, PollAction::Skip));
    assert_eq!(s.last_report, [0; 6]);
}

#[test]
fn poll_step_read_dispatches() {
    let mut s = ControllerState::new();
    let a = poll_step(
        &mut s,
        ReadOutcome::Read { count: 6, report: [5, 0, 0, 0, 0, 0] },
        SystemEventPolicy::EveryRead,
    );
    match a {
        PollAction::Dispatch(ns) => assert_eq!(wheels(&ns), vec![(Wheel::Front, 5)]),
        _ => panic!("expected a dispatch"),
    }
    assert_eq!(s.last_report, [5, 0, 0, 0, 0, 0]);
}
