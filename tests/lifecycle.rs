use std::cell::RefCell;

use beolyd5_controller::controller::{
    Command, ControllerCore, ControllerError, OpenAction, Phase, PRODUCT_ID, VENDOR_ID,
};
use beolyd5_controller::dispatch::{dispatch_all, CallbackError, Registry, Subscriber};
use beolyd5_controller::state::{ControllerState, Notification, SystemEventPolicy};
use beolyd5_controller::{Button, SystemEvent, Wheel};

#[test]
fn send_without_handle_is_device_not_found() {
    let core = ControllerCore::new();
    assert_eq!(core.send([0x00, 0x31]), Err(ControllerError::DeviceNotFound));
    assert_eq!(core.tick(), Err(ControllerError::DeviceNotFound));
}

#[test]
fn new_controller_targets_the_device() {
    let core = ControllerCore::new();
    assert_eq!(core.vendor_id, 0x0cd4);
    assert_eq!(core.product_id, 0x1112);
    assert_eq!((VENDOR_ID, PRODUCT_ID), (0x0cd4, 0x1112));
    assert_eq!(core.phase, Phase::Unopened);
    assert!(!core.has_handle());
}

#[test]
fn open_close_cycle() {
    let mut core = ControllerCore::with_device(1, 2, SystemEventPolicy::OnChange);
    assert_eq!(core.begin_open(), OpenAction::AcquireHandle);
    assert_eq!(core.finish_open(false), Err(ControllerError::DeviceNotFound));
    assert_eq!(core.phase, Phase::Unopened);
    assert_eq!(core.finish_open(true), Ok(()));
    assert_eq!(core.phase, Phase::Running);
    assert_eq!(core.begin_open(), OpenAction::Rearm);
    assert_eq!(core.send([0x40, 0x00]), Ok([0x40, 0x00]));
    assert_eq!(core.tick(), Ok([0x00, 0x31]));
    assert!(core.close());
    assert_eq!(core.phase, Phase::Closed);
    assert!(!core.close());
    assert_eq!(core.send([0x40, 0x00]), Err(ControllerError::DeviceNotFound));
    assert_eq!(core.begin_open(), OpenAction::AcquireHandle);
}

#[test]
fn command_bytes() {
    assert_eq!(Command::Tick.bytes(), [0x00, 0x31]);
    assert_eq!(Command::BacklightOn.bytes(), [0x40, 0x00]);
    assert_eq!(Command::LedOn.bytes(), [0xc0, 0x00]);
    assert_eq!(Command::AllOff.bytes(), [0x00, 0x00]);
    assert_eq!(Command::LedBlink.bytes(), [0xd0, 0x00]);
}

struct Log<'a> {
    name: &'static str,
    fail: bool,
    seen: &'a RefCell<Vec<String>>,
}

impl<'a> Subscriber<(Wheel, u8)> for Log<'a> {
    fn notify(&self, payload: (Wheel, u8)) -> Result<(), CallbackError> {
        self.seen.borrow_mut().push(format!("{} wheel {} {}", self.name, payload.0.as_str(), payload.1));
        if self.fail {
            Err(CallbackError { message: "wheel failed".to_string() })
        } else {
            Ok(())
        }
    }
}

impl<'a> Subscriber<Button> for Log<'a> {
    fn notify(&self, payload: Button) -> Result<(), CallbackError> {
        self.seen.borrow_mut().push(format!("{} button {}", self.name, payload.as_str()));
        Ok(())
    }
}

impl<'a> Subscriber<SystemEvent> for Log<'a> {
    fn notify(&self, payload: SystemEvent) -> Result<(), CallbackError> {
        self.seen.borrow_mut().push(format!("{} device {}", self.name, payload.front_wheel_pos));
        Ok(())
    }
}

#[test]
fn dispatch_reaches_every_subscriber_in_order_despite_failures() {
    let seen = RefCell::new(Vec::new());
    let mut wheel = Registry::new();
    wheel.subscribe(Log { name: "a", fail: true, seen: &seen });
    wheel.subscribe(Log { name: "b", fail: false, seen: &seen });
    let mut button = Registry::new();
    button.subscribe(Log { name: "c", fail: false, seen: &seen });
    let mut device = Registry::new();
    device.subscribe(Log { name: "d", fail: false, seen: &seen });
    assert_eq!(wheel.len(), 2);

    let mut s = ControllerState::new();
    let ns: Vec<Notification> = s.handle_device_event([5, 0, 0, 0x20, 0, 0], SystemEventPolicy::EveryRead);
    let outcomes = dispatch_all(&ns, &wheel, &button, &device);
    assert_eq!(outcomes.len(), 4);
    assert!(outcomes[0].is_err());
    assert!(outcomes[1..].iter().all(|o| o.is_ok()));
    assert_eq!(
        *seen.borrow(),
        vec!["a wheel Front 5", "b wheel Front 5", "c button Left", "d device 5"]
    );
}

#[test]
fn empty_registries_deliver_nothing() {
    let wheel: Registry<Log> = Registry::new();
    let button: Registry<Log> = Registry::new();
    let device: Registry<Log> = Registry::new();
    let mut s = ControllerState::new();
    let ns = s.handle_device_event([5, 0, 0, 0x20, 0, 0], SystemEventPolicy::EveryRead);
    assert!(dispatch_all(&ns, &wheel, &button, &device).is_empty());
}
