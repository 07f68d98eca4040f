//! The controller's lifecycle and its outbound commands.
//!
//! A controller starts unopened. Opening acquires a device handle and starts
//! the polling loop; closing stops the loop, waits for it and releases the
//! handle. Commands go to the device only while a handle is held.

use vstd::prelude::*;
use crate::state::SystemEventPolicy;

verus! {

/// Vendor id of the BeoSound 5 controller.
pub const VENDOR_ID: u16 = 0x0cd4;

/// Product id of the BeoSound 5 controller.
pub const PRODUCT_ID: u16 = 0x1112;

/// Where a controller is in its lifecycle.
#[derive(Debug, Clone, Copy, PartialEq, Eq, Structural)]
pub enum Phase {
    /// Never opened, or every open so far failed.
    Unopened,
    /// A device handle is held and the polling loop runs.
    Running,
    /// Closed: the handle was released; a new open acquires a new one.
    Closed,
}

/// Why an operation on the controller failed.
#[derive(Debug, Clone, Copy, PartialEq, Eq, Structural)]
pub enum ControllerError {
    /// No matching device is present or it cannot be accessed, or no handle
    /// is held.
    DeviceNotFound,
    /// The transport failed to read or write.
    Transport,
}

/// What opening asks of the code that owns the device.
#[derive(Debug, Clone, Copy, PartialEq, Eq, Structural)]
pub enum OpenAction {
    /// Acquire a handle; report the outcome with `finish_open`.
    AcquireHandle,
    /// A handle is held and the loop runs: only raise the running flag again.
    Rearm,
}

/// A command of the device's protocol.
#[derive(Debug, Clone, Copy, PartialEq, Eq, Structural)]
pub enum Command {
    /// The audible click.
    Tick,
    /// Turns the LCD backlight on.
    BacklightOn,
    /// Turns the LED on.
    LedOn,
    /// Turns the LED and the backlight off.
    AllOff,
    /// Makes the LED blink.
    LedBlink,
}

/// The two bytes that a command is written as.
pub open spec fn command_bytes(c: Command) -> Seq<u8> {
    match c {
        Command::Tick => seq![0x00u8, 0x31u8],
        Command::BacklightOn => seq![0x40u8, 0x00u8],
        Command::LedOn => seq![0xc0u8, 0x00u8],
        Command::AllOff => seq![0x00u8, 0x00u8],
        Command::LedBlink => seq![0xd0u8, 0x00u8],
    }
}

impl Command {
    /// The bytes to write for this command.
    pub fn bytes(&self) -> (r: [u8; 2])
        ensures
            r@ == command_bytes(*self),
    {
        let r: [u8; 2] = match *self {
            Command::Tick => [0x00, 0x31],
            Command::BacklightOn => [0x40, 0x00],
            Command::LedOn => [0xc0, 0x00],
            Command::AllOff => [0x00, 0x00],
            Command::LedBlink => [0xd0, 0x00],
        };
        assert(r@ =~= command_bytes(*self));
        r
    }
}

/// The lifecycle of one controller, with the device it is for and the policy
/// for device events.
#[derive(Debug, Clone, Copy)]
pub struct ControllerCore {
    pub vendor_id: u16,
    pub product_id: u16,
    pub policy: SystemEventPolicy,
    pub phase: Phase,
}

impl ControllerCore {
    /// An unopened controller for the BeoSound 5, raising a device event on
    /// every read.
    pub fn new() -> (r: ControllerCore)
        ensures
            r.vendor_id == VENDOR_ID,
            r.product_id == PRODUCT_ID,
            r.policy == SystemEventPolicy::EveryRead,
            r.phase == Phase::Unopened,
    {
        ControllerCore {
            vendor_id: VENDOR_ID,
            product_id: PRODUCT_ID,
            policy: SystemEventPolicy::EveryRead,
            phase: Phase::Unopened,
        }
    }

    /// An unopened controller for the given device and policy.
    pub fn with_device(vendor_id: u16, product_id: u16, policy: SystemEventPolicy) -> (r:
        ControllerCore)
        ensures
            r.vendor_id == vendor_id,
            r.product_id == product_id,
            r.policy == policy,
            r.phase == Phase::Unopened,
    {
        ControllerCore { vendor_id, product_id, policy, phase: Phase::Unopened }
    }

    /// Whether a device handle is held.
    pub fn has_handle(&self) -> (r: bool)
        ensures
            r == (self.phase == Phase::Running),
    {
        self.phase == Phase::Running
    }

    /// The first step of opening: a running controller only raises its
    /// running flag again; any other acquires a new handle.
    pub fn begin_open(&self) -> (r: OpenAction)
        ensures
            r == (if self.phase == Phase::Running {
                OpenAction::Rearm
            } else {
                OpenAction::AcquireHandle
            }),
    {
        if self.phase == Phase::Running {
            OpenAction::Rearm
        } else {
            OpenAction::AcquireHandle
        }
    }

    /// The second step of opening, given whether a handle was acquired. With
    /// a handle the controller runs; without one it stays as it was and the
    /// caller may try again.
    pub fn finish_open(&mut self, found: bool) -> (r: Result<(), ControllerError>)
        ensures
            final(self).vendor_id == old(self).vendor_id,
            final(self).product_id == old(self).product_id,
            final(self).policy == old(self).policy,
            found ==> r is Ok && final(self).phase == Phase::Running,
            !found ==> r == Err::<(), ControllerError>(ControllerError::DeviceNotFound)
                && final(self).phase == old(self).phase,
    {
        if found {
            self.phase = Phase::Running;
            Ok(())
        } else {
            Err(ControllerError::DeviceNotFound)
        }
    }

    /// Closes the controller. Returns whether a polling loop was running,
    /// which the caller must then stop and wait for before releasing the
    /// handle.
    pub fn close(&mut self) -> (must_join: bool)
        ensures
            must_join == (old(self).phase == Phase::Running),
            final(self).phase == (if must_join {
                Phase::Closed
            } else {
                old(self).phase
            }),
            final(self).phase != Phase::Running,
            final(self).vendor_id == old(self).vendor_id,
            final(self).product_id == old(self).product_id,
            final(self).policy == old(self).policy,
    {
        if self.phase == Phase::Running {
            self.phase = Phase::Closed;
            true
        } else {
            false
        }
    }

    /// Decides a send: the bytes to write while a handle is held, and
    /// `DeviceNotFound`, with nothing to write, while none is.
    pub fn send(&self, data: [u8; 2]) -> (r: Result<[u8; 2], ControllerError>)
        ensures
            self.phase == Phase::Running ==> r == Ok::<[u8; 2], ControllerError>(data),
            self.phase != Phase::Running ==> r == Err::<[u8; 2], ControllerError>(
                ControllerError::DeviceNotFound,
            ),
    {
        if self.phase == Phase::Running {
            Ok(data)
        } else {
            Err(ControllerError::DeviceNotFound)
        }
    }

    /// Decides a send of the audible click.
    pub fn tick(&self) -> (r: Result<[u8; 2], ControllerError>)
        ensures
            self.phase == Phase::Running ==> r is Ok && r->Ok_0@ == command_bytes(
                Command::Tick,
            ),
            self.phase != Phase::Running ==> r == Err::<[u8; 2], ControllerError>(
                ControllerError::DeviceNotFound,
            ),
    {
        self.send(Command::Tick.bytes())
    }
}

} // verus!
