//! The decisions of the polling loop. The loop itself, which blocks on the
//! device, runs outside the library and hands each read's outcome here.

use vstd::prelude::*;
use crate::state::{
    cycle_notifications, next_state, ControllerState, Notification, SystemEventPolicy,
};

verus! {

/// What one blocking read of the device gave.
#[derive(Debug, Clone, Copy)]
pub enum ReadOutcome {
    /// The read returned `count` bytes into `report`.
    Read { count: usize, report: [u8; 6] },
    /// The transport reported an error.
    Failed,
}

/// What the loop does after a read.
#[derive(Debug)]
pub enum PollAction {
    /// The read failed: the loop ends, and the failure is reported when the
    /// controller is torn down.
    Stop,
    /// Nothing was read: read again without decoding.
    Skip,
    /// Dispatch these notifications, in this order, before the next read.
    Dispatch(Vec<Notification>),
}

/// Decides what follows one read, and records a decoded report in `state`.
pub fn poll_step(
    state: &mut ControllerState,
    outcome: ReadOutcome,
    policy: SystemEventPolicy,
) -> (r: PollAction)
    ensures
        match outcome {
            ReadOutcome::Failed => r is Stop && *final(state) == *old(state),
            ReadOutcome::Read { count, report } => if count == 0 {
                r is Skip && *final(state) == *old(state)
            } else {
                &&& r matches PollAction::Dispatch(v) && v@ == cycle_notifications(
                    *old(state),
                    report,
                    policy,
                )
                &&& *final(state) == next_state(report)
            },
        },
{
    match outcome {
        ReadOutcome::Failed => PollAction::Stop,
        ReadOutcome::Read { count, report } => {
            if count == 0 {
                PollAction::Skip
            } else {
                PollAction::Dispatch(state.handle_device_event(report, policy))
            }
        },
    }
}

} // verus!
