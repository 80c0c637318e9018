//! Decisions of the buzzer task.
//!
//! The task runs forever: each iteration it polls the mailbox without
//! blocking, applies a freshly received command, then either flips the
//! buzzer line (when commanded active) or leaves it alone (when idle), and
//! finally suspends for the interval that fits its state. This module holds
//! the per-iteration decision; the platform owns the line, performs the
//! drive, and sleeps for the returned interval.
use crate::mailbox::ActuatorCommand;
use crate::BEEP_TOGGLE_INTERVAL_MS;
use crate::IDLE_POLL_INTERVAL_MS;
use vstd::prelude::*;

verus! {

/// The actuator task's own state: whether it was last commanded active, and
/// the current phase of the toggle (true while the line is driven high).
#[derive(Clone, Copy, Debug, PartialEq, Eq, Structural)]
pub struct ActuatorState {
    /// The last command received; the task beeps for as long as this holds.
    pub commanded_active: bool,
    /// Current toggle phase of the output line.
    pub output_high: bool,
}

/// What one iteration asks of the platform: optionally drive the buzzer
/// line to a level, then suspend for an interval.
#[derive(Clone, Copy, Debug, PartialEq, Eq, Structural)]
pub struct ActuatorAction {
    /// `Some(level)` drives the line to `level` (true is high); `None`
    /// leaves the line untouched.
    pub drive: Option<bool>,
    /// How long the task suspends before its next iteration, in
    /// milliseconds.
    pub delay_ms: u64,
}

/// The state after a freshly received command, if any, has been applied:
/// a deactivation forces the toggle phase low immediately, so the line is
/// never left mid-toggle.
pub open spec fn spec_apply_command(pre: ActuatorState, cmd: Option<ActuatorCommand>) -> ActuatorState {
    match cmd {
        Some(c) => ActuatorState {
            commanded_active: c.active,
            output_high: if c.active {
                pre.output_high
            } else {
                false
            },
        },
        None => pre,
    }
}

/// One full iteration of the actuator task: apply the polled command, then
/// act by state. Active: flip the toggle phase, drive the line to the new
/// phase, suspend for the beep interval. Idle: drive the line low only if a
/// deactivating command just arrived, and suspend for the short poll
/// interval.
pub open spec fn spec_step(pre: ActuatorState, cmd: Option<ActuatorCommand>) -> (
    ActuatorState,
    ActuatorAction,
) {
    let mid = spec_apply_command(pre, cmd);
    if mid.commanded_active {
        let post = ActuatorState { commanded_active: true, output_high: !mid.output_high };
        (
            post,
            ActuatorAction { drive: Some(post.output_high), delay_ms: BEEP_TOGGLE_INTERVAL_MS },
        )
    } else {
        (
            mid,
            ActuatorAction {
                drive: if cmd matches Some(c) && !c.active {
                    Some(false)
                } else {
                    None
                },
                delay_ms: IDLE_POLL_INTERVAL_MS,
            },
        )
    }
}

impl ActuatorState {
    /// While idle the toggle phase is low: deactivation forces the line low
    /// and nothing flips it again until the next activation.
    pub open spec fn wf(self) -> bool {
        !self.commanded_active ==> !self.output_high
    }

    /// The task starts inactive with the line low.
    pub fn new() -> (s: Self)
        ensures
            s == (ActuatorState { commanded_active: false, output_high: false }),
            s.wf(),
    {
        ActuatorState { commanded_active: false, output_high: false }
    }

    /// Performs one iteration's decision: consumes the polled command (if
    /// any), updates the state exactly as [`spec_step`] says, and returns
    /// the drive and suspension the platform must apply.
    pub fn step(&mut self, cmd: Option<ActuatorCommand>) -> (act: ActuatorAction)
        requires
            old(self).wf(),
        ensures
            final(self).wf(),
            *final(self) == spec_step(*old(self), cmd).0,
            act == spec_step(*old(self), cmd).1,
    {
        if let Some(c) = cmd {
            self.commanded_active = c.active;
            if !c.active {
                self.output_high = false;
            }
        }
        if self.commanded_active {
            self.output_high = !self.output_high;
            ActuatorAction { drive: Some(self.output_high), delay_ms: BEEP_TOGGLE_INTERVAL_MS }
        } else {
            let drive: Option<bool> = match cmd {
                Some(c) => if !c.active {
                    Some(false)
                } else {
                    None
                },
                None => None,
            };
            ActuatorAction { drive, delay_ms: IDLE_POLL_INTERVAL_MS }
        }
    }
}

} // verus!
