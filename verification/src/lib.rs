//! Core logic of a proximity alarm: a periodic decision loop classifies
//! ultrasonic range measurements against a threshold, drives a pair of
//! mutually exclusive indicator LEDs, and commands a buzzer task through a
//! single-slot mailbox.
//!
//! The library holds the decisions: how a bounded wait for an echo edge is
//! turned into a distance sample, how a sample is classified, what the
//! actuator does on each poll, and how commands travel through the mailbox.
//! The platform around it (GPIO lines, timers, the background radio link)
//! performs the waits and applies the actions.
use vstd::prelude::*;

pub mod actuator;
pub mod decision;
pub mod mailbox;
pub mod ranging;

verus! {

/// Standard ultrasonic conversion: one centimeter of distance adds 58
/// microseconds of round-trip echo pulse width.
pub const US_PER_CM: u64 = 58;

/// Width of the trigger pulse that starts a ranging attempt, in microseconds.
pub const TRIGGER_PULSE_US: u64 = 10;

/// Farthest distance the sensor itself can plausibly report, in centimeters.
pub const SENSOR_MAX_RANGE_CM: u64 = 400;

/// Bound on the wait for the echo line to rise: the round-trip time of the
/// sensor's own maximum range, in microseconds.
pub const ECHO_START_TIMEOUT_US: u64 = SENSOR_MAX_RANGE_CM * US_PER_CM;

/// Period of the decision loop, in milliseconds.
pub const DECISION_PERIOD_MS: u64 = 250;

/// Interval between buzzer line flips while the actuator is commanded
/// active, in milliseconds.
pub const BEEP_TOGGLE_INTERVAL_MS: u64 = 100;

/// Interval between mailbox polls while the actuator is idle, in
/// milliseconds.
pub const IDLE_POLL_INTERVAL_MS: u64 = 10;

/// Farthest distance the decision loop cares about, in centimeters.
pub const DETECT_DISTANCE_CM: u64 = 100;

/// Distances strictly below this threshold raise the alarm, in centimeters.
pub const ALARM_DISTANCE_CM: u64 = 10;

} // verus!
