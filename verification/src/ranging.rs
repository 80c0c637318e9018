//! Decisions of a single ultrasonic ranging attempt.
//!
//! One attempt fires a short trigger pulse, then performs two bounded waits
//! on the echo line: one for the rising edge, one for the falling edge. The
//! platform performs the waits; this module fixes the bounds and turns each
//! wait's outcome into the attempt's result. The pulse width between the two
//! edges, in microseconds, is the measure of distance: 58 microseconds per
//! centimeter.
use crate::ECHO_START_TIMEOUT_US;
use crate::TRIGGER_PULSE_US;
use crate::US_PER_CM;
use vstd::prelude::*;

verus! {

/// Why a ranging attempt produced no distance. Both kinds are expected and
/// recoverable; the decision loop treats either as "no object within the
/// range of interest".
#[derive(Clone, Copy, Debug, PartialEq, Eq, Structural)]
pub enum RangingError {
    /// The echo line never rose within the fixed start timeout.
    NoEchoStart,
    /// The echo rose but never fell within the timeout derived from the
    /// caller's distance of interest.
    Timeout,
}

/// Outcome of one bounded wait for an edge on the echo line, as reported by
/// the platform: either the edge arrived at a given instant (microseconds on
/// a monotonic clock), or the deadline passed first.
#[derive(Clone, Copy, Debug, PartialEq, Eq, Structural)]
pub enum EdgeWait {
    /// The awaited edge arrived at this instant, in microseconds.
    Edge { at_us: u64 },
    /// The deadline passed with no edge.
    DeadlineReached,
}

/// The value one ranging attempt hands to the decision loop: a measured echo
/// pulse width, or the reason there was none.
#[derive(Clone, Copy, Debug, PartialEq, Eq, Structural)]
pub enum DistanceSample {
    /// The echo pulse width, in microseconds; distance in centimeters is
    /// this width divided by 58.
    Measured { pulse_us: u64 },
    /// No echo was measured; the cause is kept for diagnostics only.
    Failed { error: RangingError },
}

/// The ranging component: owns the trigger and echo lines on the platform
/// side and fixes the two wait bounds of every attempt.
pub struct RangingDriver {
    max_distance_cm: u64,
}

impl RangingDriver {
    /// The farthest distance of interest this driver was configured with,
    /// in centimeters.
    pub closed spec fn max_distance_cm(self) -> u64 {
        self.max_distance_cm
    }

    /// The echo timeout derived from the distance of interest stays within
    /// the clock's range.
    pub open spec fn wf(self) -> bool {
        self.max_distance_cm() * US_PER_CM <= u64::MAX
    }

    /// Configures a driver for callers that care about objects no farther
    /// than `max_distance_cm` centimeters.
    pub fn new(max_distance_cm: u64) -> (d: Self)
        requires
            max_distance_cm * US_PER_CM <= u64::MAX,
        ensures
            d.max_distance_cm() == max_distance_cm,
            d.wf(),
    {
        RangingDriver { max_distance_cm }
    }

    /// How long the trigger line is held high to start an attempt, in
    /// microseconds.
    pub fn trigger_pulse_us(&self) -> (r: u64)
        ensures
            r == TRIGGER_PULSE_US,
    {
        TRIGGER_PULSE_US
    }

    /// Bound on the wait for the echo line to rise, in microseconds: the
    /// round-trip time of the sensor's own maximum range.
    pub fn echo_start_timeout_us(&self) -> (r: u64)
        ensures
            r == ECHO_START_TIMEOUT_US,
    {
        ECHO_START_TIMEOUT_US
    }

    /// Bound on the wait for the echo line to fall, in microseconds: the
    /// round-trip time of the configured distance of interest. An echo still
    /// high past this bound can only mean an object farther than the caller
    /// cares about.
    pub fn echo_end_timeout_us(&self) -> (r: u64)
        requires
            self.wf(),
        ensures
            r == self.max_distance_cm() * US_PER_CM,
    {
        self.max_distance_cm * US_PER_CM
    }

    /// Turns the outcome of the wait for the rising edge into the attempt's
    /// next step: the instant the echo started, or failure with
    /// [`RangingError::NoEchoStart`] when the deadline passed first.
    pub fn resolve_rise(&self, outcome: EdgeWait) -> (r: Result<u64, RangingError>)
        ensures
            outcome matches EdgeWait::Edge { at_us } ==> r == Ok::<u64, RangingError>(at_us),
            outcome is DeadlineReached ==> r == Err::<u64, RangingError>(
                RangingError::NoEchoStart,
            ),
    {
        match outcome {
            EdgeWait::Edge { at_us } => Ok(at_us),
            EdgeWait::DeadlineReached => Err(RangingError::NoEchoStart),
        }
    }

    /// Turns the outcome of the wait for the falling edge into the attempt's
    /// result: the pulse width `t_end - t_start` in microseconds, or failure
    /// with [`RangingError::Timeout`] when the deadline passed first.
    ///
    /// The platform's clock is monotonic, so the falling edge cannot be
    /// reported earlier than the rising edge it follows.
    pub fn resolve_fall(&self, t_start_us: u64, outcome: EdgeWait) -> (r: Result<
        u64,
        RangingError,
    >)
        requires
            outcome matches EdgeWait::Edge { at_us } ==> at_us >= t_start_us,
        ensures
            outcome matches EdgeWait::Edge { at_us } ==> r == Ok::<u64, RangingError>(
                (at_us - t_start_us) as u64,
            ),
            outcome is DeadlineReached ==> r == Err::<u64, RangingError>(RangingError::Timeout),
    {
        match outcome {
            EdgeWait::Edge { at_us } => Ok(at_us - t_start_us),
            EdgeWait::DeadlineReached => Err(RangingError::Timeout),
        }
    }
}

/// Packs an attempt's outcome into the sample the decision loop consumes.
pub fn sample_of(outcome: Result<u64, RangingError>) -> (s: DistanceSample)
    ensures
        outcome matches Ok(pulse_us) ==> s == (DistanceSample::Measured { pulse_us }),
        outcome matches Err(error) ==> s == (DistanceSample::Failed { error }),
{
    match outcome {
        Ok(pulse_us) => DistanceSample::Measured { pulse_us },
        Err(error) => DistanceSample::Failed { error },
    }
}

} // verus!
