//! The periodic decision loop's per-cycle logic.
//!
//! Each cycle classifies one distance sample against the alarm threshold,
//! fixes the two LED levels, and posts the matching actuator command to the
//! mailbox. The platform calls this once per period and applies the LED
//! levels; a failed measurement is absorbed here, never escalated.
use crate::mailbox::ActuatorCommand;
use crate::mailbox::CommandMailbox;
use crate::ranging::DistanceSample;
use crate::US_PER_CM;
use vstd::prelude::*;

verus! {

/// The indicator pair after a decision: the two LEDs are driven from this
/// one value, so no half-applied or both-on state is representable.
#[derive(Clone, Copy, Debug, PartialEq, Eq, Structural)]
pub enum IndicatorState {
    /// An object is closer than the alarm threshold: red low, green high,
    /// buzzer commanded active.
    Alarm,
    /// No object within the threshold (far, or no echo at all): red high,
    /// green low, buzzer commanded silent.
    Safe,
}

/// A sample raises the alarm exactly when it measured an echo whose pulse
/// width falls short of the threshold's round-trip time: strictly less than
/// 58 microseconds per threshold centimeter. Failed measurements never
/// raise it.
pub open spec fn spec_is_alarm(s: DistanceSample, alarm_threshold_cm: u64) -> bool {
    s matches DistanceSample::Measured { pulse_us } && pulse_us < alarm_threshold_cm * US_PER_CM
}

/// The indicator a sample classifies to.
pub open spec fn spec_classify(s: DistanceSample, alarm_threshold_cm: u64) -> IndicatorState {
    if spec_is_alarm(s, alarm_threshold_cm) {
        IndicatorState::Alarm
    } else {
        IndicatorState::Safe
    }
}

impl IndicatorState {
    /// Level of the red LED: high exactly in the safe state.
    pub open spec fn spec_red_high(self) -> bool {
        self is Safe
    }

    /// Level of the green LED: high exactly in the alarm state.
    pub open spec fn spec_green_high(self) -> bool {
        self is Alarm
    }

    /// The command this indicator state posts: beep exactly in the alarm
    /// state.
    pub open spec fn spec_command(self) -> ActuatorCommand {
        ActuatorCommand { active: self is Alarm }
    }

    /// The level to drive on the red LED line.
    pub fn red_high(&self) -> (r: bool)
        ensures
            r == self.spec_red_high(),
    {
        match self {
            IndicatorState::Safe => true,
            IndicatorState::Alarm => false,
        }
    }

    /// The level to drive on the green LED line.
    pub fn green_high(&self) -> (r: bool)
        ensures
            r == self.spec_green_high(),
    {
        match self {
            IndicatorState::Safe => false,
            IndicatorState::Alarm => true,
        }
    }

    /// The actuator command this indicator state calls for.
    pub fn command(&self) -> (c: ActuatorCommand)
        ensures
            c == self.spec_command(),
    {
        match self {
            IndicatorState::Alarm => ActuatorCommand { active: true },
            IndicatorState::Safe => ActuatorCommand { active: false },
        }
    }
}

/// Classifies one sample: alarm exactly when an echo was measured closer
/// than `alarm_threshold_cm`; a failed measurement counts as safe.
pub fn classify(s: DistanceSample, alarm_threshold_cm: u64) -> (i: IndicatorState)
    requires
        alarm_threshold_cm * US_PER_CM <= u64::MAX,
    ensures
        i == spec_classify(s, alarm_threshold_cm),
{
    match s {
        DistanceSample::Measured { pulse_us } => {
            if pulse_us < alarm_threshold_cm * US_PER_CM {
                IndicatorState::Alarm
            } else {
                IndicatorState::Safe
            }
        },
        DistanceSample::Failed { .. } => IndicatorState::Safe,
    }
}

/// One decision cycle: classifies the sample, and posts the matching
/// command to the mailbox under the mailbox's own non-blocking rules (a
/// still-unconsumed older command keeps its slot; the new one is dropped).
/// The caller drives the LED lines from the returned indicator state.
pub fn run_cycle(s: DistanceSample, alarm_threshold_cm: u64, mailbox: &mut CommandMailbox) -> (i:
    IndicatorState)
    requires
        alarm_threshold_cm * US_PER_CM <= u64::MAX,
    ensures
        i == spec_classify(s, alarm_threshold_cm),
        old(mailbox).pending() is None ==> final(mailbox).pending() == Some(i.spec_command()),
        old(mailbox).pending() is Some ==> final(mailbox).pending() == old(mailbox).pending(),
{
    let i = classify(s, alarm_threshold_cm);
    let _ = mailbox.try_send(i.command());
    i
}

/// After every classification exactly one of the two LED levels is high:
/// red-high/green-low in the safe state, red-low/green-high in the alarm
/// state. No sample and no threshold can drive both lines alike.
pub proof fn lemma_indicator_exclusive(s: DistanceSample, alarm_threshold_cm: u64)
    ensures
        spec_classify(s, alarm_threshold_cm).spec_red_high() != spec_classify(
            s,
            alarm_threshold_cm,
        ).spec_green_high(),
{
}

/// Classification is stateless: two cycles fed equal samples under the same
/// threshold reach the same indicator state and post the same command, with
/// no dependence on any earlier cycle.
pub proof fn lemma_classification_stateless(
    s1: DistanceSample,
    s2: DistanceSample,
    alarm_threshold_cm: u64,
)
    requires
        s1 == s2,
    ensures
        spec_classify(s1, alarm_threshold_cm) == spec_classify(s2, alarm_threshold_cm),
        spec_classify(s1, alarm_threshold_cm).spec_command() == spec_classify(
            s2,
            alarm_threshold_cm,
        ).spec_command(),
{
}

/// A measured pulse width, read as a whole number of centimeters.
pub open spec fn spec_pulse_to_whole_cm(pulse_us: u64) -> int {
    pulse_us as int / US_PER_CM as int
}

/// The scaled comparison the classifier uses is exact: a pulse width falls
/// short of the threshold's round-trip time exactly when the distance it
/// encodes falls short of the threshold. Nothing is lost by comparing in
/// microseconds instead of converting to centimeters first.
pub proof fn lemma_threshold_compare_exact(pulse_us: u64, alarm_threshold_cm: u64)
    by (nonlinear_arith)
    ensures
        (pulse_us < alarm_threshold_cm * US_PER_CM) <==> (spec_pulse_to_whole_cm(pulse_us)
            < alarm_threshold_cm),
{
}

} // verus!
