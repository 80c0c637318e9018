use proximity_alarm::ranging::{sample_of, DistanceSample, EdgeWait, RangingDriver, RangingError};
use proximity_alarm::{ECHO_START_TIMEOUT_US, TRIGGER_PULSE_US, US_PER_CM};

#[test]
fn trigger_pulse_and_start_timeout_values() {
    let d = RangingDriver::new(100);
    assert_eq!(d.trigger_pulse_us(), 10);
    assert_eq!(d.trigger_pulse_us(), TRIGGER_PULSE_US);
    // Round trip of the sensor's 400 cm maximum range.
    assert_eq!(d.echo_start_timeout_us(), 23200);
    assert_eq!(d.echo_start_timeout_us(), ECHO_START_TIMEOUT_US);
}

#[test]
fn end_timeout_follows_distance_of_interest() {
    // The wait for the falling edge is bounded by the round trip of the
    // caller's distance of interest, not the sensor's full range.
    let d = RangingDriver::new(100);
    assert_eq!(d.echo_end_timeout_us(), 100 * US_PER_CM);
    assert_eq!(d.echo_end_timeout_us(), 5800);
    let near = RangingDriver::new(10);
    assert_eq!(near.echo_end_timeout_us(), 580);
}

#[test]
fn rise_deadline_gives_no_echo_start() {
    let d = RangingDriver::new(100);
    assert_eq!(
        d.resolve_rise(EdgeWait::DeadlineReached),
        Err(RangingError::NoEchoStart)
    );
}

#[test]
fn rise_edge_gives_start_instant() {
    let d = RangingDriver::new(100);
    assert_eq!(d.resolve_rise(EdgeWait::Edge { at_us: 1000 }), Ok(1000));
}

#[test]
fn fall_deadline_gives_timeout() {
    let d = RangingDriver::new(100);
    assert_eq!(
        d.resolve_fall(1000, EdgeWait::DeadlineReached),
        Err(RangingError::Timeout)
    );
}

#[test]
fn pulse_width_is_edge_difference() {
    let d = RangingDriver::new(100);
    assert_eq!(d.resolve_fall(1000, EdgeWait::Edge { at_us: 1290 }), Ok(290));
    assert_eq!(d.resolve_fall(500, EdgeWait::Edge { at_us: 500 }), Ok(0));
}

#[test]
fn sample_of_wraps_ok_and_err() {
    assert_eq!(
        sample_of(Ok(290)),
        DistanceSample::Measured { pulse_us: 290 }
    );
    assert_eq!(
        sample_of(Err(RangingError::NoEchoStart)),
        DistanceSample::Failed {
            error: RangingError::NoEchoStart
        }
    );
    assert_eq!(
        sample_of(Err(RangingError::Timeout)),
        DistanceSample::Failed {
            error: RangingError::Timeout
        }
    );
}

#[test]
fn distance_conversion_exact_in_float() {
    // The standard conversion distance_cm = pulse_us / 58.0, applied to the
    // pulse widths the library reports, is exact for these values in f32.
    let five_cm: f32 = 290.0_f32 / 58.0_f32;
    assert_eq!(five_cm, 5.0_f32);
    let ten_cm: f32 = 580.0_f32 / 58.0_f32;
    assert_eq!(ten_cm, 10.0_f32);
    let zero: f32 = 0.0_f32 / 58.0_f32;
    assert_eq!(zero, 0.0_f32);
    let fifty_cm: f32 = 2900.0_f32 / 58.0_f32;
    assert_eq!(fifty_cm, 50.0_f32);
}
