use nordichack::signal::{period_to_speed, speed_to_duty_cycle, MAX_RAW_SPEED_MILLI};
use nordichack::treadmill::TreadmillError;

#[test]
fn period_conversion_exact_values() {
    // 0.517 * (1000 / 100) + 0.353 km/h = 5.523 km/h.
    assert_eq!(period_to_speed(100), Ok(5523));
    // 0.517 * (1000 / 50) + 0.353 km/h = 10.693 km/h.
    assert_eq!(period_to_speed(50), Ok(10693));
    // The fastest accepted pulse: one millisecond.
    assert_eq!(period_to_speed(1), Ok(517353));
    assert_eq!(period_to_speed(1), Ok(MAX_RAW_SPEED_MILLI));
}

#[test]
fn zero_period_is_rejected() {
    assert_eq!(period_to_speed(0), Err(TreadmillError::Conversion));
}

#[test]
fn shorter_period_means_faster_belt() {
    let mut previous = period_to_speed(15).unwrap();
    for period in [30u64, 100, 250, 719] {
        let speed = period_to_speed(period).unwrap();
        assert!(speed < previous, "period {period} did not slow the belt");
        previous = speed;
    }
}

#[test]
fn duty_cycle_exact_values() {
    // 3.42 * 6.0 + 18.6 percent = 39.12 percent.
    assert_eq!(speed_to_duty_cycle(600), 3912);
    // 3.42 * 7.0 + 18.6 percent = 42.54 percent.
    assert_eq!(speed_to_duty_cycle(700), 4254);
    // 3.42 * 0.01 + 18.6 percent, truncated to 18.63 percent.
    assert_eq!(speed_to_duty_cycle(1), 1863);
}

#[test]
fn duty_cycle_matches_float_fit() {
    for centi in [1i32, 50, 100, 600, 1200, 1800] {
        let kph = centi as f64 / 100.0;
        let expected = (1.0f64.max(3.42 * kph + 18.6) / 100.0 * 10000.0).floor() as u64;
        assert_eq!(speed_to_duty_cycle(centi), expected, "speed {kph} km/h");
    }
}

#[test]
fn motion_always_gets_minimum_drive() {
    for centi in [1i32, 2, 10, 600, 2400, i32::MAX] {
        assert!(speed_to_duty_cycle(centi) >= 100);
    }
}

#[test]
fn no_motion_means_no_drive() {
    assert_eq!(speed_to_duty_cycle(0), 0);
    assert_eq!(speed_to_duty_cycle(-1), 0);
    assert_eq!(speed_to_duty_cycle(-600), 0);
    assert_eq!(speed_to_duty_cycle(i32::MIN), 0);
}
