//! The signal converter: pure maps between sensor pulse periods, belt
//! speeds and PWM duty cycles.
//!
//! The speed sensor fires once per belt revolution; a linear fit of pulse
//! rate against belt speed gives `speed = 0.517 * frequency + 0.353` in
//! km/h.  The drive strength needed for a given speed follows a second
//! fit, `duty = 3.42 * speed + 18.6` in percent of the PWM period, with a
//! floor of one percent so a moving belt never gets a stall-level signal.
//! Both maps are computed here in fixed point: speeds in thousandths or
//! hundredths of a km/h, duty cycles in hundredths of a percent.

use vstd::prelude::*;

verus! {

use vstd::arithmetic::div_mod::{
    lemma_div_is_ordered,
    lemma_div_is_ordered_by_denominator,
    lemma_div_multiples_vanish,
    lemma_div_nonincreasing,
    lemma_div_pos_is_pos,
    lemma_fundamental_div_mod,
    lemma_mod_division_less_than_divisor,
};
use vstd::arithmetic::mul::lemma_mul_is_commutative;
use crate::treadmill::TreadmillError;

/// Gain of the pulse-rate fit: thousandths of a km/h per hertz.
pub const PULSE_GAIN_MILLI: u64 = 517;

/// Offset of the pulse-rate fit, in thousandths of a km/h.
pub const PULSE_OFFSET_MILLI: u64 = 353;

/// Largest value `period_to_speed` can return (period of one
/// millisecond), in thousandths of a km/h.
pub const MAX_RAW_SPEED_MILLI: u32 = 517353;

/// Gain of the drive fit: hundredths of a percent of duty per km/h.
pub const DUTY_GAIN: u64 = 342;

/// Offset of the drive fit, in hundredths of a percent of duty.
pub const DUTY_OFFSET: u64 = 1860;

/// The minimum drive signal whenever motion is requested: one percent,
/// in hundredths of a percent of duty.
pub const MIN_DUTY: u64 = 100;

/// The belt speed inferred from a pulse period of `period_ms`
/// milliseconds, in thousandths of a km/h.  The pulse frequency is
/// `1000 / period_ms` hertz, so the fit works out to the expression
/// below.  Meaningful only for positive periods.
pub open spec fn speed_of_period(period_ms: int) -> int
    recommends
        period_ms > 0,
{
    (PULSE_GAIN_MILLI * 1000) / period_ms + PULSE_OFFSET_MILLI
}

/// The duty cycle driving the belt at `speed_centi` hundredths of a
/// km/h, in hundredths of a percent: zero when no motion is requested,
/// otherwise the linear fit with its one-percent floor.
pub open spec fn duty_of_speed(speed_centi: int) -> int {
    if speed_centi <= 0 {
        0
    } else {
        let linear = (DUTY_GAIN * speed_centi) / 100 + DUTY_OFFSET;
        if linear < MIN_DUTY {
            MIN_DUTY as int
        } else {
            linear
        }
    }
}

/// Convert an accepted sensor pulse period to a belt speed in
/// thousandths of a km/h.  A zero period has no frequency and is
/// rejected rather than divided by.
pub fn period_to_speed(period_ms: u64) -> (r: Result<u32, TreadmillError>)
    ensures
        period_ms == 0 ==> r == Err::<u32, TreadmillError>(TreadmillError::Conversion),
        period_ms > 0 ==> r == Ok::<u32, TreadmillError>(speed_of_period(period_ms as int) as u32),
        r matches Ok(v) ==> PULSE_OFFSET_MILLI <= v <= MAX_RAW_SPEED_MILLI,
{
    if period_ms == 0 {
        Err(TreadmillError::Conversion)
    } else {
        proof {
            lemma_speed_of_period_bounds(period_ms as int);
        }
        let milli: u64 = (PULSE_GAIN_MILLI * 1000) / period_ms + PULSE_OFFSET_MILLI;
        Ok(milli as u32)
    }
}

/// Convert a requested belt speed (hundredths of a km/h) to the duty
/// cycle to drive, in hundredths of a percent.
pub fn speed_to_duty_cycle(speed: i32) -> (duty: u64)
    ensures
        duty == duty_of_speed(speed as int),
{
    if speed <= 0 {
        0
    } else {
        let linear: u64 = (DUTY_GAIN * (speed as u64)) / 100 + DUTY_OFFSET;
        if linear < MIN_DUTY {
            MIN_DUTY
        } else {
            linear
        }
    }
}

/// Every positive pulse period maps to a speed between the fit's offset
/// and the one-millisecond ceiling.
pub proof fn lemma_speed_of_period_bounds(period_ms: int)
    requires
        period_ms >= 1,
    ensures
        PULSE_OFFSET_MILLI <= speed_of_period(period_ms) <= MAX_RAW_SPEED_MILLI,
{
    lemma_div_nonincreasing(517000, period_ms);
    lemma_div_pos_is_pos(517000, period_ms);
}

/// Minimum-drive clamp: whenever motion is requested, at least one
/// percent of duty is driven.
pub proof fn lemma_duty_minimum_drive(speed_centi: int)
    requires
        speed_centi > 0,
    ensures
        duty_of_speed(speed_centi) >= MIN_DUTY,
{
}

/// No motion requested, no drive: zero and negative speeds map to a
/// zero duty cycle.
pub proof fn lemma_duty_off_when_stopped(speed_centi: int)
    requires
        speed_centi <= 0,
    ensures
        duty_of_speed(speed_centi) == 0,
{
}

/// The inferred speed never increases with the pulse period: a shorter
/// period means a belt at least as fast.
pub proof fn lemma_speed_antitone(p1: int, p2: int)
    requires
        0 < p1 <= p2,
    ensures
        speed_of_period(p1) >= speed_of_period(p2),
{
    lemma_div_is_ordered_by_denominator(517000, p1, p2);
}

/// Over the periods a real belt produces, the inferred speed strictly
/// decreases with the pulse period.  (In fixed point, two distinct but
/// very long periods can round to the same speed; below 720 ms the
/// quotient moves by at least a full unit per millisecond, so the
/// decrease is strict.)
pub proof fn lemma_speed_strictly_antitone(p1: int, p2: int)
    requires
        0 < p1 < p2 <= 719,
    ensures
        speed_of_period(p1) > speed_of_period(p2),
{
    let x: int = 517000;
    let q2: int = x / p2;
    let r2: int = x % p2;
    lemma_fundamental_div_mod(x, p2);
    lemma_mod_division_less_than_divisor(x, p2);
    lemma_div_is_ordered_by_denominator(x, p2, 719);
    assert(x / 719 == 719);
    assert((q2 + 1) * p1 <= x) by (nonlinear_arith)
        requires
            1 <= p1 <= p2 - 1,
            p2 <= q2,
            x == p2 * q2 + r2,
            0 <= r2;
    lemma_div_is_ordered((q2 + 1) * p1, x, p1);
    lemma_mul_is_commutative(q2 + 1, p1);
    lemma_div_multiples_vanish(q2 + 1, p1);
}

} // verus!
