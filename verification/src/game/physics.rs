//! The physics of one car: shift quality, engine efficiency, acceleration and
//! engine speed. Every function here is a pure function of its arguments.
//!
//! Forces are in millionths of a newton, speeds in millionths of a metre per
//! second, accelerations in millionths of a metre per second squared. A
//! product of two scaled values is divided by `MICRO`, rounding down.

use vstd::prelude::*;
use crate::game::car::{Car, CarView};
use crate::game::units::{clamp_i64, floor_div, saturate, MICRO};

verus! {

/// Half the air density (1.225) times the drag coefficient (0.3) times the
/// frontal area (2.2): 0.40425, in millionths.
pub const DRAG_FACTOR: i64 = 404_250;

/// The rolling resistance coefficient (0.015) times gravity (9.81): 0.14715
/// newtons per kilogram, in millionths.
pub const ROLLING_FACTOR: i64 = 147_150;

/// Circumference of a tire 0.65 m across, in millionths of a millimetre.
pub const TIRE_CIRCUMFERENCE: i64 = 2_042_035_225;

/// Engine speed at idle: the least that `calculate_rpm` returns.
pub const IDLE_RPM: u32 = 800;

/// Below this engine speed a shift outside the good band counts as too early.
pub const EARLY_SHIFT_RPM: u32 = 3000;

/// How far, in revolutions per minute, the good band reaches beyond the
/// perfect band on either side.
pub const GOOD_SHIFT_MARGIN: u32 = 300;

/// How well a gear change was timed.
#[derive(Debug, Clone, Copy, PartialEq, Eq, Structural)]
pub enum ShiftQuality {
    Perfect,
    Good,
    Missed,
    TooEarly,
}

/// Whether `rpm` lies in the perfect band, from 85% to 92% of the redline,
/// both ends included.
pub open spec fn in_perfect_band(rpm: int, redline: int) -> bool {
    85 * redline <= 100 * rpm && 100 * rpm <= 92 * redline
}

/// Whether `rpm` lies in the perfect band widened by `GOOD_SHIFT_MARGIN` on
/// both sides, both ends included.
pub open spec fn in_good_band(rpm: int, redline: int) -> bool {
    85 * redline <= 100 * (rpm + GOOD_SHIFT_MARGIN) && 100 * (rpm - GOOD_SHIFT_MARGIN) <= 92
        * redline
}

/// The quality of a shift made at `rpm` in a car with the given redline.
pub open spec fn shift_quality(rpm: int, redline: int) -> ShiftQuality {
    if in_perfect_band(rpm, redline) {
        ShiftQuality::Perfect
    } else if in_good_band(rpm, redline) {
        ShiftQuality::Good
    } else if rpm < EARLY_SHIFT_RPM {
        ShiftQuality::TooEarly
    } else {
        ShiftQuality::Missed
    }
}

/// Classifies a shift made at `rpm`.
pub fn calculate_shift_quality(rpm: u32, redline: u32) -> (quality: ShiftQuality)
    ensures
        quality == shift_quality(rpm as int, redline as int),
{
    let scaled: u64 = 100 * (rpm as u64);
    let low: u64 = 85 * (redline as u64);
    let high: u64 = 92 * (redline as u64);
    let margin: u64 = 100 * (GOOD_SHIFT_MARGIN as u64);
    if low <= scaled && scaled <= high {
        ShiftQuality::Perfect
    } else if low <= scaled + margin && scaled <= high + margin {
        ShiftQuality::Good
    } else if rpm < EARLY_SHIFT_RPM {
        ShiftQuality::TooEarly
    } else {
        ShiftQuality::Missed
    }
}

/// Engine speed as a fraction of the redline, in millionths.
pub open spec fn rpm_fraction(rpm: int, redline: int) -> int {
    rpm * MICRO / redline
}

/// The share of its torque that the engine delivers at `rpm`, in millionths.
///
/// Five segments over the fraction of the redline: a ramp from 0.4 below 30%,
/// a gentle rise from 0.9 up to 70%, the full torque up to 85%, a decay at
/// half the slope up to 95%, and beyond that a decay at twice the slope, which
/// goes below zero far above the redline.
pub open spec fn rpm_efficiency(rpm: int, redline: int) -> int {
    let p = rpm_fraction(rpm, redline);
    if p < 300_000 {
        400_000 + p
    } else if p < 700_000 {
        900_000 + (p - 300_000) / 4
    } else if p < 850_000 {
        1_000_000
    } else if p < 950_000 {
        1_000_000 - (p - 850_000) / 2
    } else {
        950_000 - (p - 950_000) * 2
    }
}

/// Computes [`rpm_efficiency`].
pub fn calculate_rpm_efficiency(rpm: u32, redline: u32) -> (efficiency: i64)
    requires
        redline > 0,
    ensures
        efficiency == rpm_efficiency(rpm as int, redline as int),
        -8_600_000_000_000_000 <= efficiency <= 1_000_000,
{
    let scaled: i64 = (rpm as i64) * MICRO;
    let p: i64 = scaled / (redline as i64);
    assert(0 <= p <= scaled) by (nonlinear_arith)
        requires
            p == (scaled as int) / (redline as int),
            redline > 0,
            scaled >= 0,
    ;
    if p < 300_000 {
        400_000 + p
    } else if p < 700_000 {
        900_000 + (p - 300_000) / 4
    } else if p < 850_000 {
        1_000_000
    } else if p < 950_000 {
        1_000_000 - (p - 850_000) / 2
    } else {
        950_000 - (p - 950_000) * 2
    }
}

/// The force the engine puts on the road.
///
/// The torque times the efficiency times the throttle, times the gear ratio,
/// times 3.5; times 1.45 with nitrous, and times 1.15 while a perfect shift
/// still boosts the car.
pub open spec fn engine_force(
    torque: int,
    efficiency: int,
    throttle: int,
    gear_ratio: int,
    nos_active: bool,
    boosted: bool,
) -> int {
    let base_torque = torque * efficiency * throttle / (MICRO as int);
    let wheel_torque = base_torque * gear_ratio / (MICRO as int);
    let force = wheel_torque * 35 / 10;
    let force = if nos_active {
        force * 145 / 100
    } else {
        force
    };
    if boosted {
        force * 115 / 100
    } else {
        force
    }
}

/// Air drag: `DRAG_FACTOR` times the square of the velocity.
pub open spec fn drag_force(velocity: int) -> int {
    (velocity * velocity / (MICRO as int)) * DRAG_FACTOR / (MICRO as int)
}

/// Rolling resistance: `ROLLING_FACTOR` times the weight, whatever the velocity.
pub open spec fn rolling_force(weight: int) -> int {
    weight * ROLLING_FACTOR
}

/// The acceleration of a car: zero when `gear` is not a gear of the car,
/// otherwise the engine force less drag and rolling resistance, divided by the
/// weight, and limited to the range of `i64`.
#[verifier::opaque]
pub open spec fn acceleration(
    car: CarView,
    velocity: int,
    rpm: int,
    gear: int,
    throttle: int,
    nos_active: bool,
    perfect_shift_boost: int,
) -> int {
    if gear >= car.gear_ratios.len() {
        0
    } else {
        let engine = engine_force(
            car.torque as int,
            rpm_efficiency(rpm, car.redline as int),
            throttle,
            car.gear_ratios[gear] as int,
            nos_active,
            perfect_shift_boost > 0,
        );
        clamp_i64((engine - drag_force(velocity) - rolling_force(car.weight as int)) / (car.weight as int))
    }
}

/// With the throttle closed the engine puts no force on the road, and drag
/// and rolling resistance never push a car forward: the acceleration is zero
/// or less.
pub proof fn lemma_closed_throttle_slows(
    car: CarView,
    velocity: int,
    rpm: int,
    gear: int,
    nos_active: bool,
    perfect_shift_boost: int,
)
    requires
        car.wf(),
    ensures
        acceleration(car, velocity, rpm, gear, 0, nos_active, perfect_shift_boost) <= 0,
{
    reveal(acceleration);
    if gear < car.gear_ratios.len() {
        let efficiency = rpm_efficiency(rpm, car.redline as int);
        assert(car.torque * efficiency * 0 == 0) by (nonlinear_arith);
        let ratio = car.gear_ratios[gear] as int;
        assert(0 * ratio == 0) by (nonlinear_arith);
        assert(engine_force(car.torque as int, efficiency, 0, ratio, nos_active, perfect_shift_boost > 0)
            == 0);
        assert(velocity * velocity >= 0) by (nonlinear_arith);
        assert(drag_force(velocity) >= 0);
        let net = -drag_force(velocity) - rolling_force(car.weight as int);
        assert(net <= 0);
        assert(net / (car.weight as int) <= 0) by (nonlinear_arith)
            requires
                net <= 0,
                car.weight >= 1,
        ;
    }
}

/// Computes [`engine_force`] in wide arithmetic.
fn calculate_engine_force(
    torque: u32,
    efficiency: i64,
    throttle: i64,
    gear_ratio: u32,
    nos_active: bool,
    boosted: bool,
) -> (force: i128)
    requires
        -8_600_000_000_000_000 <= efficiency <= 1_000_000,
        0 <= throttle <= MICRO,
    ensures
        force == engine_force(
            torque as int,
            efficiency as int,
            throttle as int,
            gear_ratio as int,
            nos_active,
            boosted,
        ),
        -2_000_000_000_000_000_000_000_000_000_000 <= force <= 2_000_000_000_000_000_000_000_000_000_000,
{
    assert(-43_000_000_000_000_000_000_000_000 <= torque * efficiency
        <= 43_000_000_000_000_000_000_000_000) by (nonlinear_arith)
        requires
            0 <= torque <= 4_294_967_295,
            -8_600_000_000_000_000 <= efficiency <= 1_000_000,
    ;
    let raw: i128 = (torque as i128) * (efficiency as i128);
    assert(-43_000_000_000_000_000_000_000_000_000_000 <= raw * throttle
        <= 43_000_000_000_000_000_000_000_000_000_000) by (nonlinear_arith)
        requires
            -43_000_000_000_000_000_000_000_000 <= raw <= 43_000_000_000_000_000_000_000_000,
            0 <= throttle <= 1_000_000,
    ;
    let base_torque: i128 = floor_div(raw * (throttle as i128), MICRO as i128);
    assert(-215_000_000_000_000_000_000_000_000_000_000_000 <= base_torque * gear_ratio
        <= 215_000_000_000_000_000_000_000_000_000_000_000) by (nonlinear_arith)
        requires
            -43_000_000_000_000_000_000_000_000 <= base_torque <= 43_000_000_000_000_000_000_000_000,
            0 <= gear_ratio <= 4_294_967_295,
    ;
    let wheel_torque: i128 = floor_div(base_torque * (gear_ratio as i128), MICRO as i128);
    let mut force: i128 = floor_div(wheel_torque * 35, 10);
    if nos_active {
        force = floor_div(force * 145, 100);
    }
    if boosted {
        force = floor_div(force * 115, 100);
    }
    force
}

/// Computes [`drag_force`] in wide arithmetic.
fn calculate_drag_force(velocity: i64) -> (force: i128)
    ensures
        force == drag_force(velocity as int),
        0 <= force <= 40_000_000_000_000_000_000_000_000_000_000,
{
    assert(0 <= velocity * velocity <= 85_100_000_000_000_000_000_000_000_000_000_000_000)
        by (nonlinear_arith)
        requires
            -9_223_372_036_854_775_808 <= velocity <= 9_223_372_036_854_775_807,
    ;
    let squared: i128 = floor_div((velocity as i128) * (velocity as i128), MICRO as i128);
    floor_div(squared * (DRAG_FACTOR as i128), MICRO as i128)
}

/// The acceleration of `car` in the given state of motion.
///
/// `velocity` is in millionths of a metre per second, `throttle` in millionths
/// (from 0, released, to `MICRO`, floored), `perfect_shift_boost` is what is
/// left of the boost in millionths of a second, and the result is in
/// millionths of a metre per second squared.
pub fn calculate_acceleration(
    car: &Car,
    velocity: i64,
    rpm: u32,
    gear: u8,
    throttle: i64,
    nos_active: bool,
    perfect_shift_boost: i64,
) -> (accel: i64)
    requires
        car.wf(),
        0 <= throttle <= MICRO,
    ensures
        accel == acceleration(
            car@,
            velocity as int,
            rpm as int,
            gear as int,
            throttle as int,
            nos_active,
            perfect_shift_boost as int,
        ),
        gear >= car@.gears() ==> accel == 0,
{
    proof {
        reveal(acceleration);
    }
    if gear as usize >= car.gear_ratios.len() {
        return 0;
    }
    let gear_ratio = car.gear_ratios[gear as usize];
    let efficiency = calculate_rpm_efficiency(rpm, car.redline);
    let engine = calculate_engine_force(
        car.torque,
        efficiency,
        throttle,
        gear_ratio,
        nos_active,
        perfect_shift_boost > 0,
    );
    let drag = calculate_drag_force(velocity);
    let rolling: i128 = (car.weight as i128) * (ROLLING_FACTOR as i128);
    saturate(floor_div(engine - drag - rolling, car.weight as i128))
}

/// The engine speed that goes with a road speed in a gear: the wheel turns
/// once per tire circumference, the engine `gear_ratio` times per turn of the
/// wheel, and the engine never falls below `IDLE_RPM`. Whole revolutions per
/// minute, at most `u32::MAX`.
#[verifier::opaque]
pub open spec fn engine_rpm(velocity: int, gear_ratio: int) -> int {
    let turning = 60 * velocity * gear_ratio / (1000 * TIRE_CIRCUMFERENCE);
    if turning < IDLE_RPM {
        IDLE_RPM as int
    } else if turning > u32::MAX {
        u32::MAX as int
    } else {
        turning
    }
}

/// An engine speed is at least `IDLE_RPM` and fits in a `u32`.
pub proof fn lemma_engine_rpm_bounds(velocity: int, gear_ratio: int)
    ensures
        IDLE_RPM <= engine_rpm(velocity, gear_ratio) <= u32::MAX,
{
    reveal(engine_rpm);
}

/// Computes [`engine_rpm`]. `velocity` is in millionths of a metre per second
/// and `gear_ratio` in millionths.
pub fn calculate_rpm(velocity: i64, gear_ratio: u32) -> (rpm: u32)
    ensures
        rpm == engine_rpm(velocity as int, gear_ratio as int),
        rpm >= IDLE_RPM,
{
    proof {
        reveal(engine_rpm);
    }
    assert(-40_000_000_000_000_000_000_000_000_000 <= velocity * gear_ratio
        <= 40_000_000_000_000_000_000_000_000_000) by (nonlinear_arith)
        requires
            -9_223_372_036_854_775_808 <= velocity <= 9_223_372_036_854_775_807,
            0 <= gear_ratio <= 4_294_967_295,
    ;
    let product: i128 = (velocity as i128) * (gear_ratio as i128);
    assert(60 * velocity * gear_ratio == 60 * (velocity * gear_ratio)) by (nonlinear_arith);
    let turning: i128 = floor_div(60 * product, 1000 * (TIRE_CIRCUMFERENCE as i128));
    if turning < IDLE_RPM as i128 {
        IDLE_RPM
    } else if turning > u32::MAX as i128 {
        u32::MAX
    } else {
        turning as u32
    }
}

} // verus!
