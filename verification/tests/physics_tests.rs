use drag_rs::game::car::Car;
use drag_rs::game::physics::{
    calculate_acceleration, calculate_rpm, calculate_rpm_efficiency, calculate_shift_quality,
    ShiftQuality,
};
use drag_rs::game::units::{floor_div, saturate, MICRO};

fn efficiency_in_floats(rpm: u32, redline: u32) -> f64 {
    let p = rpm as f64 / redline as f64;
    if p < 0.3 {
        0.4 + p
    } else if p < 0.7 {
        0.9 + (p - 0.3) * 0.25
    } else if p < 0.85 {
        1.0
    } else if p < 0.95 {
        1.0 - (p - 0.85) * 0.5
    } else {
        0.95 - (p - 0.95) * 2.0
    }
}

fn acceleration_in_floats(
    car: &Car,
    velocity: f64,
    rpm: u32,
    gear: usize,
    throttle: f64,
    nos: bool,
    boost: f64,
) -> f64 {
    let ratio = car.gear_ratios[gear] as f64 / 1e6;
    let mut engine = car.torque as f64 * efficiency_in_floats(rpm, car.redline) * throttle * ratio * 3.5;
    if nos {
        engine *= 1.45;
    }
    if boost > 0.0 {
        engine *= 1.15;
    }
    let drag = 0.5 * 1.225 * 0.3 * 2.2 * velocity * velocity;
    let rolling = 0.015 * car.weight as f64 * 9.81;
    (engine - drag - rolling) / car.weight as f64
}

fn rpm_in_floats(velocity: f64, ratio: f64) -> f64 {
    let wheel = velocity * 60.0 / (std::f64::consts::PI * 0.65);
    (wheel * ratio).max(800.0)
}

#[test]
fn shift_quality_examples() {
    assert_eq!(calculate_shift_quality(7000, 8000), ShiftQuality::Perfect);
    assert_eq!(calculate_shift_quality(6500, 8000), ShiftQuality::Good);
    assert_eq!(calculate_shift_quality(2000, 8000), ShiftQuality::TooEarly);
    assert_eq!(calculate_shift_quality(5000, 8000), ShiftQuality::Missed);
}

#[test]
fn shift_quality_band_edges_are_inclusive() {
    assert_eq!(calculate_shift_quality(6800, 8000), ShiftQuality::Perfect);
    assert_eq!(calculate_shift_quality(7360, 8000), ShiftQuality::Perfect);
    assert_eq!(calculate_shift_quality(6799, 8000), ShiftQuality::Good);
    assert_eq!(calculate_shift_quality(7361, 8000), ShiftQuality::Good);
    assert_eq!(calculate_shift_quality(6500, 8000), ShiftQuality::Good);
    assert_eq!(calculate_shift_quality(7660, 8000), ShiftQuality::Good);
    assert_eq!(calculate_shift_quality(6499, 8000), ShiftQuality::Missed);
    assert_eq!(calculate_shift_quality(7661, 8000), ShiftQuality::Missed);
}

#[test]
fn shift_quality_too_early_below_three_thousand() {
    assert_eq!(calculate_shift_quality(2999, 8000), ShiftQuality::TooEarly);
    assert_eq!(calculate_shift_quality(3000, 8000), ShiftQuality::Missed);
    assert_eq!(calculate_shift_quality(0, 8000), ShiftQuality::TooEarly);
    assert_eq!(calculate_shift_quality(u32::MAX, 8000), ShiftQuality::Missed);
}

#[test]
fn shift_quality_good_band_wins_over_too_early() {
    // With a redline of 3000 the perfect band is 2550..=2760 and the good band
    // reaches down to 2250: that is below 3000 and still good.
    assert_eq!(calculate_shift_quality(2600, 3000), ShiftQuality::Perfect);
    assert_eq!(calculate_shift_quality(2250, 3000), ShiftQuality::Good);
    assert_eq!(calculate_shift_quality(2249, 3000), ShiftQuality::TooEarly);
}

#[test]
fn shift_quality_with_a_tiny_redline() {
    // The good band reaches below zero here; nothing wraps around.
    assert_eq!(calculate_shift_quality(0, 100), ShiftQuality::Good);
    assert_eq!(calculate_shift_quality(85, 100), ShiftQuality::Perfect);
    assert_eq!(calculate_shift_quality(92, 100), ShiftQuality::Perfect);
    assert_eq!(calculate_shift_quality(392, 100), ShiftQuality::Good);
    assert_eq!(calculate_shift_quality(393, 100), ShiftQuality::TooEarly);
    assert_eq!(calculate_shift_quality(0, 0), ShiftQuality::Perfect);
}

#[test]
fn shift_quality_is_the_same_on_every_call() {
    for rpm in (0..12_000).step_by(37) {
        assert_eq!(calculate_shift_quality(rpm, 7500), calculate_shift_quality(rpm, 7500));
    }
}

#[test]
fn shift_quality_agrees_with_floats_on_the_presets() {
    for redline in [8000u32, 7500, 7000] {
        let start = (redline as f64 * 0.85) as u32;
        let end = (redline as f64 * 0.92) as u32;
        for rpm in 0..(redline + 2000) {
            let expected = if rpm >= start && rpm <= end {
                ShiftQuality::Perfect
            } else if rpm >= start - 300 && rpm <= end + 300 {
                ShiftQuality::Good
            } else if rpm < 3000 {
                ShiftQuality::TooEarly
            } else {
                ShiftQuality::Missed
            };
            assert_eq!(calculate_shift_quality(rpm, redline), expected, "rpm {rpm}");
        }
    }
}

#[test]
fn efficiency_exact_values() {
    assert_eq!(calculate_rpm_efficiency(0, 8000), 400_000);
    assert_eq!(calculate_rpm_efficiency(1000, 8000), 525_000);
    assert_eq!(calculate_rpm_efficiency(2399, 8000), 699_875);
    assert_eq!(calculate_rpm_efficiency(2400, 8000), 900_000);
    assert_eq!(calculate_rpm_efficiency(4000, 8000), 950_000);
    assert_eq!(calculate_rpm_efficiency(5600, 8000), 1_000_000);
    assert_eq!(calculate_rpm_efficiency(6799, 8000), 1_000_000);
    assert_eq!(calculate_rpm_efficiency(6800, 8000), 1_000_000);
    assert_eq!(calculate_rpm_efficiency(7200, 8000), 975_000);
    assert_eq!(calculate_rpm_efficiency(7600, 8000), 950_000);
    assert_eq!(calculate_rpm_efficiency(8000, 8000), 850_000);
    assert_eq!(calculate_rpm_efficiency(16_000, 8000), -1_150_000);
}

#[test]
fn efficiency_goes_negative_far_over_the_redline() {
    assert!(calculate_rpm_efficiency(11_400, 8000) == 0);
    assert!(calculate_rpm_efficiency(11_401, 8000) < 0);
    assert_eq!(calculate_rpm_efficiency(u32::MAX, 1), 950_000 - 2 * (4_294_967_295_000_000 - 950_000));
}

#[test]
fn efficiency_agrees_with_floats() {
    for redline in [8000u32, 7500, 7000, 6543] {
        for rpm in (0..20_000).step_by(13) {
            let exact = efficiency_in_floats(rpm, redline);
            let got = calculate_rpm_efficiency(rpm, redline) as f64 / 1e6;
            assert!((exact - got).abs() < 3e-6, "rpm {rpm} redline {redline}: {exact} {got}");
        }
    }
}

#[test]
fn acceleration_at_the_line() {
    // 192 Nm at 0.525 efficiency through 3.267 and 3.5 is 1152.5976 N; rolling
    // resistance is 191.295 N; 961.3026 N on 1300 kg is 0.739463 m/s^2.
    let car = Car::civic();
    assert_eq!(calculate_acceleration(&car, 0, 1000, 0, MICRO, false, 0), 739_463);
}

#[test]
fn acceleration_with_closed_throttle_is_rolling_resistance_and_drag() {
    let car = Car::civic();
    // No engine force: -(0.14715 * 1300) / 1300 at standstill.
    assert_eq!(calculate_acceleration(&car, 0, 1000, 0, 0, false, 0), -147_150);
    // At 10 m/s drag adds 40.425 N: -(40.425 + 191.295) / 1300 = -0.178246...
    assert_eq!(calculate_acceleration(&car, 10_000_000, 1000, 0, 0, false, 0), -178_247);
}

#[test]
fn acceleration_is_zero_for_a_gear_the_car_does_not_have() {
    let car = Car::civic();
    assert_eq!(calculate_acceleration(&car, 20_000_000, 5000, 5, MICRO, true, 1), 0);
    assert_eq!(calculate_acceleration(&car, 20_000_000, 5000, 255, MICRO, false, 0), 0);
    assert!(calculate_acceleration(&car, 20_000_000, 5000, 4, MICRO, false, 0) != 0);
}

#[test]
fn acceleration_nitrous_and_boost_multiply_the_engine_force() {
    let car = Car::mustang();
    let plain = calculate_acceleration(&car, 0, 5625, 1, MICRO, false, 0);
    let nos = calculate_acceleration(&car, 0, 5625, 1, MICRO, true, 0);
    let boost = calculate_acceleration(&car, 0, 5625, 1, MICRO, false, 1);
    let both = calculate_acceleration(&car, 0, 5625, 1, MICRO, true, 500_000);
    // Engine force 410 * 1.0 * 2.43 * 3.5 = 3487.05 N, rolling 250.155 N.
    assert_eq!(plain, 1_904_055);
    assert_eq!(nos, floor_div(3487_050_000i128 * 145 / 100 - 250_155_000, 1700) as i64);
    assert_eq!(boost, floor_div(3487_050_000i128 * 115 / 100 - 250_155_000, 1700) as i64);
    assert_eq!(
        both,
        floor_div(3487_050_000i128 * 145 / 100 * 115 / 100 - 250_155_000, 1700) as i64
    );
}

#[test]
fn acceleration_agrees_with_floats() {
    for car in [Car::civic(), Car::mustang(), Car::gtr()] {
        for gear in 0..car.gear_ratios.len() {
            for rpm in (800..12_000).step_by(517) {
                for v in [0i64, 3_500_000, 27_250_000, 61_000_000, 95_123_456] {
                    for throttle in [0i64, 333_333, MICRO] {
                        for (nos, boost) in [(false, 0i64), (true, 0), (false, 250_000), (true, 1)] {
                            let got = calculate_acceleration(
                                &car, v, rpm, gear as u8, throttle, nos, boost,
                            ) as f64 / 1e6;
                            let exact = acceleration_in_floats(
                                &car,
                                v as f64 / 1e6,
                                rpm,
                                gear,
                                throttle as f64 / 1e6,
                                nos,
                                boost as f64 / 1e6,
                            );
                            assert!(
                                (got - exact).abs() < 1e-4,
                                "{} gear {gear} rpm {rpm} v {v}: {got} {exact}",
                                car.name
                            );
                        }
                    }
                }
            }
        }
    }
}

#[test]
fn acceleration_saturates_instead_of_overflowing() {
    let car = Car::new("odd".to_string(), 1, 1, u32::MAX, 1, vec![u32::MAX]).unwrap();
    assert_eq!(calculate_acceleration(&car, 0, 0, 0, MICRO, true, 1), i64::MAX);
    assert_eq!(calculate_acceleration(&car, 0, u32::MAX, 0, MICRO, true, 1), i64::MIN);
    assert_eq!(calculate_acceleration(&car, i64::MAX, 0, 0, 0, false, 0), i64::MIN);
    assert_eq!(calculate_acceleration(&car, i64::MIN, 0, 0, 0, false, 0), i64::MIN);
}

#[test]
fn rpm_has_an_idle_floor() {
    assert_eq!(calculate_rpm(0, 3_267_000), 800);
    assert_eq!(calculate_rpm(-5_000_000, 3_267_000), 800);
    assert_eq!(calculate_rpm(50_000_000, 0), 800);
    assert_eq!(calculate_rpm(i64::MIN, u32::MAX), 800);
}

#[test]
fn rpm_exact_values() {
    // 10 m/s on a 2.042035225 m tire is 293.824... wheel turns per minute;
    // through 3.267 that is 959.92 rpm.
    assert_eq!(calculate_rpm(10_000_000, 3_267_000), 959);
    assert_eq!(calculate_rpm(10_000_000, 1_000_000), 800);
    assert_eq!(calculate_rpm(30_000_000, 3_267_000), 2879);
    assert_eq!(calculate_rpm(2_042_035_225, 1_000_000), 60_000);
    assert_eq!(calculate_rpm(i64::MAX, u32::MAX), u32::MAX);
}

#[test]
fn rpm_agrees_with_floats() {
    for ratio in [3_267_000u32, 1_967_000, 833_000, 4_056_000, 796_000, 1_000_000] {
        for v in (0..120_000_000i64).step_by(777_777) {
            let got = calculate_rpm(v, ratio) as f64;
            let exact = rpm_in_floats(v as f64 / 1e6, ratio as f64 / 1e6);
            assert!((got - exact).abs() <= 1.0, "v {v} ratio {ratio}: {got} {exact}");
            assert!(got <= exact + 1e-6);
        }
    }
}

#[test]
fn saturate_limits_to_the_range() {
    assert_eq!(saturate(0), 0);
    assert_eq!(saturate(-17), -17);
    assert_eq!(saturate(i64::MAX as i128), i64::MAX);
    assert_eq!(saturate(i64::MAX as i128 + 1), i64::MAX);
    assert_eq!(saturate(i64::MIN as i128 - 1), i64::MIN);
    assert_eq!(saturate(i128::MAX), i64::MAX);
    assert_eq!(saturate(i128::MIN), i64::MIN);
}

#[test]
fn floor_div_rounds_down() {
    assert_eq!(floor_div(7, 2), 3);
    assert_eq!(floor_div(-7, 2), -4);
    assert_eq!(floor_div(-8, 2), -4);
    assert_eq!(floor_div(-1, 1_000_000), -1);
    assert_eq!(floor_div(0, 5), 0);
    assert_eq!(floor_div(i128::MIN, 1), i128::MIN);
    assert_eq!(floor_div(i128::MIN, i128::MAX), -2);
    assert_eq!(floor_div(i128::MAX, i128::MAX), 1);
}
