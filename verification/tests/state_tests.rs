use drag_rs::game::ai::{NosStrategy, AI, SHIFT_TIMING_VARIANCE};
use drag_rs::game::car::Car;
use drag_rs::game::physics::ShiftQuality;
use drag_rs::game::state::{RaceCarState, INITIAL_NOS, INITIAL_RPM, PERFECT_SHIFT_BOOST};
use drag_rs::game::units::MICRO;

#[test]
fn a_new_car_waits_at_the_line() {
    let s = RaceCarState::new();
    assert_eq!(s.position, 0);
    assert_eq!(s.velocity, 0);
    assert_eq!(s.rpm, 1000);
    assert_eq!(s.rpm, INITIAL_RPM);
    assert_eq!(s.gear, 0);
    assert_eq!(s.throttle, 0);
    assert_eq!(s.nos_remaining, 10_000_000);
    assert_eq!(s.nos_remaining, INITIAL_NOS);
    assert!(!s.nos_active);
    assert_eq!(s.engine_heat, 0);
    assert_eq!(s.reaction_time, None);
    assert_eq!(s.finish_time, None);
    assert_eq!(s.top_speed, 0);
    assert_eq!(s.perfect_shifts, 0);
    assert!(!s.blown_engine);
    assert_eq!(s.perfect_shift_boost, 0);
    assert_eq!(s.last_shift_quality, None);
}

#[test]
fn a_perfect_shift_is_counted_and_boosts() {
    let car = Car::civic();
    let mut s = RaceCarState::new();
    s.rpm = 7000;
    s.shift_up(&car);
    assert_eq!(s.gear, 1);
    assert_eq!(s.rpm, 4550);
    assert_eq!(s.last_shift_quality, Some(ShiftQuality::Perfect));
    assert_eq!(s.perfect_shifts, 1);
    assert_eq!(s.perfect_shift_boost, PERFECT_SHIFT_BOOST);
    assert_eq!(s.perfect_shift_boost, 500_000);
}

#[test]
fn a_good_shift_is_recorded_without_boost() {
    let car = Car::civic();
    let mut s = RaceCarState::new();
    s.rpm = 6500;
    s.shift_up(&car);
    assert_eq!(s.gear, 1);
    assert_eq!(s.rpm, 4225);
    assert_eq!(s.last_shift_quality, Some(ShiftQuality::Good));
    assert_eq!(s.perfect_shifts, 0);
    assert_eq!(s.perfect_shift_boost, 0);
}

#[test]
fn an_early_shift_and_a_missed_shift() {
    let car = Car::civic();
    let mut s = RaceCarState::new();
    s.shift_up(&car);
    assert_eq!(s.last_shift_quality, Some(ShiftQuality::TooEarly));
    assert_eq!(s.rpm, 650);
    s.rpm = 7999;
    s.shift_up(&car);
    assert_eq!(s.last_shift_quality, Some(ShiftQuality::Missed));
    assert_eq!(s.gear, 2);
    assert_eq!(s.rpm, 5199);
}

#[test]
fn a_shift_keeps_a_running_boost_when_it_is_not_perfect() {
    let car = Car::civic();
    let mut s = RaceCarState::new();
    s.perfect_shift_boost = 123_456;
    s.rpm = 5000;
    s.shift_up(&car);
    assert_eq!(s.perfect_shift_boost, 123_456);
}

#[test]
fn shifting_in_top_gear_changes_nothing() {
    let car = Car::civic();
    let mut s = RaceCarState::new();
    s.gear = 4;
    s.perfect_shifts = 2;
    s.rpm = 7000;
    s.shift_up(&car);
    assert_eq!(s.gear, 4);
    assert_eq!(s.rpm, 7000);
    assert_eq!(s.last_shift_quality, None);
    assert_eq!(s.perfect_shifts, 2);
    assert_eq!(s.perfect_shift_boost, 0);
}

#[test]
fn gears_go_up_one_at_a_time_to_the_top() {
    let car = Car::gtr();
    let mut s = RaceCarState::new();
    for expected in 1..=5u8 {
        s.rpm = 6000;
        s.shift_up(&car);
        assert_eq!(s.gear, expected);
    }
    s.shift_up(&car);
    assert_eq!(s.gear, 5);
    assert_eq!(s.perfect_shifts, 5);
}

#[test]
fn rpm_drop_rounds_down() {
    let car = Car::civic();
    let mut s = RaceCarState::new();
    s.rpm = 1001;
    s.shift_up(&car);
    assert_eq!(s.rpm, 650);
    let mut s = RaceCarState::new();
    s.rpm = u32::MAX;
    s.shift_up(&car);
    assert_eq!(s.rpm, 2_791_728_741);
}

#[test]
fn the_opponent_is_built_waiting() {
    let ai = AI::new(150_000);
    assert_eq!(ai.reaction_time, 150_000);
    assert!(!ai.has_launched);
    assert_eq!(ai.shift_timing_variance, 200);
    assert_eq!(ai.shift_timing_variance, SHIFT_TIMING_VARIANCE);
    assert_eq!(ai.nos_strategy, NosStrategy::Late);
}

#[test]
fn the_opponent_does_nothing_before_the_launch() {
    let car = Car::mustang();
    let mut ai = AI::new(150_000);
    let mut s = RaceCarState::new();
    s.rpm = 7400;
    s.gear = 3;
    ai.update(&mut s, &car, 16_667);
    assert_eq!(s.throttle, 0);
    assert_eq!(s.gear, 3);
    assert!(!s.nos_active);
    assert_eq!(s.reaction_time, None);
}

#[test]
fn the_launch_records_the_reaction_time_and_floors_it() {
    let mut ai = AI::new(150_000);
    let mut s = RaceCarState::new();
    ai.start_race(&mut s);
    assert!(ai.has_launched);
    assert_eq!(s.reaction_time, Some(150_000));
    assert_eq!(s.throttle, MICRO);
    assert_eq!(s.gear, 0);
    assert_eq!(s.rpm, 1000);
}

#[test]
fn the_opponent_shifts_at_its_target() {
    // 88% of 7500 is 6600; with the variance the target is 6800.
    let car = Car::mustang();
    let mut ai = AI::new(150_000);
    let mut s = RaceCarState::new();
    ai.start_race(&mut s);
    s.rpm = 6799;
    ai.update(&mut s, &car, 16_667);
    assert_eq!(s.gear, 0);
    assert_eq!(s.throttle, MICRO);
    s.rpm = 6800;
    ai.update(&mut s, &car, 16_667);
    assert_eq!(s.gear, 1);
    assert_eq!(s.rpm, 4420);
    assert_eq!(s.last_shift_quality, Some(ShiftQuality::Perfect));
    assert_eq!(s.perfect_shifts, 1);
}

#[test]
fn the_opponent_always_floors_the_throttle() {
    let car = Car::mustang();
    let mut ai = AI::new(150_000);
    let mut s = RaceCarState::new();
    ai.start_race(&mut s);
    s.throttle = 0;
    ai.update(&mut s, &car, 16_667);
    assert_eq!(s.throttle, MICRO);
}

#[test]
fn the_opponent_saves_nitrous_for_the_last_two_gears() {
    let car = Car::mustang();
    let mut ai = AI::new(150_000);
    let mut s = RaceCarState::new();
    ai.start_race(&mut s);
    for gear in 0..3u8 {
        s.gear = gear;
        s.perfect_shifts = 0;
        ai.update(&mut s, &car, 16_667);
        assert!(!s.nos_active, "gear {gear}");
    }
    s.gear = 3;
    ai.update(&mut s, &car, 16_667);
    assert!(s.nos_active);
    s.nos_active = false;
    s.gear = 4;
    ai.update(&mut s, &car, 16_667);
    assert!(s.nos_active);
}

#[test]
fn the_opponent_opens_nitrous_in_the_gear_it_just_shifted_into() {
    let car = Car::mustang();
    let mut ai = AI::new(150_000);
    let mut s = RaceCarState::new();
    ai.start_race(&mut s);
    s.gear = 2;
    s.rpm = 6900;
    ai.update(&mut s, &car, 16_667);
    assert_eq!(s.gear, 3);
    assert!(s.nos_active);
}

#[test]
fn the_opponent_leaves_empty_nitrous_off() {
    let car = Car::mustang();
    let mut ai = AI::new(150_000);
    let mut s = RaceCarState::new();
    ai.start_race(&mut s);
    s.gear = 4;
    s.nos_remaining = 0;
    ai.update(&mut s, &car, 16_667);
    assert!(!s.nos_active);
}

#[test]
fn the_opponent_does_not_shift_in_top_gear() {
    let car = Car::mustang();
    let mut ai = AI::new(150_000);
    let mut s = RaceCarState::new();
    ai.start_race(&mut s);
    s.gear = 4;
    s.rpm = 7400;
    ai.update(&mut s, &car, 16_667);
    assert_eq!(s.gear, 4);
    assert_eq!(s.rpm, 7400);
}

#[test]
fn with_one_gear_the_opponent_uses_nitrous_at_once() {
    let car = Car::new("single".to_string(), 100, 1000, 200, 6000, vec![2_000_000]).unwrap();
    let mut ai = AI::new(150_000);
    let mut s = RaceCarState::new();
    ai.start_race(&mut s);
    ai.update(&mut s, &car, 16_667);
    assert!(s.nos_active);
    assert_eq!(s.gear, 0);
}
