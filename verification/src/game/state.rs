//! The state of one car during a race, and how a tick changes it.
//!
//! Times are in millionths of a second, the position in millionths of a
//! metre, speeds in millionths of a metre per second; throttle and engine heat
//! run from 0 to `MICRO`.

use vstd::prelude::*;
use crate::game::car::{Car, CarView};
use crate::game::physics::{
    acceleration, calculate_shift_quality, engine_rpm, lemma_engine_rpm_bounds, shift_quality,
    ShiftQuality,
};
use crate::game::units::{clamp, clamp_i64, MICRO};

verus! {

/// Engine speed of a car that waits at the line.
pub const INITIAL_RPM: u32 = 1000;

/// Nitrous on board at the start: ten seconds.
pub const INITIAL_NOS: i64 = 10_000_000;

/// How long a perfect shift boosts the car: half a second.
pub const PERFECT_SHIFT_BOOST: i64 = 500_000;

/// Engine heat rises by this many millionths per second above 90% of the
/// redline.
pub const HEATING_RATE: i64 = 300_000;

/// Engine heat falls by this many millionths per second otherwise.
pub const COOLING_RATE: i64 = 100_000;

/// Everything that changes about one car while it races.
#[derive(Debug, Clone, Copy)]
pub struct RaceCarState {
    /// Distance from the start line.
    pub position: i64,
    /// Speed along the track; never negative.
    pub velocity: i64,
    /// Engine speed in revolutions per minute.
    pub rpm: u32,
    /// Index of the gear the car is in, the lowest being 0.
    pub gear: u8,
    /// From 0, closed, to `MICRO`, floored.
    pub throttle: i64,
    /// Seconds of nitrous left.
    pub nos_remaining: i64,
    pub nos_active: bool,
    /// From 0, cold, to `MICRO`, at which the engine blows.
    pub engine_heat: i64,
    /// Negative when the driver jumped the start.
    pub reaction_time: Option<i64>,
    /// The race clock when the car crossed the line.
    pub finish_time: Option<i64>,
    /// The highest velocity so far.
    pub top_speed: i64,
    /// How many shifts were perfect.
    pub perfect_shifts: u8,
    pub blown_engine: bool,
    /// Seconds left of the boost that a perfect shift gives.
    pub perfect_shift_boost: i64,
    pub last_shift_quality: Option<ShiftQuality>,
}

impl RaceCarState {
    /// Whether every value is in its range for the profile that the car
    /// drives: the gear is one of the car's, no more shifts were perfect than
    /// were made, the car does not move backwards, throttle and heat are
    /// between 0 and `MICRO`, nitrous and boost are not negative, and a car
    /// with a blown engine stands.
    pub open spec fn wf(self, car: CarView) -> bool {
        &&& self.gear < car.gears()
        &&& self.perfect_shifts <= self.gear
        &&& self.velocity >= 0
        &&& 0 <= self.throttle <= MICRO
        &&& self.nos_remaining >= 0
        &&& 0 <= self.engine_heat <= MICRO
        &&& self.blown_engine ==> self.velocity == 0
        &&& self.perfect_shift_boost >= 0
    }

    /// Whether the records of the state agree with each other, as they do in
    /// every state that a race reaches: the car is not behind the start line,
    /// the top speed is no less than the velocity, the nitrous is on only
    /// while some is left, and the engine is blown exactly at full heat.
    pub open spec fn consistent(self) -> bool {
        &&& self.position >= 0
        &&& self.velocity <= self.top_speed
        &&& self.nos_active ==> self.nos_remaining > 0
        &&& self.blown_engine <==> self.engine_heat == MICRO
    }

    /// The state of a car that waits at the line.
    pub open spec fn initial() -> RaceCarState {
        RaceCarState {
            position: 0,
            velocity: 0,
            rpm: INITIAL_RPM,
            gear: 0,
            throttle: 0,
            nos_remaining: INITIAL_NOS,
            nos_active: false,
            engine_heat: 0,
            reaction_time: None,
            finish_time: None,
            top_speed: 0,
            perfect_shifts: 0,
            blown_engine: false,
            perfect_shift_boost: 0,
            last_shift_quality: None,
        }
    }

    /// Whether ticks still move the car: its engine holds and it has not
    /// crossed the line.
    pub open spec fn is_running(self) -> bool {
        !self.blown_engine && self.finish_time is None
    }

    /// The state after a shift into the next gear. In the top gear nothing
    /// changes. Otherwise the shift is judged by the engine speed at which it
    /// is made; a perfect one is counted and starts the boost; the gear goes
    /// up by one and the engine speed drops to 65%, rounded down.
    pub open spec fn shifted_up(self, car: CarView) -> RaceCarState {
        if self.gear >= car.top_gear() {
            self
        } else {
            let quality = shift_quality(self.rpm as int, car.redline as int);
            let perfect = quality == ShiftQuality::Perfect;
            RaceCarState {
                last_shift_quality: Some(quality),
                perfect_shifts: if perfect {
                    (self.perfect_shifts + 1) as u8
                } else {
                    self.perfect_shifts
                },
                perfect_shift_boost: if perfect {
                    PERFECT_SHIFT_BOOST
                } else {
                    self.perfect_shift_boost
                },
                gear: (self.gear + 1) as u8,
                rpm: (self.rpm * 65 / 100) as u32,
                ..self
            }
        }
    }

    /// What is left of the perfect-shift boost after `delta_time`.
    pub open spec fn boost_after(self, delta_time: int) -> int {
        if self.perfect_shift_boost > 0 {
            clamp(self.perfect_shift_boost - delta_time, 0, i64::MAX as int)
        } else {
            self.perfect_shift_boost as int
        }
    }

    /// The velocity after `delta_time` under the acceleration of the current
    /// state, with the boost already decayed; never below zero.
    pub open spec fn velocity_after(self, car: CarView, delta_time: int) -> int {
        let accel = acceleration(
            car,
            self.velocity as int,
            self.rpm as int,
            self.gear as int,
            self.throttle as int,
            self.nos_active,
            self.boost_after(delta_time),
        );
        clamp(self.velocity + accel * delta_time / (MICRO as int), 0, i64::MAX as int)
    }

    /// First part of a tick: the boost decays, the velocity is integrated and
    /// then the position with the new velocity, the top speed follows, and the
    /// engine speed is taken from the new velocity in the current gear.
    pub open spec fn moved(self, car: CarView, delta_time: int) -> RaceCarState {
        let velocity = self.velocity_after(car, delta_time);
        RaceCarState {
            perfect_shift_boost: self.boost_after(delta_time) as i64,
            velocity: velocity as i64,
            position: clamp_i64(self.position + velocity * delta_time / (MICRO as int)) as i64,
            top_speed: if velocity > self.top_speed {
                velocity as i64
            } else {
                self.top_speed
            },
            rpm: if self.gear < car.gears() {
                engine_rpm(velocity, car.gear_ratios[self.gear as int] as int) as u32
            } else {
                self.rpm
            },
            ..self
        }
    }

    /// Whether the engine runs hot: above 90% of the redline.
    pub open spec fn runs_hot(self, car: CarView) -> bool {
        10 * self.rpm > 9 * car.redline
    }

    /// The engine heat after `delta_time` at the current engine speed.
    pub open spec fn heat_after(self, car: CarView, delta_time: int) -> int {
        if self.runs_hot(car) {
            clamp(self.engine_heat + delta_time * HEATING_RATE / (MICRO as int), 0, MICRO as int)
        } else {
            clamp(self.engine_heat - delta_time * COOLING_RATE / (MICRO as int), 0, MICRO as int)
        }
    }

    /// Second part of a tick: the engine heats or cools, and at full heat it
    /// blows, which stops the car.
    pub open spec fn heated(self, car: CarView, delta_time: int) -> RaceCarState {
        let heat = self.heat_after(car, delta_time);
        if heat >= MICRO {
            RaceCarState { engine_heat: heat as i64, blown_engine: true, velocity: 0, ..self }
        } else {
            RaceCarState { engine_heat: heat as i64, ..self }
        }
    }

    /// Third part of a tick: active nitrous drains by `delta_time` and goes
    /// off when none is left.
    pub open spec fn drained(self, delta_time: int) -> RaceCarState {
        if !self.nos_active {
            self
        } else if self.nos_remaining - delta_time <= 0 {
            RaceCarState { nos_remaining: 0, nos_active: false, ..self }
        } else {
            RaceCarState { nos_remaining: (self.nos_remaining - delta_time) as i64, ..self }
        }
    }

    /// Whether the safety shift is due: the engine is over the redline and a
    /// higher gear is left.
    pub open spec fn over_redline(self, car: CarView) -> bool {
        self.rpm > car.redline && self.gear < car.top_gear()
    }

    /// Last part of a tick: the safety shift, where it is due.
    pub open spec fn guarded(self, car: CarView) -> RaceCarState {
        if self.over_redline(car) {
            self.shifted_up(car)
        } else {
            self
        }
    }

    /// The state after one tick of `delta_time`. A tick that is not positive,
    /// or on a car that no longer runs, changes nothing.
    #[verifier::opaque]
    pub open spec fn ticked(self, car: CarView, delta_time: int) -> RaceCarState {
        if delta_time <= 0 || !self.is_running() {
            self
        } else {
            self.moved(car, delta_time).heated(car, delta_time).drained(delta_time).guarded(car)
        }
    }

    /// A shift keeps the state well formed and consistent, moves the gear up
    /// by one step at most, and touches nothing but the gear, the engine speed
    /// and the record of shifts.
    pub proof fn lemma_shifted_up(self, car: CarView)
        requires
            car.wf(),
            self.wf(car),
        ensures
            self.shifted_up(car).wf(car),
            self.consistent() ==> self.shifted_up(car).consistent(),
            self.shifted_up(car).gear == if self.gear < car.top_gear() {
                self.gear + 1
            } else {
                self.gear as int
            },
            self.shifted_up(car) == (RaceCarState {
                gear: self.shifted_up(car).gear,
                rpm: self.shifted_up(car).rpm,
                last_shift_quality: self.shifted_up(car).last_shift_quality,
                perfect_shifts: self.shifted_up(car).perfect_shifts,
                perfect_shift_boost: self.shifted_up(car).perfect_shift_boost,
                ..self
            }),
    {
    }

    /// The first three parts of a tick keep the state well formed and
    /// consistent and leave the gear, the throttle and the recorded times
    /// alone; the position does not fall.
    pub proof fn lemma_tick_parts(self, car: CarView, delta_time: int)
        requires
            car.wf(),
            self.wf(car),
            self.is_running(),
            delta_time > 0,
        ensures
            ({
                let after = self.moved(car, delta_time).heated(car, delta_time).drained(delta_time);
                &&& after.wf(car)
                &&& self.consistent() ==> after.consistent()
                &&& after.gear == self.gear
                &&& after.throttle == self.throttle
                &&& after.finish_time == self.finish_time
                &&& after.reaction_time == self.reaction_time
                &&& after.position >= self.position
            }),
    {
        self.lemma_moved(car, delta_time);
    }

    /// The first part of a tick keeps the state well formed and consistent; it
    /// changes the boost, the velocity, the position, the top speed and the
    /// engine speed, and nothing else.
    pub proof fn lemma_moved(self, car: CarView, delta_time: int)
        requires
            car.wf(),
            self.wf(car),
            self.is_running(),
            delta_time > 0,
        ensures
            self.moved(car, delta_time).wf(car),
            self.consistent() ==> self.moved(car, delta_time).consistent(),
            self.moved(car, delta_time).position >= self.position,
            self.moved(car, delta_time) == (RaceCarState {
                perfect_shift_boost: self.moved(car, delta_time).perfect_shift_boost,
                velocity: self.moved(car, delta_time).velocity,
                position: self.moved(car, delta_time).position,
                top_speed: self.moved(car, delta_time).top_speed,
                rpm: self.moved(car, delta_time).rpm,
                ..self
            }),
    {
        let velocity = self.velocity_after(car, delta_time);
        assert(velocity * delta_time >= 0) by (nonlinear_arith)
            requires
                velocity >= 0,
                delta_time > 0,
        ;
        lemma_engine_rpm_bounds(velocity, car.gear_ratios[self.gear as int] as int);
    }

    /// A tick keeps the state well formed and consistent. It changes nothing
    /// when it is not positive or the car no longer runs. It never touches the
    /// throttle or the recorded times, the position does not fall, and the
    /// gear stays or goes up by one.
    pub proof fn lemma_ticked(self, car: CarView, delta_time: int)
        requires
            car.wf(),
            self.wf(car),
        ensures
            self.ticked(car, delta_time).wf(car),
            self.consistent() ==> self.ticked(car, delta_time).consistent(),
            delta_time <= 0 || !self.is_running() ==> self.ticked(car, delta_time) == self,
            self.ticked(car, delta_time).throttle == self.throttle,
            self.ticked(car, delta_time).finish_time == self.finish_time,
            self.ticked(car, delta_time).reaction_time == self.reaction_time,
            self.ticked(car, delta_time).position >= self.position,
            self.ticked(car, delta_time).gear == self.gear || self.ticked(car, delta_time).gear
                == self.gear + 1,
    {
        reveal(RaceCarState::ticked);
        if delta_time > 0 && self.is_running() {
            self.lemma_tick_parts(car, delta_time);
            self.moved(car, delta_time).heated(car, delta_time).drained(
                delta_time,
            ).lemma_shifted_up(car);
        }
    }

    /// A car that waits at the line.
    pub fn new() -> (state: RaceCarState)
        ensures
            state == RaceCarState::initial(),
            state.consistent(),
            forall|car: CarView| car.wf() ==> #[trigger] state.wf(car),
    {
        RaceCarState {
            position: 0,
            velocity: 0,
            rpm: INITIAL_RPM,
            gear: 0,
            throttle: 0,
            nos_remaining: INITIAL_NOS,
            nos_active: false,
            engine_heat: 0,
            reaction_time: None,
            finish_time: None,
            top_speed: 0,
            perfect_shifts: 0,
            blown_engine: false,
            perfect_shift_boost: 0,
            last_shift_quality: None,
        }
    }

    /// Whether the state is well formed for `car`; public fields can be set
    /// to anything.
    pub fn is_valid(&self, car: &Car) -> (ok: bool)
        ensures
            ok == self.wf(car@),
    {
        (self.gear as usize) < car.gear_ratios.len() && self.perfect_shifts <= self.gear
            && self.velocity >= 0 && 0 <= self.throttle && self.throttle <= MICRO
            && self.nos_remaining >= 0 && 0 <= self.engine_heat && self.engine_heat <= MICRO && (
        !self.blown_engine || self.velocity == 0) && self.perfect_shift_boost >= 0
    }

    /// Whether the records of the state agree with each other.
    pub fn is_consistent(&self) -> (ok: bool)
        ensures
            ok == self.consistent(),
    {
        self.position >= 0 && self.velocity <= self.top_speed && (!self.nos_active
            || self.nos_remaining > 0) && self.blown_engine == (self.engine_heat == MICRO)
    }

    /// Shifts into the next gear, if there is one.
    pub fn shift_up(&mut self, car: &Car)
        requires
            car.wf(),
            old(self).wf(car@),
        ensures
            *final(self) == old(self).shifted_up(car@),
            final(self).wf(car@),
            old(self).consistent() ==> final(self).consistent(),
            old(self).gear >= car@.top_gear() ==> *final(self) == *old(self),
            old(self).gear < car@.top_gear() ==> final(self).gear == old(self).gear + 1,
    {
        if self.gear as usize >= car.gear_ratios.len() - 1 {
            return ;
        }
        let quality = calculate_shift_quality(self.rpm, car.redline);
        self.last_shift_quality = Some(quality);
        if quality == ShiftQuality::Perfect {
            self.perfect_shifts += 1;
            self.perfect_shift_boost = PERFECT_SHIFT_BOOST;
        }
        self.gear += 1;
        self.rpm = ((self.rpm as u64) * 65 / 100) as u32;
    }
}

} // verus!
