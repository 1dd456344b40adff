//! The scripted opponent: it floors the throttle, shifts late in the perfect
//! band and saves its nitrous for the last two gears.

use vstd::prelude::*;
use crate::game::car::{Car, CarView};
use crate::game::state::RaceCarState;
use crate::game::units::MICRO;

verus! {

/// How far above 88% of the redline the opponent shifts, in revolutions per
/// minute.
pub const SHIFT_TIMING_VARIANCE: u32 = 200;

/// When the opponent uses its nitrous.
#[derive(Debug, Clone, Copy, PartialEq, Eq, Structural)]
pub enum NosStrategy {
    /// In the last two gears.
    Late,
}

/// The opponent's driver.
#[derive(Debug, Clone, Copy)]
pub struct AI {
    /// The reaction time that is put on record at the start, in millionths of
    /// a second.
    pub reaction_time: i64,
    pub has_launched: bool,
    pub shift_timing_variance: u32,
    pub nos_strategy: NosStrategy,
}

impl AI {
    /// Whether the driver shifts now: the engine has reached 88% of the
    /// redline plus the variance, and a higher gear is left.
    pub open spec fn wants_shift(self, state: RaceCarState, car: CarView) -> bool {
        100 * state.rpm >= 88 * car.redline + 100 * self.shift_timing_variance && state.gear
            < car.top_gear()
    }

    /// Whether the driver opens the nitrous now: the car is in one of its last
    /// two gears and some is left.
    pub open spec fn wants_nos(self, state: RaceCarState, car: CarView) -> bool {
        state.gear + 2 >= car.gears() && state.nos_remaining > 0
    }

    /// The car's state after the driver has acted. Before the launch the
    /// driver does nothing. After it the throttle is floored, then comes the
    /// shift if one is wanted, then the nitrous, judged in the gear the car is
    /// then in.
    pub open spec fn driven(self, state: RaceCarState, car: CarView) -> RaceCarState {
        if !self.has_launched {
            state
        } else {
            let floored = RaceCarState { throttle: MICRO, ..state };
            let shifted = if self.wants_shift(floored, car) {
                floored.shifted_up(car)
            } else {
                floored
            };
            if self.wants_nos(shifted, car) {
                RaceCarState { nos_active: true, ..shifted }
            } else {
                shifted
            }
        }
    }

    /// The driver keeps the car's state well formed and consistent and touches
    /// only the throttle, the nitrous switch and, by a shift, what a shift
    /// touches. Once launched the driver never lifts, makes one shift at most,
    /// and opens the nitrous only in the last two gears.
    pub proof fn lemma_driven(self, state: RaceCarState, car: CarView)
        requires
            car.wf(),
            state.wf(car),
        ensures
            self.driven(state, car).wf(car),
            state.consistent() ==> self.driven(state, car).consistent(),
            !self.has_launched ==> self.driven(state, car) == state,
            self.driven(state, car) == (RaceCarState {
                throttle: self.driven(state, car).throttle,
                nos_active: self.driven(state, car).nos_active,
                gear: self.driven(state, car).gear,
                rpm: self.driven(state, car).rpm,
                last_shift_quality: self.driven(state, car).last_shift_quality,
                perfect_shifts: self.driven(state, car).perfect_shifts,
                perfect_shift_boost: self.driven(state, car).perfect_shift_boost,
                ..state
            }),
            self.driven(state, car).gear == state.gear || self.driven(state, car).gear
                == state.gear + 1,
            self.has_launched ==> self.driven(state, car).throttle == MICRO,
            self.driven(state, car).nos_active ==> state.nos_active || self.driven(state, car).gear
                + 2 >= car.gears(),
    {
        let floored = RaceCarState { throttle: MICRO, ..state };
        floored.lemma_shifted_up(car);
    }

    /// A driver with the given reaction time who has not launched yet.
    pub fn new(reaction_time: i64) -> (ai: AI)
        ensures
            ai == (AI {
                reaction_time,
                has_launched: false,
                shift_timing_variance: SHIFT_TIMING_VARIANCE,
                nos_strategy: NosStrategy::Late,
            }),
    {
        AI {
            reaction_time,
            has_launched: false,
            shift_timing_variance: SHIFT_TIMING_VARIANCE,
            nos_strategy: NosStrategy::Late,
        }
    }

    /// Launches the car: the driver's reaction time goes on record and the
    /// throttle is floored.
    pub fn start_race(&mut self, state: &mut RaceCarState)
        ensures
            *final(self) == (AI { has_launched: true, ..*old(self) }),
            *final(state) == (RaceCarState {
                reaction_time: Some(old(self).reaction_time),
                throttle: MICRO,
                ..*old(state)
            }),
    {
        state.reaction_time = Some(self.reaction_time);
        state.throttle = MICRO;
        self.has_launched = true;
    }

    /// Drives the car for one tick. The length of the tick plays no part.
    pub fn update(&mut self, state: &mut RaceCarState, car: &Car, _delta_time: i64)
        requires
            car.wf(),
            old(state).wf(car@),
        ensures
            *final(self) == *old(self),
            *final(state) == old(self).driven(*old(state), car@),
            final(state).wf(car@),
            old(state).consistent() ==> final(state).consistent(),
            !old(self).has_launched ==> *final(state) == *old(state),
    {
        if !self.has_launched {
            return ;
        }
        state.throttle = MICRO;

        let target: u64 = 88 * (car.redline as u64) + 100 * (self.shift_timing_variance as u64);
        if 100 * (state.rpm as u64) >= target && (state.gear as usize) < car.gear_ratios.len() - 1 {
            state.shift_up(car);
        }
        match self.nos_strategy {
            NosStrategy::Late => {
                if state.gear as usize + 2 >= car.gear_ratios.len() && state.nos_remaining > 0 {
                    state.nos_active = true;
                }
            },
        }
    }
}

} // verus!
