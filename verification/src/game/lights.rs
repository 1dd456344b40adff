//! The countdown lights at the start line.

use vstd::prelude::*;
use crate::game::units::{clamp_i64, saturate};

verus! {

/// How long each countdown light holds before the next one comes on: half a
/// second, in millionths of a second.
pub const LIGHT_INTERVAL: i64 = 500_000;

/// The phases of the start sequence, in the order in which they come.
#[derive(Debug, Clone, Copy, PartialEq, Eq, Structural)]
pub enum LightState {
    PreStage,
    Staged,
    Yellow1,
    Yellow2,
    Yellow3,
    Green,
    Racing,
}

impl LightState {
    /// Whether the phase ends by itself once `LIGHT_INTERVAL` has passed.
    /// `Green` waits for the driver and `Racing` is the end.
    pub open spec fn is_timed(self) -> bool {
        self != LightState::Green && self != LightState::Racing
    }

    /// The phase that follows a timed phase; `Green` and `Racing` follow
    /// themselves.
    pub open spec fn next(self) -> LightState {
        match self {
            LightState::PreStage => LightState::Staged,
            LightState::Staged => LightState::Yellow1,
            LightState::Yellow1 => LightState::Yellow2,
            LightState::Yellow2 => LightState::Yellow3,
            LightState::Yellow3 => LightState::Green,
            LightState::Green => LightState::Green,
            LightState::Racing => LightState::Racing,
        }
    }

    /// Whether one of the three yellow lights is on.
    pub open spec fn is_yellow(self) -> bool {
        self == LightState::Yellow1 || self == LightState::Yellow2 || self == LightState::Yellow3
    }
}

/// The start lights: the phase that shows and how long it has shown, in
/// millionths of a second.
#[derive(Debug, Clone, Copy)]
pub struct ChristmasTree {
    pub state: LightState,
    pub state_timer: i64,
}

impl ChristmasTree {
    /// Whether a step of `delta_time` ends the current phase.
    pub open spec fn expires(self, delta_time: int) -> bool {
        delta_time > 0 && self.state.is_timed() && self.state_timer + delta_time >= LIGHT_INTERVAL
    }

    /// The lights after a step of `delta_time`. A step that is not positive
    /// changes nothing. Otherwise the time is added to the timer, and a timed
    /// phase whose timer has reached `LIGHT_INTERVAL` gives way to the next
    /// with the timer back at zero: at most one phase per step.
    pub open spec fn advanced(self, delta_time: int) -> ChristmasTree {
        if delta_time <= 0 {
            self
        } else if self.expires(delta_time) {
            ChristmasTree { state: self.state.next(), state_timer: 0 }
        } else {
            ChristmasTree {
                state: self.state,
                state_timer: clamp_i64(self.state_timer + delta_time) as i64,
            }
        }
    }

    /// Whether a step of `delta_time` turns the lights green.
    pub open spec fn turns_green(self, delta_time: int) -> bool {
        self.state == LightState::Yellow3 && self.expires(delta_time)
    }

    /// The lights before the sequence begins.
    pub fn new() -> (tree: ChristmasTree)
        ensures
            tree == (ChristmasTree { state: LightState::PreStage, state_timer: 0 }),
    {
        ChristmasTree { state: LightState::PreStage, state_timer: 0 }
    }

    /// Lets `delta_time` pass and says whether the lights turned green in this
    /// step, which they do once.
    pub fn update(&mut self, delta_time: i64) -> (go: bool)
        ensures
            *final(self) == old(self).advanced(delta_time as int),
            go == old(self).turns_green(delta_time as int),
            go ==> final(self).state == LightState::Green,
            old(self).state == LightState::Green || old(self).state == LightState::Racing ==> !go
                && final(self).state == old(self).state,
            final(self).state == LightState::Racing ==> old(self).state == LightState::Racing,
    {
        if delta_time <= 0 {
            return false;
        }
        let elapsed: i128 = self.state_timer as i128 + delta_time as i128;
        let expired = elapsed >= LIGHT_INTERVAL as i128;
        match self.state {
            LightState::PreStage if expired => {
                self.state = LightState::Staged;
                self.state_timer = 0;
            },
            LightState::Staged if expired => {
                self.state = LightState::Yellow1;
                self.state_timer = 0;
            },
            LightState::Yellow1 if expired => {
                self.state = LightState::Yellow2;
                self.state_timer = 0;
            },
            LightState::Yellow2 if expired => {
                self.state = LightState::Yellow3;
                self.state_timer = 0;
            },
            LightState::Yellow3 if expired => {
                self.state = LightState::Green;
                self.state_timer = 0;
                return true;
            },
            _ => {
                self.state_timer = saturate(elapsed);
            },
        }
        false
    }
}

} // verus!
