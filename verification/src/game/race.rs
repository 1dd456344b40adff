//! The race: two cars, the start lights and the opponent's driver, advanced
//! tick by tick and steered by the player's inputs.

use vstd::prelude::*;
use crate::game::ai::{NosStrategy, AI, SHIFT_TIMING_VARIANCE};
use crate::game::car::{Car, CarView};
use crate::game::lights::{ChristmasTree, LightState};
use crate::game::physics::{calculate_acceleration, calculate_rpm};
use crate::game::state::{RaceCarState, COOLING_RATE, HEATING_RATE, INITIAL_NOS, INITIAL_RPM};
use crate::game::units::{clamp, clamp_i64, floor_div, saturate, MICRO};

verus! {

/// The length of the track, a quarter mile: 402.336 m, in millionths of a
/// metre.
pub const FINISH_LINE: i64 = 402_336_000;

/// The reaction time on record for a driver who jumped the start.
pub const FALSE_START: i64 = -1_000_000;

/// The reaction time of the opponent's driver: 0.15 s.
pub const OPPONENT_REACTION_TIME: i64 = 150_000;

/// Who won.
#[derive(Debug, Clone, Copy, PartialEq, Eq, Structural)]
pub enum Winner {
    Player,
    Opponent,
}

/// A race from the first light to the finish.
pub struct RaceState {
    pub player: RaceCarState,
    pub opponent: RaceCarState,
    pub player_car: Car,
    pub opponent_car: Car,
    pub christmas_tree: ChristmasTree,
    pub race_started: bool,
    pub race_finished: bool,
    pub winner: Option<Winner>,
    /// Time raced since the start, in millionths of a second.
    pub elapsed_time: i64,
    pub ai: AI,
}

/// A race as contracts see it: the same fields, with each profile by its view.
pub struct RaceView {
    pub player: RaceCarState,
    pub opponent: RaceCarState,
    pub player_car: CarView,
    pub opponent_car: CarView,
    pub christmas_tree: ChristmasTree,
    pub race_started: bool,
    pub race_finished: bool,
    pub winner: Option<Winner>,
    pub elapsed_time: i64,
    pub ai: AI,
}

impl View for RaceState {
    type V = RaceView;

    open spec fn view(&self) -> RaceView {
        RaceView {
            player: self.player,
            opponent: self.opponent,
            player_car: self.player_car@,
            opponent_car: self.opponent_car@,
            christmas_tree: self.christmas_tree,
            race_started: self.race_started,
            race_finished: self.race_finished,
            winner: self.winner,
            elapsed_time: self.elapsed_time,
            ai: self.ai,
        }
    }
}

impl RaceCarState {
    /// Whether the car is over the line with no finish time on record yet.
    pub open spec fn crosses_line(self) -> bool {
        self.position >= FINISH_LINE && self.finish_time is None
    }

    /// The state with `time` put on record as the finish time, if the car is
    /// over the line and has none yet.
    pub open spec fn finished_at(self, time: i64) -> RaceCarState {
        if self.crosses_line() {
            RaceCarState { finish_time: Some(time), ..self }
        } else {
            self
        }
    }

    /// What a race keeps true of each car's finish time at `elapsed_time`: it
    /// is on record exactly when the car is over the line, and was taken from
    /// the race clock.
    pub open spec fn finish_recorded(self, elapsed_time: int) -> bool {
        &&& self.finish_time is Some <==> self.position >= FINISH_LINE
        &&& self.finish_time matches Some(time) ==> 0 <= time <= elapsed_time
    }
}

impl RaceView {
    /// Whether the player jumped the start.
    pub open spec fn false_started(self) -> bool {
        self.player.reaction_time == Some(FALSE_START)
    }

    /// Whether both cars have a finish time.
    pub open spec fn both_finished(self) -> bool {
        self.player.finish_time is Some && self.opponent.finish_time is Some
    }

    /// What holds of the winner at all times. Nobody has won while no car has
    /// finished and the start was clean. After a false start the opponent has
    /// won. Otherwise the winner has a finish time and the other car none or
    /// no earlier one; where the opponent has won, the player's is later,
    /// unless the race clock has run out.
    pub open spec fn winner_decided(self) -> bool {
        &&& self.winner is None <==> !self.false_started() && self.player.finish_time is None
            && self.opponent.finish_time is None
        &&& self.false_started() ==> self.winner == Some(Winner::Opponent)
        &&& self.winner == Some(Winner::Player) ==> self.player.finish_time is Some && (
        self.opponent.finish_time is Some ==> self.player.finish_time->0
            <= self.opponent.finish_time->0)
        &&& self.winner == Some(Winner::Opponent) && !self.false_started()
            ==> self.opponent.finish_time is Some && (self.player.finish_time is Some ==> (
        self.opponent.finish_time->0 < self.player.finish_time->0 || self.player.finish_time->0
            == i64::MAX))
    }

    /// Whether nothing has moved yet: both cars are as they were put to the
    /// line and the race clock stands at zero.
    pub open spec fn waits_at_line(self) -> bool {
        &&& self.player == RaceCarState::initial()
        &&& self.opponent == RaceCarState::initial()
        &&& self.elapsed_time == 0
    }

    /// Whether both profiles are usable and both cars' states well formed.
    pub open spec fn wf(self) -> bool {
        &&& self.player_car.wf()
        &&& self.opponent_car.wf()
        &&& self.player.wf(self.player_car)
        &&& self.opponent.wf(self.opponent_car)
    }

    /// Whether the records of the race agree with each other, as they do in
    /// every state that a race reaches from its beginning. Each car's state is
    /// consistent. The race has started exactly when the lights show `Racing`
    /// and exactly when the player has a reaction time, which is zero or more
    /// or `FALSE_START`; before that nothing has moved. The opponent's driver
    /// has launched exactly after a clean start. The race is finished exactly
    /// after a false start, which leaves both cars without a finish time, or
    /// with both finish times on record, and those and the winner are as
    /// `finish_recorded` and `winner_decided` say.
    pub open spec fn consistent(self) -> bool {
        &&& self.player.consistent()
        &&& self.opponent.consistent()
        &&& self.elapsed_time >= 0
        &&& self.race_started <==> self.christmas_tree.state == LightState::Racing
        &&& self.race_started <==> self.player.reaction_time is Some
        &&& !self.race_started ==> self.waits_at_line()
        &&& self.player.reaction_time matches Some(time) ==> time >= 0 || time == FALSE_START
        &&& self.ai.has_launched <==> self.race_started && !self.false_started()
        &&& self.race_finished <==> self.false_started() || self.both_finished()
        &&& self.false_started() ==> self.player.finish_time is None
            && self.opponent.finish_time is None
        &&& self.player.finish_recorded(self.elapsed_time as int)
        &&& self.opponent.finish_recorded(self.elapsed_time as int)
        &&& self.winner_decided()
    }

    /// A race before its first tick: both cars at the line, the lights at the
    /// first phase, and the opponent's driver waiting.
    pub open spec fn initial(player_car: CarView, opponent_car: CarView) -> RaceView {
        RaceView {
            player: RaceCarState::initial(),
            opponent: RaceCarState::initial(),
            player_car,
            opponent_car,
            christmas_tree: ChristmasTree { state: LightState::PreStage, state_timer: 0 },
            race_started: false,
            race_finished: false,
            winner: None,
            elapsed_time: 0,
            ai: AI {
                reaction_time: OPPONENT_REACTION_TIME,
                has_launched: false,
                shift_timing_variance: SHIFT_TIMING_VARIANCE,
                nos_strategy: NosStrategy::Late,
            },
        }
    }

    /// The race after a tick of `delta_time`.
    ///
    /// A tick that is not positive, or on a finished race, changes nothing.
    /// Before the start only the lights advance. After it the race clock
    /// advances, the player's car is ticked, the opponent's driver acts and
    /// the opponent's car is ticked; a car that is over the line for the first
    /// time gets the clock as its finish time; the first to cross wins, the
    /// player where both cross in one tick; and with both finish times on
    /// record the race is finished.
    pub open spec fn ticked(self, delta_time: int) -> RaceView {
        if delta_time <= 0 || self.race_finished {
            self
        } else if !self.race_started {
            RaceView { christmas_tree: self.christmas_tree.advanced(delta_time), ..self }
        } else {
            let elapsed = clamp_i64(self.elapsed_time + delta_time) as i64;
            let player = self.player.ticked(self.player_car, delta_time);
            let opponent = self.ai.driven(self.opponent, self.opponent_car).ticked(
                self.opponent_car,
                delta_time,
            );
            RaceView {
                player: player.finished_at(elapsed),
                opponent: opponent.finished_at(elapsed),
                elapsed_time: elapsed,
                winner: if self.winner is Some {
                    self.winner
                } else if player.crosses_line() {
                    Some(Winner::Player)
                } else if opponent.crosses_line() {
                    Some(Winner::Opponent)
                } else {
                    None
                },
                race_finished: player.finished_at(elapsed).finish_time is Some
                    && opponent.finished_at(elapsed).finish_time is Some,
                ..self
            }
        }
    }

    /// The race after the player has pressed the throttle, `since_green`
    /// after the lights turned green.
    ///
    /// Before the start it depends on the lights. On green the race starts:
    /// the reaction time goes on record (`since_green`, or zero if that is
    /// negative), the lights go to `Racing`, the opponent launches and the
    /// player's throttle is floored. On a yellow light it is a false start:
    /// `FALSE_START` goes on record as the reaction time, the race is started
    /// and finished at once with the opponent as winner, and the lights go to
    /// `Racing`. Before the yellow lights nothing happens. Once the race has
    /// started, the player's throttle is floored.
    pub open spec fn throttle_pressed(self, since_green: int) -> RaceView {
        if self.race_started {
            RaceView { player: RaceCarState { throttle: MICRO, ..self.player }, ..self }
        } else if self.christmas_tree.state == LightState::Green {
            RaceView {
                player: RaceCarState {
                    reaction_time: Some(clamp(since_green, 0, i64::MAX as int) as i64),
                    throttle: MICRO,
                    ..self.player
                },
                opponent: RaceCarState {
                    reaction_time: Some(self.ai.reaction_time),
                    throttle: MICRO,
                    ..self.opponent
                },
                ai: AI { has_launched: true, ..self.ai },
                christmas_tree: ChristmasTree { state: LightState::Racing, ..self.christmas_tree },
                race_started: true,
                ..self
            }
        } else if self.christmas_tree.state.is_yellow() {
            RaceView {
                player: RaceCarState { reaction_time: Some(FALSE_START), ..self.player },
                christmas_tree: ChristmasTree { state: LightState::Racing, ..self.christmas_tree },
                race_started: true,
                race_finished: true,
                winner: Some(Winner::Opponent),
                ..self
            }
        } else {
            self
        }
    }

    /// The race after the player has let go of the throttle: once the race
    /// has started the player's throttle is closed.
    pub open spec fn throttle_released(self) -> RaceView {
        if self.race_started {
            RaceView { player: RaceCarState { throttle: 0, ..self.player }, ..self }
        } else {
            self
        }
    }

    /// The race after the player has asked for the next gear: once the race
    /// has started the player's car shifts up.
    pub open spec fn player_shifted(self) -> RaceView {
        if self.race_started {
            RaceView { player: self.player.shifted_up(self.player_car), ..self }
        } else {
            self
        }
    }

    /// The race after the player has opened the nitrous: it comes on once the
    /// race has started, if some is left.
    pub open spec fn nos_activated(self) -> RaceView {
        if self.race_started && self.player.nos_remaining > 0 {
            RaceView { player: RaceCarState { nos_active: true, ..self.player }, ..self }
        } else {
            self
        }
    }

    /// The race after the player has closed the nitrous: it goes off once the
    /// race has started.
    pub open spec fn nos_deactivated(self) -> RaceView {
        if self.race_started {
            RaceView { player: RaceCarState { nos_active: false, ..self.player }, ..self }
        } else {
            self
        }
    }

    /// How far along the track a position is: the share of `FINISH_LINE`, in
    /// millionths, and no more than `MICRO`.
    pub open spec fn progress(position: int) -> int {
        let share = position * MICRO / (FINISH_LINE as int);
        if share > MICRO {
            MICRO as int
        } else {
            share
        }
    }

}

impl RaceState {
    /// See [`RaceView::wf`].
    pub open spec fn wf(&self) -> bool {
        self@.wf()
    }

    /// See [`RaceView::consistent`].
    pub open spec fn consistent(&self) -> bool {
        self@.consistent()
    }

    /// Whether the finish time of a car agrees with its position and with
    /// the race clock at `elapsed_time`.
    fn finish_is_recorded(state: &RaceCarState, elapsed_time: i64) -> (ok: bool)
        ensures
            ok == state.finish_recorded(elapsed_time as int),
    {
        match state.finish_time {
            Some(time) => state.position >= FINISH_LINE && 0 <= time && time <= elapsed_time,
            None => state.position < FINISH_LINE,
        }
    }

    /// Whether the winner on record agrees with the finish times.
    fn winner_is_decided(&self) -> (ok: bool)
        ensures
            ok == self@.winner_decided(),
    {
        let jumped = match self.player.reaction_time {
            Some(time) => time == FALSE_START,
            None => false,
        };
        match self.winner {
            None => !jumped && self.player.finish_time.is_none()
                && self.opponent.finish_time.is_none(),
            Some(Winner::Player) => !jumped && match self.player.finish_time {
                None => false,
                Some(player_time) => match self.opponent.finish_time {
                    None => true,
                    Some(opponent_time) => player_time <= opponent_time,
                },
            },
            Some(Winner::Opponent) => jumped || match self.opponent.finish_time {
                None => false,
                Some(opponent_time) => match self.player.finish_time {
                    None => true,
                    Some(player_time) => opponent_time < player_time || player_time == i64::MAX,
                },
            },
        }
    }

    /// Whether the race is well formed; public fields can be set to anything.
    pub fn is_valid(&self) -> (ok: bool)
        ensures
            ok == self.wf(),
    {
        self.player_car.is_valid() && self.opponent_car.is_valid() && self.player.is_valid(
            &self.player_car,
        ) && self.opponent.is_valid(&self.opponent_car)
    }

    /// Whether the records of the race agree with each other.
    pub fn is_consistent(&self) -> (ok: bool)
        ensures
            ok == self.consistent(),
    {
        let jumped = match self.player.reaction_time {
            Some(time) => time == FALSE_START,
            None => false,
        };
        let reaction_fits = match self.player.reaction_time {
            Some(time) => self.race_started && (time >= 0 || time == FALSE_START),
            None => !self.race_started,
        };
        let both_finished = self.player.finish_time.is_some()
            && self.opponent.finish_time.is_some();
        let waits = self.race_started || (Self::is_initial(&self.player) && Self::is_initial(
            &self.opponent,
        ) && self.elapsed_time == 0);
        self.player.is_consistent() && self.opponent.is_consistent() && self.elapsed_time >= 0
            && self.race_started == (self.christmas_tree.state == LightState::Racing)
            && reaction_fits && waits && self.ai.has_launched == (self.race_started && !jumped)
            && self.race_finished == (jumped || both_finished) && (!jumped || (
        self.player.finish_time.is_none() && self.opponent.finish_time.is_none()))
            && Self::finish_is_recorded(&self.player, self.elapsed_time)
            && Self::finish_is_recorded(&self.opponent, self.elapsed_time)
            && self.winner_is_decided()
    }

    /// Whether a car's state is that of a car waiting at the line.
    fn is_initial(state: &RaceCarState) -> (ok: bool)
        ensures
            ok == (*state == RaceCarState::initial()),
    {
        state.position == 0 && state.velocity == 0 && state.rpm == INITIAL_RPM && state.gear == 0
            && state.throttle == 0 && state.nos_remaining == INITIAL_NOS && !state.nos_active
            && state.engine_heat == 0 && state.reaction_time.is_none()
            && state.finish_time.is_none() && state.top_speed == 0 && state.perfect_shifts == 0
            && !state.blown_engine && state.perfect_shift_boost == 0
            && state.last_shift_quality.is_none()
    }

    /// A new race between two profiles.
    pub fn new(player_car: Car, opponent_car: Car) -> (race: RaceState)
        requires
            player_car.wf(),
            opponent_car.wf(),
        ensures
            race.wf(),
            race.consistent(),
            race@ == RaceView::initial(player_car@, opponent_car@),
    {
        RaceState {
            player: RaceCarState::new(),
            opponent: RaceCarState::new(),
            player_car,
            opponent_car,
            christmas_tree: ChristmasTree::new(),
            race_started: false,
            race_finished: false,
            winner: None,
            elapsed_time: 0,
            ai: AI::new(OPPONENT_REACTION_TIME),
        }
    }

    /// Advances the race by `delta_time`: see [`RaceView::ticked`].
    pub fn update(&mut self, delta_time: i64)
        requires
            old(self).wf(),
        ensures
            final(self)@ == old(self)@.ticked(delta_time as int),
            final(self).wf(),
            old(self).consistent() ==> final(self).consistent(),
    {
        if delta_time <= 0 || self.race_finished {
            return ;
        }
        if !self.race_started {
            self.christmas_tree.update(delta_time);
            return ;
        }
        self.elapsed_time = saturate(self.elapsed_time as i128 + delta_time as i128);

        Self::update_car_static(&self.player_car, &mut self.player, delta_time);

        self.ai.update(&mut self.opponent, &self.opponent_car, delta_time);
        Self::update_car_static(&self.opponent_car, &mut self.opponent, delta_time);

        if self.player.position >= FINISH_LINE && self.player.finish_time.is_none() {
            self.player.finish_time = Some(self.elapsed_time);
            if self.winner.is_none() {
                self.winner = Some(Winner::Player);
            }
        }
        if self.opponent.position >= FINISH_LINE && self.opponent.finish_time.is_none() {
            self.opponent.finish_time = Some(self.elapsed_time);
            if self.winner.is_none() {
                self.winner = Some(Winner::Opponent);
            }
        }
        if self.player.finish_time.is_some() && self.opponent.finish_time.is_some() {
            self.race_finished = true;
        }
    }

    /// The player presses the throttle: see [`RaceView::throttle_pressed`].
    /// `since_green` is the time since the lights turned green, in millionths
    /// of a second; it is read only where the press starts the race.
    pub fn player_throttle(&mut self, since_green: i64)
        requires
            old(self).wf(),
        ensures
            final(self)@ == old(self)@.throttle_pressed(since_green as int),
            final(self).wf(),
            old(self).consistent() ==> final(self).consistent(),
    {
        if !self.race_started {
            match self.christmas_tree.state {
                LightState::Green => {
                    let reaction = if since_green < 0 {
                        0
                    } else {
                        since_green
                    };
                    self.player.reaction_time = Some(reaction);
                    self.race_started = true;
                    self.christmas_tree.state = LightState::Racing;
                    self.ai.start_race(&mut self.opponent);
                },
                LightState::Yellow1 | LightState::Yellow2 | LightState::Yellow3 => {
                    self.player.reaction_time = Some(FALSE_START);
                    self.race_started = true;
                    self.race_finished = true;
                    self.winner = Some(Winner::Opponent);
                    self.christmas_tree.state = LightState::Racing;
                    return ;
                },
                _ => {
                    return ;
                },
            }
        }
        if self.race_started {
            self.player.throttle = MICRO;
        }
    }

    /// The player lets go of the throttle: see
    /// [`RaceView::throttle_released`].
    pub fn player_release_throttle(&mut self)
        requires
            old(self).wf(),
        ensures
            final(self)@ == old(self)@.throttle_released(),
            final(self).wf(),
            old(self).consistent() ==> final(self).consistent(),
    {
        if self.race_started {
            self.player.throttle = 0;
        }
    }

    /// The player asks for the next gear: see [`RaceView::player_shifted`].
    pub fn player_shift_up(&mut self)
        requires
            old(self).wf(),
        ensures
            final(self)@ == old(self)@.player_shifted(),
            final(self).wf(),
            old(self).consistent() ==> final(self).consistent(),
    {
        if self.race_started {
            self.player.shift_up(&self.player_car);
        }
    }

    /// The player opens the nitrous: see [`RaceView::nos_activated`].
    pub fn player_activate_nos(&mut self)
        requires
            old(self).wf(),
        ensures
            final(self)@ == old(self)@.nos_activated(),
            final(self).wf(),
            old(self).consistent() ==> final(self).consistent(),
    {
        if self.race_started && self.player.nos_remaining > 0 {
            self.player.nos_active = true;
        }
    }

    /// The player closes the nitrous: see [`RaceView::nos_deactivated`].
    pub fn player_deactivate_nos(&mut self)
        requires
            old(self).wf(),
        ensures
            final(self)@ == old(self)@.nos_deactivated(),
            final(self).wf(),
            old(self).consistent() ==> final(self).consistent(),
    {
        if self.race_started {
            self.player.nos_active = false;
        }
    }

    /// Whether the race is over.
    pub fn is_finished(&self) -> (finished: bool)
        ensures
            finished == self.race_finished,
    {
        self.race_finished
    }

    /// The player's progress along the track: see [`RaceView::progress`].
    pub fn get_player_progress(&self) -> (share: i64)
        ensures
            share == RaceView::progress(self.player.position as int),
    {
        Self::progress_of(self.player.position)
    }

    /// The opponent's progress along the track: see [`RaceView::progress`].
    pub fn get_opponent_progress(&self) -> (share: i64)
        ensures
            share == RaceView::progress(self.opponent.position as int),
    {
        Self::progress_of(self.opponent.position)
    }

    fn progress_of(position: i64) -> (share: i64)
        ensures
            share == RaceView::progress(position as int),
    {
        let share: i128 = floor_div((position as i128) * (MICRO as i128), FINISH_LINE as i128);
        if share > MICRO as i128 {
            MICRO
        } else {
            saturate(share)
        }
    }

    /// First part of a car's tick: see [`RaceCarState::moved`].
    fn move_car(car: &Car, state: &mut RaceCarState, delta_time: i64)
        requires
            car.wf(),
            old(state).wf(car@),
            old(state).is_running(),
            delta_time > 0,
        ensures
            *final(state) == old(state).moved(car@, delta_time as int),
    {
        if state.perfect_shift_boost > 0 {
            state.perfect_shift_boost = if state.perfect_shift_boost > delta_time {
                state.perfect_shift_boost - delta_time
            } else {
                0
            };
        }
        let accel = calculate_acceleration(
            car,
            state.velocity,
            state.rpm,
            state.gear,
            state.throttle,
            state.nos_active,
            state.perfect_shift_boost,
        );
        assert(-85_100_000_000_000_000_000_000_000_000_000_000_000 <= accel * delta_time
            <= 85_100_000_000_000_000_000_000_000_000_000_000_000) by (nonlinear_arith)
            requires
                -9_223_372_036_854_775_808 <= accel <= 9_223_372_036_854_775_807,
                0 < delta_time <= 9_223_372_036_854_775_807,
        ;
        let gained: i128 = floor_div((accel as i128) * (delta_time as i128), MICRO as i128);
        let velocity: i128 = state.velocity as i128 + gained;
        state.velocity = if velocity < 0 {
            0
        } else {
            saturate(velocity)
        };
        assert(0 <= state.velocity * delta_time
            <= 85_100_000_000_000_000_000_000_000_000_000_000_000) by (nonlinear_arith)
            requires
                0 <= state.velocity <= 9_223_372_036_854_775_807,
                0 < delta_time <= 9_223_372_036_854_775_807,
        ;
        let travelled: i128 = floor_div(
            (state.velocity as i128) * (delta_time as i128),
            MICRO as i128,
        );
        state.position = saturate(state.position as i128 + travelled);
        if state.velocity > state.top_speed {
            state.top_speed = state.velocity;
        }
        if (state.gear as usize) < car.gear_ratios.len() {
            let gear_ratio = car.gear_ratios[state.gear as usize];
            state.rpm = calculate_rpm(state.velocity, gear_ratio);
        }
    }

    /// Second part of a car's tick: see [`RaceCarState::heated`].
    fn heat_car(car: &Car, state: &mut RaceCarState, delta_time: i64)
        requires
            car.wf(),
            0 <= old(state).engine_heat <= MICRO,
            delta_time > 0,
        ensures
            *final(state) == old(state).heated(car@, delta_time as int),
    {
        assert(0 <= delta_time * HEATING_RATE <= 3_000_000_000_000_000_000_000_000 && 0
            <= delta_time * COOLING_RATE <= 1_000_000_000_000_000_000_000_000)
            by (nonlinear_arith)
            requires
                0 < delta_time <= 9_223_372_036_854_775_807,
                HEATING_RATE == 300_000,
                COOLING_RATE == 100_000,
        ;
        let heat: i128 = if 10 * (state.rpm as u64) > 9 * (car.redline as u64) {
            state.engine_heat as i128 + (delta_time as i128) * (HEATING_RATE as i128) / (
            MICRO as i128)
        } else {
            state.engine_heat as i128 - (delta_time as i128) * (COOLING_RATE as i128) / (
            MICRO as i128)
        };
        state.engine_heat = if heat < 0 {
            0
        } else if heat > MICRO as i128 {
            MICRO
        } else {
            heat as i64
        };
        if state.engine_heat >= MICRO {
            state.blown_engine = true;
            state.velocity = 0;
        }
    }

    /// Third part of a car's tick: see [`RaceCarState::drained`].
    fn drain_car(state: &mut RaceCarState, delta_time: i64)
        requires
            old(state).nos_remaining >= 0,
            delta_time > 0,
        ensures
            *final(state) == old(state).drained(delta_time as int),
    {
        if state.nos_active {
            if state.nos_remaining <= delta_time {
                state.nos_remaining = 0;
                state.nos_active = false;
            } else {
                state.nos_remaining = state.nos_remaining - delta_time;
            }
        }
    }

    /// Advances one car by one tick: see [`RaceCarState::ticked`].
    pub fn update_car_static(car: &Car, state: &mut RaceCarState, delta_time: i64)
        requires
            car.wf(),
            old(state).wf(car@),
        ensures
            *final(state) == old(state).ticked(car@, delta_time as int),
            final(state).wf(car@),
            old(state).consistent() ==> final(state).consistent(),
            delta_time <= 0 || !old(state).is_running() ==> *final(state) == *old(state),
            final(state).throttle == old(state).throttle,
            final(state).finish_time == old(state).finish_time,
            final(state).reaction_time == old(state).reaction_time,
            final(state).position >= old(state).position,
    {
        proof {
            reveal(RaceCarState::ticked);
            old(state).lemma_ticked(car@, delta_time as int);
        }
        if delta_time <= 0 || state.blown_engine || state.finish_time.is_some() {
            return ;
        }
        proof {
            old(state).lemma_tick_parts(car@, delta_time as int);
        }
        Self::move_car(car, state, delta_time);
        Self::heat_car(car, state, delta_time);
        Self::drain_car(state, delta_time);
        if state.rpm > car.redline && (state.gear as usize) < car.gear_ratios.len() - 1 {
            state.shift_up(car);
        }
    }
}

} // verus!
