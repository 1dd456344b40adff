//! What holds of a race whatever is done to it: the inputs a race takes, the
//! race after any sequence of them, and the laws that every such sequence
//! obeys.

use vstd::prelude::*;
use crate::game::car::CarView;
use crate::game::physics::{
    acceleration, lemma_closed_throttle_slows, rpm_efficiency, rpm_fraction,
};
use crate::game::units::MICRO;
use crate::game::race::{RaceView, Winner, FINISH_LINE};
use crate::game::state::RaceCarState;

verus! {

/// One thing that can be done to a race: a tick of some length, or one of the
/// player's inputs.
pub enum RaceInput {
    /// Time passes, in millionths of a second.
    Tick(i64),
    /// The throttle is pressed, this long after the lights turned green.
    ThrottlePress(i64),
    ThrottleRelease,
    ShiftUp,
    NosOn,
    NosOff,
}

impl RaceView {
    /// The race after one input.
    pub open spec fn after(self, input: RaceInput) -> RaceView {
        match input {
            RaceInput::Tick(delta_time) => self.ticked(delta_time as int),
            RaceInput::ThrottlePress(since_green) => self.throttle_pressed(since_green as int),
            RaceInput::ThrottleRelease => self.throttle_released(),
            RaceInput::ShiftUp => self.player_shifted(),
            RaceInput::NosOn => self.nos_activated(),
            RaceInput::NosOff => self.nos_deactivated(),
        }
    }

    /// The race after a sequence of inputs, taken in order.
    pub open spec fn after_all(self, inputs: Seq<RaceInput>) -> RaceView
        decreases inputs.len(),
    {
        if inputs.len() == 0 {
            self
        } else {
            self.after_all(inputs.drop_last()).after(inputs.last())
        }
    }
}

/// What one input keeps true: the race stays well formed, and consistent if
/// it was, and keeps its profiles; a blown engine stays blown; a finish time on record stays; no
/// gear goes down; and only a throttle press starts a race.
pub proof fn lemma_input(race: RaceView, input: RaceInput)
    requires
        race.wf(),
    ensures
        race.after(input).wf(),
        race.consistent() ==> race.after(input).consistent(),
        race.after(input).player_car == race.player_car,
        race.after(input).opponent_car == race.opponent_car,
        race.player.blown_engine ==> race.after(input).player.blown_engine,
        race.opponent.blown_engine ==> race.after(input).opponent.blown_engine,
        race.player.finish_time is Some ==> race.after(input).player.finish_time
            == race.player.finish_time,
        race.opponent.finish_time is Some ==> race.after(input).opponent.finish_time
            == race.opponent.finish_time,
        race.after(input).player.gear >= race.player.gear,
        race.after(input).opponent.gear >= race.opponent.gear,
        !race.race_started && !(input is ThrottlePress) ==> !race.after(input).race_started,
{
    match input {
        RaceInput::Tick(delta_time) => {
            let driven = race.ai.driven(race.opponent, race.opponent_car);
            race.player.lemma_ticked(race.player_car, delta_time as int);
            race.ai.lemma_driven(race.opponent, race.opponent_car);
            driven.lemma_ticked(race.opponent_car, delta_time as int);
        },
        RaceInput::ShiftUp => {
            race.player.lemma_shifted_up(race.player_car);
        },
        _ => {},
    }
}

/// Any sequence of inputs leaves a well-formed race well formed, and
/// consistent if it was, with the profiles it had.
pub proof fn lemma_inputs(race: RaceView, inputs: Seq<RaceInput>)
    requires
        race.wf(),
    ensures
        race.after_all(inputs).wf(),
        race.consistent() ==> race.after_all(inputs).consistent(),
        race.after_all(inputs).player_car == race.player_car,
        race.after_all(inputs).opponent_car == race.opponent_car,
    decreases inputs.len(),
{
    if inputs.len() > 0 {
        lemma_inputs(race, inputs.drop_last());
        lemma_input(race.after_all(inputs.drop_last()), inputs.last());
    }
}

/// No car ever moves backwards: after any sequence of ticks and inputs the
/// velocity of either car is zero or more.
pub proof fn law_velocity_never_negative(race: RaceView, inputs: Seq<RaceInput>)
    requires
        race.wf(),
    ensures
        race.after_all(inputs).player.velocity >= 0,
        race.after_all(inputs).opponent.velocity >= 0,
{
    lemma_inputs(race, inputs);
}

/// A blown engine is final: once a car's engine has blown, no sequence of
/// ticks and inputs moves the car again or mends the engine.
pub proof fn law_blown_engine_is_final(race: RaceView, inputs: Seq<RaceInput>)
    requires
        race.wf(),
    ensures
        race.player.blown_engine ==> race.after_all(inputs).player.blown_engine
            && race.after_all(inputs).player.velocity == 0,
        race.opponent.blown_engine ==> race.after_all(inputs).opponent.blown_engine
            && race.after_all(inputs).opponent.velocity == 0,
    decreases inputs.len(),
{
    lemma_inputs(race, inputs);
    if inputs.len() > 0 {
        law_blown_engine_is_final(race, inputs.drop_last());
        lemma_inputs(race, inputs.drop_last());
        lemma_input(race.after_all(inputs.drop_last()), inputs.last());
    }
}

/// A finish time is final: once a car has one, no sequence of ticks and
/// inputs changes it.
pub proof fn law_finish_time_is_final(race: RaceView, inputs: Seq<RaceInput>)
    requires
        race.wf(),
    ensures
        race.player.finish_time is Some ==> race.after_all(inputs).player.finish_time
            == race.player.finish_time,
        race.opponent.finish_time is Some ==> race.after_all(inputs).opponent.finish_time
            == race.opponent.finish_time,
    decreases inputs.len(),
{
    if inputs.len() > 0 {
        law_finish_time_is_final(race, inputs.drop_last());
        lemma_inputs(race, inputs.drop_last());
        lemma_input(race.after_all(inputs.drop_last()), inputs.last());
    }
}

/// Nitrous never runs below empty, and it is never on with none left: after
/// any sequence of ticks and inputs, for either car.
pub proof fn law_nitrous_bound(race: RaceView, inputs: Seq<RaceInput>)
    requires
        race.wf(),
        race.consistent(),
    ensures
        race.after_all(inputs).player.nos_remaining >= 0,
        race.after_all(inputs).player.nos_remaining == 0 ==> !race.after_all(
            inputs,
        ).player.nos_active,
        race.after_all(inputs).opponent.nos_remaining >= 0,
        race.after_all(inputs).opponent.nos_remaining == 0 ==> !race.after_all(
            inputs,
        ).opponent.nos_active,
{
    lemma_inputs(race, inputs);
}

/// Nothing moves before the start: as long as no throttle press has started
/// the race, both cars stay as they were put to the line and the race clock
/// stands at zero, whatever ticks and inputs come.
pub proof fn law_nothing_moves_before_the_start(race: RaceView, inputs: Seq<RaceInput>)
    requires
        race.wf(),
        race.consistent(),
        !race.after_all(inputs).race_started,
    ensures
        race.after_all(inputs).player == RaceCarState::initial(),
        race.after_all(inputs).opponent == RaceCarState::initial(),
        race.after_all(inputs).elapsed_time == 0,
        race.after_all(inputs).winner is None,
{
    lemma_inputs(race, inputs);
}

/// The race is finished exactly when the player jumped the start or both
/// cars have a finish time: after any sequence of ticks and inputs.
pub proof fn law_finished_when_both_have_crossed(race: RaceView, inputs: Seq<RaceInput>)
    requires
        race.wf(),
        race.consistent(),
    ensures
        race.after_all(inputs).race_finished <==> race.after_all(inputs).false_started()
            || race.after_all(inputs).both_finished(),
        race.after_all(inputs).false_started() ==> race.after_all(inputs).winner == Some(
            Winner::Opponent,
        ) && race.after_all(inputs).opponent.finish_time is None,
{
    lemma_inputs(race, inputs);
}

/// The first to finish wins, and the player wins a tie. After any sequence
/// of ticks and inputs, with a clean start, both cars finished and the race
/// clock not run out: the player has won exactly when the player's finish
/// time is no later than the opponent's, and the opponent otherwise.
pub proof fn law_first_to_finish_wins(race: RaceView, inputs: Seq<RaceInput>)
    requires
        race.wf(),
        race.consistent(),
        race.after_all(inputs).both_finished(),
        !race.after_all(inputs).false_started(),
        race.after_all(inputs).elapsed_time < i64::MAX,
    ensures
        race.after_all(inputs).winner == Some(Winner::Player) <==> race.after_all(
            inputs,
        ).player.finish_time->0 <= race.after_all(inputs).opponent.finish_time->0,
        race.after_all(inputs).winner == Some(Winner::Opponent) <==> race.after_all(
            inputs,
        ).player.finish_time->0 > race.after_all(inputs).opponent.finish_time->0,
{
    lemma_inputs(race, inputs);
    let end = race.after_all(inputs);
    assert(end.winner == Some(Winner::Player) || end.winner == Some(Winner::Opponent));
}

/// The progress of a car is full exactly when the car is over the line, and
/// it is not negative for a car that is not behind the start line.
pub proof fn law_full_progress_at_the_line(position: int)
    ensures
        RaceView::progress(position) == MICRO <==> position >= FINISH_LINE,
        position >= 0 ==> RaceView::progress(position) >= 0,
        RaceView::progress(position) <= MICRO,
{
    assert(MICRO == 1_000_000 && FINISH_LINE == 402_336_000);
    assert(position * MICRO == position * 1_000_000) by (nonlinear_arith)
        requires
            MICRO == 1_000_000,
    ;
}

/// Gears only go up: after any sequence of ticks and inputs neither car is in
/// a lower gear than before.
pub proof fn law_gear_never_falls(race: RaceView, inputs: Seq<RaceInput>)
    requires
        race.wf(),
    ensures
        race.after_all(inputs).player.gear >= race.player.gear,
        race.after_all(inputs).opponent.gear >= race.opponent.gear,
    decreases inputs.len(),
{
    if inputs.len() > 0 {
        law_gear_never_falls(race, inputs.drop_last());
        lemma_inputs(race, inputs.drop_last());
        lemma_input(race.after_all(inputs.drop_last()), inputs.last());
    }
}

/// The efficiency curve: the engine never delivers more than its full torque,
/// it delivers all of it from 70% to 85% of the redline, and it works against
/// itself exactly from 142.5% of the redline on.
pub proof fn law_efficiency_curve(rpm: int, redline: int)
    requires
        rpm >= 0,
        redline > 0,
    ensures
        rpm_efficiency(rpm, redline) <= MICRO,
        rpm_efficiency(rpm, redline) <= 0 <==> rpm_fraction(rpm, redline) >= 1_425_000,
        700_000 <= rpm_fraction(rpm, redline) < 850_000 ==> rpm_efficiency(rpm, redline) == MICRO,
{
    assert(rpm * MICRO >= 0) by (nonlinear_arith)
        requires
            rpm >= 0,
    ;
    assert(rpm * MICRO / redline >= 0) by (nonlinear_arith)
        requires
            rpm * MICRO >= 0,
            redline > 0,
    ;
}

/// With the throttle closed a car never gains speed in a tick.
pub proof fn law_closed_throttle_never_speeds_up(
    state: RaceCarState,
    car: CarView,
    delta_time: int,
)
    requires
        car.wf(),
        state.wf(car),
        state.throttle == 0,
    ensures
        state.ticked(car, delta_time).velocity <= state.velocity,
{
    reveal(RaceCarState::ticked);
    if delta_time > 0 && state.is_running() {
        lemma_closed_throttle_slows(
            car,
            state.velocity as int,
            state.rpm as int,
            state.gear as int,
            state.nos_active,
            state.boost_after(delta_time),
        );
        let accel = acceleration(
            car,
            state.velocity as int,
            state.rpm as int,
            state.gear as int,
            0,
            state.nos_active,
            state.boost_after(delta_time),
        );
        assert(accel * delta_time <= 0) by (nonlinear_arith)
            requires
                accel <= 0,
                delta_time > 0,
        ;
        state.lemma_tick_parts(car, delta_time);
        state.moved(car, delta_time).heated(car, delta_time).drained(delta_time).lemma_shifted_up(
            car,
        );
    }
}

/// In one tick of a running car, active nitrous drains by the length of the
/// tick, and in the tick in which it runs out it goes off.
pub proof fn law_nitrous_drains(state: RaceCarState, car: CarView, delta_time: int)
    requires
        car.wf(),
        state.wf(car),
        state.is_running(),
        delta_time > 0,
    ensures
        ({
            let after = state.ticked(car, delta_time);
            &&& !state.nos_active ==> after.nos_remaining == state.nos_remaining
                && !after.nos_active
            &&& state.nos_active && state.nos_remaining > delta_time ==> after.nos_remaining
                == state.nos_remaining - delta_time && after.nos_active
            &&& state.nos_active && state.nos_remaining <= delta_time ==> after.nos_remaining == 0
                && !after.nos_active
        }),
{
    reveal(RaceCarState::ticked);
    state.lemma_tick_parts(car, delta_time);
    state.moved(car, delta_time).heated(car, delta_time).drained(delta_time).lemma_shifted_up(car);
}

/// The safety shift. In one tick of a running car, let the engine speed be
/// taken from the new velocity. If it is over the redline and a higher gear
/// is left, the tick makes exactly one shift: the gear goes up by one and the
/// engine speed drops to 65%. If not, the tick makes no shift. So after the
/// tick the engine is over the redline only in the top gear, or where 65% of
/// that engine speed is still over it.
pub proof fn law_redline_safety_shift(state: RaceCarState, car: CarView, delta_time: int)
    requires
        car.wf(),
        state.wf(car),
        state.is_running(),
        delta_time > 0,
    ensures
        ({
            let rpm = state.moved(car, delta_time).rpm;
            let after = state.ticked(car, delta_time);
            &&& rpm > car.redline && state.gear < car.top_gear() ==> after.gear == state.gear + 1
                && after.rpm == rpm * 65 / 100
            &&& !(rpm > car.redline && state.gear < car.top_gear()) ==> after.gear == state.gear
                && after.rpm == rpm
            &&& after.rpm > car.redline ==> after.gear == car.top_gear() || rpm * 65 / 100
                > car.redline
        }),
{
    reveal(RaceCarState::ticked);
    state.lemma_tick_parts(car, delta_time);
    state.moved(car, delta_time).heated(car, delta_time).drained(delta_time).lemma_shifted_up(car);
}

} // verus!
