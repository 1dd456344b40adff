//! The application around a race: the screens, the choice of car and the keys
//! that are held down.

use vstd::prelude::*;
use crate::game::car::{Car, CarView};
use crate::game::race::{RaceState, RaceView};
use crate::game::units::{clamp_i64, saturate};

verus! {

/// How many cars there are to choose from.
pub const CAR_COUNT: usize = 3;

/// The screen that shows.
#[derive(Debug, Clone, Copy, PartialEq, Eq, Structural)]
pub enum AppState {
    Menu,
    Racing,
    Results,
}

/// Which of the keys that act while held are down.
#[derive(Debug, Clone, Copy)]
pub struct KeyStates {
    pub throttle_pressed: bool,
    pub nitrous_pressed: bool,
    pub shift_pressed: bool,
}

/// The application.
pub struct App {
    pub state: AppState,
    pub race_state: Option<RaceState>,
    pub player_car: Car,
    pub opponent_car: Car,
    pub should_quit: bool,
    pub selected_car_index: usize,
    pub key_states: KeyStates,
    pub audio_muted: bool,
}

/// The application as contracts see it: the race and the profiles by their
/// views.
pub struct AppView {
    pub state: AppState,
    pub race_state: Option<RaceView>,
    pub player_car: CarView,
    pub opponent_car: CarView,
    pub should_quit: bool,
    pub selected_car_index: usize,
    pub key_states: KeyStates,
    pub audio_muted: bool,
}

impl View for App {
    type V = AppView;

    open spec fn view(&self) -> AppView {
        AppView {
            state: self.state,
            race_state: match self.race_state {
                Some(race) => Some(race@),
                None => None,
            },
            player_car: self.player_car@,
            opponent_car: self.opponent_car@,
            should_quit: self.should_quit,
            selected_car_index: self.selected_car_index,
            key_states: self.key_states,
            audio_muted: self.audio_muted,
        }
    }
}

impl KeyStates {
    /// No key is down.
    pub open spec fn released() -> KeyStates {
        KeyStates { throttle_pressed: false, nitrous_pressed: false, shift_pressed: false }
    }
}

impl AppView {
    /// The cars to choose from, in the order of the menu.
    pub open spec fn available_cars() -> Seq<CarView> {
        seq![CarView::civic(), CarView::mustang(), CarView::gtr()]
    }

    /// What holds of the application at all times: the profiles are usable,
    /// the selection is one of the menu, and the race, if there is one, is
    /// well formed.
    pub open spec fn wf(self) -> bool {
        &&& self.player_car.wf()
        &&& self.opponent_car.wf()
        &&& self.selected_car_index < CAR_COUNT
        &&& self.race_state matches Some(race) ==> race.wf()
    }

    /// Whether the records of the application agree with each other: the
    /// player's car is the one that the menu has selected, and the race, if
    /// there is one, is consistent.
    pub open spec fn consistent(self) -> bool {
        &&& self.selected_car_index < CAR_COUNT ==> self.player_car
            == Self::available_cars()[self.selected_car_index as int]
        &&& self.race_state matches Some(race) ==> race.consistent()
    }

    /// The application as it starts: the menu, the first car selected against
    /// the second, no race, no key down, sound on.
    pub open spec fn initial() -> AppView {
        AppView {
            state: AppState::Menu,
            race_state: None,
            player_car: CarView::civic(),
            opponent_car: CarView::mustang(),
            should_quit: false,
            selected_car_index: 0,
            key_states: KeyStates::released(),
            audio_muted: false,
        }
    }

    /// The application after a race has been set up: all keys count as
    /// released, a new race between the two cars replaces any earlier one, and
    /// the race screen shows.
    pub open spec fn race_begun(self) -> AppView {
        AppView {
            key_states: KeyStates::released(),
            race_state: Some(RaceView::initial(self.player_car, self.opponent_car)),
            state: AppState::Racing,
            ..self
        }
    }

    /// The time since the lights turned green that a throttle press in the
    /// tick of `delta_time` reports: what the lights have counted, and this
    /// tick on top.
    pub open spec fn since_green(race: RaceView, delta_time: int) -> int {
        clamp_i64(
            race.christmas_tree.state_timer + if delta_time > 0 {
                delta_time
            } else {
                0
            },
        )
    }

    /// A race after one tick of the application: the held throttle key
    /// presses the throttle and the free one releases it, likewise for the
    /// nitrous, and then the race is ticked.
    pub open spec fn race_updated(race: RaceView, keys: KeyStates, delta_time: int) -> RaceView {
        let race = if keys.throttle_pressed {
            race.throttle_pressed(Self::since_green(race, delta_time))
        } else {
            race.throttle_released()
        };
        let race = if keys.nitrous_pressed {
            race.nos_activated()
        } else {
            race.nos_deactivated()
        };
        race.ticked(delta_time)
    }

    /// The application after a tick of `delta_time`. Without a race nothing
    /// changes. With one, the race is updated, and once it is finished the
    /// results show.
    pub open spec fn updated(self, delta_time: int) -> AppView {
        match self.race_state {
            None => self,
            Some(race) => {
                let race = Self::race_updated(race, self.key_states, delta_time);
                AppView {
                    race_state: Some(race),
                    state: if race.race_finished {
                        AppState::Results
                    } else {
                        self.state
                    },
                    ..self
                }
            },
        }
    }

    /// The application after the shift key has gone down: while it is held
    /// nothing more happens; otherwise it counts as held from now on, and the
    /// player's car shifts if there is a race.
    pub open spec fn shift_pressed(self) -> AppView {
        if self.key_states.shift_pressed {
            self
        } else {
            AppView {
                key_states: KeyStates { shift_pressed: true, ..self.key_states },
                race_state: match self.race_state {
                    Some(race) => Some(race.player_shifted()),
                    None => None,
                },
                ..self
            }
        }
    }

    /// The application with the car at `index` of the menu as the player's.
    pub open spec fn selecting(self, index: usize) -> AppView {
        AppView {
            selected_car_index: index,
            player_car: Self::available_cars()[index as int],
            ..self
        }
    }

    /// The index after the selected one, going round.
    pub open spec fn next_index(self) -> usize {
        ((self.selected_car_index + 1) % (CAR_COUNT as int)) as usize
    }

    /// The index before the selected one, going round.
    pub open spec fn previous_index(self) -> usize {
        if self.selected_car_index == 0 {
            (CAR_COUNT - 1) as usize
        } else {
            (self.selected_car_index - 1) as usize
        }
    }
}

impl App {
    /// See [`AppView::wf`].
    pub open spec fn wf(&self) -> bool {
        self@.wf()
    }

    /// See [`AppView::consistent`].
    pub open spec fn consistent(&self) -> bool {
        self@.consistent()
    }

    /// Whether the application is well formed; public fields can be set to
    /// anything.
    pub fn is_valid(&self) -> (ok: bool)
        ensures
            ok == self.wf(),
    {
        let race_ok = match &self.race_state {
            Some(race) => race.is_valid(),
            None => true,
        };
        self.player_car.is_valid() && self.opponent_car.is_valid() && self.selected_car_index
            < CAR_COUNT && race_ok
    }

    /// The application as it starts.
    pub fn new() -> (app: App)
        ensures
            app@ == AppView::initial(),
            app.wf(),
            app.consistent(),
    {
        App {
            state: AppState::Menu,
            race_state: None,
            player_car: Car::civic(),
            opponent_car: Car::mustang(),
            should_quit: false,
            selected_car_index: 0,
            key_states: KeyStates {
                throttle_pressed: false,
                nitrous_pressed: false,
                shift_pressed: false,
            },
            audio_muted: false,
        }
    }

    /// Sets up a new race and shows it: see [`AppView::race_begun`].
    pub fn start_race(&mut self)
        requires
            old(self).wf(),
        ensures
            final(self)@ == old(self)@.race_begun(),
            final(self).wf(),
            old(self).consistent() ==> final(self).consistent(),
    {
        self.reset_all_key_states();
        self.race_state = Some(RaceState::new(self.player_car.clone(), self.opponent_car.clone()));
        self.state = AppState::Racing;
    }

    /// Advances the application by `delta_time`: see [`AppView::updated`].
    pub fn update(&mut self, delta_time: i64)
        requires
            old(self).wf(),
        ensures
            final(self)@ == old(self)@.updated(delta_time as int),
            final(self).wf(),
            old(self).consistent() ==> final(self).consistent(),
    {
        if let Some(race) = &mut self.race_state {
            if self.key_states.throttle_pressed {
                let this_tick: i64 = if delta_time > 0 {
                    delta_time
                } else {
                    0
                };
                let since_green = saturate(
                    race.christmas_tree.state_timer as i128 + this_tick as i128,
                );
                race.player_throttle(since_green);
            } else {
                race.player_release_throttle();
            }
            if self.key_states.nitrous_pressed {
                race.player_activate_nos();
            } else {
                race.player_deactivate_nos();
            }
            race.update(delta_time);
            if race.is_finished() {
                self.state = AppState::Results;
            }
        }
    }

    /// Records whether the throttle key is down.
    pub fn set_throttle_pressed(&mut self, pressed: bool)
        ensures
            final(self)@ == (AppView {
                key_states: KeyStates { throttle_pressed: pressed, ..old(self).key_states },
                ..old(self)@
            }),
    {
        self.key_states.throttle_pressed = pressed;
    }

    /// Records whether the nitrous key is down.
    pub fn set_nitrous_pressed(&mut self, pressed: bool)
        ensures
            final(self)@ == (AppView {
                key_states: KeyStates { nitrous_pressed: pressed, ..old(self).key_states },
                ..old(self)@
            }),
    {
        self.key_states.nitrous_pressed = pressed;
    }

    /// The shift key has gone down: see [`AppView::shift_pressed`].
    pub fn shift_up(&mut self)
        requires
            old(self).wf(),
        ensures
            final(self)@ == old(self)@.shift_pressed(),
            final(self).wf(),
            old(self).consistent() ==> final(self).consistent(),
    {
        if !self.key_states.shift_pressed {
            self.key_states.shift_pressed = true;
            if let Some(race) = &mut self.race_state {
                race.player_shift_up();
            }
        }
    }

    /// The shift key has come up.
    pub fn reset_shift_state(&mut self)
        ensures
            final(self)@ == (AppView {
                key_states: KeyStates { shift_pressed: false, ..old(self).key_states },
                ..old(self)@
            }),
    {
        self.key_states.shift_pressed = false;
    }

    /// The cars to choose from, in the order of the menu.
    pub fn get_available_cars() -> (cars: Vec<Car>)
        ensures
            cars@.len() == CAR_COUNT,
            forall|i: int| 0 <= i < CAR_COUNT ==> (#[trigger] cars@[i])@ == AppView::available_cars()[i],
    {
        let mut cars: Vec<Car> = Vec::new();
        cars.push(Car::civic());
        cars.push(Car::mustang());
        cars.push(Car::gtr());
        cars
    }

    /// Selects the next car of the menu, or the first after the last.
    pub fn select_next_car(&mut self)
        requires
            old(self).wf(),
        ensures
            final(self)@ == old(self)@.selecting(old(self)@.next_index()),
            final(self).wf(),
            old(self).consistent() ==> final(self).consistent(),
    {
        let cars = Self::get_available_cars();
        assert(cars.len() == CAR_COUNT);
        self.selected_car_index = (self.selected_car_index + 1) % cars.len();
        self.player_car = cars[self.selected_car_index].clone();
    }

    /// Selects the car before, or the last before the first.
    pub fn select_previous_car(&mut self)
        requires
            old(self).wf(),
        ensures
            final(self)@ == old(self)@.selecting(old(self)@.previous_index()),
            final(self).wf(),
            old(self).consistent() ==> final(self).consistent(),
    {
        let cars = Self::get_available_cars();
        self.selected_car_index = if self.selected_car_index == 0 {
            cars.len() - 1
        } else {
            self.selected_car_index - 1
        };
        self.player_car = cars[self.selected_car_index].clone();
    }

    /// Counts every key as released.
    pub fn reset_all_key_states(&mut self)
        ensures
            final(self)@ == (AppView { key_states: KeyStates::released(), ..old(self)@ }),
    {
        self.key_states.throttle_pressed = false;
        self.key_states.nitrous_pressed = false;
        self.key_states.shift_pressed = false;
    }

    /// Switches the sound off if it is on, and on if it is off.
    pub fn toggle_mute(&mut self)
        ensures
            final(self)@ == (AppView { audio_muted: !old(self).audio_muted, ..old(self)@ }),
    {
        self.audio_muted = !self.audio_muted;
    }
}

} // verus!
