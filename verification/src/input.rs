//! What the keys do on each screen.

use vstd::prelude::*;
use crate::app::{App, AppState, AppView, KeyStates};

verus! {

/// A key of the keyboard, as far as the application tells keys apart.
#[derive(Debug, Clone, Copy, PartialEq, Eq, Structural)]
pub enum Key {
    Char(char),
    Esc,
    Left,
    Right,
    Up,
    Other,
}

/// What happened to the key.
#[derive(Debug, Clone, Copy, PartialEq, Eq, Structural)]
pub enum KeyKind {
    Press,
    Release,
    Repeat,
}

impl Key {
    /// Whether the key shifts up: the up arrow or `w`.
    pub open spec fn is_shift(self) -> bool {
        self == Key::Up || self == Key::Char('w')
    }
}

impl AppView {
    /// The application back at the menu, with every key counted as released.
    pub open spec fn back_to_menu(self) -> AppView {
        AppView { key_states: KeyStates::released(), state: AppState::Menu, ..self }
    }

    /// The application with the throttle key recorded as `pressed`.
    pub open spec fn with_throttle(self, pressed: bool) -> AppView {
        AppView { key_states: KeyStates { throttle_pressed: pressed, ..self.key_states }, ..self }
    }

    /// The application with the nitrous key recorded as `pressed`.
    pub open spec fn with_nitrous(self, pressed: bool) -> AppView {
        AppView { key_states: KeyStates { nitrous_pressed: pressed, ..self.key_states }, ..self }
    }

    /// The application with the shift key recorded as up.
    pub open spec fn shift_released(self) -> AppView {
        AppView { key_states: KeyStates { shift_pressed: false, ..self.key_states }, ..self }
    }

    /// What a key does in the menu: `q` and escape quit, `1` starts a race,
    /// the left and right arrows select a car. Only presses count.
    pub open spec fn handled_in_menu(self, key: Key, kind: KeyKind) -> (AppView, bool) {
        if kind != KeyKind::Press {
            (self, false)
        } else if key == Key::Char('q') || key == Key::Esc {
            (self, true)
        } else if key == Key::Char('1') {
            (self.race_begun(), false)
        } else if key == Key::Left {
            (self.selecting(self.previous_index()), false)
        } else if key == Key::Right {
            (self.selecting(self.next_index()), false)
        } else {
            (self, false)
        }
    }

    /// What a key does during a race: the space bar is the throttle and `n`
    /// the nitrous, both held; the up arrow and `w` shift, once per press;
    /// escape leads back to the menu.
    pub open spec fn handled_in_race(self, key: Key, kind: KeyKind) -> (AppView, bool) {
        if kind == KeyKind::Repeat {
            (self, false)
        } else if key == Key::Char(' ') {
            (self.with_throttle(kind == KeyKind::Press), false)
        } else if key.is_shift() {
            if kind == KeyKind::Press {
                (self.shift_pressed(), false)
            } else {
                (self.shift_released(), false)
            }
        } else if key == Key::Char('n') {
            (self.with_nitrous(kind == KeyKind::Press), false)
        } else if key == Key::Esc && kind == KeyKind::Press {
            (self.back_to_menu(), false)
        } else {
            (self, false)
        }
    }

    /// What a key does on the results: `r` starts the next race, `q` quits,
    /// escape leads back to the menu. Only presses count.
    pub open spec fn handled_in_results(self, key: Key, kind: KeyKind) -> (AppView, bool) {
        if kind != KeyKind::Press {
            (self, false)
        } else if key == Key::Char('r') {
            (self.race_begun(), false)
        } else if key == Key::Char('q') {
            (self, true)
        } else if key == Key::Esc {
            (self.back_to_menu(), false)
        } else {
            (self, false)
        }
    }

    /// The application after a key event, and whether the event quits it.
    pub open spec fn handled(self, key: Key, kind: KeyKind) -> (AppView, bool) {
        match self.state {
            AppState::Menu => self.handled_in_menu(key, kind),
            AppState::Racing => self.handled_in_race(key, kind),
            AppState::Results => self.handled_in_results(key, kind),
        }
    }
}

/// Applies a key event to the application and says whether to quit: see
/// [`AppView::handled`].
pub fn handle_input(app: &mut App, key: Key, kind: KeyKind) -> (quit: bool)
    requires
        old(app).wf(),
    ensures
        (final(app)@, quit) == old(app)@.handled(key, kind),
        final(app).wf(),
        old(app).consistent() ==> final(app).consistent(),
{
    match app.state {
        AppState::Menu => match (key, kind) {
            (Key::Char('q'), KeyKind::Press) | (Key::Esc, KeyKind::Press) => {
                return true;
            },
            (Key::Char('1'), KeyKind::Press) => app.start_race(),
            (Key::Left, KeyKind::Press) => app.select_previous_car(),
            (Key::Right, KeyKind::Press) => app.select_next_car(),
            _ => {},
        },
        AppState::Racing => match (key, kind) {
            (Key::Char(' '), KeyKind::Press) => app.set_throttle_pressed(true),
            (Key::Char(' '), KeyKind::Release) => app.set_throttle_pressed(false),
            (Key::Up, KeyKind::Press) | (Key::Char('w'), KeyKind::Press) => app.shift_up(),
            (Key::Up, KeyKind::Release) | (Key::Char('w'), KeyKind::Release) => {
                app.reset_shift_state()
            },
            (Key::Char('n'), KeyKind::Press) => app.set_nitrous_pressed(true),
            (Key::Char('n'), KeyKind::Release) => app.set_nitrous_pressed(false),
            (Key::Esc, KeyKind::Press) => {
                app.reset_all_key_states();
                app.state = AppState::Menu;
            },
            _ => {},
        },
        AppState::Results => match (key, kind) {
            (Key::Char('r'), KeyKind::Press) => app.start_race(),
            (Key::Char('q'), KeyKind::Press) => {
                return true;
            },
            (Key::Esc, KeyKind::Press) => {
                app.reset_all_key_states();
                app.state = AppState::Menu;
            },
            _ => {},
        },
    }
    false
}

} // verus!
