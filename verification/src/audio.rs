//! What the sound of a race is made from: the tone of the engine, and the
//! beeps of the start lights. Frequencies are in millionths of a hertz,
//! amplitudes in millionths of full scale, times in millionths of a second.

use vstd::prelude::*;
use crate::game::lights::LightState;
use crate::game::units::{clamp_i64, saturate, MICRO};

verus! {

/// How long a beep sounds: a tenth of a second.
pub const BEEP_DURATION: i64 = 100_000;

/// How long a beep takes to fade in, and to fade out: a hundredth of a second.
pub const BEEP_FADE: i64 = 10_000;

/// The engine tone at standstill: 50 Hz.
pub const ENGINE_BASE_FREQUENCY: i64 = 50_000_000;

/// How much the engine tone rises up to the redline: 350 Hz.
pub const ENGINE_FREQUENCY_SPAN: i64 = 350_000_000;

/// The beeps of the start lights.
#[derive(Debug, Clone, Copy, PartialEq, Eq, Structural)]
pub enum BeepType {
    Yellow,
    Green,
    RedLight,
}

impl BeepType {
    /// The pitch of the beep: 800 Hz for a yellow light, 1200 Hz for green and
    /// 400 Hz for a jumped start.
    pub open spec fn pitch(self) -> int {
        match self {
            BeepType::Yellow => 800_000_000,
            BeepType::Green => 1_200_000_000,
            BeepType::RedLight => 400_000_000,
        }
    }

    /// Computes [`BeepType::pitch`].
    pub fn frequency(self) -> (pitch: i64)
        ensures
            pitch == self.pitch(),
    {
        match self {
            BeepType::Yellow => 800_000_000,
            BeepType::Green => 1_200_000_000,
            BeepType::RedLight => 400_000_000,
        }
    }
}

/// The beep that a change of the lights calls for, from the phase before, the
/// phase now and the player's reaction time: none while the phase stays; one
/// for each yellow light and one for green; on the way to `Racing` only after
/// a jumped start, which the negative reaction time shows.
pub open spec fn beep_for(
    previous: LightState,
    current: LightState,
    reaction_time: Option<i64>,
) -> Option<BeepType> {
    if current == previous {
        None
    } else if current.is_yellow() {
        Some(BeepType::Yellow)
    } else if current == LightState::Green {
        Some(BeepType::Green)
    } else if current == LightState::Racing && reaction_time is Some && reaction_time->0 < 0 {
        Some(BeepType::RedLight)
    } else {
        None
    }
}

/// Computes [`beep_for`].
pub fn light_beep(previous: LightState, current: LightState, reaction_time: Option<i64>) -> (beep:
    Option<BeepType>)
    ensures
        beep == beep_for(previous, current, reaction_time),
{
    if current == previous {
        return None;
    }
    match current {
        LightState::Yellow1 | LightState::Yellow2 | LightState::Yellow3 => Some(BeepType::Yellow),
        LightState::Green => Some(BeepType::Green),
        LightState::Racing => match reaction_time {
            Some(time) => if time < 0 {
                Some(BeepType::RedLight)
            } else {
                None
            },
            None => None,
        },
        _ => None,
    }
}

/// What the synthesiser plays.
#[derive(Debug, Clone, Copy)]
pub struct AudioState {
    pub engine_frequency: i64,
    pub engine_amplitude: i64,
    pub beep_timer: i64,
    pub beep_frequency: i64,
    pub beep_active: bool,
}

impl AudioState {
    /// Silence.
    pub open spec fn silent() -> AudioState {
        AudioState {
            engine_frequency: 0,
            engine_amplitude: 0,
            beep_timer: 0,
            beep_frequency: 0,
            beep_active: false,
        }
    }

    /// The tone of an engine at `rpm`: `ENGINE_BASE_FREQUENCY`, and
    /// `ENGINE_FREQUENCY_SPAN` more at the redline.
    pub open spec fn engine_tone(rpm: int, redline: int) -> int {
        ENGINE_BASE_FREQUENCY + rpm * ENGINE_FREQUENCY_SPAN / redline
    }

    /// How loud the engine is: with the throttle open 0.15 and a quarter of
    /// the throttle; with it closed 0.08 while the engine turns, and nothing
    /// when it stands.
    pub open spec fn engine_volume(rpm: int, throttle: int) -> int {
        if throttle > 0 {
            150_000 + throttle / 4
        } else if rpm > 0 {
            80_000
        } else {
            0
        }
    }

    /// The state after the beep timer has run for `delta_time`. Without a beep
    /// or with a time that is not positive nothing changes; otherwise the
    /// timer advances, and at `BEEP_DURATION` the beep ends.
    pub open spec fn beeps_updated(self, delta_time: int) -> AudioState {
        if !self.beep_active || delta_time <= 0 {
            self
        } else if self.beep_timer + delta_time >= BEEP_DURATION {
            AudioState { beep_active: false, beep_timer: 0, ..self }
        } else {
            AudioState { beep_timer: clamp_i64(self.beep_timer + delta_time) as i64, ..self }
        }
    }

    /// How loud a beep is at `timer` into it, as a share of its full volume:
    /// rising over the first `BEEP_FADE`, falling over the last, full between.
    pub open spec fn envelope_at(timer: int) -> int {
        if timer < BEEP_FADE {
            timer * (MICRO / BEEP_FADE)
        } else if timer > BEEP_DURATION - BEEP_FADE {
            (BEEP_DURATION - timer) * (MICRO / BEEP_FADE)
        } else {
            MICRO as int
        }
    }

    /// Silence.
    pub fn new() -> (state: AudioState)
        ensures
            state == AudioState::silent(),
    {
        AudioState {
            engine_frequency: 0,
            engine_amplitude: 0,
            beep_timer: 0,
            beep_frequency: 0,
            beep_active: false,
        }
    }

    /// Sets the engine's tone from its speed and its volume from the
    /// throttle.
    pub fn update_engine(&mut self, rpm: u32, throttle: i64, redline: u32)
        requires
            redline > 0,
        ensures
            *final(self) == (AudioState {
                engine_frequency: AudioState::engine_tone(rpm as int, redline as int) as i64,
                engine_amplitude: AudioState::engine_volume(rpm as int, throttle as int) as i64,
                ..*old(self)
            }),
            ENGINE_BASE_FREQUENCY <= final(self).engine_frequency,
    {
        let scaled: i64 = (rpm as i64) * ENGINE_FREQUENCY_SPAN;
        let rise: i64 = scaled / (redline as i64);
        assert(0 <= rise <= scaled) by (nonlinear_arith)
            requires
                rise == (scaled as int) / (redline as int),
                redline > 0,
                scaled >= 0,
        ;
        self.engine_frequency = ENGINE_BASE_FREQUENCY + rise;
        self.engine_amplitude = if throttle > 0 {
            150_000 + throttle / 4
        } else if rpm > 0 {
            80_000
        } else {
            0
        };
    }

    /// Starts a beep of the given kind from its beginning.
    pub fn play_beep(&mut self, beep_type: BeepType)
        ensures
            *final(self) == (AudioState {
                beep_frequency: beep_type.pitch() as i64,
                beep_active: true,
                beep_timer: 0,
                ..*old(self)
            }),
    {
        self.beep_frequency = beep_type.frequency();
        self.beep_active = true;
        self.beep_timer = 0;
    }

    /// Lets `delta_time` pass for the beep: see [`AudioState::beeps_updated`].
    pub fn update_beeps(&mut self, delta_time: i64)
        ensures
            *final(self) == old(self).beeps_updated(delta_time as int),
    {
        if self.beep_active && delta_time > 0 {
            let timer: i128 = self.beep_timer as i128 + delta_time as i128;
            if timer >= BEEP_DURATION as i128 {
                self.beep_active = false;
                self.beep_timer = 0;
            } else {
                self.beep_timer = saturate(timer);
            }
        }
    }

    /// Silences the engine and ends the beep.
    pub fn stop(&mut self)
        ensures
            *final(self) == (AudioState { engine_amplitude: 0, beep_active: false, ..*old(self) }),
    {
        self.engine_amplitude = 0;
        self.beep_active = false;
    }

    /// Back to silence.
    pub fn reset(&mut self)
        ensures
            *final(self) == AudioState::silent(),
    {
        self.engine_amplitude = 0;
        self.engine_frequency = 0;
        self.beep_active = false;
        self.beep_timer = 0;
        self.beep_frequency = 0;
    }

    /// How loud the beep is right now, as a share of its full volume: see
    /// [`AudioState::envelope_at`]; limited to the range of `i64`.
    pub fn beep_envelope(&self) -> (share: i64)
        ensures
            share == clamp_i64(AudioState::envelope_at(self.beep_timer as int)),
    {
        let timer = self.beep_timer as i128;
        if self.beep_timer < BEEP_FADE {
            saturate(timer * 100)
        } else if self.beep_timer > BEEP_DURATION - BEEP_FADE {
            saturate((BEEP_DURATION as i128 - timer) * 100)
        } else {
            MICRO
        }
    }
}

} // verus!
