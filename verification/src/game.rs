//! The race itself: profiles, physics, the state of a car, the start lights,
//! the opponent's driver, the race, and the laws that the race obeys.

pub mod ai;
pub mod car;
pub mod laws;
pub mod lights;
pub mod physics;
pub mod race;
pub mod state;
pub mod units;

pub use ai::AI;
pub use car::Car;
pub use lights::{ChristmasTree, LightState};
pub use physics::ShiftQuality;
pub use race::{RaceState, Winner};
pub use state::RaceCarState;
