//! A two-car quarter-mile drag race: start lights, the physics of each car,
//! a scripted opponent and the race that ties them together, with the
//! application state, key handling, sound state and screen numbers around it.
//!
//! Every real-valued quantity is a whole number of millionths of its unit:
//! seconds, metres, metres per second, and the ratios that run from 0 to 1.

pub mod app;
pub mod audio;
pub mod display;
pub mod game;
pub mod input;
