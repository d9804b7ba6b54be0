//! Game rules of Star Journey, a small vertical space shooter: screen and
//! pause flow, menu navigation, shields, asteroid waves, projectile hits,
//! the star pool and the soundtrack switching.
//!
//! Rendering, input devices, timers, audio playback and floating-point
//! motion live in the application that drives this library; the library
//! takes what they report as plain values and decides what happens next.

pub mod screens;
pub mod menu;
pub mod title;
pub mod pause;
pub mod game_over;
pub mod audio;
pub mod game;
pub mod combat;
mod rng;
pub mod asteroids;
pub mod stars;
pub mod input;
