//! A two-paddle Pong game: the per-frame physics, scoring and collision
//! rules, and the geometry of each rendered frame.
//!
//! Lengths are integers in micro-pixels, times in microseconds and speeds in
//! pixels per second, so that a speed times a time step is a length exactly.
pub mod game;
pub mod laws;
pub mod render;
