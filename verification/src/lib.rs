//! Fixed-point game logic for a 2D platformer: platforms that oscillate
//! between two bounds, the plan by which platforms are spawned, and the
//! mapping from held keys to an impulse on the player.
//!
//! Every quantity is an integer in units that the caller chooses: a length
//! unit for positions, ranges and sizes, a time unit for elapsed time, and
//! length units per time unit for speeds.

pub mod geometry;
pub mod platform;
pub mod player;
pub mod spawn;
pub mod trajectory;
