//! Gameplay core of a small snake game: movement with wraparound, trail
//! history, body growth, food consumption and self-collision.
//!
//! All lengths are integers in thousandths of an arena unit, and all times are
//! whole milliseconds, so a speed in thousandths per millisecond reads the
//! same as a speed in units per second.

pub mod geometry;
pub mod movement;
pub mod trail;
pub mod rules;
pub mod food;
pub mod game;
pub mod laws;

pub use geometry::{Vec3, manhattan_distance_xy, within_radius};
pub use movement::{Heading, integrate, velocity, wrap};
pub use trail::Trail;
pub use rules::{food_reached, touches, collides};
pub use food::{food_at, gen_food};
pub use game::{Game, TickOutcome};
