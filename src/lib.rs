//! Terrain generation and collision-driven gameplay rules of a small 2D
//! side-scrolling platformer, in fixed-point arithmetic.
//!
//! Units used throughout the library:
//! - lengths and positions are in micro-units (one world unit is 1_000_000);
//! - elapsed time is in microseconds;
//! - velocities are in pico-units per second, so that a length (micro-units)
//!   times an elapsed time (microseconds) is a velocity change;
//! - hit points are in hundredths of a point.
pub mod block_type;
pub mod utils;
pub mod hud;
pub mod player;
pub mod health;
pub mod collisions;
pub mod terrain;
pub mod enemy;
pub mod pepper;
pub mod fireball;
