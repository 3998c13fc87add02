//! A real-time 2D particle-physics library: point-mass joints connected by
//! elastic springs inside a rectangular arena, with gravity, drag, wall
//! bouncing and pairwise elastic collisions.
//!
//! All quantities are Q47.16 fixed-point numbers (an `i64` holding the value
//! times 65536), so every step of the integration pipeline is deterministic
//! integer arithmetic and carries an exact contract.

pub mod enviroment;
pub mod fixed;
pub mod trig;
