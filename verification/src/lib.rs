//! Simulation core of a two-player Pong match.
//!
//! The physics runs on a deterministic, fixed-timestep grid. All lengths,
//! positions and velocities are signed fixed-point numbers measured in
//! milli-pixels (one thousandth of a pixel), so every update is exact
//! integer arithmetic and is verified end to end. Window creation,
//! rendering and keyboard polling are outside collaborators: they hand a
//! [`game::Match`] a per-tick input snapshot and read back rectangles and
//! scores for drawing.

pub mod numeric;
pub mod geometry;
pub mod config;
pub mod paddle;
pub mod ball;
pub mod rng;
pub mod game;
