//! A side-scrolling avoidance game: a bird falls under gravity, jumps on
//! command and must pass through the gaps of pipes that scroll towards it.
//!
//! All lengths are fixed-point integers. One fly-area unit is
//! [`tuning::SCALE`] steps, the resolution of the gravity constant, so every
//! position and speed that the game can reach is represented exactly.

pub mod tuning;
pub mod geometry;
pub mod bird;
pub mod pipe;
pub mod heights;
pub mod pipe_manager;
pub mod game;
pub mod medal;
