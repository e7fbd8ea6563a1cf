//! Core of a two-paddle ball-bouncing game: per-tick physics, the crossing
//! classifier that detects wall bounces, paddle bounces and side-outs, and the
//! round controller that awards points and resets rounds.
//!
//! All coordinates live on an integer grid so that boundary crossings can be
//! detected by exact comparison. A caller that wants fractional speeds (say
//! two and a half units per tick) picks a finer grid (half units).

pub mod ball;
pub mod config;
pub mod game;
pub mod paddle;
