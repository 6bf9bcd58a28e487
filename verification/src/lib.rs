//! Core of a small real-time arcade game: a player token moves on a
//! continuous 2D playfield, avoiding enemies and collecting treasures,
//! under a fixed-timestep simulation loop with broad-phase collision
//! detection.
//!
//! The playfield uses integer units throughout. Rendering, audio and
//! window handling are external collaborators: the library exposes
//! entity positions and sizes for drawing, and reports treasure pickups
//! so a caller can trigger the pickup sound.

pub mod constants;
pub mod geom;
pub mod piece;
pub mod spatial;
pub mod game_state;
pub mod sim_loop;
mod rng;
