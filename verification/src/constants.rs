//! Configuration constants, fixed at build time. All lengths are in
//! playfield units; all times are in milliseconds of simulated time.

use vstd::prelude::*;

verus! {

/// Width of the playfield.
pub const PLAYAREA_X: i32 = 900;

/// Height of the playfield.
pub const PLAYAREA_Y: i32 = 600;

/// Side length of every piece (player, enemy or treasure).
pub const PIECE_SIZE: i32 = 96;

/// Population cap for treasures.
pub const NUM_TREASURES: usize = 2;

/// Population cap for enemies.
pub const NUM_ENEMIES: usize = 4;

/// Duration of one fixed simulation step.
pub const MS_PER_UPDATE: u64 = 16;

/// Throttle interval between re-rolls of the enemies' directions.
pub const ENEMY_MOVE_INTERVAL_MS: u64 = 1000;

/// Throttle interval between treasure spawns.
pub const TREASURE_SPAWN_INTERVAL_MS: u64 = 2000;

/// Throttle interval between enemy spawns.
pub const ENEMY_SPAWN_INTERVAL_MS: u64 = 1000;

/// Minimum distance between the player and a freshly spawned piece.
pub const MIN_SPAWN_DIST: i32 = 250;

/// How many random locations a spawn attempt samples before giving up
/// for this step.
pub const SPAWN_TRIES: usize = 32;

/// Where the player starts, and returns to on reset.
pub const PLAYER_SPAWN_X: i32 = 45;

/// Where the player starts, and returns to on reset.
pub const PLAYER_SPAWN_Y: i32 = 55;

/// Speed the player moves at while a direction key is held, in units
/// per simulation step.
pub const PLAYER_MOVE_SPEED: i32 = 2;

} // verus!
