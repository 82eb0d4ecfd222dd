//! Enemies: their measures and the timer that paces them.

use vstd::prelude::*;
use crate::timer::Timer;

verus! {

/// Width of an enemy's bounding box.
pub const ENEMY_WIDTH: u64 = 50_000_000;

/// Height of an enemy's bounding box.
pub const ENEMY_HEIGHT: u64 = 50_000_000;

/// Speed at which an enemy comes towards the player.
pub const VELOCITY_X: i32 = 200_000;

/// Vertical velocity of a new enemy.
pub const VELOCITY_Y: i32 = 0;

/// Vertical velocity of an enemy that jumps: a quarter more than the
/// player's.
pub const VELOCITY_ON_JUMP: i32 = 750_000;

/// A new enemy stands just beyond the right edge of the screen.
pub const INITIAL_POSITION_X: i64 = 665_000_000;

/// A new enemy stands on the ground.
pub const INITIAL_POSITION_Y: i64 = 25_000_000;

/// Points for an enemy that the player lets pass.
pub const SCORE: i64 = 50;

/// Marks an entity as an enemy.
#[derive(Clone, Copy, Debug, PartialEq, Eq, Structural)]
pub struct Enemy;

/// The timer that paces new enemies.
#[derive(Clone, Copy, Debug, PartialEq, Eq, Structural)]
pub struct SpawnTimer {
    pub timer: Timer,
}

} // verus!
