//! The player: health, and the movement state derived from its velocity.

use vstd::prelude::*;
use crate::awards::Award;
use crate::world::Velocity;

verus! {

/// Width of the player's bounding box.
pub const WIDTH: u64 = 50_000_000;

/// Height of the player's bounding box.
pub const HEIGHT: u64 = 50_000_000;

/// Where the player stands when a game starts: 128 pixels right of the left
/// edge of the screen.
pub const INITIAL_POSITION_X: i64 = -512_000_000;

/// The player starts on the ground: half its height above the zero line.
pub const INITIAL_POSITION_Y: i64 = 25_000_000;

/// Vertical velocity that a jump sets.
pub const VELOCITY_ON_JUMP: i32 = 600_000;

/// Horizontal velocity of a walking player.
pub const MOVEMENT_VELOCITY: i32 = 400_000;

/// How the player is moving, as seen from its velocity.
#[derive(Clone, Copy, Debug, PartialEq, Eq, Structural)]
pub enum PlayerMovementState {
    Staying,
    Running,
    Jumping,
    Falling,
}

#[derive(Clone, Copy, Debug, PartialEq, Eq, Structural)]
pub struct Player {
    pub movement_state: PlayerMovementState,
    pub health: u8,
    pub max_health: u8,
}

/// What happened to the player in a tick.
#[derive(Clone, Copy, Debug, PartialEq, Eq, Structural)]
pub enum PlayerEvent {
    /// The player touched something solid.
    Hit,
    /// The player picked an award up.
    Award(Award),
}

/// The movement state that belongs to a velocity: upward motion is a jump,
/// downward motion a fall; otherwise any horizontal motion is running.
pub open spec fn movement_state_of(velocity: Velocity) -> PlayerMovementState {
    if velocity.spec_vertical() > 0 {
        PlayerMovementState::Jumping
    } else if velocity.spec_vertical() < 0 {
        PlayerMovementState::Falling
    } else if velocity.spec_horizontal() != 0 {
        PlayerMovementState::Running
    } else {
        PlayerMovementState::Staying
    }
}

impl Player {
    /// Whether the health is within its bound.
    pub open spec fn wf(self) -> bool {
        self.health <= self.max_health
    }

    /// A standing player at full health, three out of three.
    pub fn new() -> (player: Player)
        ensures
            player == (Player {
                movement_state: PlayerMovementState::Staying,
                health: 3,
                max_health: 3,
            }),
            player.wf(),
    {
        Player { movement_state: PlayerMovementState::Staying, health: 3, max_health: 3 }
    }
}

/// Sets the player's movement state to what its velocity shows.
pub fn update_movement_state(player: &mut Player, velocity: &Velocity)
    ensures
        final(player).movement_state == movement_state_of(*velocity),
        final(player).health == old(player).health,
        final(player).max_health == old(player).max_health,
{
    let v = velocity.current();
    if v.y > 0 {
        player.movement_state = PlayerMovementState::Jumping;
    } else if v.y < 0 {
        player.movement_state = PlayerMovementState::Falling;
    } else if v.x != 0 {
        player.movement_state = PlayerMovementState::Running;
    } else {
        player.movement_state = PlayerMovementState::Staying;
    }
}

} // verus!
