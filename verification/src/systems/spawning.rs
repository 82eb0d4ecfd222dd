//! When enemies and health pickups come into the world and when enemies
//! leave it, as descriptions of the entities to make.

use vstd::prelude::*;
use crate::awards::{Award, AwardTimer};
use crate::enemies::{self, Enemy, SpawnTimer};
use crate::game::GameEntity;
use crate::player::Player;
use crate::random::{random_chance, random_in_range};
use crate::systems::physics::Collidable;
use crate::world::{
    clamp_i64, saturate_i64, Body, Collider, Position, Size, Vector2, Velocity,
};

verus! {

/// Shortest time between two enemies, in milliseconds.
pub const SPAWN_TIME_MIN: u64 = 2_000;

/// Bound below which the time between two enemies stays, in milliseconds.
pub const SPAWN_TIME_MAX: u64 = 3_000;

/// One pixel, in distance units.
pub const PIXEL: u64 = 1_000_000;

/// Speed at which a health pickup comes towards the player.
pub const HEALTH_VELOCITY_X: i32 = 300_000;

/// The components of an entity that is to come into the world.
#[derive(Clone, Copy, Debug, PartialEq, Eq)]
pub struct Spawn {
    pub body: Body,
    pub collider: Collider,
    /// Present on an enemy.
    pub enemy: Option<Enemy>,
    /// Present on an entity that goes when a new game starts.
    pub game_entity: Option<GameEntity>,
    pub visible: bool,
}

/// A new enemy: solid, on the ground beyond the right edge of the screen,
/// on its way to the left.
pub open spec fn enemy_spawn() -> Spawn {
    Spawn {
        body: Body {
            position: Position { x: enemies::INITIAL_POSITION_X, y: enemies::INITIAL_POSITION_Y },
            size: Size { width: enemies::ENEMY_WIDTH, height: enemies::ENEMY_HEIGHT },
            velocity: Velocity {
                base: Vector2 { x: (-enemies::VELOCITY_X) as i32, y: enemies::VELOCITY_Y },
                boost: Vector2::one(),
            },
        },
        collider: Collider::Solid,
        enemy: Some(Enemy),
        game_entity: Some(GameEntity),
        visible: true,
    }
}

/// The zone that follows a new enemy: as high as the window, unseen, one
/// player's width and a pixel behind the enemy and as fast. A player that
/// reaches it has let the enemy pass and gets the enemy's score.
pub open spec fn score_zone_spawn(window_height: u64, player_size: Size) -> Spawn {
    Spawn {
        body: Body {
            position: Position {
                x: clamp_i64(enemies::INITIAL_POSITION_X + player_size.width + PIXEL) as i64,
                y: enemies::INITIAL_POSITION_Y,
            },
            size: Size { width: enemies::ENEMY_WIDTH, height: window_height },
            velocity: Velocity {
                base: Vector2 { x: (-enemies::VELOCITY_X) as i32, y: enemies::VELOCITY_Y },
                boost: Vector2::one(),
            },
        },
        collider: Collider::Award(Award::Score(enemies::SCORE)),
        enemy: None,
        game_entity: None,
        visible: false,
    }
}

/// What comes with a new enemy: the enemy itself and, where there is a
/// player, the zone behind it.
pub open spec fn enemy_spawns(window_height: u64, player_size: Option<Size>) -> Seq<Spawn> {
    match player_size {
        Some(size) => seq![enemy_spawn(), score_zone_spawn(window_height, size)],
        None => seq![enemy_spawn()],
    }
}

/// Describes a new enemy and what comes with it.
pub fn new_enemy(window_height: u64, player_size: Option<Size>) -> (spawns: Vec<Spawn>)
    ensures
        spawns@ == enemy_spawns(window_height, player_size),
{
    let mut spawns: Vec<Spawn> = Vec::new();
    spawns.push(
        Spawn {
            body: Body {
                position: Position {
                    x: enemies::INITIAL_POSITION_X,
                    y: enemies::INITIAL_POSITION_Y,
                },
                size: Size { width: enemies::ENEMY_WIDTH, height: enemies::ENEMY_HEIGHT },
                velocity: Velocity::new(Vector2::new(-enemies::VELOCITY_X, enemies::VELOCITY_Y)),
            },
            collider: Collider::Solid,
            enemy: Some(Enemy),
            game_entity: Some(GameEntity),
            visible: true,
        },
    );
    if let Some(size) = player_size {
        let x: i64 = saturate_i64(
            enemies::INITIAL_POSITION_X as i128 + size.width as i128 + PIXEL as i128,
        );
        spawns.push(
            Spawn {
                body: Body {
                    position: Position { x, y: enemies::INITIAL_POSITION_Y },
                    size: Size { width: enemies::ENEMY_WIDTH, height: window_height },
                    velocity: Velocity::new(
                        Vector2::new(-enemies::VELOCITY_X, enemies::VELOCITY_Y),
                    ),
                },
                collider: Collider::Award(Award::Score(enemies::SCORE)),
                enemy: None,
                game_entity: None,
                visible: false,
            },
        );
    }
    spawns
}

/// Advances the spawn timer by `delta` milliseconds and, when it has
/// finished, describes a new enemy and what comes with it.
///
/// A timer that has finished gets a new duration of at least
/// `SPAWN_TIME_MIN` and less than `SPAWN_TIME_MAX` milliseconds; which one
/// is left to chance.
pub fn spawn_new_enemy(
    delta: u64,
    window_height: u64,
    spawn_timer: &mut SpawnTimer,
    player_size: Option<Size>,
) -> (spawns: Vec<Spawn>)
    ensures
        !old(spawn_timer).timer.ticked(delta).finished ==> {
            &&& final(spawn_timer).timer == old(spawn_timer).timer.ticked(delta)
            &&& spawns@ == Seq::<Spawn>::empty()
        },
        old(spawn_timer).timer.ticked(delta).finished ==> {
            &&& SPAWN_TIME_MIN <= final(spawn_timer).timer.duration < SPAWN_TIME_MAX
            &&& final(spawn_timer).timer == old(spawn_timer).timer.ticked(delta).with_duration(
                final(spawn_timer).timer.duration,
            )
            &&& spawns@ == enemy_spawns(window_height, player_size)
        },
{
    spawn_timer.timer.tick(delta);
    if !spawn_timer.timer.finished() {
        return Vec::new();
    }
    let drawn: u64 = random_in_range(SPAWN_TIME_MIN, SPAWN_TIME_MAX);
    spawn_timer.timer.set_duration(drawn);
    new_enemy(window_height, player_size)
}

/// Whether an enemy is out of sight: its centre is more than its width
/// beyond the left edge of a window of the given width around zero.
pub open spec fn out_of_sight(enemy: Collidable, window_width: u64) -> bool {
    2 * (enemy.position.x + enemy.size.width) < -(window_width as int)
}

/// The enemies that are still in sight, in their order.
pub open spec fn in_sight(enemies: Seq<Collidable>, window_width: u64) -> Seq<Collidable> {
    enemies.filter(|e: Collidable| !out_of_sight(e, window_width))
}

/// Takes the enemies away that are out of sight.
pub fn drop_enemies(window_width: u64, enemies: &mut Vec<Collidable>)
    ensures
        final(enemies)@ == in_sight(old(enemies)@, window_width),
{
    let mut kept: Vec<Collidable> = Vec::new();
    let mut i: usize = 0;
    while i < enemies.len()
        invariant
            i <= enemies.len(),
            enemies@ == old(enemies)@,
            kept@ == in_sight(enemies@.take(i as int), window_width),
        decreases enemies.len() - i,
    {
        let enemy = enemies[i];
        proof {
            assert(enemies@.take(i + 1) == enemies@.take(i as int).push(enemy));
            enemies@.take(i as int).lemma_filter_push(
                enemy,
                |e: Collidable| !out_of_sight(e, window_width),
            );
        }
        let edge: i128 = 2 * (enemy.position.x as i128 + enemy.size.width as i128);
        if !(edge < -(window_width as i128)) {
            kept.push(enemy);
        }
        i += 1;
    }
    assert(enemies@.take(i as int) == enemies@);
    *enemies = kept;
}

/// Side of the square box of a pickup that gives `health`: 48 pixels and 16
/// more for the second health.
pub open spec fn pickup_side(health: u8) -> int {
    if health <= 1 {
        48 * PIXEL
    } else {
        64 * PIXEL
    }
}

/// A health pickup: on the ground beyond the right edge of a window of the
/// given width, on its way to the left.
pub open spec fn health_spawn(window_width: u64, health: u8) -> Spawn {
    Spawn {
        body: Body {
            position: Position {
                x: clamp_i64((window_width + pickup_side(health)) / 2) as i64,
                y: (pickup_side(health) / 2) as i64,
            },
            size: Size { width: pickup_side(health) as u64, height: pickup_side(health) as u64 },
            velocity: Velocity {
                base: Vector2 { x: (-HEALTH_VELOCITY_X) as i32, y: 0 },
                boost: Vector2::one(),
            },
        },
        collider: Collider::Award(Award::Health(health)),
        enemy: None,
        game_entity: Some(GameEntity),
        visible: true,
    }
}

/// Describes a health pickup: of two health for the lucky, of one otherwise.
pub fn health_pickup(window_width: u64, lucky: bool) -> (spawn: Spawn)
    ensures
        spawn == health_spawn(
            window_width,
            if lucky {
                2u8
            } else {
                1u8
            },
        ),
{
    let health: u8 = if lucky {
        2
    } else {
        1
    };
    let side: u64 = if lucky {
        64 * PIXEL
    } else {
        48 * PIXEL
    };
    let x: i64 = saturate_i64((window_width as i128 + side as i128) / 2);
    Spawn {
        body: Body {
            position: Position { x, y: (side / 2) as i64 },
            size: Size { width: side, height: side },
            velocity: Velocity::with_horizontal(-HEALTH_VELOCITY_X),
        },
        collider: Collider::Award(Award::Health(health)),
        enemy: None,
        game_entity: Some(GameEntity),
        visible: true,
    }
}

/// Advances the award timer by `delta` milliseconds and, when it has
/// finished, describes a health pickup.
///
/// For a player at full health nothing happens, and the timer stands still.
/// A timer that has finished is refilled. The pickup gives two health once
/// in four times and one otherwise; which, and the timer's new duration, are
/// left to chance.
pub fn spawn_health(
    delta: u64,
    window_width: u64,
    timer: &mut AwardTimer,
    player: &Player,
) -> (spawn: Option<Spawn>)
    requires
        old(timer).wf(),
    ensures
        final(timer).wf(),
        final(timer).min_time == old(timer).min_time,
        final(timer).max_time == old(timer).max_time,
        player.health == player.max_health ==> {
            &&& final(timer).timer == old(timer).timer
            &&& spawn is None
        },
        player.health != player.max_health && !old(timer).timer.ticked(delta).finished ==> {
            &&& final(timer).timer == old(timer).timer.ticked(delta)
            &&& spawn is None
        },
        player.health != player.max_health && old(timer).timer.ticked(delta).finished ==> {
            &&& old(timer).min_time <= final(timer).timer.duration < old(timer).max_time
            &&& final(timer).timer == old(timer).timer.ticked(delta).with_duration(
                final(timer).timer.duration,
            )
            &&& (spawn == Some(health_spawn(window_width, 1)) || spawn == Some(
                health_spawn(window_width, 2),
            ))
        },
{
    if player.health == player.max_health {
        return None;
    }
    timer.timer.tick(delta);
    if !timer.timer.finished() {
        return None;
    }
    timer.refill();
    let lucky = random_chance(1, 4);
    Some(health_pickup(window_width, lucky))
}

} // verus!
