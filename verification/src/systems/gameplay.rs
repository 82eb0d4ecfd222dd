//! Effects on the player applied and cleaned up, enemies that jump at
//! random, and the start of a game.

use vstd::prelude::*;
use crate::effects::{
    active_only, all_time_consumed, unexpired, unexpired_visuals, ActiveEffects,
    EntityEffectDescriptor, EntityEffects, EffectView, VisualEffect, VisualEffects,
};
use crate::enemies;
use crate::game::{may_follow, Game, GameState};
use crate::player::{self, Player};
use crate::random::random_chance;
use crate::systems::physics::Collidable;
use crate::world::{Position, Vector2, Velocity};

verus! {

/// The descriptors, the velocity and the position after every descriptor, in
/// its turn, has made its step of `delta` milliseconds.
pub open spec fn effects_stepped(
    descriptors: Seq<EntityEffectDescriptor>,
    delta: u64,
    velocity: Velocity,
    position: Position,
) -> (Seq<EntityEffectDescriptor>, Velocity, Position)
    decreases descriptors.len(),
{
    if descriptors.len() == 0 {
        (descriptors, velocity, position)
    } else {
        let (before, velocity, position) = effects_stepped(
            descriptors.drop_last(),
            delta,
            velocity,
            position,
        );
        let (last, velocity, position) = descriptors.last().stepped(delta, velocity, position);
        (before.push(last), velocity, position)
    }
}

/// Runs the property effects of an entity for one tick.
///
/// Every descriptor, in its turn, loses `delta` milliseconds; one with time
/// left is then applied, one without is undone. None is added and none is
/// removed: a descriptor that has run out of time stays in the ledger, and
/// is undone again at each tick, until the ledger is cleaned up.
pub fn apply_effects(
    delta: u64,
    effects: &mut EntityEffects,
    velocity: &mut Velocity,
    position: &mut Position,
)
    ensures
        (final(effects)@, *final(velocity), *final(position)) == effects_stepped(
            old(effects)@,
            delta,
            *old(velocity),
            *old(position),
        ),
        final(effects)@.len() == old(effects)@.len(),
{
    let mut i: usize = 0;
    while i < effects.active.len()
        invariant
            i <= effects.active.len(),
            effects.active.len() == old(effects).active.len(),
            (effects@.take(i as int), *velocity, *position) == effects_stepped(
                old(effects)@.take(i as int),
                delta,
                *old(velocity),
                *old(position),
            ),
            forall|j: int|
                i <= j < effects.active.len() ==> (#[trigger] effects@[j]) == old(effects)@[j],
        decreases effects.active.len() - i,
    {
        let ghost before = effects@;
        assert(old(effects)@.take(i + 1).drop_last() == old(effects)@.take(i as int));
        effects.active[i].step(delta, velocity, position);
        assert(effects@.take(i as int) == before.take(i as int));
        assert(effects@.take(i + 1) == effects@.take(i as int).push(effects@[i as int]));
        i += 1;
    }
    assert(effects@.take(i as int) == effects@);
    assert(old(effects)@.take(i as int) == old(effects)@);
}

/// Cleans the ledgers of an entity up at the end of a tick.
///
/// The property effects that have run out of time leave their ledger. Every
/// temporary status effect loses `delta` milliseconds; then only the active
/// status effects and the visual effects that are not over stay.
pub fn cleanup_effects(
    delta: u64,
    entity_effects: &mut EntityEffects,
    effects: &mut ActiveEffects,
    visual_effects: &mut VisualEffects,
)
    ensures
        final(entity_effects)@ == unexpired(old(entity_effects)@),
        final(effects)@ == active_only(all_time_consumed(old(effects)@, delta)),
        final(visual_effects)@ == unexpired_visuals(old(visual_effects)@),
{
    entity_effects.cleanup();
    effects.tick(delta);
    effects.cleanup();
    visual_effects.cleanup();
}

/// The velocity of an enemy that jumps.
pub open spec fn jumping(velocity: Velocity) -> Velocity {
    velocity.vertical_set(enemies::VELOCITY_ON_JUMP)
}

/// Makes an enemy jump if it has no vertical motion and luck is with it.
pub fn jump_if_lucky(velocity: &mut Velocity, lucky: bool) -> (jumped: bool)
    ensures
        jumped == (old(velocity).spec_vertical() == 0 && lucky),
        jumped ==> *final(velocity) == jumping(*old(velocity)),
        !jumped ==> *final(velocity) == *old(velocity),
{
    if velocity.vertical() == 0 && lucky {
        velocity.set_vertical(enemies::VELOCITY_ON_JUMP);
        true
    } else {
        false
    }
}

/// Lets at most one enemy jump.
///
/// The enemies are taken in their order. For each one without vertical
/// motion a coin is tossed that comes up once in a hundred times; the first
/// enemy for which it does jumps, and the others are left alone. Which one
/// jumps, if any, is left to chance.
pub fn random_enemy_jump(velocities: &mut Vec<Velocity>)
    ensures
        final(velocities).len() == old(velocities).len(),
        final(velocities)@ == old(velocities)@ || exists|i: int|
            0 <= i < old(velocities).len() && old(velocities)[i].spec_vertical() == 0
                && final(velocities)@ == old(velocities)@.update(
                i,
                jumping(#[trigger] old(velocities)[i]),
            ),
{
    let mut i: usize = 0;
    while i < velocities.len()
        invariant
            i <= velocities.len(),
            velocities@ == old(velocities)@,
        decreases velocities.len() - i,
    {
        if velocities[i].vertical() == 0 {
            let lucky = random_chance(1, 100);
            if jump_if_lucky(&mut velocities[i], lucky) {
                assert(velocities@ == old(velocities)@.update(
                    i as int,
                    jumping(old(velocities)[i as int]),
                ));
                return;
            }
        }
        i += 1;
    }
}

/// Starts a game that is about to start.
///
/// In the `Starting` phase the score goes back to zero, the player to full
/// health, to its place and to rest, all its effects go, it is visible, the
/// entities of the last game go, and the game is running. The best score
/// stays. In any other phase nothing changes.
pub fn start_game(
    game: &mut Game,
    state: &mut GameState,
    player: &mut Player,
    entity_effects: &mut EntityEffects,
    active_effects: &mut ActiveEffects,
    visual_effects: &mut VisualEffects,
    velocity: &mut Velocity,
    visible: &mut bool,
    position: &mut Position,
    entities: &mut Vec<Collidable>,
)
    ensures
        *final(state) == *old(state) || may_follow(*old(state), *final(state)),
        final(game).best_score == old(game).best_score,
        *old(state) == GameState::Starting ==> {
            &&& *final(state) == GameState::Running
            &&& *final(game) == (Game { score: 0, best_score: old(game).best_score })
            &&& *final(player) == (Player { health: old(player).max_health, ..*old(player) })
            &&& final(entity_effects)@ == Seq::<EntityEffectDescriptor>::empty()
            &&& final(active_effects)@ == Seq::<EffectView>::empty()
            &&& final(visual_effects)@ == Seq::<VisualEffect>::empty()
            &&& *final(velocity) == (Velocity { base: Vector2::zero(), boost: Vector2::one() })
            &&& *final(visible)
            &&& *final(position) == (Position {
                x: player::INITIAL_POSITION_X,
                y: player::INITIAL_POSITION_Y,
            })
            &&& final(entities)@ == Seq::<Collidable>::empty()
        },
        *old(state) != GameState::Starting ==> {
            &&& *final(state) == *old(state)
            &&& *final(game) == *old(game)
            &&& *final(player) == *old(player)
            &&& final(entity_effects)@ == old(entity_effects)@
            &&& final(active_effects)@ == old(active_effects)@
            &&& final(visual_effects)@ == old(visual_effects)@
            &&& *final(velocity) == *old(velocity)
            &&& *final(visible) == *old(visible)
            &&& *final(position) == *old(position)
            &&& final(entities)@ == old(entities)@
        },
{
    if *state != GameState::Starting {
        return;
    }
    game.score = 0;
    entities.clear();
    player.health = player.max_health;
    entity_effects.active.clear();
    active_effects.clear();
    visual_effects.effects.clear();
    velocity.reset();
    *visible = true;
    position.x = player::INITIAL_POSITION_X;
    position.y = player::INITIAL_POSITION_Y;
    *state = GameState::Running;
}

} // verus!
