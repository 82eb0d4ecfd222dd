//! What the events of a tick do to the player and to the game.

use vstd::prelude::*;
use crate::awards::Award;
use crate::effects::{
    has_active_of_kind, ActiveEffects, Effect, EffectType, EffectView, PeriodicInvisibility,
    VisualEffect, VisualEffects,
};
use crate::game::{may_follow, Game, GameState};
use crate::player::{Player, PlayerEvent};
use crate::world::{clamp_i64, saturate_i64};

verus! {

/// Period of the blinking that follows a hit, in milliseconds.
pub const BLINK_PERIOD: u64 = 200;

/// How long the blinking that follows a hit lasts, in milliseconds.
pub const BLINK_TIME: u64 = 3_000;

/// The game and the player as the events of a tick find and leave them.
pub struct Situation {
    pub game: Game,
    pub state: GameState,
    pub player: Player,
    pub effects: Seq<EffectView>,
    pub visual_effects: Seq<VisualEffect>,
}

/// The blinking that follows a hit.
pub open spec fn blink() -> VisualEffect {
    VisualEffect::PeriodicInvisibility(
        PeriodicInvisibility {
            local_timer: crate::timer::Timer::spec_new(BLINK_PERIOD, true),
            global_timer: crate::timer::Timer::spec_new(BLINK_TIME, false),
        },
    )
}

/// Whether a hit does harm: the player is not invulnerable and has health
/// to lose.
pub open spec fn vulnerable(effects: Seq<EffectView>, player: Player) -> bool {
    !has_active_of_kind(effects, EffectType::Invulnerable) && player.health > 0
}

/// The situation after a hit.
///
/// A hit on an invulnerable player, or on one without health, changes
/// nothing. Otherwise the player loses one health. Losing the last one ends
/// the game; a player that lives on is invulnerable for a while, and blinks.
pub open spec fn hit_applied(s: Situation) -> Situation {
    if !vulnerable(s.effects, s.player) {
        s
    } else if s.player.health == 1 {
        Situation { player: Player { health: 0, ..s.player }, state: GameState::GameOver, ..s }
    } else {
        Situation {
            player: Player { health: (s.player.health - 1) as u8, ..s.player },
            effects: s.effects.push(EffectView::invulnerability()),
            visual_effects: s.visual_effects.push(blink()),
            ..s
        }
    }
}

/// The score after points are added: the sum, kept within what a score
/// holds.
pub open spec fn score_added(score: i64, points: i64) -> i64 {
    clamp_i64(score + points) as i64
}

/// The health after an award of `amount`: the sum, but no more than the
/// highest health allows.
pub open spec fn health_added(player: Player, amount: u8) -> u8 {
    vstd::math::min(player.health + amount, player.max_health as int) as u8
}

/// The game after points are added to its score: the best score is the
/// higher of the best score before and the new score.
pub open spec fn score_awarded(game: Game, points: i64) -> Game {
    let score = score_added(game.score, points);
    Game { score, best_score: vstd::math::max(game.best_score as int, score as int) as i64 }
}

/// The situation after an award.
pub open spec fn award_applied(s: Situation, award: Award) -> Situation {
    match award {
        Award::Score(points) => Situation { game: score_awarded(s.game, points), ..s },
        Award::Health(amount) => Situation {
            player: Player { health: health_added(s.player, amount), ..s.player },
            ..s
        },
    }
}

/// The situation after one event.
pub open spec fn event_applied(s: Situation, event: PlayerEvent) -> Situation {
    match event {
        PlayerEvent::Hit => hit_applied(s),
        PlayerEvent::Award(award) => award_applied(s, award),
    }
}

/// The situation after a sequence of events, taken in their order.
pub open spec fn events_applied(s: Situation, events: Seq<PlayerEvent>) -> Situation
    decreases events.len(),
{
    if events.len() == 0 {
        s
    } else {
        event_applied(events_applied(s, events.drop_last()), events.last())
    }
}

/// The situation after the events of a tick have been consumed: in a
/// running game they have acted, in their order; in any other phase the
/// situation is what it was.
pub open spec fn events_consumed(s: Situation, events: Seq<PlayerEvent>) -> Situation {
    if s.state == GameState::Running {
        events_applied(s, events)
    } else {
        s
    }
}

/// Lets a hit act on the player.
///
/// A hit on an invulnerable player, or on one without health, changes
/// nothing: no health is lost and no effect is added. Otherwise the player
/// loses one health. Losing the last one ends the game; a player that lives
/// on gets a new invulnerability and blinks.
pub fn apply_hit(
    state: &mut GameState,
    player: &mut Player,
    effects: &mut ActiveEffects,
    visual_effects: &mut VisualEffects,
)
    ensures
        final(player).movement_state == old(player).movement_state,
        final(player).max_health == old(player).max_health,
        old(player).wf() ==> final(player).wf(),
        !vulnerable(old(effects)@, *old(player)) ==> {
            &&& *final(state) == *old(state)
            &&& final(player).health == old(player).health
            &&& final(effects)@ == old(effects)@
            &&& final(visual_effects)@ == old(visual_effects)@
        },
        vulnerable(old(effects)@, *old(player)) && old(player).health == 1 ==> {
            &&& *final(state) == GameState::GameOver
            &&& final(player).health == 0
            &&& final(effects)@ == old(effects)@
            &&& final(visual_effects)@ == old(visual_effects)@
        },
        vulnerable(old(effects)@, *old(player)) && old(player).health > 1 ==> {
            &&& *final(state) == *old(state)
            &&& final(player).health == old(player).health - 1
            &&& final(effects)@ == old(effects)@.push(EffectView::invulnerability())
            &&& final(visual_effects)@ == old(visual_effects)@.push(blink())
        },
{
    let is_invulnerable = effects.has_active_of_kind(EffectType::Invulnerable);
    if !is_invulnerable && player.health > 0 {
        player.health -= 1;
        if player.health == 0 {
            *state = GameState::GameOver;
        } else {
            effects.add(Effect::new_invulnerability());
            visual_effects.effects.push(
                VisualEffect::PeriodicInvisibility(
                    PeriodicInvisibility::new(BLINK_PERIOD, BLINK_TIME),
                ),
            );
        }
    }
}

/// Lets an award act on the game and the player.
pub fn apply_award(game: &mut Game, player: &mut Player, award: Award)
    ensures
        old(player).wf() ==> final(player).wf(),
        final(game).best_score >= old(game).best_score,
        match award {
            Award::Score(points) => *final(game) == score_awarded(*old(game), points)
                && *final(player) == *old(player),
            Award::Health(amount) => *final(game) == *old(game) && *final(player) == (Player {
                health: health_added(*old(player), amount),
                ..*old(player)
            }),
        },
{
    match award {
        Award::Score(points) => {
            game.score = saturate_i64(game.score as i128 + points as i128);
            if game.best_score < game.score {
                game.best_score = game.score;
            }
        },
        Award::Health(amount) => {
            let sum: u16 = player.health as u16 + amount as u16;
            if sum <= player.max_health as u16 {
                player.health = sum as u8;
            } else {
                player.health = player.max_health;
            }
        },
    }
}

/// Lets the events of a tick act, in their order, while the game is running.
/// In any other phase nothing changes.
///
/// A hit that takes the last health ends the game. The events that follow it
/// in the same tick still act.
pub fn player_events(
    game: &mut Game,
    state: &mut GameState,
    events: &Vec<PlayerEvent>,
    player: &mut Player,
    effects: &mut ActiveEffects,
    visual_effects: &mut VisualEffects,
)
    ensures
        (Situation {
            game: *final(game),
            state: *final(state),
            player: *final(player),
            effects: final(effects)@,
            visual_effects: final(visual_effects)@,
        }) == events_consumed(
            Situation {
                game: *old(game),
                state: *old(state),
                player: *old(player),
                effects: old(effects)@,
                visual_effects: old(visual_effects)@,
            },
            events@,
        ),
        *final(state) == *old(state) || may_follow(*old(state), *final(state)),
        old(player).wf() ==> final(player).wf(),
        final(game).best_score >= old(game).best_score,
{
    if *state != GameState::Running {
        return;
    }
    let ghost start = Situation {
        game: *game,
        state: *state,
        player: *player,
        effects: effects@,
        visual_effects: visual_effects@,
    };
    let mut i: usize = 0;
    while i < events.len()
        invariant
            i <= events.len(),
            (Situation {
                game: *game,
                state: *state,
                player: *player,
                effects: effects@,
                visual_effects: visual_effects@,
            }) == events_applied(start, events@.take(i as int)),
            *state == GameState::Running || *state == GameState::GameOver,
            old(player).wf() ==> player.wf(),
            game.best_score >= old(game).best_score,
        decreases events.len() - i,
    {
        assert(events@.take(i + 1).drop_last() == events@.take(i as int));
        match events[i] {
            PlayerEvent::Hit => {
                apply_hit(state, player, effects, visual_effects);
            },
            PlayerEvent::Award(award) => {
                apply_award(game, player, award);
            },
        }
        i += 1;
    }
    assert(events@.take(i as int) == events@);
}

} // verus!
