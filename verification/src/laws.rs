//! Laws that hold of the simulation as a whole, each proved from the
//! definitions that the contracts of the library use.

use vstd::prelude::*;
use crate::effects::{
    active_only, all_time_consumed, has_active_of_kind, EffectLength, EffectType, EffectView,
    SpeedBoost,
};
use crate::awards::Award;
use crate::player::{Player, PlayerEvent};
use crate::systems::events::{
    event_applied, events_applied, events_consumed, hit_applied, score_awarded, vulnerable,
    Situation,
};
use crate::systems::physics::{
    advanced, contact_events, gravity_applied, kept_in_window, left_after_contact, Collidable,
};
use crate::game::{Game, GameState};
use crate::timer::{Timer, LONGEST_EXACT_DURATION};
use crate::world::{Body, Gravity, Velocity};

verus! {

/// A hit on a player with an active invulnerability changes nothing: the
/// health stays, and no second invulnerability is added.
pub proof fn lemma_invulnerability_blocks_hit(s: Situation)
    requires
        has_active_of_kind(s.effects, EffectType::Invulnerable),
    ensures
        hit_applied(s) == s,
{
}

/// A hit that leaves the player alive makes it invulnerable.
pub proof fn lemma_surviving_a_hit_protects(s: Situation)
    requires
        vulnerable(s.effects, s.player),
        s.player.health > 1,
    ensures
        has_active_of_kind(hit_applied(s).effects, EffectType::Invulnerable),
        hit_applied(s).player.health == s.player.health - 1,
{
    let after = hit_applied(s).effects;
    let last = after.len() - 1;
    assert(after[last] == EffectView::invulnerability());
    assert(after[last].effect == EffectType::Invulnerable && after[last].is_active());
}

/// Two hits in a row do no more than one: the second one finds the player
/// invulnerable or without health.
pub proof fn lemma_second_hit_is_blocked(s: Situation)
    ensures
        hit_applied(hit_applied(s)) == hit_applied(s),
{
    if vulnerable(s.effects, s.player) && s.player.health > 1 {
        lemma_surviving_a_hit_protects(s);
    }
}

/// In a running game a health award gives the player the sum of its health
/// and the award, but no more than its highest health: the health stays
/// within its bound, and nothing else changes.
pub proof fn lemma_health_award_is_clamped(s: Situation, amount: u8)
    requires
        s.state == GameState::Running,
        s.player.health <= s.player.max_health,
    ensures
        events_consumed(s, seq![PlayerEvent::Award(Award::Health(amount))]) == (Situation {
            player: Player {
                health: vstd::math::min(
                    s.player.health + amount,
                    s.player.max_health as int,
                ) as u8,
                ..s.player
            },
            ..s
        }),
        events_consumed(s, seq![PlayerEvent::Award(Award::Health(amount))]).player.wf(),
{
    let events = seq![PlayerEvent::Award(Award::Health(amount))];
    assert(events.drop_last() == Seq::<PlayerEvent>::empty());
    assert(events.last() == PlayerEvent::Award(Award::Health(amount)));
    reveal_with_fuel(events_applied, 2);
}

/// In a running game a score award whose sum with the score a score can
/// hold adds its points to the score, and the best score is then the higher
/// of the best score before and the new score. Nothing else changes.
pub proof fn lemma_score_award_adds_up(s: Situation, points: i64)
    requires
        s.state == GameState::Running,
        i64::MIN <= s.game.score + points <= i64::MAX,
    ensures
        events_consumed(s, seq![PlayerEvent::Award(Award::Score(points))]) == (Situation {
            game: Game {
                score: (s.game.score + points) as i64,
                best_score: vstd::math::max(
                    s.game.best_score as int,
                    s.game.score + points,
                ) as i64,
            },
            ..s
        }),
{
    let events = seq![PlayerEvent::Award(Award::Score(points))];
    assert(events.drop_last() == Seq::<PlayerEvent>::empty());
    assert(events.last() == PlayerEvent::Award(Award::Score(points)));
    reveal_with_fuel(events_applied, 2);
}

/// After points are added, the best score is the higher of the best score
/// before and the new score, and so no lower than either.
pub proof fn lemma_best_score_after_award(game: Game, points: i64)
    ensures
        score_awarded(game, points).best_score == vstd::math::max(
            game.best_score as int,
            score_awarded(game, points).score as int,
        ),
        score_awarded(game, points).best_score >= game.best_score,
        score_awarded(game, points).best_score >= score_awarded(game, points).score,
{
}

/// Whatever the events of a tick are, the best score does not go down.
pub proof fn lemma_best_score_never_decreases(s: Situation, events: Seq<PlayerEvent>)
    ensures
        events_applied(s, events).game.best_score >= s.game.best_score,
    decreases events.len(),
{
    if events.len() > 0 {
        lemma_best_score_never_decreases(s, events.drop_last());
    }
}

/// The highest score that stood right after a score award of the sequence,
/// if there was such an award.
pub open spec fn highest_score(s: Situation, events: Seq<PlayerEvent>) -> Option<i64>
    decreases events.len(),
{
    if events.len() == 0 {
        None
    } else {
        let before = highest_score(s, events.drop_last());
        match events.last() {
            PlayerEvent::Award(Award::Score(_)) => {
                let now = events_applied(s, events).game.score;
                match before {
                    Some(highest) if highest >= now => before,
                    _ => Some(now),
                }
            },
            _ => before,
        }
    }
}

/// After the events of a tick the best score is the higher of the best score
/// before them and the highest score that a score award of the tick left.
/// Without a score award it is what it was.
pub proof fn lemma_best_score_is_running_maximum(s: Situation, events: Seq<PlayerEvent>)
    ensures
        events_applied(s, events).game.best_score == match highest_score(s, events) {
            Some(highest) => vstd::math::max(s.game.best_score as int, highest as int),
            None => s.game.best_score as int,
        },
    decreases events.len(),
{
    if events.len() > 0 {
        lemma_best_score_is_running_maximum(s, events.drop_last());
    }
}

/// A best score that is no lower than the score stays so, whatever the
/// events of a tick are.
pub proof fn lemma_best_score_bounds_score(s: Situation, events: Seq<PlayerEvent>)
    requires
        s.game.best_score >= s.game.score,
    ensures
        events_applied(s, events).game.best_score >= events_applied(s, events).game.score,
    decreases events.len(),
{
    if events.len() > 0 {
        lemma_best_score_bounds_score(s, events.drop_last());
    }
}

/// Whatever the events of a tick are, the health stays within its bound, and
/// the bound stays what it is.
pub proof fn lemma_health_stays_bounded(s: Situation, events: Seq<PlayerEvent>)
    requires
        s.player.wf(),
    ensures
        events_applied(s, events).player.wf(),
        events_applied(s, events).player.max_health == s.player.max_health,
    decreases events.len(),
{
    if events.len() > 0 {
        lemma_health_stays_bounded(s, events.drop_last());
    }
}

/// Events end a game and never start one: the phase after a tick's events is
/// the phase before them, or the game is over.
pub proof fn lemma_events_only_end_the_game(s: Situation, events: Seq<PlayerEvent>)
    ensures
        events_applied(s, events).state == s.state || events_applied(s, events).state
            == GameState::GameOver,
    decreases events.len(),
{
    if events.len() > 0 {
        lemma_events_only_end_the_game(s, events.drop_last());
    }
}

/// Events act one after the other: a sequence with one more event at its end
/// leaves what that event makes of what the sequence leaves.
pub proof fn lemma_events_act_in_order(s: Situation, events: Seq<PlayerEvent>, last: PlayerEvent)
    ensures
        events_applied(s, events.push(last)) == event_applied(events_applied(s, events), last),
{
    assert(events.push(last).drop_last() == events);
}

/// An award is taken once: of the entities that a tick's contacts leave,
/// none is an award that the player touches, so contact with them gives hits
/// only and removes nothing more.
pub proof fn lemma_award_is_taken_once(player: Body, colliders: Seq<Collidable>)
    ensures
        forall|i: int|
            0 <= i < left_after_contact(player, colliders).len() ==> !(
            #[trigger] left_after_contact(player, colliders)[i]).consumed_by(player),
        forall|i: int|
            0 <= i < contact_events(player, left_after_contact(player, colliders)).len()
                ==> #[trigger] contact_events(player, left_after_contact(player, colliders))[i]
                == PlayerEvent::Hit,
        left_after_contact(player, left_after_contact(player, colliders)) == left_after_contact(
            player,
            colliders,
        ),
{
    let left = left_after_contact(player, colliders);
    let kept = |c: Collidable| !c.consumed_by(player);
    assert forall|i: int| 0 <= i < left.len() implies !(#[trigger] left[i]).consumed_by(
        player,
    ) by {
        colliders.lemma_filter_pred(kept, i);
    }
    lemma_unconsumed_give_hits(player, left);
    lemma_filter_keeps_all(player, left);
}

/// Contact with entities of which none is used up gives hits only.
proof fn lemma_unconsumed_give_hits(player: Body, colliders: Seq<Collidable>)
    requires
        forall|i: int| 0 <= i < colliders.len() ==> !(#[trigger] colliders[i]).consumed_by(player),
    ensures
        forall|i: int|
            0 <= i < contact_events(player, colliders).len() ==> #[trigger] contact_events(
                player,
                colliders,
            )[i] == PlayerEvent::Hit,
    decreases colliders.len(),
{
    if colliders.len() > 0 {
        lemma_unconsumed_give_hits(player, colliders.drop_last());
        assert(!colliders[colliders.len() - 1].consumed_by(player));
    }
}

/// Entities of which none is used up all stay.
proof fn lemma_filter_keeps_all(player: Body, colliders: Seq<Collidable>)
    requires
        forall|i: int| 0 <= i < colliders.len() ==> !(#[trigger] colliders[i]).consumed_by(player),
    ensures
        left_after_contact(player, colliders) == colliders,
    decreases colliders.len(),
{
    reveal(Seq::filter);
    if colliders.len() > 0 {
        lemma_filter_keeps_all(player, colliders.drop_last());
        assert(!colliders[colliders.len() - 1].consumed_by(player));
        assert(colliders.drop_last().push(colliders.last()) == colliders);
    }
}

/// After a tick's decay and cleanup every status effect that is left is
/// active: one whose time has just run out is gone in the same tick.
pub proof fn lemma_cleanup_leaves_active_effects(effects: Seq<EffectView>, delta: u64)
    ensures
        forall|i: int|
            0 <= i < active_only(all_time_consumed(effects, delta)).len() ==> (
            #[trigger] active_only(all_time_consumed(effects, delta))[i]).is_active(),
{
    let decayed = all_time_consumed(effects, delta);
    assert forall|i: int| 0 <= i < active_only(decayed).len() implies (#[trigger] active_only(
        decayed,
    )[i]).is_active() by {
        decayed.lemma_filter_pred(|e: EffectView| e.is_active(), i);
    }
}

/// A temporary status effect with no more time than a tick takes is not
/// active after that tick.
pub proof fn lemma_effect_expires_without_grace(effect: EffectView, delta: u64)
    requires
        effect.length matches EffectLength::Temporary(left) && left <= delta,
    ensures
        !effect.time_consumed(delta).is_active(),
{
}

/// Decay adds up: two ticks wear a status effect down as much as one tick of
/// their joint length.
pub proof fn lemma_decay_adds_up(effect: EffectView, first: u64, second: u64)
    requires
        first + second <= u64::MAX,
    ensures
        effect.time_consumed(first).time_consumed(second) == effect.time_consumed(
            (first + second) as u64,
        ),
{
}

/// Gravity only pulls down: it never raises the vertical velocity of a body,
/// and it leaves the rest of the body alone.
pub proof fn lemma_gravity_only_pulls_down(body: Body, gravity: Gravity, delta: u64)
    ensures
        gravity_applied(body, gravity, delta).velocity.base.y <= body.velocity.base.y,
        gravity_applied(body, gravity, delta).velocity.base.x == body.velocity.base.x,
        gravity_applied(body, gravity, delta).velocity.boost == body.velocity.boost,
        gravity_applied(body, gravity, delta).position == body.position,
        gravity_applied(body, gravity, delta).size == body.size,
{
    assert(gravity.0 * delta >= 0) by (nonlinear_arith)
        requires
            gravity.0 >= 0,
            delta >= 0,
    ;
}

/// Nothing sinks into the ground: after a move a body is on the line on
/// which it rests or above it, and one that is on the line has no vertical
/// velocity.
pub proof fn lemma_nothing_sinks_into_the_ground(body: Body, delta: u64)
    ensures
        advanced(body, delta).position.y >= body.size.spec_half_height(),
        advanced(body, delta).position.y == body.size.spec_half_height() ==> advanced(
            body,
            delta,
        ).velocity.spec_vertical() == 0,
        advanced(body, delta).size == body.size,
{
}

/// A body that is no wider than the window lies inside it once it has been
/// held there: neither edge is beyond a border.
pub proof fn lemma_window_holds_what_fits(body: Body, window_width: u64)
    requires
        body.size.width <= window_width,
    ensures
        -(window_width as int / 2) <= kept_in_window(body, window_width).position.x
            - body.size.spec_half_width(),
        kept_in_window(body, window_width).position.x + body.size.spec_half_width() <= window_width
            as int / 2,
        kept_in_window(body, window_width).position.y == body.position.y,
{
}

/// A speed boost composes with the base velocity by multiplication, applying
/// it twice is applying it once, and undoing it gives the base velocity
/// back.
pub proof fn lemma_boost_applies_and_undoes(boost: SpeedBoost, velocity: Velocity)
    ensures
        boost.applied(velocity).spec_horizontal() == velocity.base.x * boost.boost.x,
        boost.applied(velocity).spec_vertical() == velocity.base.y * boost.boost.y,
        boost.applied(boost.applied(velocity)) == boost.applied(velocity),
        boost.undone(boost.applied(velocity)).spec_horizontal() == velocity.base.x,
        boost.undone(boost.applied(velocity)).spec_vertical() == velocity.base.y,
        boost.undone(boost.undone(velocity)) == boost.undone(velocity),
{
}

/// Setting the velocity of an axis takes the boost of that axis away and
/// leaves the other axis alone.
pub proof fn lemma_set_axis_cancels_boost(velocity: Velocity, v: i32)
    ensures
        velocity.horizontal_set(v).boost.x == 1,
        velocity.horizontal_set(v).spec_horizontal() == v,
        velocity.horizontal_set(v).spec_vertical() == velocity.spec_vertical(),
        velocity.vertical_set(v).boost.y == 1,
        velocity.vertical_set(v).spec_vertical() == v,
        velocity.vertical_set(v).spec_horizontal() == velocity.spec_horizontal(),
{
}

/// A one-shot timer that has finished stays finished, however often it
/// ticks, until it is reset.
pub proof fn lemma_one_shot_timer_latches(timer: Timer, delta: u64)
    requires
        !timer.repeating,
        timer.finished,
    ensures
        timer.ticked(delta).finished,
        timer.ticked(delta).times_finished == 0,
        timer.ticked(delta).elapsed == timer.elapsed,
        !timer.rewound().finished,
{
}

/// A timer finishes in the tick in which its duration has gone by. A
/// one-shot timer then stands at its duration. A repeating timer starts over
/// with what is left of the time, as long as its duration is no longer than
/// `LONGEST_EXACT_DURATION`, and has completed as many cycles as fit into
/// the time, as long as they are fewer than two to the power of 32.
pub proof fn lemma_timer_finishes_on_time(timer: Timer, delta: u64)
    requires
        timer.repeating || !timer.finished,
    ensures
        timer.ticked(delta).finished == (timer.elapsed + delta >= timer.duration),
        !timer.repeating && timer.ticked(delta).finished ==> timer.ticked(delta).elapsed
            == timer.duration && timer.ticked(delta).times_finished == 1,
        !timer.ticked(delta).finished ==> timer.ticked(delta).elapsed == timer.elapsed + delta
            && timer.ticked(delta).times_finished == 0,
        timer.repeating && 0 < timer.duration <= LONGEST_EXACT_DURATION && timer.ticked(
            delta,
        ).finished ==> timer.ticked(delta).elapsed == (timer.elapsed + delta) % (
        timer.duration as int),
        timer.repeating && 0 < timer.duration <= timer.elapsed + delta && (timer.elapsed + delta)
            / (timer.duration as int) < 0x1_0000_0000 ==> timer.ticked(delta).times_finished == (
        timer.elapsed + delta) / (timer.duration as int) && timer.ticked(delta).times_finished
            > 0,
{
    let total = timer.elapsed + delta;
    let duration = timer.duration as int;
    if timer.repeating && duration > 0 && total >= duration {
        let left = total % duration;
        let cycles = total / duration;
        assert(0 <= left < duration && cycles >= 1) by (nonlinear_arith)
            requires
                0 < duration <= total,
                left == total % duration,
                cycles == total / duration,
        ;
        if duration <= LONGEST_EXACT_DURATION {
            assert(0 <= left * 1_000_000 < 0x1_0000_0000_0000_0000);
            assert((left * 1_000_000) % 0x1_0000_0000_0000_0000 == left * 1_000_000);
            assert((left * 1_000_000) / 1_000_000 == left);
        }
        if cycles < 0x1_0000_0000 {
            assert(cycles % 0x1_0000_0000 == cycles);
        }
    }
}

} // verus!
