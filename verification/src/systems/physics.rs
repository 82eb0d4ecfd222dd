//! Gravity, movement with the ground and the window as bounds, and contact
//! between the player and the entities that carry a collider.

use vstd::prelude::*;
use crate::player::{movement_state_of, update_movement_state, Player, PlayerEvent};
use crate::world::{
    clamp_i32, clamp_i64, saturate_i32, saturate_i64, Body, Collider, Gravity, Position, Size,
    Velocity,
};

verus! {

/// The change of vertical velocity that gravity makes in `delta`
/// milliseconds, kept within what a velocity component holds.
pub open spec fn gravity_pull(gravity: Gravity, delta: u64) -> int {
    clamp_i32(-(gravity.0 * delta))
}

/// Whether the body is above the line on which it rests.
pub open spec fn airborne(body: Body) -> bool {
    body.position.y > body.size.spec_half_height()
}

/// The body after gravity has acted on it for `delta` milliseconds: one in
/// the air falls faster, one on the ground is left alone. Fall speed has no
/// bound but the range of a velocity component.
pub open spec fn gravity_applied(body: Body, gravity: Gravity, delta: u64) -> Body {
    if airborne(body) {
        Body { velocity: body.velocity.vertical_added(gravity_pull(gravity, delta) as i32), ..body }
    } else {
        body
    }
}

/// Lets gravity act on one body.
pub fn apply_gravity(body: &mut Body, gravity: &Gravity, delta: u64)
    ensures
        *final(body) == gravity_applied(*old(body), *gravity, delta),
{
    if body.position.y > body.size.half_height() {
        assert(0 <= gravity.0 * delta <= 0xffff_ffff * 0xffff_ffff_ffff_ffff) by (nonlinear_arith)
            requires
                0 <= gravity.0 <= 0xffff_ffff,
                0 <= delta <= 0xffff_ffff_ffff_ffff,
        ;
        let pull: i128 = -(gravity.0 as i128 * delta as i128);
        body.velocity.add_vertical(saturate_i32(pull));
    }
}

/// Lets gravity act on every body for `delta` milliseconds.
pub fn gravity(delta: u64, gravity: &Gravity, bodies: &mut Vec<Body>)
    ensures
        final(bodies).len() == old(bodies).len(),
        forall|i: int|
            0 <= i < old(bodies).len() ==> (#[trigger] final(bodies)[i]) == gravity_applied(
                old(bodies)[i],
                *gravity,
                delta,
            ),
{
    let mut i: usize = 0;
    while i < bodies.len()
        invariant
            i <= bodies.len(),
            bodies.len() == old(bodies).len(),
            forall|j: int|
                0 <= j < i ==> (#[trigger] bodies[j]) == gravity_applied(
                    old(bodies)[j],
                    *gravity,
                    delta,
                ),
            forall|j: int| i <= j < bodies.len() ==> (#[trigger] bodies[j]) == old(bodies)[j],
        decreases bodies.len() - i,
    {
        apply_gravity(&mut bodies[i], gravity, delta);
        i += 1;
    }
}

/// The body after `delta` milliseconds of motion at its effective velocity.
/// A body that would end at or below the line on which it rests lands: it is
/// put on that line and loses its vertical velocity.
pub open spec fn advanced(body: Body, delta: u64) -> Body {
    let x = clamp_i64(body.position.x + body.velocity.spec_horizontal() * delta);
    let y = clamp_i64(body.position.y + body.velocity.spec_vertical() * delta);
    if y <= body.size.spec_half_height() {
        Body {
            position: Position { x: x as i64, y: body.size.spec_half_height() as i64 },
            velocity: body.velocity.vertical_dropped(),
            ..body
        }
    } else {
        Body { position: Position { x: x as i64, y: y as i64 }, ..body }
    }
}

/// The body held inside a window of the given width around zero: one whose
/// left edge is at or beyond the left border, or else whose right edge is at
/// or beyond the right border, is put against that border and loses its
/// horizontal velocity.
pub open spec fn kept_in_window(body: Body, window_width: u64) -> Body {
    let half = body.size.spec_half_width();
    let border = window_width as int / 2;
    if body.position.x - half <= -border {
        Body {
            position: Position { x: (half - border) as i64, y: body.position.y },
            velocity: body.velocity.horizontal_dropped(),
            ..body
        }
    } else if body.position.x + half >= border {
        Body {
            position: Position { x: (border - half) as i64, y: body.position.y },
            velocity: body.velocity.horizontal_dropped(),
            ..body
        }
    } else {
        body
    }
}

/// Moves one body for `delta` milliseconds and lands it where it reaches the
/// ground.
pub fn advance(body: &mut Body, delta: u64)
    ensures
        *final(body) == advanced(*old(body), delta),
{
    let v = body.velocity.current();
    proof {
        Velocity::lemma_product_fits(body.velocity.base.x, body.velocity.boost.x);
        Velocity::lemma_product_fits(body.velocity.base.y, body.velocity.boost.y);
        lemma_displacement_fits(v.x, delta);
        lemma_displacement_fits(v.y, delta);
    }
    let x: i64 = saturate_i64(body.position.x as i128 + v.x as i128 * delta as i128);
    let y: i64 = saturate_i64(body.position.y as i128 + v.y as i128 * delta as i128);
    let rest: i64 = body.size.half_height();
    body.position.x = x;
    if y <= rest {
        body.velocity.drop_vertical();
        body.position.y = rest;
    } else {
        body.position.y = y;
    }
}

/// An effective velocity times a time span stays far inside an `i128`.
proof fn lemma_displacement_fits(v: i64, delta: u64)
    requires
        -0x4000_0000_0000_0000 <= v <= 0x4000_0000_0000_0000,
    ensures
        -0x4000_0000_0000_0000 * 0x1_0000_0000_0000_0000 <= v * delta,
        v * delta <= 0x4000_0000_0000_0000 * 0x1_0000_0000_0000_0000,
{
    assert(-0x4000_0000_0000_0000 * 0x1_0000_0000_0000_0000 <= v * delta
        <= 0x4000_0000_0000_0000 * 0x1_0000_0000_0000_0000) by (nonlinear_arith)
        requires
            -0x4000_0000_0000_0000 <= v <= 0x4000_0000_0000_0000,
            0 <= delta < 0x1_0000_0000_0000_0000,
    ;
}

/// Holds one body inside the window.
pub fn keep_in_window(body: &mut Body, window_width: u64)
    ensures
        *final(body) == kept_in_window(*old(body), window_width),
{
    let half: i128 = body.size.half_width() as i128;
    let border: i128 = (window_width / 2) as i128;
    let x: i128 = body.position.x as i128;
    if x - half <= -border {
        body.position.x = (half - border) as i64;
        body.velocity.drop_horizontal();
    } else if x + half >= border {
        body.position.x = (border - half) as i64;
        body.velocity.drop_horizontal();
    }
}

/// Moves the player and every other body for `delta` milliseconds.
///
/// Each body moves at its effective velocity and lands where it reaches the
/// ground. The player is then held inside the window, and its movement state
/// is set to what its velocity shows after that.
pub fn movement(
    delta: u64,
    window_width: u64,
    player: &mut Player,
    player_body: &mut Body,
    bodies: &mut Vec<Body>,
)
    ensures
        *final(player_body) == kept_in_window(advanced(*old(player_body), delta), window_width),
        final(player).movement_state == movement_state_of(final(player_body).velocity),
        final(player).health == old(player).health,
        final(player).max_health == old(player).max_health,
        final(bodies).len() == old(bodies).len(),
        forall|i: int|
            0 <= i < old(bodies).len() ==> (#[trigger] final(bodies)[i]) == advanced(
                old(bodies)[i],
                delta,
            ),
{
    advance(player_body, delta);
    keep_in_window(player_body, window_width);
    update_movement_state(player, &player_body.velocity);
    let mut i: usize = 0;
    while i < bodies.len()
        invariant
            i <= bodies.len(),
            bodies.len() == old(bodies).len(),
            forall|j: int| 0 <= j < i ==> (#[trigger] bodies[j]) == advanced(old(bodies)[j], delta),
            forall|j: int| i <= j < bodies.len() ==> (#[trigger] bodies[j]) == old(bodies)[j],
        decreases bodies.len() - i,
    {
        advance(&mut bodies[i], delta);
        i += 1;
    }
}

/// Whether two boxes, each given by its centre and its size, share more than
/// an edge. The comparison is made on doubled coordinates, so that no half
/// is rounded.
pub open spec fn overlaps(a_position: Position, a_size: Size, b_position: Position, b_size: Size)
    -> bool {
    &&& 2 * a_position.x - a_size.width < 2 * b_position.x + b_size.width
    &&& 2 * a_position.x + a_size.width > 2 * b_position.x - b_size.width
    &&& 2 * a_position.y - a_size.height < 2 * b_position.y + b_size.height
    &&& 2 * a_position.y + a_size.height > 2 * b_position.y - b_size.height
}

/// Tests two boxes for overlap.
pub fn collide(a_position: Position, a_size: Size, b_position: Position, b_size: Size) -> (hit:
    bool)
    ensures
        hit == overlaps(a_position, a_size, b_position, b_size),
{
    let ax: i128 = 2 * (a_position.x as i128);
    let ay: i128 = 2 * (a_position.y as i128);
    let bx: i128 = 2 * (b_position.x as i128);
    let by: i128 = 2 * (b_position.y as i128);
    let aw: i128 = a_size.width as i128;
    let ah: i128 = a_size.height as i128;
    let bw: i128 = b_size.width as i128;
    let bh: i128 = b_size.height as i128;
    ax - aw < bx + bw && ax + aw > bx - bw && ay - ah < by + bh && ay + ah > by - bh
}

/// An entity that the player can touch.
#[derive(Clone, Copy, Debug, PartialEq, Eq, Structural)]
pub struct Collidable {
    /// The caller's name for the entity.
    pub entity: u64,
    pub position: Position,
    pub size: Size,
    pub collider: Collider,
}

impl Collidable {
    /// Whether the player's box overlaps the entity's.
    pub open spec fn touched_by(self, player: Body) -> bool {
        overlaps(player.position, player.size, self.position, self.size)
    }

    /// Whether contact uses the entity up.
    pub open spec fn consumed_by(self, player: Body) -> bool {
        self.touched_by(player) && self.collider is Award
    }

    /// What contact with the entity means for the player.
    pub open spec fn event(self) -> PlayerEvent {
        match self.collider {
            Collider::Solid => PlayerEvent::Hit,
            Collider::Award(award) => PlayerEvent::Award(award),
        }
    }
}

/// The events of one tick: one for each entity that the player touches, in
/// the order of the entities.
pub open spec fn contact_events(player: Body, colliders: Seq<Collidable>) -> Seq<PlayerEvent>
    decreases colliders.len(),
{
    if colliders.len() == 0 {
        Seq::empty()
    } else if colliders.last().touched_by(player) {
        contact_events(player, colliders.drop_last()).push(colliders.last().event())
    } else {
        contact_events(player, colliders.drop_last())
    }
}

/// The entities that are left after one tick: all but the awards that the
/// player touched, in their order.
pub open spec fn left_after_contact(player: Body, colliders: Seq<Collidable>) -> Seq<Collidable> {
    colliders.filter(|c: Collidable| !c.consumed_by(player))
}

/// Finds what the player touches.
///
/// Every entity whose box overlaps the player's gives one event: a hit for a
/// solid one, its award for an award. An award that was touched is taken out
/// of `colliders`, so that it cannot be picked up again; a solid entity
/// stays.
pub fn collisions(player: &Body, colliders: &mut Vec<Collidable>) -> (events: Vec<PlayerEvent>)
    ensures
        events@ == contact_events(*player, old(colliders)@),
        final(colliders)@ == left_after_contact(*player, old(colliders)@),
{
    let mut events: Vec<PlayerEvent> = Vec::new();
    let mut left: Vec<Collidable> = Vec::new();
    let mut i: usize = 0;
    while i < colliders.len()
        invariant
            i <= colliders.len(),
            colliders@ == old(colliders)@,
            events@ == contact_events(*player, colliders@.take(i as int)),
            left@ == left_after_contact(*player, colliders@.take(i as int)),
        decreases colliders.len() - i,
    {
        let collider = colliders[i];
        proof {
            assert(colliders@.take(i + 1).drop_last() == colliders@.take(i as int));
            assert(colliders@.take(i + 1) == colliders@.take(i as int).push(collider));
            colliders@.take(i as int).lemma_filter_push(
                collider,
                |c: Collidable| !c.consumed_by(*player),
            );
        }
        let mut keep: bool = true;
        if collide(player.position, player.size, collider.position, collider.size) {
            match collider.collider {
                Collider::Solid => {
                    events.push(PlayerEvent::Hit);
                },
                Collider::Award(award) => {
                    events.push(PlayerEvent::Award(award));
                    keep = false;
                },
            }
        }
        if keep {
            left.push(collider);
        }
        i += 1;
    }
    assert(colliders@.take(i as int) == colliders@);
    *colliders = left;
    events
}

} // verus!
