//! Effects attached to an entity: property effects with an apply and undo
//! pair, status effects that wear off, and visual effects.

use vstd::prelude::*;
use crate::timer::Timer;
use crate::world::{Position, Vector2, Velocity};

verus! {

/// How long a property effect lasts.
#[derive(Clone, Copy, Debug, PartialEq, Eq, Structural)]
pub enum EffectDuration {
    Permanent,
    /// Milliseconds that are left.
    Temporary(u64),
}

/// Multiplies the velocity of an entity while it lasts.
#[derive(Clone, Copy, Debug, PartialEq, Eq, Structural)]
pub struct SpeedBoost {
    pub boost: Vector2,
}

impl SpeedBoost {
    /// The velocity under this boost: the base stays, the boost is replaced.
    pub open spec fn applied(self, velocity: Velocity) -> Velocity {
        Velocity { base: velocity.base, boost: self.boost }
    }

    /// The velocity once the boost is gone: the base stays, the boost is
    /// back to `(1, 1)`.
    pub open spec fn undone(self, velocity: Velocity) -> Velocity {
        Velocity { base: velocity.base, boost: Vector2::one() }
    }

    /// A boost of the horizontal velocity alone.
    pub fn horizontal(v: i32) -> (boost: SpeedBoost)
        ensures
            boost.boost == (Vector2 { x: v, y: 1 }),
    {
        SpeedBoost { boost: Vector2::new(v, 1) }
    }

    /// A boost of the vertical velocity alone.
    pub fn vertical(v: i32) -> (boost: SpeedBoost)
        ensures
            boost.boost == (Vector2 { x: 1, y: v }),
    {
        SpeedBoost { boost: Vector2::new(1, v) }
    }

    /// Lays the boost over the velocity. Doing so again changes nothing.
    pub fn apply(&mut self, velocity: &mut Velocity, position: &mut Position)
        ensures
            *final(self) == *old(self),
            *final(velocity) == old(self).applied(*old(velocity)),
            *final(position) == *old(position),
    {
        velocity.set_boost(self.boost);
    }

    /// Takes the boost off the velocity.
    pub fn undo(&mut self, velocity: &mut Velocity, position: &mut Position)
        ensures
            *final(self) == *old(self),
            *final(velocity) == old(self).undone(*old(velocity)),
            *final(position) == *old(position),
    {
        velocity.drop_boost();
    }
}

impl From<Vector2> for SpeedBoost {
    fn from(v: Vector2) -> (boost: SpeedBoost) {
        SpeedBoost { boost: v }
    }
}

impl vstd::std_specs::convert::FromSpecImpl<Vector2> for SpeedBoost {
    open spec fn obeys_from_spec() -> bool {
        true
    }

    open spec fn from_spec(v: Vector2) -> SpeedBoost {
        SpeedBoost { boost: v }
    }
}

/// An effect on the kinematic properties of an entity. What `apply` changes,
/// `undo` takes back.
#[derive(Clone, Copy, Debug, PartialEq, Eq, Structural)]
pub enum EntityEffect {
    SpeedBoost(SpeedBoost),
}

impl EntityEffect {
    /// Effect, velocity and position after `apply`.
    pub open spec fn applied(self, velocity: Velocity, position: Position) -> (
        EntityEffect,
        Velocity,
        Position,
    ) {
        match self {
            EntityEffect::SpeedBoost(boost) => (self, boost.applied(velocity), position),
        }
    }

    /// Effect, velocity and position after `undo`.
    pub open spec fn undone(self, velocity: Velocity, position: Position) -> (
        EntityEffect,
        Velocity,
        Position,
    ) {
        match self {
            EntityEffect::SpeedBoost(boost) => (self, boost.undone(velocity), position),
        }
    }

    /// Lets the effect act on the entity that carries it.
    pub fn apply(&mut self, velocity: &mut Velocity, position: &mut Position)
        ensures
            (*final(self), *final(velocity), *final(position)) == old(self).applied(
                *old(velocity),
                *old(position),
            ),
    {
        match self {
            EntityEffect::SpeedBoost(boost) => boost.apply(velocity, position),
        }
    }

    /// Takes back what `apply` did to the entity.
    pub fn undo(&mut self, velocity: &mut Velocity, position: &mut Position)
        ensures
            (*final(self), *final(velocity), *final(position)) == old(self).undone(
                *old(velocity),
                *old(position),
            ),
    {
        match self {
            EntityEffect::SpeedBoost(boost) => boost.undo(velocity, position),
        }
    }
}

/// A property effect together with the time it has left.
#[derive(Clone, Copy, Debug, PartialEq, Eq, Structural)]
pub struct EntityEffectDescriptor {
    pub effect: EntityEffect,
    pub duration: EffectDuration,
}

impl EntityEffectDescriptor {
    /// The descriptor after `delta` milliseconds: a temporary one has that
    /// much less time, and never less than none.
    pub open spec fn ticked(self, delta: u64) -> EntityEffectDescriptor {
        match self.duration {
            EffectDuration::Permanent => self,
            EffectDuration::Temporary(left) => EntityEffectDescriptor {
                effect: self.effect,
                duration: EffectDuration::Temporary(
                    if delta >= left {
                        0
                    } else {
                        (left - delta) as u64
                    },
                ),
            },
        }
    }

    pub open spec fn spec_is_expired(&self) -> bool {
        self.duration == EffectDuration::Temporary(0)
    }

    /// Descriptor, velocity and position after one tick of `delta`
    /// milliseconds: time is taken off, then the effect is applied if any
    /// time is left and undone if none is.
    pub open spec fn stepped(self, delta: u64, velocity: Velocity, position: Position) -> (
        EntityEffectDescriptor,
        Velocity,
        Position,
    ) {
        let ticked = self.ticked(delta);
        let (effect, velocity, position) = if ticked.spec_is_expired() {
            ticked.effect.undone(velocity, position)
        } else {
            ticked.effect.applied(velocity, position)
        };
        (EntityEffectDescriptor { effect, duration: ticked.duration }, velocity, position)
    }

    /// An effect that lasts until it is taken away.
    pub fn new_permanent(effect: EntityEffect) -> (descriptor: EntityEffectDescriptor)
        ensures
            descriptor == (EntityEffectDescriptor { effect, duration: EffectDuration::Permanent }),
    {
        EntityEffectDescriptor { effect, duration: EffectDuration::Permanent }
    }

    /// An effect that lasts for `duration` milliseconds.
    pub fn new_temporary(effect: EntityEffect, duration: u64) -> (descriptor:
        EntityEffectDescriptor)
        ensures
            descriptor == (EntityEffectDescriptor {
                effect,
                duration: EffectDuration::Temporary(duration),
            }),
    {
        EntityEffectDescriptor { effect, duration: EffectDuration::Temporary(duration) }
    }

    /// The effect, to apply or undo it.
    pub fn effect(&mut self) -> (effect: &mut EntityEffect)
        ensures
            *effect == old(self).effect,
            final(self).effect == *final(effect),
            final(self).duration == old(self).duration,
    {
        &mut self.effect
    }

    /// Takes `delta` milliseconds off the time that is left: what is left
    /// never grows and never falls below zero.
    pub fn tick(&mut self, delta: u64)
        ensures
            *final(self) == old(self).ticked(delta),
            old(self).duration matches EffectDuration::Temporary(before) ==> final(self).duration
                == EffectDuration::Temporary(
                if before - delta > 0 {
                    (before - delta) as u64
                } else {
                    0
                },
            ),
            old(self).duration is Permanent ==> final(self).duration is Permanent,
    {
        if let EffectDuration::Temporary(left) = self.duration {
            if delta >= left {
                self.duration = EffectDuration::Temporary(0);
            } else {
                self.duration = EffectDuration::Temporary(left - delta);
            }
        }
    }

    /// Whether a temporary effect has run out of time. A permanent one never
    /// does.
    #[verifier::when_used_as_spec(spec_is_expired)]
    pub fn is_expired(&self) -> (expired: bool)
        ensures
            expired == self.spec_is_expired(),
    {
        match self.duration {
            EffectDuration::Permanent => false,
            EffectDuration::Temporary(left) => left == 0,
        }
    }

    /// One tick of the descriptor on the entity that carries it.
    pub fn step(&mut self, delta: u64, velocity: &mut Velocity, position: &mut Position)
        ensures
            (*final(self), *final(velocity), *final(position)) == old(self).stepped(
                delta,
                *old(velocity),
                *old(position),
            ),
    {
        self.tick(delta);
        if !self.is_expired() {
            self.effect.apply(velocity, position);
        } else {
            self.effect.undo(velocity, position);
        }
    }
}

/// The descriptors of a ledger that have time left, in their order.
pub open spec fn unexpired(descriptors: Seq<EntityEffectDescriptor>) -> Seq<
    EntityEffectDescriptor,
> {
    descriptors.filter(|d: EntityEffectDescriptor| !d.spec_is_expired())
}

/// The property effects of one entity, in the order in which they were added.
pub struct EntityEffects {
    pub active: Vec<EntityEffectDescriptor>,
}

impl View for EntityEffects {
    type V = Seq<EntityEffectDescriptor>;

    open spec fn view(&self) -> Seq<EntityEffectDescriptor> {
        self.active@
    }
}

impl Default for EntityEffects {
    fn default() -> (effects: EntityEffects)
        ensures
            effects@ == Seq::<EntityEffectDescriptor>::empty(),
    {
        EntityEffects { active: Vec::new() }
    }
}

impl EntityEffects {
    /// Drops the descriptors that have run out of time and keeps the others
    /// in their order.
    pub fn cleanup(&mut self)
        ensures
            final(self)@ == unexpired(old(self)@),
    {
        let mut kept: Vec<EntityEffectDescriptor> = Vec::new();
        let mut i: usize = 0;
        while i < self.active.len()
            invariant
                i <= self.active.len(),
                self.active@ == old(self).active@,
                kept@ == unexpired(self.active@.take(i as int)),
            decreases self.active.len() - i,
        {
            let descriptor = self.active[i];
            proof {
                assert(self.active@.take(i + 1) == self.active@.take(i as int).push(descriptor));
                self.active@.take(i as int).lemma_filter_push(
                    descriptor,
                    |d: EntityEffectDescriptor| !d.spec_is_expired(),
                );
            }
            if !descriptor.is_expired() {
                kept.push(descriptor);
            }
            i += 1;
        }
        assert(self.active@.take(i as int) == self.active@);
        self.active = kept;
    }
}

/// What a status effect does.
#[derive(Clone, Copy, Debug, PartialEq, Eq, Structural)]
pub enum EffectType {
    /// Hits do no harm.
    Invulnerable,
}

/// How long a status effect lasts.
#[derive(Clone, Copy, Debug, PartialEq, Eq, Structural)]
pub enum EffectLength {
    Permanent,
    /// Milliseconds that are left.
    Temporary(u64),
    /// Uses that are left.
    Countable(u8),
}

/// A status effect on an entity.
#[derive(Debug)]
pub struct Effect {
    pub name: String,
    pub length: EffectLength,
    pub effect: EffectType,
}

/// A status effect as a value: its name as a sequence of characters.
pub struct EffectView {
    pub name: Seq<char>,
    pub length: EffectLength,
    pub effect: EffectType,
}

impl View for Effect {
    type V = EffectView;

    open spec fn view(&self) -> EffectView {
        EffectView { name: self.name@, length: self.length, effect: self.effect }
    }
}

/// How long the invulnerability after a hit lasts, in milliseconds.
pub const INVULNERABILITY_TIME: u64 = 3_000;

impl EffectView {
    /// A permanent effect is always active, a temporary one while time is
    /// left, a countable one while uses are left.
    pub open spec fn is_active(self) -> bool {
        match self.length {
            EffectLength::Permanent => true,
            EffectLength::Temporary(left) => left > 0,
            EffectLength::Countable(left) => left > 0,
        }
    }

    /// The effect after `delta` milliseconds: a temporary one has that much
    /// less time, and never less than none; the others are as before.
    pub open spec fn time_consumed(self, delta: u64) -> EffectView {
        match self.length {
            EffectLength::Temporary(left) => EffectView {
                length: EffectLength::Temporary(
                    if delta >= left {
                        0
                    } else {
                        (left - delta) as u64
                    },
                ),
                ..self
            },
            _ => self,
        }
    }

    /// The invulnerability that a hit grants.
    pub open spec fn invulnerability() -> EffectView {
        EffectView {
            name: "Invulnerability"@,
            length: EffectLength::Temporary(INVULNERABILITY_TIME),
            effect: EffectType::Invulnerable,
        }
    }
}

impl Effect {
    /// Three seconds during which hits do no harm.
    pub fn new_invulnerability() -> (effect: Effect)
        ensures
            effect@ == EffectView::invulnerability(),
    {
        Effect::new_temporary(
            "Invulnerability".to_owned(),
            EffectType::Invulnerable,
            INVULNERABILITY_TIME,
        )
    }

    /// A status effect that lasts for `time` milliseconds.
    pub fn new_temporary(name: String, effect: EffectType, time: u64) -> (made: Effect)
        ensures
            made@ == (EffectView { name: name@, length: EffectLength::Temporary(time), effect }),
    {
        Effect { name, effect, length: EffectLength::Temporary(time) }
    }

    /// Whether the effect still acts.
    pub fn is_active(&self) -> (active: bool)
        ensures
            active == self@.is_active(),
    {
        match self.length {
            EffectLength::Permanent => true,
            EffectLength::Temporary(left) => left > 0,
            EffectLength::Countable(left) => left > 0,
        }
    }

    /// Takes `delta` milliseconds off a temporary effect: what is left never
    /// grows and never falls below zero. Other effects stay as they are.
    pub fn consume_time(&mut self, time_delta: u64)
        ensures
            final(self)@ == old(self)@.time_consumed(time_delta),
            old(self)@.length matches EffectLength::Temporary(before) ==> {
                &&& final(self)@.length matches EffectLength::Temporary(after)
                &&& after <= before
                &&& after == if before - time_delta > 0 {
                    before - time_delta
                } else {
                    0
                }
            },
            !(old(self)@.length is Temporary) ==> final(self)@ == old(self)@,
    {
        match self.length {
            EffectLength::Temporary(left) => {
                let left: u64 = if time_delta >= left {
                    0
                } else {
                    left - time_delta
                };
                self.length = EffectLength::Temporary(left);
            },
            _ => {},
        }
    }
}

/// Every effect of a ledger after `delta` milliseconds.
pub open spec fn all_time_consumed(effects: Seq<EffectView>, delta: u64) -> Seq<EffectView> {
    Seq::new(effects.len(), |i: int| effects[i].time_consumed(delta))
}

/// The active effects of a ledger, in their order.
pub open spec fn active_only(effects: Seq<EffectView>) -> Seq<EffectView> {
    effects.filter(|e: EffectView| e.is_active())
}

/// Whether an active effect of the kind is in the ledger.
pub open spec fn has_active_of_kind(effects: Seq<EffectView>, kind: EffectType) -> bool {
    exists|i: int| 0 <= i < effects.len() && effects[i].effect == kind && effects[i].is_active()
}

/// The status effects of one entity, in the order in which they were added.
pub struct ActiveEffects {
    pub effects: Vec<Effect>,
}

impl View for ActiveEffects {
    type V = Seq<EffectView>;

    open spec fn view(&self) -> Seq<EffectView> {
        Seq::new(self.effects@.len(), |i: int| self.effects@[i]@)
    }
}

impl ActiveEffects {
    pub fn new() -> (effects: ActiveEffects)
        ensures
            effects@ == Seq::<EffectView>::empty(),
    {
        ActiveEffects { effects: Vec::new() }
    }

    /// Appends an effect. Effects of one kind may stand side by side.
    pub fn add(&mut self, effect: Effect)
        ensures
            final(self)@ == old(self)@.push(effect@),
    {
        self.effects.push(effect);
    }

    /// Takes `delta` milliseconds off every temporary effect.
    pub fn tick(&mut self, delta: u64)
        ensures
            final(self)@ == all_time_consumed(old(self)@, delta),
    {
        let mut i: usize = 0;
        while i < self.effects.len()
            invariant
                i <= self.effects.len(),
                self.effects.len() == old(self).effects.len(),
                forall|j: int|
                    0 <= j < i ==> (#[trigger] self@[j]) == old(self)@[j].time_consumed(delta),
                forall|j: int|
                    i <= j < self.effects.len() ==> (#[trigger] self@[j]) == old(self)@[j],
            decreases self.effects.len() - i,
        {
            let ghost before = self@;
            self.effects[i].consume_time(delta);
            assert(forall|j: int|
                0 <= j < self.effects.len() && j != i ==> (#[trigger] self@[j]) == before[j]);
            assert(self@[i as int] == before[i as int].time_consumed(delta));
            i += 1;
        }
    }

    /// Keeps the active effects, in their order, and drops the others.
    pub fn cleanup(&mut self)
        ensures
            final(self)@ == active_only(old(self)@),
    {
        let mut i: usize = 0;
        let ghost mut seen: int = 0;
        while i < self.effects.len()
            invariant
                i <= self.effects.len(),
                0 <= seen <= old(self)@.len(),
                self.effects.len() - i == old(self)@.len() - seen,
                self@.take(i as int) == active_only(old(self)@.take(seen)),
                forall|j: int|
                    i <= j < self.effects.len() ==> (#[trigger] self@[j]) == old(self)@[j - i
                        + seen],
            decreases self.effects.len() - i,
        {
            let ghost before = self@;
            assert(before[i as int] == old(self)@[seen]);
            proof {
                assert(old(self)@.take(seen + 1) == old(self)@.take(seen).push(old(self)@[seen]));
                old(self)@.take(seen).lemma_filter_push(
                    old(self)@[seen],
                    |e: EffectView| e.is_active(),
                );
            }
            if self.effects[i].is_active() {
                assert(self@.take(i + 1) == self@.take(i as int).push(self@[i as int]));
                i += 1;
            } else {
                self.effects.remove(i);
                assert(self@.take(i as int) == before.take(i as int));
                assert(forall|j: int|
                    i <= j < self.effects.len() ==> (#[trigger] self@[j]) == before[j + 1]);
            }
            proof {
                seen = seen + 1;
            }
        }
        assert(self@.take(i as int) == self@);
        assert(old(self)@.take(seen) == old(self)@);
    }

    /// Whether an active effect of the kind is in the ledger.
    pub fn has_active_of_kind(&self, kind: EffectType) -> (found: bool)
        ensures
            found == has_active_of_kind(self@, kind),
    {
        let mut i: usize = 0;
        while i < self.effects.len()
            invariant
                i <= self.effects.len(),
                forall|j: int|
                    0 <= j < i ==> !(self@[j].effect == kind && (#[trigger] self@[j]).is_active()),
            decreases self.effects.len() - i,
        {
            if self.effects[i].effect == kind && self.effects[i].is_active() {
                assert(self@[i as int].effect == kind && self@[i as int].is_active());
                return true;
            }
            i += 1;
        }
        false
    }

    /// Empties the ledger.
    pub fn clear(&mut self)
        ensures
            final(self)@ == Seq::<EffectView>::empty(),
    {
        self.effects.clear();
    }
}

/// Makes the entity blink: every `period` milliseconds its visibility flips,
/// until the total time is over; from then on it is visible.
#[derive(Clone, Copy, Debug, PartialEq, Eq, Structural)]
pub struct PeriodicInvisibility {
    pub local_timer: Timer,
    pub global_timer: Timer,
}

impl PeriodicInvisibility {
    /// The effect after `delta` milliseconds: both timers have ticked.
    pub open spec fn ticked(self, delta: u64) -> PeriodicInvisibility {
        PeriodicInvisibility {
            local_timer: self.local_timer.ticked(delta),
            global_timer: self.global_timer.ticked(delta),
        }
    }

    /// The visibility that the effect leaves: visible once the total time is
    /// over, flipped when a period has just ended, unchanged otherwise.
    pub open spec fn shown(self, visible: bool) -> bool {
        if self.global_timer.finished {
            true
        } else if self.local_timer.times_finished > 0 {
            !visible
        } else {
            visible
        }
    }

    pub open spec fn spec_is_expired(&self) -> bool {
        self.global_timer.finished
    }

    /// Blinking with a period of `period_time` milliseconds that lasts
    /// `total_time` milliseconds.
    pub fn new(period_time: u64, total_time: u64) -> (effect: PeriodicInvisibility)
        ensures
            effect == (PeriodicInvisibility {
                local_timer: Timer::new(period_time, true),
                global_timer: Timer::new(total_time, false),
            }),
    {
        PeriodicInvisibility {
            local_timer: Timer::new(period_time, true),
            global_timer: Timer::new(total_time, false),
        }
    }

    /// Advances both timers by `time` milliseconds.
    pub fn tick(&mut self, time: u64)
        ensures
            *final(self) == old(self).ticked(time),
    {
        self.local_timer.tick(time);
        self.global_timer.tick(time);
    }

    /// Lets the effect act on the visibility of the entity.
    pub fn apply(&self, visible: &mut bool)
        ensures
            *final(visible) == self.shown(*old(visible)),
    {
        if self.global_timer.finished() {
            *visible = true;
        } else if self.local_timer.just_finished() {
            *visible = !*visible;
        }
    }

    /// Whether the total time is over.
    #[verifier::when_used_as_spec(spec_is_expired)]
    pub fn is_expired(&self) -> (expired: bool)
        ensures
            expired == self.spec_is_expired(),
    {
        self.global_timer.finished()
    }
}

/// An effect on how an entity is presented.
#[derive(Clone, Copy, Debug, PartialEq, Eq, Structural)]
pub enum VisualEffect {
    PeriodicInvisibility(PeriodicInvisibility),
}

impl VisualEffect {
    pub open spec fn ticked(self, delta: u64) -> VisualEffect {
        match self {
            VisualEffect::PeriodicInvisibility(e) => VisualEffect::PeriodicInvisibility(
                e.ticked(delta),
            ),
        }
    }

    pub open spec fn shown(self, visible: bool) -> bool {
        match self {
            VisualEffect::PeriodicInvisibility(e) => e.shown(visible),
        }
    }

    pub open spec fn spec_is_expired(&self) -> bool {
        match self {
            VisualEffect::PeriodicInvisibility(e) => e.spec_is_expired(),
        }
    }

    pub fn tick(&mut self, time: u64)
        ensures
            *final(self) == old(self).ticked(time),
    {
        match self {
            VisualEffect::PeriodicInvisibility(e) => e.tick(time),
        }
    }

    pub fn apply(&self, visible: &mut bool)
        ensures
            *final(visible) == self.shown(*old(visible)),
    {
        match self {
            VisualEffect::PeriodicInvisibility(e) => e.apply(visible),
        }
    }

    #[verifier::when_used_as_spec(spec_is_expired)]
    pub fn is_expired(&self) -> (expired: bool)
        ensures
            expired == self.spec_is_expired(),
    {
        match self {
            VisualEffect::PeriodicInvisibility(e) => e.is_expired(),
        }
    }
}

/// The visual effects of a ledger that are not over, in their order.
pub open spec fn unexpired_visuals(effects: Seq<VisualEffect>) -> Seq<VisualEffect> {
    effects.filter(|e: VisualEffect| !e.spec_is_expired())
}

/// The visual effects of one entity, in the order in which they were added.
pub struct VisualEffects {
    pub effects: Vec<VisualEffect>,
}

impl View for VisualEffects {
    type V = Seq<VisualEffect>;

    open spec fn view(&self) -> Seq<VisualEffect> {
        self.effects@
    }
}

impl VisualEffects {
    pub fn new() -> (effects: VisualEffects)
        ensures
            effects@ == Seq::<VisualEffect>::empty(),
    {
        VisualEffects { effects: Vec::new() }
    }

    /// Keeps the effects that are not over, in their order.
    pub fn cleanup(&mut self)
        ensures
            final(self)@ == unexpired_visuals(old(self)@),
    {
        let mut kept: Vec<VisualEffect> = Vec::new();
        let mut i: usize = 0;
        while i < self.effects.len()
            invariant
                i <= self.effects.len(),
                self.effects@ == old(self).effects@,
                kept@ == unexpired_visuals(self.effects@.take(i as int)),
            decreases self.effects.len() - i,
        {
            let effect = self.effects[i];
            proof {
                assert(self.effects@.take(i + 1) == self.effects@.take(i as int).push(effect));
                self.effects@.take(i as int).lemma_filter_push(
                    effect,
                    |e: VisualEffect| !e.spec_is_expired(),
                );
            }
            if !effect.is_expired() {
                kept.push(effect);
            }
            i += 1;
        }
        assert(self.effects@.take(i as int) == self.effects@);
        self.effects = kept;
    }
}

} // verus!
