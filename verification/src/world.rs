//! Kinematic data of the world: vectors, velocity with its boost overlay,
//! gravity, positions, sizes and collider tags.

use vstd::prelude::*;
use crate::awards::Award;

verus! {

/// Width of the visible world, in distance units.
pub const SCREEN_WIDTH: u64 = 1_280_000_000;

/// Height of the visible world, in distance units.
pub const SCREEN_HEIGHT: u64 = 720_000_000;

/// Downward acceleration, in distance units per millisecond squared: it takes
/// a jump's velocity away in a quarter of a second.
pub const GRAVITY: u32 = 2_400;

/// `v` brought into the range of an `i32`.
pub open spec fn clamp_i32(v: int) -> int {
    if v < i32::MIN {
        i32::MIN as int
    } else if v > i32::MAX {
        i32::MAX as int
    } else {
        v
    }
}

/// `v` brought into the range of an `i64`.
pub open spec fn clamp_i64(v: int) -> int {
    if v < i64::MIN {
        i64::MIN as int
    } else if v > i64::MAX {
        i64::MAX as int
    } else {
        v
    }
}

/// Brings a wide integer into the range of an `i32`.
pub fn saturate_i32(v: i128) -> (r: i32)
    ensures
        r == clamp_i32(v as int),
{
    if v < i32::MIN as i128 {
        i32::MIN
    } else if v > i32::MAX as i128 {
        i32::MAX
    } else {
        v as i32
    }
}

/// Brings a wide integer into the range of an `i64`.
pub fn saturate_i64(v: i128) -> (r: i64)
    ensures
        r == clamp_i64(v as int),
{
    if v < i64::MIN as i128 {
        i64::MIN
    } else if v > i64::MAX as i128 {
        i64::MAX
    } else {
        v as i64
    }
}

/// A pair of velocity components, or of multipliers for them.
#[derive(Clone, Copy, Debug, PartialEq, Eq, Structural)]
pub struct Vector2 {
    pub x: i32,
    pub y: i32,
}

impl Vector2 {
    pub open spec fn spec_zero() -> Vector2 {
        Vector2 { x: 0, y: 0 }
    }

    pub open spec fn spec_one() -> Vector2 {
        Vector2 { x: 1, y: 1 }
    }

    pub fn new(x: i32, y: i32) -> (v: Vector2)
        ensures
            v == (Vector2 { x, y }),
    {
        Vector2 { x, y }
    }

    /// The vector `(0, 0)`.
    #[verifier::when_used_as_spec(spec_zero)]
    pub fn zero() -> (v: Vector2)
        ensures
            v == Vector2::spec_zero(),
    {
        Vector2 { x: 0, y: 0 }
    }

    /// The vector `(1, 1)`: the boost that changes nothing.
    #[verifier::when_used_as_spec(spec_one)]
    pub fn one() -> (v: Vector2)
        ensures
            v == Vector2::spec_one(),
    {
        Vector2 { x: 1, y: 1 }
    }
}

/// A pair of wide components: an effective velocity.
#[derive(Clone, Copy, Debug, PartialEq, Eq, Structural)]
pub struct WideVector2 {
    pub x: i64,
    pub y: i64,
}

/// Where the centre of an entity is.
#[derive(Clone, Copy, Debug, PartialEq, Eq, Structural)]
pub struct Position {
    pub x: i64,
    pub y: i64,
}

/// Extent of an entity's bounding box around its centre.
#[derive(Clone, Copy, Debug, PartialEq, Eq, Structural)]
pub struct Size {
    pub width: u64,
    pub height: u64,
}

impl Size {
    pub open spec fn spec_half_width(self) -> int {
        self.width as int / 2
    }

    pub open spec fn spec_half_height(self) -> int {
        self.height as int / 2
    }

    /// Half of the width, rounded down.
    pub fn half_width(self) -> (h: i64)
        ensures
            h == self.spec_half_width(),
    {
        (self.width / 2) as i64
    }

    /// Half of the height, rounded down: the line on which the entity rests.
    pub fn half_height(self) -> (h: i64)
        ensures
            h == self.spec_half_height(),
    {
        (self.height / 2) as i64
    }
}

/// Motion of an entity: a base vector and a multiplier laid over it.
///
/// The effective velocity is the component-wise product of the two. A boost
/// of `(1, 1)` leaves the base as it is.
#[derive(Clone, Copy, Debug, PartialEq, Eq, Structural)]
pub struct Velocity {
    pub base: Vector2,
    pub boost: Vector2,
}

impl Velocity {
    /// The effective velocity: base times boost, per axis.
    pub open spec fn spec_current(&self) -> WideVector2 {
        WideVector2 {
            x: (self.base.x * self.boost.x) as i64,
            y: (self.base.y * self.boost.y) as i64,
        }
    }

    pub open spec fn spec_horizontal(self) -> int {
        self.base.x * self.boost.x
    }

    pub open spec fn spec_vertical(self) -> int {
        self.base.y * self.boost.y
    }

    /// The velocity that `add_vertical` leaves behind.
    pub open spec fn vertical_added(self, v: i32) -> Velocity {
        Velocity {
            base: Vector2 { x: self.base.x, y: clamp_i32(self.base.y + v) as i32 },
            boost: self.boost,
        }
    }

    /// The velocity that `add_horizontal` leaves behind.
    pub open spec fn horizontal_added(self, v: i32) -> Velocity {
        Velocity {
            base: Vector2 { x: clamp_i32(self.base.x + v) as i32, y: self.base.y },
            boost: self.boost,
        }
    }

    /// The velocity that `set_vertical` leaves behind: the vertical base is
    /// overwritten and the vertical boost is gone.
    pub open spec fn vertical_set(self, v: i32) -> Velocity {
        Velocity {
            base: Vector2 { x: self.base.x, y: v },
            boost: Vector2 { x: self.boost.x, y: 1 },
        }
    }

    /// The velocity that `set_horizontal` leaves behind: the horizontal base
    /// is overwritten and the horizontal boost is gone.
    pub open spec fn horizontal_set(self, v: i32) -> Velocity {
        Velocity {
            base: Vector2 { x: v, y: self.base.y },
            boost: Vector2 { x: 1, y: self.boost.y },
        }
    }

    /// The velocity that `drop_vertical` leaves behind.
    pub open spec fn vertical_dropped(self) -> Velocity {
        self.vertical_set(0)
    }

    /// The velocity that `drop_horizontal` leaves behind.
    pub open spec fn horizontal_dropped(self) -> Velocity {
        self.horizontal_set(0)
    }

    /// The products of two components never leave the range of an `i64`.
    pub proof fn lemma_product_fits(a: i32, b: i32)
        ensures
            i64::MIN < a * b < i64::MAX,
            -0x4000_0000_0000_0000 <= a * b <= 0x4000_0000_0000_0000,
    {
        assert(-0x4000_0000_0000_0000 <= a * b <= 0x4000_0000_0000_0000) by (nonlinear_arith)
            requires
                -0x8000_0000 <= a <= 0x7fff_ffff,
                -0x8000_0000 <= b <= 0x7fff_ffff,
        ;
    }

    pub fn new(v: Vector2) -> (velocity: Velocity)
        ensures
            velocity == (Velocity { base: v, boost: Vector2::one() }),
    {
        Velocity { base: v, boost: Vector2::one() }
    }

    pub fn with_horizontal(v: i32) -> (velocity: Velocity)
        ensures
            velocity == (Velocity { base: Vector2 { x: v, y: 0 }, boost: Vector2::one() }),
    {
        Velocity::new(Vector2::new(v, 0))
    }

    /// The effective velocity, computed anew from base and boost.
    #[verifier::when_used_as_spec(spec_current)]
    pub fn current(&self) -> (v: WideVector2)
        ensures
            v == self.spec_current(),
            v.x == self.base.x * self.boost.x,
            v.y == self.base.y * self.boost.y,
    {
        proof {
            Velocity::lemma_product_fits(self.base.x, self.boost.x);
            Velocity::lemma_product_fits(self.base.y, self.boost.y);
        }
        WideVector2 {
            x: (self.base.x as i64) * (self.boost.x as i64),
            y: (self.base.y as i64) * (self.boost.y as i64),
        }
    }

    /// Overwrites the base and takes any boost away.
    pub fn set_current(&mut self, v: Vector2)
        ensures
            *final(self) == (Velocity { base: v, boost: Vector2::one() }),
    {
        self.base = v;
        self.drop_boost();
    }

    /// The effective horizontal velocity.
    pub fn horizontal(&self) -> (v: i64)
        ensures
            v == self.spec_horizontal(),
    {
        self.current().x
    }

    /// Adds to the horizontal base; the sum stays within what an `i32` holds.
    pub fn add_horizontal(&mut self, v: i32)
        ensures
            *final(self) == old(self).horizontal_added(v),
            final(self).base.x == clamp_i32(old(self).base.x + v),
    {
        self.base.x = saturate_i32(self.base.x as i128 + v as i128);
    }

    /// Overwrites the horizontal base and takes the horizontal boost away.
    pub fn set_horizontal(&mut self, v: i32)
        ensures
            *final(self) == old(self).horizontal_set(v),
            final(self).base.x == v,
            final(self).boost.x == 1,
    {
        self.base.x = v;
        self.boost.x = 1;
    }

    /// Stops horizontal motion.
    pub fn drop_horizontal(&mut self)
        ensures
            *final(self) == old(self).horizontal_dropped(),
    {
        self.set_horizontal(0)
    }

    /// The effective vertical velocity.
    pub fn vertical(&self) -> (v: i64)
        ensures
            v == self.spec_vertical(),
    {
        self.current().y
    }

    /// Overwrites the vertical base and takes the vertical boost away.
    pub fn set_vertical(&mut self, v: i32)
        ensures
            *final(self) == old(self).vertical_set(v),
            final(self).base.y == v,
            final(self).boost.y == 1,
    {
        self.base.y = v;
        self.boost.y = 1;
    }

    /// Stops vertical motion.
    pub fn drop_vertical(&mut self)
        ensures
            *final(self) == old(self).vertical_dropped(),
    {
        self.set_vertical(0)
    }

    /// Adds to the vertical base; the sum stays within what an `i32` holds.
    pub fn add_vertical(&mut self, v: i32)
        ensures
            *final(self) == old(self).vertical_added(v),
            final(self).base.y == clamp_i32(old(self).base.y + v),
    {
        self.base.y = saturate_i32(self.base.y as i128 + v as i128);
    }

    /// Lays a multiplier over the base.
    pub fn set_boost(&mut self, v: Vector2)
        ensures
            *final(self) == (Velocity { base: old(self).base, boost: v }),
    {
        self.boost = v;
    }

    /// Takes the multiplier away.
    pub fn drop_boost(&mut self)
        ensures
            *final(self) == (Velocity { base: old(self).base, boost: Vector2::one() }),
    {
        self.boost = Vector2::one();
    }

    /// Back to rest: no base, no boost.
    pub fn reset(&mut self)
        ensures
            *final(self) == (Velocity { base: Vector2::zero(), boost: Vector2::one() }),
    {
        self.base = Vector2::zero();
        self.boost = Vector2::one();
    }
}

impl Default for Velocity {
    /// At rest, with the boost that changes nothing.
    fn default() -> (velocity: Velocity)
        ensures
            velocity == (Velocity { base: Vector2::zero(), boost: Vector2::one() }),
    {
        Velocity { base: Vector2::zero(), boost: Vector2::one() }
    }
}

/// Downward acceleration, in distance units per millisecond squared.
#[derive(Clone, Copy, Debug, PartialEq, Eq, Structural)]
pub struct Gravity(pub u32);

impl Default for Gravity {
    fn default() -> (gravity: Gravity)
        ensures
            gravity.0 == GRAVITY,
    {
        Gravity(GRAVITY)
    }
}

/// Marks an entity on which gravity acts.
#[derive(Clone, Copy, Debug, PartialEq, Eq, Structural)]
pub struct AffectedByGravity;

/// What touching an entity means for the player.
#[derive(Clone, Copy, Debug, PartialEq, Eq, Structural)]
pub enum Collider {
    /// Contact hurts.
    Solid,
    /// Contact grants the award and uses the entity up.
    Award(Award),
}

/// The kinematic components of one entity.
#[derive(Clone, Copy, Debug, PartialEq, Eq, Structural)]
pub struct Body {
    pub position: Position,
    pub size: Size,
    pub velocity: Velocity,
}

} // verus!
