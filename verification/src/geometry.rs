//! Fixed-point 2D vectors and the coordinate limits of the simulation.

use vstd::prelude::*;

verus! {

/// Subunits per world unit. A velocity of one world unit per tick is `UNIT`
/// subunits per tick; fractional speeds such as 1.1725 units per tick are
/// exact multiples of a subunit (11725).
pub const UNIT: i64 = 10_000;

/// Bound (in subunits) on every coordinate, velocity and half-extent of a
/// world that is ready for a tick. Chosen so that one tick's worth of
/// arithmetic stays far away from the edge of `i64`.
pub const WORLD_LIMIT: i64 = 0x8_0000_0000_0000;

/// Bound under which the individual systems do their arithmetic without
/// overflow; one integration step from a `WORLD_LIMIT`-bounded world stays
/// under it.
pub const COORD_LIMIT: i64 = 0x20_0000_0000_0000;

/// A point or displacement in simulation space, in subunits.
/// The origin is the playfield centre; `y` grows upward.
#[derive(Clone, Copy, PartialEq, Eq, Structural, Debug)]
pub struct Vec2 {
    pub x: i64,
    pub y: i64,
}

/// Mathematical model of a [`Vec2`]: the same point over unbounded integers.
#[verifier::ext_equal]
pub struct Vec2Model {
    pub x: int,
    pub y: int,
}

impl View for Vec2 {
    type V = Vec2Model;

    open spec fn view(&self) -> Vec2Model {
        Vec2Model { x: self.x as int, y: self.y as int }
    }
}

impl Vec2 {
    pub fn new(x: i64, y: i64) -> (r: Vec2)
        ensures
            r@.x == x,
            r@.y == y,
    {
        Vec2 { x, y }
    }
}

/// The sign of `v`: `1` above zero, `-1` below, `0` at zero.
pub open spec fn sgn(v: int) -> int {
    if v > 0 {
        1
    } else if v < 0 {
        -1
    } else {
        0
    }
}

/// Absolute value of a model integer.
pub open spec fn abs_of(v: int) -> int {
    if v >= 0 {
        v
    } else {
        -v
    }
}

/// Both components of `v` lie within `lim` of zero.
pub open spec fn vec_within(v: Vec2Model, lim: int) -> bool {
    &&& -lim <= v.x <= lim
    &&& -lim <= v.y <= lim
}

} // verus!
