//! Strongly typed physical quantities.
//!
//! Arithmetic between incompatible quantities is a type error; the only ways
//! to combine quantities are the explicit operations below.  Continuous
//! game-space values (coordinates, velocities, accelerations) are held in
//! fixed point: one game unit is `SUBUNITS` subunits, and a tile side is
//! `TILE_SIZE` game units.  With this representation every constant of the
//! physics (gravity, friction, walking acceleration, the velocity caps) is an
//! exact integer and integration is exact integer arithmetic.

use vstd::prelude::*;

verus! {

/// Subunits per game unit of the fixed-point game-space scale.
pub const SUBUNITS: i64 = 102400;

/// Side of a square tile, in game units.
pub const TILE_SIZE: i64 = 32;

/// Side of a square tile, in subunits.
pub const TILE_SUBUNITS: i64 = TILE_SIZE * SUBUNITS;

/// Side of a square tile, in pixels (one game unit maps to one pixel).
pub const TILE_PIXELS: i64 = 32;

/// Largest duration a single frame may report, in milliseconds.
/// A machine limit: it keeps every integration product inside `i64`.
pub const MAX_FRAME_MILLIS: i64 = 1048576;

/// Largest magnitude of a game-space coordinate the resolver accepts, in
/// subunits.  A machine limit: it keeps position updates inside `i64`.
pub const POS_LIMIT: i64 = 40000000000000000;

/// Largest tile index convertible to game-space or pixels.
pub const TILE_INDEX_LIMIT: usize = 1000000;

/// A continuous game-space coordinate or extent, in subunits.
#[derive(Clone, Copy, PartialEq, Eq, Structural, Debug)]
pub struct Game(pub i64);

/// A screen-space pixel coordinate or extent.
#[derive(Clone, Copy, PartialEq, Eq, Structural, Debug)]
pub struct Pixel(pub i64);

/// An index into the square tile grid.
#[derive(Clone, Copy, PartialEq, Eq, Structural, Debug)]
pub struct Tile(pub usize);

/// A velocity, in subunits per millisecond.
#[derive(Clone, Copy, PartialEq, Eq, Structural, Debug)]
pub struct Velocity(pub i64);

/// An acceleration, in subunits per millisecond squared.
#[derive(Clone, Copy, PartialEq, Eq, Structural, Debug)]
pub struct Acceleration(pub i64);

/// A non-negative duration, in milliseconds.
#[derive(Clone, Copy, PartialEq, Eq, Structural, Debug)]
pub struct Millis(pub i64);

/// An ordinal index into an animation cycle.
#[derive(Clone, Copy, PartialEq, Eq, Structural, Debug)]
pub struct Frame(pub u32);

/// A positive animation rate, in frames per second.
#[derive(Clone, Copy, PartialEq, Eq, Structural, Debug)]
pub struct Fps(pub u32);

/// Truncating division (rounds toward zero), the rounding of the
/// game-space to pixel conversion.
pub open spec fn trunc_div(a: int, b: int) -> int {
    if a >= 0 {
        a / b
    } else {
        -((-a) / b)
    }
}

impl Game {
    /// Sum of two game-space values.
    pub fn plus(self, other: Game) -> (r: Game)
        requires
            i64::MIN <= self.0 + other.0 <= i64::MAX,
        ensures
            r.0 == self.0 + other.0,
    {
        Game(self.0 + other.0)
    }

    /// Difference of two game-space values.
    pub fn minus(self, other: Game) -> (r: Game)
        requires
            i64::MIN <= self.0 - other.0 <= i64::MAX,
        ensures
            r.0 == self.0 - other.0,
    {
        Game(self.0 - other.0)
    }

    /// Converts to screen space, truncating the fractional part of the
    /// game unit (one game unit maps to one pixel).
    pub fn to_pixel(self) -> (r: Pixel)
        requires
            self.0 > i64::MIN,
        ensures
            r.0 == trunc_div(self.0 as int, SUBUNITS as int),
    {
        if self.0 >= 0 {
            Pixel(self.0 / SUBUNITS)
        } else {
            Pixel(-((-self.0) / SUBUNITS))
        }
    }
}

impl Tile {
    /// The game-space coordinate of this tile index (its low edge).
    pub fn to_game(self) -> (r: Game)
        requires
            self.0 <= TILE_INDEX_LIMIT,
        ensures
            r.0 == self.0 * TILE_SUBUNITS,
    {
        Game((self.0 as i64) * TILE_SUBUNITS)
    }

    /// The pixel coordinate of this tile index (its low edge).
    pub fn to_pixel(self) -> (r: Pixel)
        requires
            self.0 <= TILE_INDEX_LIMIT,
        ensures
            r.0 == self.0 * TILE_PIXELS,
    {
        Pixel((self.0 as i64) * TILE_PIXELS)
    }
}

impl Velocity {
    /// The velocity reached after accelerating at `a` for `t` milliseconds.
    pub fn faster_by(self, a: Acceleration, t: Millis) -> (r: Velocity)
        requires
            i64::MIN <= a.0 * t.0 <= i64::MAX,
            i64::MIN <= self.0 + a.0 * t.0 <= i64::MAX,
        ensures
            r.0 == self.0 + a.0 * t.0,
    {
        let dv: i64 = a.0 * t.0;
        Velocity(self.0 + dv)
    }

    /// This velocity, capped from above at `hi`.
    pub fn capped_above(self, hi: Velocity) -> (r: Velocity)
        ensures
            r.0 == if self.0 <= hi.0 { self.0 } else { hi.0 },
    {
        if self.0 <= hi.0 {
            self
        } else {
            hi
        }
    }

    /// This velocity, capped from below at `lo`.
    pub fn capped_below(self, lo: Velocity) -> (r: Velocity)
        ensures
            r.0 == if self.0 >= lo.0 { self.0 } else { lo.0 },
    {
        if self.0 >= lo.0 {
            self
        } else {
            lo
        }
    }

    /// The game-space displacement covered at this velocity in `t`
    /// milliseconds.
    pub fn displacement(self, t: Millis) -> (r: Game)
        requires
            i64::MIN <= self.0 * t.0 <= i64::MAX,
        ensures
            r.0 == self.0 * t.0,
    {
        Game(self.0 * t.0)
    }
}

} // verus!
