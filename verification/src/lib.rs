//! Kinematic and collision-resolution core of a 2D side-scrolling
//! platformer character.
//!
//! The library advances a player entity's position and velocity each frame,
//! resolves collisions against a tile grid, derives a discrete animation
//! state from physics state, and keeps the active animated sprite variant
//! consistent with that state.
//!
//! All physical quantities are fixed-point: one game unit is `SUBUNITS`
//! integer subunits, so velocity and acceleration constants (which are small
//! fractions of a game unit per millisecond) are exact integers and every
//! arithmetic step of the physics is exact.

pub mod units;
pub mod collisions;
pub mod tile_map;
pub mod sprite;
pub mod player;

use vstd::prelude::*;

verus! {

} // verus!
