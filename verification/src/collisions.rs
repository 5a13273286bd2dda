//! Axis-aligned rectangles in game space and collision query results.

use vstd::prelude::*;
use crate::units::{Game, Tile};

verus! {

/// An axis-aligned box in game space: top-left corner plus extents.
#[derive(Clone, Copy, PartialEq, Eq, Structural, Debug)]
pub struct Rectangle {
    pub x: Game,
    pub y: Game,
    pub width: Game,
    pub height: Game,
}

impl Rectangle {
    /// Game-space coordinate of the left edge.
    pub fn left(&self) -> (r: Game)
        ensures
            r.0 == self.x.0,
    {
        self.x
    }

    /// Game-space coordinate of the right edge.
    pub fn right(&self) -> (r: Game)
        requires
            i64::MIN <= self.x.0 + self.width.0 <= i64::MAX,
        ensures
            r.0 == self.x.0 + self.width.0,
    {
        Game(self.x.0 + self.width.0)
    }

    /// Game-space coordinate of the top edge.
    pub fn top(&self) -> (r: Game)
        ensures
            r.0 == self.y.0,
    {
        self.y
    }

    /// Game-space coordinate of the bottom edge.
    pub fn bottom(&self) -> (r: Game)
        requires
            i64::MIN <= self.y.0 + self.height.0 <= i64::MAX,
        ensures
            r.0 == self.y.0 + self.height.0,
    {
        Game(self.y.0 + self.height.0)
    }
}

/// Result of resolving one collision query: whether a wall was hit, and if
/// so the grid coordinates of the first wall tile encountered.
#[derive(Clone, Copy, PartialEq, Eq, Structural, Debug)]
pub struct Info {
    pub collided: bool,
    pub row: Tile,
    pub col: Tile,
}

} // verus!
