//! A rectangular grid of tiles and the single collision query the resolver
//! needs: which tiles does an axis-aligned game-space rectangle overlap.
//!
//! The query is deterministic and side-effect-free: tiles are reported in
//! row-major order, and a rectangle whose edge merely touches a tile
//! boundary is considered to overlap the tile on the far side of that
//! boundary (the covered span of an axis is the closed range of tile
//! indices from `floor(low / TILE_SUBUNITS)` to `floor(high / TILE_SUBUNITS)`).

use vstd::prelude::*;
use vstd::arithmetic::div_mod::{
    lemma_div_pos_is_pos, lemma_fundamental_div_mod_converse, lemma_mod_bound,
    lemma_multiply_divide_lt,
};
use crate::units::{Tile, TILE_SUBUNITS};
use crate::collisions::Rectangle;

verus! {

/// Largest number of rows or columns a tile map may have.
pub const MAP_LIMIT: usize = 32768;

/// Largest magnitude of a rectangle edge coordinate a collision query
/// accepts, in subunits.  A machine limit: it keeps the floor divisions of
/// the query inside `i64`.
pub const QUERY_LIMIT: i64 = 100000000000000000;

/// What a grid cell holds: a solid wall or empty space.
#[derive(Clone, Copy, PartialEq, Eq, Structural, Debug)]
pub enum TileType {
    Wall,
    Empty,
}

/// One tile overlapped by a collision query, tagged with its type and its
/// grid coordinates.
#[derive(Clone, Copy, PartialEq, Eq, Structural, Debug)]
pub struct CollisionTile {
    pub tile_type: TileType,
    pub row: Tile,
    pub col: Tile,
}

/// A rectangular tile grid, queried by the collision resolver and never
/// mutated by it.
pub struct TileMap {
    tiles: Vec<Vec<TileType>>,
}

/// Number of rows of a tile grid.
pub open spec fn map_rows(m: Seq<Seq<TileType>>) -> int {
    m.len() as int
}

/// Number of columns of a tile grid.
pub open spec fn map_cols(m: Seq<Seq<TileType>>) -> int {
    if m.len() == 0 {
        0
    } else {
        m[0].len() as int
    }
}

/// The grid is rectangular and within the size limit.
pub open spec fn map_wf(m: Seq<Seq<TileType>>) -> bool {
    &&& m.len() <= MAP_LIMIT
    &&& map_cols(m) <= MAP_LIMIT
    &&& forall|i: int| 0 <= i < m.len() ==> #[trigger] m[i].len() == map_cols(m)
}

/// A rectangle the collision query accepts: non-negative extents and edges
/// within the machine limit.
pub open spec fn query_ok(rect: Rectangle) -> bool {
    &&& 0 <= rect.width.0
    &&& 0 <= rect.height.0
    &&& -QUERY_LIMIT <= rect.x.0
    &&& rect.x.0 + rect.width.0 <= QUERY_LIMIT
    &&& -QUERY_LIMIT <= rect.y.0
    &&& rect.y.0 + rect.height.0 <= QUERY_LIMIT
}

/// First grid row the rectangle overlaps (clamped from below to the grid).
pub open spec fn row_lo(rect: Rectangle) -> int {
    let r = (rect.y.0 as int) / (TILE_SUBUNITS as int);
    if r < 0 {
        0
    } else {
        r
    }
}

/// Last grid row the rectangle overlaps (clamped from above to the grid).
pub open spec fn row_hi(m: Seq<Seq<TileType>>, rect: Rectangle) -> int {
    let r = (rect.y.0 + rect.height.0) / (TILE_SUBUNITS as int);
    if r > map_rows(m) - 1 {
        map_rows(m) - 1
    } else {
        r
    }
}

/// First grid column the rectangle overlaps (clamped from below to the grid).
pub open spec fn col_lo(rect: Rectangle) -> int {
    let c = (rect.x.0 as int) / (TILE_SUBUNITS as int);
    if c < 0 {
        0
    } else {
        c
    }
}

/// Last grid column the rectangle overlaps (clamped from above to the grid).
pub open spec fn col_hi(m: Seq<Seq<TileType>>, rect: Rectangle) -> int {
    let c = (rect.x.0 + rect.width.0) / (TILE_SUBUNITS as int);
    if c > map_cols(m) - 1 {
        map_cols(m) - 1
    } else {
        c
    }
}

/// The tiles of the grid overlapped by `rect`, in row-major order, each
/// tagged with its type and grid coordinates.
pub open spec fn colliding_seq(m: Seq<Seq<TileType>>, rect: Rectangle) -> Seq<CollisionTile> {
    let rlo = row_lo(rect);
    let rhi = row_hi(m, rect);
    let clo = col_lo(rect);
    let chi = col_hi(m, rect);
    if rlo <= rhi && clo <= chi {
        let nc = chi - clo + 1;
        Seq::new(((rhi - rlo + 1) * nc) as nat, |k: int| CollisionTile {
            tile_type: m[rlo + k / nc][clo + k % nc],
            row: Tile((rlo + k / nc) as usize),
            col: Tile((clo + k % nc) as usize),
        })
    } else {
        Seq::empty()
    }
}

/// The first wall tile of a collision query result, in the order the query
/// reports tiles; `None` when no tile of the result is a wall.
pub open spec fn first_wall(s: Seq<CollisionTile>) -> Option<CollisionTile>
    decreases s.len(),
{
    if s.len() == 0 {
        None
    } else if s[0].tile_type is Wall {
        Some(s[0])
    } else {
        first_wall(s.drop_first())
    }
}

/// A scan that has seen no wall in the first `i` tiles may keep scanning
/// from `i`: the first wall of the whole sequence is the first wall of the
/// remainder.
pub proof fn lemma_first_wall_skip(s: Seq<CollisionTile>, i: int)
    requires
        0 <= i <= s.len(),
        forall|k: int| 0 <= k < i ==> !(#[trigger] s[k].tile_type is Wall),
    ensures
        first_wall(s) == first_wall(s.skip(i)),
    decreases i,
{
    if i == 0 {
        assert(s.skip(0) =~= s);
    } else {
        assert(!(s[0].tile_type is Wall));
        assert(first_wall(s) == first_wall(s.drop_first()));
        assert(s.drop_first() =~= s.skip(1));
        lemma_first_wall_skip(s.skip(1), i - 1);
        assert(s.skip(1).skip(i - 1) =~= s.skip(i));
    }
}

/// A first wall, when there is one, is an element of the scanned sequence.
pub proof fn lemma_first_wall_member(s: Seq<CollisionTile>)
    ensures
        first_wall(s) matches Some(t) ==> exists|i: int| 0 <= i < s.len() && s[i] == t,
    decreases s.len(),
{
    if s.len() == 0 {
    } else if s[0].tile_type is Wall {
        let t = first_wall(s)->Some_0;
        assert(s[0] == t);
    } else {
        lemma_first_wall_member(s.drop_first());
        if first_wall(s) is Some {
            let t = first_wall(s)->Some_0;
            let i = choose|i: int| 0 <= i < s.drop_first().len() && s.drop_first()[i] == t;
            assert(s[i + 1] == t);
        }
    }
}

/// Every tile a collision query reports lies inside the grid.
pub proof fn lemma_colliding_seq_bounds(m: Seq<Seq<TileType>>, rect: Rectangle)
    requires
        map_wf(m),
    ensures
        forall|k: int|
            0 <= k < colliding_seq(m, rect).len() ==> (#[trigger] colliding_seq(m, rect)[k]).row.0
                < m.len() && colliding_seq(m, rect)[k].col.0 < map_cols(m),
{
    let cs = colliding_seq(m, rect);
    let rlo = row_lo(rect);
    let rhi = row_hi(m, rect);
    let clo = col_lo(rect);
    let chi = col_hi(m, rect);
    if rlo <= rhi && clo <= chi {
        let nc = chi - clo + 1;
        assert forall|k: int| 0 <= k < cs.len() implies (#[trigger] cs[k]).row.0 < m.len()
            && cs[k].col.0 < map_cols(m) by {
            lemma_multiply_divide_lt(k, nc, rhi - rlo + 1);
            lemma_div_pos_is_pos(k, nc);
            lemma_mod_bound(k, nc);
            assert(rlo + k / nc <= rhi);
            assert(clo <= clo + k % nc <= chi);
            assert(cs[k].row.0 == rlo + k / nc);
            assert(cs[k].col.0 == clo + k % nc);
        }
    }
}

/// The wall a query stops at lies inside the grid.
pub proof fn lemma_wall_bounds(m: Seq<Seq<TileType>>, rect: Rectangle, t: CollisionTile)
    requires
        map_wf(m),
        first_wall(colliding_seq(m, rect)) == Some(t),
    ensures
        t.row.0 < m.len(),
        t.col.0 < map_cols(m),
{
    lemma_first_wall_member(colliding_seq(m, rect));
    lemma_colliding_seq_bounds(m, rect);
    let cs = colliding_seq(m, rect);
    let i = choose|i: int| 0 <= i < cs.len() && cs[i] == t;
    assert(cs[i].row.0 < m.len());
}

/// Exact floor division of a subunit coordinate by the tile side,
/// also for negative coordinates.
fn div_floor_tile(a: i64) -> (r: i64)
    requires
        -QUERY_LIMIT - TILE_SUBUNITS <= a <= QUERY_LIMIT + TILE_SUBUNITS,
    ensures
        r == a as int / (TILE_SUBUNITS as int),
{
    if a >= 0 {
        a / TILE_SUBUNITS
    } else {
        let q = (-a - 1) / TILE_SUBUNITS;
        let r = -q - 1;
        proof {
            let t = TILE_SUBUNITS as int;
            let m = (-a - 1) as int;
            assert(m == t * (m / t) + m % t);
            assert(0 <= m % t < t);
            assert(a == r * t + (t - 1 - m % t)) by {
                assert(r == -(m / t) - 1);
            }
            lemma_fundamental_div_mod_converse(a as int, t, r as int, t - 1 - m % t);
        }
        r
    }
}

impl View for TileMap {
    type V = Seq<Seq<TileType>>;

    closed spec fn view(&self) -> Seq<Seq<TileType>> {
        self.tiles@.map_values(|row: Vec<TileType>| row@)
    }
}

impl TileMap {
    /// A grid of `rows` by `cols` empty tiles.
    pub fn new(rows: usize, cols: usize) -> (m: TileMap)
        requires
            rows <= MAP_LIMIT,
            cols <= MAP_LIMIT,
        ensures
            map_wf(m@),
            m@.len() == rows,
            map_cols(m@) == if rows == 0 { 0int } else { cols as int },
            forall|i: int, j: int|
                0 <= i < rows && 0 <= j < cols ==> #[trigger] m@[i][j] is Empty,
    {
        let mut tiles: Vec<Vec<TileType>> = Vec::new();
        let mut i: usize = 0;
        while i < rows
            invariant
                i <= rows,
                tiles@.len() == i,
                forall|a: int| 0 <= a < i ==> #[trigger] tiles@[a]@.len() == cols,
                forall|a: int, b: int|
                    0 <= a < i && 0 <= b < cols ==> #[trigger] tiles@[a]@[b] is Empty,
            decreases rows - i,
        {
            let mut row: Vec<TileType> = Vec::new();
            let mut j: usize = 0;
            while j < cols
                invariant
                    j <= cols,
                    row@.len() == j,
                    forall|b: int| 0 <= b < j ==> #[trigger] row@[b] is Empty,
                decreases cols - j,
            {
                row.push(TileType::Empty);
                j += 1;
            }
            tiles.push(row);
            i += 1;
        }
        let m = TileMap { tiles };
        proof {
            assert(forall|a: int|
                0 <= a < rows ==> #[trigger] m@[a] == tiles@[a]@);
        }
        m
    }

    /// Number of rows of the grid.
    pub fn rows(&self) -> (r: usize)
        ensures
            r == self@.len(),
    {
        self.tiles.len()
    }

    /// Number of columns of the grid.
    pub fn cols(&self) -> (r: usize)
        ensures
            r == map_cols(self@),
    {
        if self.tiles.len() == 0 {
            0
        } else {
            self.tiles[0].len()
        }
    }

    /// Replaces the tile at `row`, `col`.
    pub fn set_tile(&mut self, row: usize, col: usize, t: TileType)
        requires
            map_wf(old(self)@),
            row < old(self)@.len(),
            col < map_cols(old(self)@),
        ensures
            map_wf(final(self)@),
            final(self)@ == old(self)@.update(row as int, old(self)@[row as int].update(col as int, t)),
    {
        proof {
            assert(old(self)@[row as int] == self.tiles@[row as int]@);
        }
        self.tiles[row][col] = t;
        proof {
            assert(final(self)@ =~= old(self)@.update(
                row as int,
                old(self)@[row as int].update(col as int, t),
            ));
        }
    }

    /// All tiles of the grid that `rect` overlaps, each tagged with its
    /// type and grid coordinates, in row-major order.
    pub fn get_colliding_tiles(&self, rect: &Rectangle) -> (out: Vec<CollisionTile>)
        requires
            map_wf(self@),
            query_ok(*rect),
        ensures
            out@ == colliding_seq(self@, *rect),
    {
        let ghost m = self@;
        let ghost cs = colliding_seq(self@, *rect);
        let rows: usize = self.tiles.len();
        let cols: usize = if rows == 0 { 0 } else { self.tiles[0].len() };
        let fr: i64 = div_floor_tile(rect.y.0);
        let lr: i64 = div_floor_tile(rect.y.0 + rect.height.0);
        let fc: i64 = div_floor_tile(rect.x.0);
        let lc: i64 = div_floor_tile(rect.x.0 + rect.width.0);
        let r_lo: i64 = if fr < 0 { 0 } else { fr };
        let r_hi: i64 = if lr > rows as i64 - 1 { rows as i64 - 1 } else { lr };
        let c_lo: i64 = if fc < 0 { 0 } else { fc };
        let c_hi: i64 = if lc > cols as i64 - 1 { cols as i64 - 1 } else { lc };
        proof {
            assert(r_lo == row_lo(*rect));
            assert(r_hi == row_hi(m, *rect));
            assert(c_lo == col_lo(*rect));
            assert(c_hi == col_hi(m, *rect));
        }
        let mut out: Vec<CollisionTile> = Vec::new();
        if r_lo <= r_hi && c_lo <= c_hi {
            let n_cols: i64 = c_hi - c_lo + 1;
            let ghost nc = n_cols as int;
            proof {
                assert(cs.len() == (r_hi - r_lo + 1) * nc);
                assert((r_lo - r_lo) * nc == 0) by (nonlinear_arith);
            }
            let mut r: i64 = r_lo;
            while r <= r_hi
                invariant
                    map_wf(m),
                    m == self@,
                    cs == colliding_seq(m, *rect),
                    r_lo == row_lo(*rect),
                    r_hi == row_hi(m, *rect),
                    c_lo == col_lo(*rect),
                    c_hi == col_hi(m, *rect),
                    r_lo <= r <= r_hi + 1,
                    r_lo >= 0,
                    c_lo >= 0,
                    r_hi < m.len(),
                    c_hi < map_cols(m),
                    nc == c_hi - c_lo + 1,
                    nc >= 1,
                    cs.len() == (r_hi - r_lo + 1) * nc,
                    out@.len() == (r - r_lo) * nc,
                    forall|k: int| 0 <= k < out@.len() ==> #[trigger] out@[k] == cs[k],
                decreases r_hi + 1 - r,
            {
                let mut c: i64 = c_lo;
                while c <= c_hi
                    invariant
                        map_wf(m),
                        m == self@,
                        cs == colliding_seq(m, *rect),
                        r_lo == row_lo(*rect),
                        r_hi == row_hi(m, *rect),
                        c_lo == col_lo(*rect),
                        c_hi == col_hi(m, *rect),
                        r_lo <= r <= r_hi,
                        r_lo >= 0,
                        c_lo <= c <= c_hi + 1,
                        c_lo >= 0,
                        r_hi < m.len(),
                        c_hi < map_cols(m),
                        nc == c_hi - c_lo + 1,
                        nc >= 1,
                        cs.len() == (r_hi - r_lo + 1) * nc,
                        out@.len() == (r - r_lo) * nc + (c - c_lo),
                        forall|k: int| 0 <= k < out@.len() ==> #[trigger] out@[k] == cs[k],
                    decreases c_hi + 1 - c,
                {
                    proof {
                        assert(m[r as int] == self.tiles@[r as int]@);
                        assert((r - r_lo) * nc + (c_hi - c_lo) < (r_hi - r_lo + 1) * nc)
                            by (nonlinear_arith)
                            requires
                                r_lo <= r <= r_hi,
                                c_lo <= c_hi,
                                nc == c_hi - c_lo + 1,
                        ;
                    }
                    let t: TileType = self.tiles[r as usize][c as usize];
                    let tagged = CollisionTile { tile_type: t, row: Tile(r as usize), col: Tile(c as usize) };
                    proof {
                        let k = (r - r_lo) * nc + (c - c_lo);
                        lemma_fundamental_div_mod_converse(k, nc, r - r_lo, c - c_lo);
                        assert(cs[k] == tagged);
                    }
                    out.push(tagged);
                    c += 1;
                }
                proof {
                    assert((r + 1 - r_lo) * nc == (r - r_lo) * nc + nc) by (nonlinear_arith);
                }
                r += 1;
            }
            proof {
                assert(out@ =~= cs);
            }
        } else {
            proof {
                assert(cs.len() == 0);
                assert(out@ =~= cs);
            }
        }
        out
    }
}

} // verus!
