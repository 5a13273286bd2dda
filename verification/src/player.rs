//! The player entity: kinematics, per-axis collision resolution against a
//! tile map, control inputs, and the discrete animation state derived from
//! physics state.
//!
//! All physics constants are in fixed-point subunits (`SUBUNITS` subunits
//! per game unit), per millisecond or millisecond squared: gravity
//! `80 / 102400` game units per ms^2, walking acceleration `85 / 102400`,
//! friction `51 / 102400`, and so on.  Every integration step is exact
//! integer arithmetic on this scale.

use vstd::prelude::*;
use vstd::arithmetic::div_mod::lemma_fundamental_div_mod_converse;
use crate::units::{
    Acceleration, Fps, Frame, Game, Millis, Pixel, Tile, Velocity, MAX_FRAME_MILLIS, POS_LIMIT,
    SUBUNITS, TILE_SUBUNITS,
};
use crate::collisions::{Info, Rectangle};
use crate::tile_map::{
    colliding_seq, first_wall, map_cols, map_wf, query_ok, CollisionTile, TileMap, TileType,
};
use crate::sprite::{
    sprite_blit, sprite_positioned, sprite_ticked, AnimatedSprite, Blit, Facing, Looking, Motion,
    MovementKey, PixelRect, PlayerSprite, Sprite,
};

verus! {

// Physics constants, in subunits per millisecond (velocities) or subunits
// per millisecond squared (accelerations).
/// Ground friction deceleration applied while no intent is active.
pub const FRICTION: i64 = 51;

/// Full gravity applied while falling or not holding a jump.
pub const GRAVITY: i64 = 80;

/// Horizontal acceleration while walking on the ground.
pub const WALKING_ACCEL: i64 = 85;

/// Weaker horizontal acceleration while airborne.
pub const AIR_ACCEL: i64 = 32;

/// Reduced gravity while a held jump is still ascending.
pub const JUMP_GRAVITY: i64 = 32;

/// Cap on horizontal speed in either direction.
pub const MAX_VELOCITY_X: i64 = 16240;

/// Cap on downward speed.
pub const MAX_VELOCITY_Y: i64 = 30700;

/// Upward speed set instantaneously by a jump from the ground.
pub const JUMP_SPEED: i64 = 25600;

// The collision boxes, narrower and shorter than the sprite frame, in
// subunits relative to the player's position.
/// Left edge of the horizontal collision box.
pub const X_BOX_X: i64 = 6 * SUBUNITS;

/// Top edge of the horizontal collision box.
pub const X_BOX_Y: i64 = 10 * SUBUNITS;

/// Width of the horizontal collision box.
pub const X_BOX_W: i64 = 20 * SUBUNITS;

/// Height of the horizontal collision box.
pub const X_BOX_H: i64 = 12 * SUBUNITS;

/// Half the width of the horizontal collision box.
pub const X_BOX_HALF_W: i64 = 10 * SUBUNITS;

/// Right edge of the horizontal collision box: `X_BOX_X + X_BOX_W`.
pub const X_BOX_RIGHT: i64 = 26 * SUBUNITS;

/// Left edge of the vertical collision box.
pub const Y_BOX_X: i64 = 10 * SUBUNITS;

/// Top edge of the vertical collision box.
pub const Y_BOX_Y: i64 = 2 * SUBUNITS;

/// Width of the vertical collision box.
pub const Y_BOX_W: i64 = 12 * SUBUNITS;

/// Height of the vertical collision box.
pub const Y_BOX_H: i64 = 30 * SUBUNITS;

/// Half the height of the vertical collision box.
pub const Y_BOX_HALF_H: i64 = 15 * SUBUNITS;

/// Bottom edge of the vertical collision box: `Y_BOX_Y + Y_BOX_H`.
pub const Y_BOX_BOTTOM: i64 = 32 * SUBUNITS;

/// How far beyond `POS_LIMIT` a coordinate can move in one resolved axis
/// step (one frame's displacement at capped speed, or a snap to a tile
/// edge).
pub const POS_STEP_MARGIN: i64 = 40000000000;

// Sprite sheet layout, in tile rows and columns.
/// Column gap between the west-facing and east-facing sheet halves.
pub const CHAR_OFFSET: usize = 12;

/// Sheet row of the standing frame.
pub const STAND_FRAME: usize = 0;

/// Sheet row of the jumping frame.
pub const JUMP_FRAME: usize = 1;

/// Sheet row of the falling frame.
pub const FALL_FRAME: usize = 2;

/// Sheet column of the west-facing frames.
pub const FACING_WEST_FRAME: usize = CHAR_OFFSET;

/// Sheet column of the east-facing frames.
pub const FACING_EAST_FRAME: usize = 1 + CHAR_OFFSET;

/// Row offset added while looking up.
pub const WALK_UP_OFFSET: usize = 3;

/// Sheet row of the jumping-while-looking-down frame.
pub const JUMP_DOWN_FRAME: usize = 6;

/// Sheet row of the interacting (standing, looking down) frame.
pub const STAND_DOWN_FRAME: usize = 7;

/// Frames in the walking animation cycle.
pub const SPRITE_NUM_FRAMES: u32 = 3;

/// Frame rate of the walking animation cycle.
pub const SPRITE_FPS: u32 = 20;

/// Ordinal of a motion within the movement-key table.
pub open spec fn motion_ordinal(m: Motion) -> int {
    match m {
        Motion::Walking => 0,
        Motion::Standing => 1,
        Motion::Interacting => 2,
        Motion::Jumping => 3,
        Motion::Falling => 4,
    }
}

/// Ordinal of a facing within the movement-key table.
pub open spec fn facing_ordinal(f: Facing) -> int {
    match f {
        Facing::West => 0,
        Facing::East => 1,
    }
}

/// Ordinal of a looking direction within the movement-key table.
pub open spec fn looking_ordinal(l: Looking) -> int {
    match l {
        Looking::Up => 0,
        Looking::Down => 1,
        Looking::Horizontal => 2,
    }
}

/// Slot of a movement key in the sprite table; every one of the
/// `5 * 2 * 3` keys has its own slot.
pub open spec fn key_index(k: MovementKey) -> int {
    motion_ordinal(k.motion) * 6 + facing_ordinal(k.facing) * 3 + looking_ordinal(k.looking)
}

/// The motion with the given table ordinal.
pub open spec fn motion_of_ordinal(i: int) -> Motion {
    if i == 0 {
        Motion::Walking
    } else if i == 1 {
        Motion::Standing
    } else if i == 2 {
        Motion::Interacting
    } else if i == 3 {
        Motion::Jumping
    } else {
        Motion::Falling
    }
}

/// The facing with the given table ordinal.
pub open spec fn facing_of_ordinal(i: int) -> Facing {
    if i == 0 {
        Facing::West
    } else {
        Facing::East
    }
}

/// The looking direction with the given table ordinal.
pub open spec fn looking_of_ordinal(i: int) -> Looking {
    if i == 0 {
        Looking::Up
    } else if i == 1 {
        Looking::Down
    } else {
        Looking::Horizontal
    }
}

/// The movement key stored at a slot of the sprite table.
pub open spec fn key_of(i: int) -> MovementKey {
    MovementKey {
        motion: motion_of_ordinal(i / 6),
        facing: facing_of_ordinal((i % 6) / 3),
        looking: looking_of_ordinal((i % 6) % 3),
    }
}

/// Every movement key's slot is inside the 30-entry table.
pub proof fn lemma_key_index_range(k: MovementKey)
    ensures
        0 <= key_index(k) < 30,
{
}

/// A movement key is recovered exactly from its table slot.
pub proof fn lemma_key_roundtrip(k: MovementKey)
    ensures
        key_of(key_index(k)) == k,
{
    let m = motion_ordinal(k.motion);
    let f = facing_ordinal(k.facing);
    let l = looking_ordinal(k.looking);
    let i = m * 6 + f * 3 + l;
    lemma_fundamental_div_mod_converse(i, 6, m, f * 3 + l);
    lemma_fundamental_div_mod_converse(f * 3 + l, 3, f, l);
}

/// The motion-classifier rule: a pure function of the on-ground flag, the
/// interacting flag, the horizontal intent and the sign of the vertical
/// velocity.
pub open spec fn classify(on_ground: bool, interacting: bool, accel_x: int, velocity_y: int) -> Motion {
    if on_ground {
        if interacting {
            Motion::Interacting
        } else if accel_x == 0 {
            Motion::Standing
        } else {
            Motion::Walking
        }
    } else {
        if velocity_y < 0 {
            Motion::Jumping
        } else {
            Motion::Falling
        }
    }
}

/// The mathematical state of a player: coordinates and velocities in
/// subunits, plus the discrete control and movement state.
pub struct PlayerState {
    pub x: int,
    pub y: int,
    pub movement: MovementKey,
    pub on_ground: bool,
    pub elapsed_time: int,
    pub velocity_x: int,
    pub velocity_y: int,
    pub accel_x: int,
    pub is_interacting: bool,
    pub is_jump_active: bool,
}

/// The state invariant the physics maintains: intent is a sign, speeds
/// respect their caps, the frame time is valid.
pub open spec fn state_wf(p: PlayerState) -> bool {
    &&& p.accel_x == -1 || p.accel_x == 0 || p.accel_x == 1
    &&& -MAX_VELOCITY_X <= p.velocity_x <= MAX_VELOCITY_X
    &&& -JUMP_SPEED <= p.velocity_y <= MAX_VELOCITY_Y
    &&& 0 <= p.elapsed_time <= MAX_FRAME_MILLIS
}

/// Updating the movement key once at the start of a frame: the motion is
/// reclassified, facing and looking carry over.
pub open spec fn classify_step(p: PlayerState) -> PlayerState {
    PlayerState {
        movement: MovementKey {
            motion: classify(p.on_ground, p.is_interacting, p.accel_x, p.velocity_y),
            ..p.movement
        },
        ..p
    }
}

/// Law of classifier determinism: the classified motion is a pure function
/// of the state, so classifying an already-classified state changes
/// nothing.
pub proof fn lemma_classify_idempotent(p: PlayerState)
    ensures
        classify_step(classify_step(p)) == classify_step(p),
{
}

/// The acceleration chosen for a horizontal intent: walking strength on
/// the ground, the weaker air-control strength while airborne, zero
/// without intent.
pub open spec fn walk_accel(accel_x: int, on_ground: bool) -> int {
    if accel_x < 0 {
        if on_ground {
            -WALKING_ACCEL as int
        } else {
            -AIR_ACCEL as int
        }
    } else if accel_x > 0 {
        if on_ground {
            WALKING_ACCEL as int
        } else {
            AIR_ACCEL as int
        }
    } else {
        0
    }
}

/// The horizontal velocity after one frame's integration: accelerate by
/// intent, cap at the maximum while an intent is active, and decay toward
/// zero by friction (never crossing zero) while grounded with no intent.
pub open spec fn next_velocity_x(vx: int, accel_x: int, on_ground: bool, ms: int) -> int {
    let v = vx + walk_accel(accel_x, on_ground) * ms;
    if accel_x < 0 {
        if v >= -MAX_VELOCITY_X {
            v
        } else {
            -MAX_VELOCITY_X as int
        }
    } else if accel_x > 0 {
        if v <= MAX_VELOCITY_X {
            v
        } else {
            MAX_VELOCITY_X as int
        }
    } else if on_ground {
        if v > 0 {
            let w = v - FRICTION * ms;
            if w >= 0 {
                w
            } else {
                0
            }
        } else {
            let w = v + FRICTION * ms;
            if w <= 0 {
                w
            } else {
                0
            }
        }
    } else {
        v
    }
}

/// The vertical velocity after one frame's integration: jump gravity while
/// a held jump is still ascending, full gravity otherwise, capped at the
/// maximum fall speed.
pub open spec fn next_velocity_y(vy: int, jump_active: bool, ms: int) -> int {
    let g: int = if jump_active && vy < 0 {
        JUMP_GRAVITY as int
    } else {
        GRAVITY as int
    };
    let v = vy + g * ms;
    if v <= MAX_VELOCITY_Y {
        v
    } else {
        MAX_VELOCITY_Y as int
    }
}

/// The trailing (left) half of the horizontal collision box of a player at
/// `x`, `y`, widened leftward by a non-positive delta.
pub open spec fn left_rect(x: int, y: int, delta: int) -> Rectangle {
    Rectangle {
        x: Game((x + X_BOX_X + delta) as i64),
        y: Game((y + X_BOX_Y) as i64),
        width: Game((X_BOX_HALF_W - delta) as i64),
        height: Game(X_BOX_H),
    }
}

/// The leading (right) half of the horizontal collision box of a player at
/// `x`, `y`, widened rightward by a non-negative delta.
pub open spec fn right_rect(x: int, y: int, delta: int) -> Rectangle {
    Rectangle {
        x: Game((x + X_BOX_X + X_BOX_HALF_W) as i64),
        y: Game((y + X_BOX_Y) as i64),
        width: Game((X_BOX_HALF_W + delta) as i64),
        height: Game(X_BOX_H),
    }
}

/// The trailing (top) half of the vertical collision box of a player at
/// `x`, `y`, extended upward by a non-positive delta.
pub open spec fn top_rect(x: int, y: int, delta: int) -> Rectangle {
    Rectangle {
        x: Game((x + Y_BOX_X) as i64),
        y: Game((y + Y_BOX_Y + delta) as i64),
        width: Game(Y_BOX_W),
        height: Game((Y_BOX_HALF_H - delta) as i64),
    }
}

/// The leading (bottom) half of the vertical collision box of a player at
/// `x`, `y`, extended downward by a non-negative delta.
pub open spec fn bottom_rect(x: int, y: int, delta: int) -> Rectangle {
    Rectangle {
        x: Game((x + Y_BOX_X) as i64),
        y: Game((y + Y_BOX_Y + Y_BOX_HALF_H) as i64),
        width: Game(Y_BOX_W),
        height: Game((Y_BOX_HALF_H + delta) as i64),
    }
}

/// The first wall tile the map reports for a query rectangle, in the
/// deterministic row-major order of the query.
pub open spec fn wall_hit(m: Seq<Seq<TileType>>, r: Rectangle) -> Option<CollisionTile> {
    first_wall(colliding_seq(m, r))
}

/// One frame's horizontal resolution: integrate the velocity, then check
/// the leading edge with the full delta (snapping flush to the wall and
/// zeroing the velocity on a hit), then re-check the trailing edge with
/// zero delta as a corrective guard.
pub open spec fn step_x(p: PlayerState, m: Seq<Seq<TileType>>) -> PlayerState {
    let v = next_velocity_x(p.velocity_x, p.accel_x, p.on_ground, p.elapsed_time);
    let delta = v * p.elapsed_time;
    if delta > 0 {
        let lead = wall_hit(m, right_rect(p.x, p.y, delta));
        let x1 = match lead {
            Some(t) => t.col.0 * TILE_SUBUNITS - X_BOX_RIGHT,
            None => p.x + delta,
        };
        let v1 = match lead {
            Some(t) => 0int,
            None => v,
        };
        let trail = wall_hit(m, left_rect(x1, p.y, 0));
        let x2 = match trail {
            Some(t) => t.col.0 * TILE_SUBUNITS + X_BOX_RIGHT,
            None => x1,
        };
        PlayerState { x: x2, velocity_x: v1, ..p }
    } else {
        let lead = wall_hit(m, left_rect(p.x, p.y, delta));
        let x1 = match lead {
            Some(t) => t.col.0 * TILE_SUBUNITS + X_BOX_RIGHT,
            None => p.x + delta,
        };
        let v1 = match lead {
            Some(t) => 0int,
            None => v,
        };
        let trail = wall_hit(m, right_rect(x1, p.y, 0));
        let x2 = match trail {
            Some(t) => t.col.0 * TILE_SUBUNITS - X_BOX_RIGHT,
            None => x1,
        };
        PlayerState { x: x2, velocity_x: v1, ..p }
    }
}

/// One frame's vertical resolution: integrate the velocity, then check the
/// leading edge with the full delta (snapping to the tile edge, zeroing
/// the velocity and maintaining the on-ground flag), then re-check the
/// trailing edge with zero delta as a corrective guard.
pub open spec fn step_y(p: PlayerState, m: Seq<Seq<TileType>>) -> PlayerState {
    let v = next_velocity_y(p.velocity_y, p.is_jump_active, p.elapsed_time);
    let delta = v * p.elapsed_time;
    if delta > 0 {
        let lead = wall_hit(m, bottom_rect(p.x, p.y, delta));
        let y1 = match lead {
            Some(t) => t.row.0 * TILE_SUBUNITS - Y_BOX_BOTTOM,
            None => p.y + delta,
        };
        let v1 = match lead {
            Some(t) => 0int,
            None => v,
        };
        let og1 = lead is Some;
        let trail = wall_hit(m, top_rect(p.x, y1, 0));
        let y2 = match trail {
            Some(t) => t.row.0 * TILE_SUBUNITS + Y_BOX_H,
            None => y1,
        };
        PlayerState { y: y2, velocity_y: v1, on_ground: og1, ..p }
    } else {
        let lead = wall_hit(m, top_rect(p.x, p.y, delta));
        let y1 = match lead {
            Some(t) => t.row.0 * TILE_SUBUNITS + Y_BOX_H,
            None => p.y + delta,
        };
        let v1 = match lead {
            Some(t) => 0int,
            None => v,
        };
        let og1 = match lead {
            Some(t) => p.on_ground,
            None => false,
        };
        let trail = wall_hit(m, bottom_rect(p.x, y1, 0));
        let y2 = match trail {
            Some(t) => t.row.0 * TILE_SUBUNITS - Y_BOX_BOTTOM,
            None => y1,
        };
        let og2 = match trail {
            Some(t) => true,
            None => og1,
        };
        PlayerState { y: y2, velocity_y: v1, on_ground: og2, ..p }
    }
}

/// One whole frame: reclassify the motion, then resolve the horizontal
/// axis, then the vertical axis, always in that order.
pub open spec fn spec_update(p: PlayerState, m: Seq<Seq<TileType>>, ms: int) -> PlayerState {
    step_y(step_x(classify_step(PlayerState { elapsed_time: ms, ..p }), m), m)
}

/// Law of the horizontal velocity caps: one integration step keeps the
/// horizontal speed within the configured maximum.
pub proof fn lemma_velocity_x_caps(vx: int, accel_x: int, on_ground: bool, ms: int)
    requires
        -MAX_VELOCITY_X <= vx <= MAX_VELOCITY_X,
        accel_x == -1 || accel_x == 0 || accel_x == 1,
        0 <= ms <= MAX_FRAME_MILLIS,
    ensures
        -MAX_VELOCITY_X <= next_velocity_x(vx, accel_x, on_ground, ms) <= MAX_VELOCITY_X,
{
}

/// Law of friction decay: while grounded with no horizontal intent, one
/// integration step moves the horizontal velocity monotonically toward
/// zero and never crosses zero.
pub proof fn lemma_friction_decay(vx: int, ms: int)
    requires
        -MAX_VELOCITY_X <= vx <= MAX_VELOCITY_X,
        0 <= ms <= MAX_FRAME_MILLIS,
    ensures
        vx >= 0 ==> 0 <= next_velocity_x(vx, 0, true, ms) <= vx,
        vx <= 0 ==> vx <= next_velocity_x(vx, 0, true, ms) <= 0,
{
}

/// Law of gravity: one integration step never decreases the vertical
/// velocity, and the result never exceeds the maximum fall speed; the
/// velocity approaches the cap monotonically.
pub proof fn lemma_gravity_approach(vy: int, jump_active: bool, ms: int)
    requires
        -JUMP_SPEED <= vy <= MAX_VELOCITY_Y,
        0 <= ms <= MAX_FRAME_MILLIS,
    ensures
        vy <= next_velocity_y(vy, jump_active, ms) <= MAX_VELOCITY_Y,
        -JUMP_SPEED <= next_velocity_y(vy, jump_active, ms),
{
}

/// Law of monotone falling: while no wall meets the leading vertical
/// edge, one vertical resolution never decreases the vertical velocity,
/// which approaches the maximum fall speed monotonically and never
/// exceeds it.
pub proof fn lemma_update_y_approaches_cap(p: PlayerState, m: Seq<Seq<TileType>>)
    requires
        state_wf(p),
        ({
            let v = next_velocity_y(p.velocity_y, p.is_jump_active, p.elapsed_time);
            let delta = v * p.elapsed_time;
            if delta > 0 {
                wall_hit(m, bottom_rect(p.x, p.y, delta)) is None
            } else {
                wall_hit(m, top_rect(p.x, p.y, delta)) is None
            }
        }),
    ensures
        p.velocity_y <= step_y(p, m).velocity_y <= MAX_VELOCITY_Y,
{
    lemma_gravity_approach(p.velocity_y, p.is_jump_active, p.elapsed_time);
}

/// Law of friction at the frame level: grounded, with no horizontal
/// intent and no wall on the leading horizontal edge, one horizontal
/// resolution moves the velocity monotonically toward zero and never
/// crosses zero.
pub proof fn lemma_update_x_decays_to_zero(p: PlayerState, m: Seq<Seq<TileType>>)
    requires
        state_wf(p),
        p.accel_x == 0,
        p.on_ground,
        ({
            let v = next_velocity_x(p.velocity_x, p.accel_x, p.on_ground, p.elapsed_time);
            let delta = v * p.elapsed_time;
            if delta > 0 {
                wall_hit(m, right_rect(p.x, p.y, delta)) is None
            } else {
                wall_hit(m, left_rect(p.x, p.y, delta)) is None
            }
        }),
    ensures
        p.velocity_x >= 0 ==> 0 <= step_x(p, m).velocity_x <= p.velocity_x,
        p.velocity_x <= 0 ==> p.velocity_x <= step_x(p, m).velocity_x <= 0,
{
    lemma_friction_decay(p.velocity_x, p.elapsed_time);
}

/// Law of collision snapping: when the leading right edge hits a wall and
/// the corrective trailing check stays clear, horizontal resolution puts
/// the right edge of the collision box exactly on the wall tile's left
/// edge and zeroes the horizontal velocity.
pub proof fn lemma_snap_right(p: PlayerState, m: Seq<Seq<TileType>>, t: CollisionTile)
    requires
        next_velocity_x(p.velocity_x, p.accel_x, p.on_ground, p.elapsed_time) * p.elapsed_time > 0,
        wall_hit(
            m,
            right_rect(
                p.x,
                p.y,
                next_velocity_x(p.velocity_x, p.accel_x, p.on_ground, p.elapsed_time)
                    * p.elapsed_time,
            ),
        ) == Some(t),
        wall_hit(m, left_rect(t.col.0 * TILE_SUBUNITS - X_BOX_RIGHT, p.y, 0)) is None,
    ensures
        step_x(p, m).x + X_BOX_RIGHT == t.col.0 * TILE_SUBUNITS,
        step_x(p, m).velocity_x == 0,
{
}

/// Reports whether and where a query rectangle first meets a wall: the
/// tiles the map returns are scanned in their deterministic order and the
/// first wall tile decides the result.
fn get_collision_info(hitbox: &Rectangle, tile_map: &TileMap) -> (info: Info)
    requires
        map_wf(tile_map@),
        query_ok(*hitbox),
    ensures
        info.collided == (wall_hit(tile_map@, *hitbox) is Some),
        wall_hit(tile_map@, *hitbox) matches Some(t) ==> info.row == t.row && info.col == t.col
            && t.row.0 < tile_map@.len() && t.col.0 < map_cols(tile_map@),
        !info.collided ==> info.row.0 == 0 && info.col.0 == 0,
{
    let tiles = tile_map.get_colliding_tiles(hitbox);
    let mut i: usize = 0;
    while i < tiles.len()
        invariant
            map_wf(tile_map@),
            query_ok(*hitbox),
            i <= tiles@.len(),
            tiles@ == colliding_seq(tile_map@, *hitbox),
            forall|k: int| 0 <= k < i ==> !((#[trigger] tiles@[k]).tile_type is Wall),
        decreases tiles@.len() - i,
    {
        let t = tiles[i];
        if matches!(t.tile_type, TileType::Wall) {
            proof {
                crate::tile_map::lemma_first_wall_skip(tiles@, i as int);
                assert(tiles@.skip(i as int).len() > 0);
                assert(tiles@.skip(i as int)[0] == tiles@[i as int]);
                assert(first_wall(tiles@.skip(i as int)) == Some(tiles@[i as int]));
                assert(wall_hit(tile_map@, *hitbox) == Some(tiles@[i as int]));
                assert(t == tiles@[i as int]);
                crate::tile_map::lemma_wall_bounds(tile_map@, *hitbox, tiles@[i as int]);
            }
            return Info { collided: true, row: t.row, col: t.col };
        }
        i += 1;
    }
    proof {
        crate::tile_map::lemma_first_wall_skip(tiles@, tiles@.len() as int);
        assert(tiles@.skip(tiles@.len() as int).len() == 0);
    }
    Info { collided: false, row: Tile(0), col: Tile(0) }
}

/// The player entity: position, velocities, control state, and one owned
/// sprite variant per movement key, created once and mutated in place.
pub struct Player {
    sprites: Vec<PlayerSprite>,
    x: Game,
    y: Game,
    movement: MovementKey,
    on_ground: bool,
    elapsed_time: Millis,
    velocity_x: Velocity,
    velocity_y: Velocity,
    accel_x: i32,
    is_interacting: bool,
    is_jump_active: bool,
}

impl View for Player {
    type V = PlayerState;

    closed spec fn view(&self) -> PlayerState {
        PlayerState {
            x: self.x.0 as int,
            y: self.y.0 as int,
            movement: self.movement,
            on_ground: self.on_ground,
            elapsed_time: self.elapsed_time.0 as int,
            velocity_x: self.velocity_x.0 as int,
            velocity_y: self.velocity_y.0 as int,
            accel_x: self.accel_x as int,
            is_interacting: self.is_interacting,
            is_jump_active: self.is_jump_active,
        }
    }
}

/// Sheet row of the base frame for a motion.
pub open spec fn motion_frame_of(m: Motion) -> int {
    match m {
        Motion::Standing => STAND_FRAME as int,
        Motion::Walking => STAND_FRAME as int,
        Motion::Interacting => STAND_DOWN_FRAME as int,
        Motion::Jumping => JUMP_FRAME as int,
        Motion::Falling => FALL_FRAME as int,
    }
}

/// Sheet column of the frames for a facing.
pub open spec fn facing_frame_of(f: Facing) -> int {
    match f {
        Facing::West => FACING_WEST_FRAME as int,
        Facing::East => FACING_EAST_FRAME as int,
    }
}

/// Sheet row actually used for a movement key, after the looking
/// adjustments; visually degenerate combinations collapse onto the base
/// frame.
pub open spec fn sheet_row_of(k: MovementKey) -> int {
    match k.motion {
        Motion::Standing | Motion::Interacting => motion_frame_of(k.motion) + (
        if k.looking is Up {
            WALK_UP_OFFSET as int
        } else {
            0int
        }),
        Motion::Jumping | Motion::Falling => (
        match k.looking {
            Looking::Down => JUMP_DOWN_FRAME as int,
            Looking::Up => WALK_UP_OFFSET as int,
            Looking::Horizontal => motion_frame_of(k.motion),
        }),
        Motion::Walking => motion_frame_of(k.motion) + (
        if k.looking is Up {
            WALK_UP_OFFSET as int
        } else {
            0int
        }),
    }
}

/// The sprite variant pre-loaded for a movement key at construction:
/// walking is the animated cycle, every other motion a static frame.
pub open spec fn initial_sprite(k: MovementKey) -> PlayerSprite {
    if k.motion is Walking {
        PlayerSprite::Animated(
            AnimatedSprite {
                source_rect: PixelRect {
                    x: Pixel((sheet_row_of(k) * 32) as i64),
                    y: Pixel((facing_frame_of(k.facing) * 32) as i64),
                    w: Pixel(32),
                    h: Pixel(32),
                },
                coords: (Game(0), Game(0)),
                offset: (Tile(sheet_row_of(k) as usize), Tile(facing_frame_of(k.facing) as usize)),
                size: (Tile(1), Tile(1)),
                current_frame: Frame(0),
                num_frames: Frame(SPRITE_NUM_FRAMES),
                fps: Fps(SPRITE_FPS),
                last_update: Millis(0),
            },
        )
    } else {
        PlayerSprite::Still(
            Sprite {
                source_rect: PixelRect {
                    x: Pixel((sheet_row_of(k) * 32) as i64),
                    y: Pixel((facing_frame_of(k.facing) * 32) as i64),
                    w: Pixel(32),
                    h: Pixel(32),
                },
                size: (Tile(1), Tile(1)),
                coords: (Game(0), Game(0)),
            },
        )
    }
}

/// The sprite stored for a key is of the kind the key calls for (walking
/// is animated, the rest static) and well formed.
pub open spec fn sprite_ok(s: PlayerSprite, k: MovementKey) -> bool {
    match s {
        PlayerSprite::Still(sp) => !(k.motion is Walking) && sp.wf(),
        PlayerSprite::Animated(a) => k.motion is Walking && a.wf(),
    }
}

/// Every pre-loaded sprite variant fits its key.
pub proof fn lemma_initial_sprite_ok(k: MovementKey)
    ensures
        sprite_ok(initial_sprite(k), k),
{
}

impl Player {
    /// The sprite table, one variant per movement key, indexed by
    /// `key_index`.
    pub closed spec fn sprites_view(&self) -> Seq<PlayerSprite> {
        self.sprites@
    }

    /// The player invariant: a valid physics state and a complete, well
    /// formed sprite table.
    pub open spec fn wf(&self) -> bool {
        &&& state_wf(self@)
        &&& self.sprites_view().len() == 30
        &&& forall|j: int|
            0 <= j < 30 ==> sprite_ok(#[trigger] self.sprites_view()[j], key_of(j))
    }

    /// The movement key whose sprite variant is currently active.
    pub fn movement(&self) -> (k: MovementKey)
        ensures
            k == self@.movement,
    {
        self.movement
    }

    /// Current game-space x coordinate.
    pub fn x(&self) -> (g: Game)
        ensures
            g.0 == self@.x,
    {
        self.x
    }

    /// Current game-space y coordinate.
    pub fn y(&self) -> (g: Game)
        ensures
            g.0 == self@.y,
    {
        self.y
    }

    /// Current horizontal velocity.
    pub fn velocity_x(&self) -> (v: Velocity)
        ensures
            v.0 == self@.velocity_x,
    {
        self.velocity_x
    }

    /// Current vertical velocity.
    pub fn velocity_y(&self) -> (v: Velocity)
        ensures
            v.0 == self@.velocity_y,
    {
        self.velocity_y
    }

    /// Whether the player stands on the ground.
    pub fn on_ground(&self) -> (b: bool)
        ensures
            b == self@.on_ground,
    {
        self.on_ground
    }

    /// Whether the player is interacting with the scenery.
    pub fn is_interacting(&self) -> (b: bool)
        ensures
            b == self@.is_interacting,
    {
        self.is_interacting
    }

    /// The x coordinate of the center of the player's tile.
    pub fn center_x(&self) -> (g: Game)
        requires
            -POS_LIMIT <= self@.x <= POS_LIMIT,
        ensures
            g.0 == self@.x + TILE_SUBUNITS / 2,
    {
        Game(self.x.0 + TILE_SUBUNITS / 2)
    }

    /// Builds the sprite variant for one movement key, as pre-loaded at
    /// construction.
    fn build_sprite(key: MovementKey) -> (s: PlayerSprite)
        ensures
            s == initial_sprite(key),
    {
        let motion_frame: usize = match key.motion {
            Motion::Standing => STAND_FRAME,
            Motion::Walking => STAND_FRAME,
            Motion::Interacting => STAND_DOWN_FRAME,
            Motion::Jumping => JUMP_FRAME,
            Motion::Falling => FALL_FRAME,
        };
        let facing_frame: usize = match key.facing {
            Facing::West => FACING_WEST_FRAME,
            Facing::East => FACING_EAST_FRAME,
        };
        match key.motion {
            Motion::Standing | Motion::Interacting => {
                let looking_frame: usize = match key.looking {
                    Looking::Up => WALK_UP_OFFSET,
                    _ => 0,
                };
                PlayerSprite::Still(
                    Sprite::new(
                        (Game(0), Game(0)),
                        (Tile(motion_frame + looking_frame), Tile(facing_frame)),
                        (Tile(1), Tile(1)),
                    ),
                )
            },
            Motion::Jumping | Motion::Falling => {
                let looking_frame: usize = match key.looking {
                    Looking::Down => JUMP_DOWN_FRAME,
                    Looking::Up => WALK_UP_OFFSET,
                    Looking::Horizontal => motion_frame,
                };
                PlayerSprite::Still(
                    Sprite::new(
                        (Game(0), Game(0)),
                        (Tile(looking_frame), Tile(facing_frame)),
                        (Tile(1), Tile(1)),
                    ),
                )
            },
            Motion::Walking => {
                let looking_frame: usize = match key.looking {
                    Looking::Up => WALK_UP_OFFSET,
                    _ => 0,
                };
                PlayerSprite::Animated(
                    AnimatedSprite::new(
                        (Tile(motion_frame + looking_frame), Tile(facing_frame)),
                        (Tile(1), Tile(1)),
                        Frame(SPRITE_NUM_FRAMES),
                        Fps(SPRITE_FPS),
                    ),
                )
            },
        }
    }

    /// The movement key stored at slot `i` of the sprite table.
    fn key_at(i: usize) -> (k: MovementKey)
        requires
            i < 30,
        ensures
            k == key_of(i as int),
    {
        let m: usize = i / 6;
        let rem: usize = i % 6;
        let f: usize = rem / 3;
        let l: usize = rem % 3;
        let motion = if m == 0 {
            Motion::Walking
        } else if m == 1 {
            Motion::Standing
        } else if m == 2 {
            Motion::Interacting
        } else if m == 3 {
            Motion::Jumping
        } else {
            Motion::Falling
        };
        let facing = if f == 0 {
            Facing::West
        } else {
            Facing::East
        };
        let looking = if l == 0 {
            Looking::Up
        } else if l == 1 {
            Looking::Down
        } else {
            Looking::Horizontal
        };
        MovementKey { motion, facing, looking }
    }

    /// The slot of a movement key in the sprite table.
    fn key_slot(key: MovementKey) -> (i: usize)
        ensures
            i == key_index(key),
            i < 30,
    {
        let m: usize = match key.motion {
            Motion::Walking => 0,
            Motion::Standing => 1,
            Motion::Interacting => 2,
            Motion::Jumping => 3,
            Motion::Falling => 4,
        };
        let f: usize = match key.facing {
            Facing::West => 0,
            Facing::East => 1,
        };
        let l: usize = match key.looking {
            Looking::Up => 0,
            Looking::Down => 1,
            Looking::Horizontal => 2,
        };
        m * 6 + f * 3 + l
    }

    /// A new player spawned at `x`, `y`, standing, facing east, airborne,
    /// with every sprite variant of the movement-key table pre-loaded.  It
    /// will fall until a collision with the ground is detected.
    pub fn new(x: Game, y: Game) -> (p: Player)
        requires
            -POS_LIMIT <= x.0 <= POS_LIMIT,
            -POS_LIMIT <= y.0 <= POS_LIMIT,
        ensures
            p.wf(),
            p@.x == x.0,
            p@.y == y.0,
            p@.movement == (MovementKey {
                motion: Motion::Standing,
                facing: Facing::East,
                looking: Looking::Horizontal,
            }),
            !p@.on_ground,
            p@.elapsed_time == 0,
            p@.velocity_x == 0,
            p@.velocity_y == 0,
            p@.accel_x == 1,
            !p@.is_interacting,
            !p@.is_jump_active,
            p.sprites_view().len() == 30,
            forall|j: int| 0 <= j < 30 ==> #[trigger] p.sprites_view()[j] == initial_sprite(key_of(j)),
    {
        let mut sprites: Vec<PlayerSprite> = Vec::new();
        let mut i: usize = 0;
        while i < 30
            invariant
                i <= 30,
                sprites@.len() == i,
                forall|j: int| 0 <= j < i ==> #[trigger] sprites@[j] == initial_sprite(key_of(j)),
            decreases 30 - i,
        {
            let key = Self::key_at(i);
            sprites.push(Self::build_sprite(key));
            i += 1;
        }
        let p = Player {
            sprites,
            x,
            y,
            movement: MovementKey {
                motion: Motion::Standing,
                facing: Facing::East,
                looking: Looking::Horizontal,
            },
            on_ground: false,
            elapsed_time: Millis(0),
            velocity_x: Velocity(0),
            velocity_y: Velocity(0),
            accel_x: 1,
            is_interacting: false,
            is_jump_active: false,
        };
        proof {
            assert forall|j: int| 0 <= j < 30 implies sprite_ok(
                #[trigger] p.sprites_view()[j],
                key_of(j),
            ) by {
                lemma_initial_sprite_ok(key_of(j));
            }
        }
        p
    }

    /// Replaces the facing component of the movement key; motion and
    /// looking are kept as they are.
    pub fn set_facing(&mut self, direction: Facing)
        ensures
            final(self)@ == (PlayerState {
                movement: MovementKey { facing: direction, ..old(self)@.movement },
                ..old(self)@
            }),
            final(self).sprites_view() == old(self).sprites_view(),
            old(self).wf() ==> final(self).wf(),
    {
        self.movement = MovementKey { facing: direction, ..self.movement };
    }

    /// Replaces the looking component of the movement key; motion and
    /// facing are kept as they are.
    pub fn set_looking(&mut self, direction: Looking)
        ensures
            final(self)@ == (PlayerState {
                movement: MovementKey { looking: direction, ..old(self)@.movement },
                ..old(self)@
            }),
            final(self).sprites_view() == old(self).sprites_view(),
            old(self).wf() ==> final(self).wf(),
    {
        self.movement = MovementKey { looking: direction, ..self.movement };
    }

    /// Cancels interacting, faces west, and sets the horizontal intent to
    /// accelerate left.
    pub fn start_moving_left(&mut self)
        ensures
            final(self)@ == (PlayerState {
                movement: MovementKey { facing: Facing::West, ..old(self)@.movement },
                accel_x: -1,
                is_interacting: false,
                ..old(self)@
            }),
            final(self).sprites_view() == old(self).sprites_view(),
            old(self).wf() ==> final(self).wf(),
    {
        self.is_interacting = false;
        self.set_facing(Facing::West);
        self.accel_x = -1;
    }

    /// Cancels interacting, faces east, and sets the horizontal intent to
    /// accelerate right.
    pub fn start_moving_right(&mut self)
        ensures
            final(self)@ == (PlayerState {
                movement: MovementKey { facing: Facing::East, ..old(self)@.movement },
                accel_x: 1,
                is_interacting: false,
                ..old(self)@
            }),
            final(self).sprites_view() == old(self).sprites_view(),
            old(self).wf() ==> final(self).wf(),
    {
        self.is_interacting = false;
        self.set_facing(Facing::East);
        self.accel_x = 1;
    }

    /// Clears the horizontal intent; the facing is kept.
    pub fn stop_moving(&mut self)
        ensures
            final(self)@ == (PlayerState { accel_x: 0, ..old(self)@ }),
            final(self).sprites_view() == old(self).sprites_view(),
            old(self).wf() ==> final(self).wf(),
    {
        self.accel_x = 0;
    }

    /// Cancels interacting and looks up.
    pub fn look_up(&mut self)
        ensures
            final(self)@ == (PlayerState {
                movement: MovementKey { looking: Looking::Up, ..old(self)@.movement },
                is_interacting: false,
                ..old(self)@
            }),
            final(self).sprites_view() == old(self).sprites_view(),
            old(self).wf() ==> final(self).wf(),
    {
        self.is_interacting = false;
        self.set_looking(Looking::Up);
    }

    /// Looks down, unless already looking down or currently walking
    /// (walking while looking down is a disallowed visual combination, so
    /// the call is then a no-op); when it takes effect, interacting is set
    /// exactly while on the ground.
    pub fn look_down(&mut self)
        ensures
            old(self)@.movement.looking is Down || old(self)@.movement.motion is Walking
                ==> final(self)@ == old(self)@,
            !(old(self)@.movement.looking is Down) && !(old(self)@.movement.motion is Walking)
                ==> final(self)@ == (PlayerState {
                movement: MovementKey { looking: Looking::Down, ..old(self)@.movement },
                is_interacting: old(self)@.on_ground,
                ..old(self)@
            }),
            final(self).sprites_view() == old(self).sprites_view(),
            old(self).wf() ==> final(self).wf(),
    {
        if matches!(self.movement.looking, Looking::Down) {
            return ;
        }
        if matches!(self.movement.motion, Motion::Walking) {
            return ;
        }
        self.is_interacting = self.on_ground;
        self.set_looking(Looking::Down);
    }

    /// Looks straight ahead.
    pub fn look_horizontal(&mut self)
        ensures
            final(self)@ == (PlayerState {
                movement: MovementKey { looking: Looking::Horizontal, ..old(self)@.movement },
                ..old(self)@
            }),
            final(self).sprites_view() == old(self).sprites_view(),
            old(self).wf() ==> final(self).wf(),
    {
        self.set_looking(Looking::Horizontal);
    }

    /// Marks the jump as held and cancels interacting; from the ground the
    /// vertical velocity is set instantaneously to the negative jump
    /// speed, while airborne the velocity is untouched.  The on-ground
    /// flag only changes at the next vertical resolution.
    pub fn start_jump(&mut self)
        ensures
            final(self)@ == (PlayerState {
                is_jump_active: true,
                is_interacting: false,
                velocity_y: if old(self)@.on_ground {
                    -JUMP_SPEED as int
                } else {
                    old(self)@.velocity_y
                },
                ..old(self)@
            }),
            final(self).sprites_view() == old(self).sprites_view(),
            old(self).wf() ==> final(self).wf(),
    {
        self.is_jump_active = true;
        self.is_interacting = false;
        if self.on_ground {
            self.velocity_y = Velocity(-JUMP_SPEED);
        }
    }

    /// Releases the jump: normal gravity resumes at the next vertical
    /// resolution.
    pub fn stop_jump(&mut self)
        ensures
            final(self)@ == (PlayerState { is_jump_active: false, ..old(self)@ }),
            final(self).sprites_view() == old(self).sprites_view(),
            old(self).wf() ==> final(self).wf(),
    {
        self.is_jump_active = false;
    }

    /// Reclassifies the motion component of the movement key from the
    /// current physics state; facing and looking carry over.  Runs exactly
    /// once per frame, at the start of `update`.
    pub fn current_motion(&mut self)
        ensures
            final(self)@ == classify_step(old(self)@),
            final(self).sprites_view() == old(self).sprites_view(),
            old(self).wf() ==> final(self).wf(),
    {
        let motion = if self.on_ground {
            if self.is_interacting {
                Motion::Interacting
            } else if self.accel_x == 0 {
                Motion::Standing
            } else {
                Motion::Walking
            }
        } else {
            if self.velocity_y.0 < 0 {
                Motion::Jumping
            } else {
                Motion::Falling
            }
        };
        self.movement = MovementKey { motion, ..self.movement };
    }

    /// The horizontal collision box, trailing (left) half, widened
    /// leftward by a non-positive motion delta.
    fn left_collision(&self, delta: Game) -> (r: Rectangle)
        requires
            delta.0 <= 0,
            -POS_STEP_MARGIN <= delta.0,
            -POS_LIMIT - POS_STEP_MARGIN <= self@.x <= POS_LIMIT + POS_STEP_MARGIN,
            -POS_LIMIT - POS_STEP_MARGIN <= self@.y <= POS_LIMIT + POS_STEP_MARGIN,
        ensures
            r == left_rect(self@.x, self@.y, delta.0 as int),
            query_ok(r),
    {
        Rectangle {
            x: Game(self.x.0 + X_BOX_X + delta.0),
            y: Game(self.y.0 + X_BOX_Y),
            width: Game(X_BOX_HALF_W - delta.0),
            height: Game(X_BOX_H),
        }
    }

    /// The horizontal collision box, leading (right) half, widened
    /// rightward by a non-negative motion delta.
    fn right_collision(&self, delta: Game) -> (r: Rectangle)
        requires
            delta.0 >= 0,
            delta.0 <= POS_STEP_MARGIN,
            -POS_LIMIT - POS_STEP_MARGIN <= self@.x <= POS_LIMIT + POS_STEP_MARGIN,
            -POS_LIMIT - POS_STEP_MARGIN <= self@.y <= POS_LIMIT + POS_STEP_MARGIN,
        ensures
            r == right_rect(self@.x, self@.y, delta.0 as int),
            query_ok(r),
    {
        Rectangle {
            x: Game(self.x.0 + X_BOX_X + X_BOX_HALF_W),
            y: Game(self.y.0 + X_BOX_Y),
            width: Game(X_BOX_HALF_W + delta.0),
            height: Game(X_BOX_H),
        }
    }

    /// The vertical collision box, trailing (top) half, extended upward by
    /// a non-positive motion delta.
    fn top_collision(&self, delta: Game) -> (r: Rectangle)
        requires
            delta.0 <= 0,
            -POS_STEP_MARGIN <= delta.0,
            -POS_LIMIT - POS_STEP_MARGIN <= self@.x <= POS_LIMIT + POS_STEP_MARGIN,
            -POS_LIMIT - POS_STEP_MARGIN <= self@.y <= POS_LIMIT + POS_STEP_MARGIN,
        ensures
            r == top_rect(self@.x, self@.y, delta.0 as int),
            query_ok(r),
    {
        Rectangle {
            x: Game(self.x.0 + Y_BOX_X),
            y: Game(self.y.0 + Y_BOX_Y + delta.0),
            width: Game(Y_BOX_W),
            height: Game(Y_BOX_HALF_H - delta.0),
        }
    }

    /// The vertical collision box, leading (bottom) half, extended
    /// downward by a non-negative motion delta.
    fn bottom_collision(&self, delta: Game) -> (r: Rectangle)
        requires
            delta.0 >= 0,
            delta.0 <= POS_STEP_MARGIN,
            -POS_LIMIT - POS_STEP_MARGIN <= self@.x <= POS_LIMIT + POS_STEP_MARGIN,
            -POS_LIMIT - POS_STEP_MARGIN <= self@.y <= POS_LIMIT + POS_STEP_MARGIN,
        ensures
            r == bottom_rect(self@.x, self@.y, delta.0 as int),
            query_ok(r),
    {
        Rectangle {
            x: Game(self.x.0 + Y_BOX_X),
            y: Game(self.y.0 + Y_BOX_Y + Y_BOX_HALF_H),
            width: Game(Y_BOX_W),
            height: Game(Y_BOX_HALF_H + delta.0),
        }
    }

    /// Integrates and resolves horizontal motion for this frame: chooses
    /// the acceleration from intent and ground state, caps or decays the
    /// velocity, then checks the leading edge with the full delta and the
    /// trailing edge with zero delta, snapping to tile edges on a hit.
    #[verifier::rlimit(100)]
    fn update_x(&mut self, map: &TileMap)
        requires
            state_wf(old(self)@),
            map_wf(map@),
            -POS_LIMIT <= old(self)@.x <= POS_LIMIT,
            -POS_LIMIT - POS_STEP_MARGIN <= old(self)@.y <= POS_LIMIT + POS_STEP_MARGIN,
        ensures
            final(self)@ == step_x(old(self)@, map@),
            final(self).sprites_view() == old(self).sprites_view(),
            state_wf(final(self)@),
            -POS_LIMIT - POS_STEP_MARGIN <= final(self)@.x <= POS_LIMIT + POS_STEP_MARGIN,
            final(self)@.y == old(self)@.y,
    {
        let ghost p0 = self@;
        let accel: i64 = if self.accel_x < 0 {
            if self.on_ground {
                -WALKING_ACCEL
            } else {
                -AIR_ACCEL
            }
        } else if self.accel_x > 0 {
            if self.on_ground {
                WALKING_ACCEL
            } else {
                AIR_ACCEL
            }
        } else {
            0
        };
        proof {
            assert(-100000000 <= accel * self.elapsed_time.0 <= 100000000) by (nonlinear_arith)
                requires
                    -85 <= accel <= 85,
                    0 <= self.elapsed_time.0 <= 1048576,
            ;
        }
        let v1 = self.velocity_x.faster_by(Acceleration(accel), self.elapsed_time);
        let v2: Velocity = if self.accel_x < 0 {
            v1.capped_below(Velocity(-MAX_VELOCITY_X))
        } else if self.accel_x > 0 {
            v1.capped_above(Velocity(MAX_VELOCITY_X))
        } else if self.on_ground {
            proof {
                assert(-53500000 <= (-51) * self.elapsed_time.0 <= 53500000) by (nonlinear_arith)
                    requires
                        0 <= self.elapsed_time.0 <= 1048576,
                ;
                assert(-53500000 <= 51 * self.elapsed_time.0 <= 53500000) by (nonlinear_arith)
                    requires
                        0 <= self.elapsed_time.0 <= 1048576,
                ;
            }
            if v1.0 > 0 {
                v1.faster_by(Acceleration(-FRICTION), self.elapsed_time).capped_below(Velocity(0))
            } else {
                v1.faster_by(Acceleration(FRICTION), self.elapsed_time).capped_above(Velocity(0))
            }
        } else {
            v1
        };
        proof {
            lemma_velocity_x_caps(p0.velocity_x, p0.accel_x, p0.on_ground, p0.elapsed_time);
            assert(v2.0 == next_velocity_x(p0.velocity_x, p0.accel_x, p0.on_ground, p0.elapsed_time));
        }
        self.velocity_x = v2;
        proof {
            assert(-40000000000 <= v2.0 * self.elapsed_time.0 <= 40000000000) by (nonlinear_arith)
                requires
                    -16240 <= v2.0 <= 16240,
                    0 <= self.elapsed_time.0 <= 1048576,
            ;
        }
        let delta = v2.displacement(self.elapsed_time);
        if delta.0 > 0 {
            let lead = self.right_collision(delta);
            let info = get_collision_info(&lead, map);
            if info.collided {
                self.velocity_x = Velocity(0);
                self.x = Game(info.col.to_game().0 - X_BOX_RIGHT);
            } else {
                self.x = Game(self.x.0 + delta.0);
            }
            let trail = self.left_collision(Game(0));
            let info2 = get_collision_info(&trail, map);
            if info2.collided {
                self.x = Game(info2.col.to_game().0 + X_BOX_RIGHT);
            }
        } else {
            let lead = self.left_collision(delta);
            let info = get_collision_info(&lead, map);
            if info.collided {
                self.velocity_x = Velocity(0);
                self.x = Game(info.col.to_game().0 + X_BOX_RIGHT);
            } else {
                self.x = Game(self.x.0 + delta.0);
            }
            let trail = self.right_collision(Game(0));
            let info2 = get_collision_info(&trail, map);
            if info2.collided {
                self.x = Game(info2.col.to_game().0 - X_BOX_RIGHT);
            }
        }
    }

    /// Integrates and resolves vertical motion for this frame: applies
    /// jump gravity while a held jump is still ascending and full gravity
    /// otherwise, caps the fall speed, then checks the leading edge with
    /// the full delta and the trailing edge with zero delta, snapping to
    /// tile edges and maintaining the on-ground flag.
    #[verifier::rlimit(100)]
    fn update_y(&mut self, map: &TileMap)
        requires
            state_wf(old(self)@),
            map_wf(map@),
            -POS_LIMIT - POS_STEP_MARGIN <= old(self)@.x <= POS_LIMIT + POS_STEP_MARGIN,
            -POS_LIMIT <= old(self)@.y <= POS_LIMIT,
        ensures
            final(self)@ == step_y(old(self)@, map@),
            final(self).sprites_view() == old(self).sprites_view(),
            state_wf(final(self)@),
            -POS_LIMIT - POS_STEP_MARGIN <= final(self)@.y <= POS_LIMIT + POS_STEP_MARGIN,
            final(self)@.x == old(self)@.x,
    {
        let ghost p0 = self@;
        let gravity: i64 = if self.is_jump_active && self.velocity_y.0 < 0 {
            JUMP_GRAVITY
        } else {
            GRAVITY
        };
        proof {
            assert(0 <= gravity * self.elapsed_time.0 <= 100000000) by (nonlinear_arith)
                requires
                    0 <= gravity <= 85,
                    0 <= self.elapsed_time.0 <= 1048576,
            ;
        }
        let v = self.velocity_y.faster_by(Acceleration(gravity), self.elapsed_time).capped_above(
            Velocity(MAX_VELOCITY_Y),
        );
        proof {
            lemma_gravity_approach(p0.velocity_y, p0.is_jump_active, p0.elapsed_time);
            assert(v.0 == next_velocity_y(p0.velocity_y, p0.is_jump_active, p0.elapsed_time));
        }
        self.velocity_y = v;
        proof {
            assert(-40000000000 <= v.0 * self.elapsed_time.0 <= 40000000000) by (nonlinear_arith)
                requires
                    -30700 <= v.0 <= 30700,
                    0 <= self.elapsed_time.0 <= 1048576,
            ;
        }
        let delta = v.displacement(self.elapsed_time);
        if delta.0 > 0 {
            let lead = self.bottom_collision(delta);
            let info = get_collision_info(&lead, map);
            if info.collided {
                self.velocity_y = Velocity(0);
                self.on_ground = true;
                self.y = Game(info.row.to_game().0 - Y_BOX_BOTTOM);
            } else {
                self.on_ground = false;
                self.y = Game(self.y.0 + delta.0);
            }
            let trail = self.top_collision(Game(0));
            let info2 = get_collision_info(&trail, map);
            if info2.collided {
                self.y = Game(info2.row.to_game().0 + Y_BOX_H);
            }
        } else {
            let lead = self.top_collision(delta);
            let info = get_collision_info(&lead, map);
            if info.collided {
                self.velocity_y = Velocity(0);
                self.y = Game(info.row.to_game().0 + Y_BOX_H);
            } else {
                self.on_ground = false;
                self.y = Game(self.y.0 + delta.0);
            }
            let trail = self.bottom_collision(Game(0));
            let info2 = get_collision_info(&trail, map);
            if info2.collided {
                self.on_ground = true;
                self.y = Game(info2.row.to_game().0 - Y_BOX_BOTTOM);
            }
        }
    }

    /// Advances one frame: stores the elapsed time, reclassifies the
    /// motion, repositions and ticks the active sprite variant, then
    /// resolves horizontal motion and vertical motion, in exactly that
    /// order, exactly once.
    pub fn update(&mut self, elapsed_time: Millis, map: &TileMap)
        requires
            old(self).wf(),
            map_wf(map@),
            0 <= elapsed_time.0 <= MAX_FRAME_MILLIS,
            -POS_LIMIT <= old(self)@.x <= POS_LIMIT,
            -POS_LIMIT <= old(self)@.y <= POS_LIMIT,
        ensures
            final(self).wf(),
            final(self)@ == spec_update(old(self)@, map@, elapsed_time.0 as int),
            final(self).sprites_view() == old(self).sprites_view().update(
                key_index(classify_step(old(self)@).movement),
                sprite_ticked(
                    sprite_positioned(
                        old(self).sprites_view()[key_index(classify_step(old(self)@).movement)],
                        (Game(old(self)@.x as i64), Game(old(self)@.y as i64)),
                    ),
                    elapsed_time.0 as int,
                ),
            ),
            -POS_LIMIT - POS_STEP_MARGIN <= final(self)@.x <= POS_LIMIT + POS_STEP_MARGIN,
            -POS_LIMIT - POS_STEP_MARGIN <= final(self)@.y <= POS_LIMIT + POS_STEP_MARGIN,
    {
        self.elapsed_time = elapsed_time;
        self.current_motion();
        let coords = (self.x, self.y);
        let slot = Self::key_slot(self.movement);
        proof {
            lemma_key_roundtrip(self.movement);
            assert(sprite_ok(self.sprites_view()[slot as int], self.movement));
        }
        let spr = &mut self.sprites[slot];
        spr.position(coords);
        spr.tick(elapsed_time);
        self.update_x(map);
        self.update_y(map);
    }

    /// The render command of the currently active sprite variant.
    pub fn draw(&self) -> (b: Blit)
        requires
            self.wf(),
        ensures
            b == sprite_blit(self.sprites_view()[key_index(self@.movement)]),
    {
        let slot = Self::key_slot(self.movement);
        proof {
            lemma_key_roundtrip(self.movement);
        }
        self.sprites[slot].render()
    }
}

} // verus!
