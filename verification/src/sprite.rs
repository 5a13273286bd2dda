//! Sprite variants and the animation state machine.
//!
//! Two renderable variants exist: a static frame, whose `update` is a no-op,
//! and a time-driven cycle that advances its visible frame on an FPS-derived
//! schedule by shifting its source-rectangle horizontal offset one frame
//! width at a time, wrapping back to the first frame when the cycle
//! completes.  Rendering itself is a collaborator's job: `draw` returns the
//! blit command (source and destination rectangles) for the current state.

use vstd::prelude::*;
use vstd::arithmetic::div_mod::{lemma_add_mod_noop, lemma_mod_twice};
use crate::units::{
    Fps, Frame, Game, Millis, Pixel, Tile, trunc_div, MAX_FRAME_MILLIS, POS_LIMIT, SUBUNITS,
    TILE_PIXELS,
};

verus! {

/// Largest tile offset into a sprite sheet, and largest sprite extent in
/// tiles.  A machine limit: it keeps source-rectangle arithmetic in range.
pub const SHEET_TILE_LIMIT: usize = 1024;

/// Largest number of frames an animation cycle may have.
pub const NUM_FRAMES_LIMIT: u32 = 10000;

/// The discrete motion component of the movement key.
#[derive(Clone, Copy, PartialEq, Eq, Structural, Hash, Debug)]
pub enum Motion {
    Walking,
    Standing,
    Interacting,
    Jumping,
    Falling,
}

/// The horizontal facing component of the movement key.
#[derive(Clone, Copy, PartialEq, Eq, Structural, Hash, Debug)]
pub enum Facing {
    West,
    East,
}

/// The vertical looking component of the movement key.
#[derive(Clone, Copy, PartialEq, Eq, Structural, Hash, Debug)]
pub enum Looking {
    Up,
    Down,
    Horizontal,
}

/// The (Motion, Facing, Looking) triple that selects exactly one sprite
/// variant.
#[derive(Clone, Copy, PartialEq, Eq, Structural, Hash, Debug)]
pub struct MovementKey {
    pub motion: Motion,
    pub facing: Facing,
    pub looking: Looking,
}

/// An axis-aligned rectangle in screen space.
#[derive(Clone, Copy, PartialEq, Eq, Structural, Debug)]
pub struct PixelRect {
    pub x: Pixel,
    pub y: Pixel,
    pub w: Pixel,
    pub h: Pixel,
}

/// One render command: blit `source` from the sprite sheet to `dest` on the
/// screen.
#[derive(Clone, Copy, PartialEq, Eq, Structural, Debug)]
pub struct Blit {
    pub source: PixelRect,
    pub dest: PixelRect,
}

/// The screen destination of a sprite positioned at game-space `coords`
/// with an extent of `size` tiles.
pub open spec fn dest_rect_spec(coords: (Game, Game), size: (Tile, Tile)) -> PixelRect {
    PixelRect {
        x: Pixel(trunc_div(coords.0.0 as int, SUBUNITS as int) as i64),
        y: Pixel(trunc_div(coords.1.0 as int, SUBUNITS as int) as i64),
        w: Pixel((size.0.0 * TILE_PIXELS) as i64),
        h: Pixel((size.1.0 * TILE_PIXELS) as i64),
    }
}

/// Anything that can be represented on screen at its current coordinates.
pub trait Drawable: Sized {
    /// The variant is internally consistent and safely renderable.
    spec fn draw_wf(&self) -> bool;

    /// The render command the variant produces in its current state.
    spec fn blit_spec(&self) -> Blit;

    /// Computes the render command for the current state.
    fn draw(&self) -> (b: Blit)
        requires
            self.draw_wf(),
        ensures
            b == self.blit_spec(),
    ;
}

/// Anything that understands time and placement in game space.
pub trait Updatable: Drawable {
    /// Accepts the elapsed time of one frame.
    fn update(&mut self, elapsed_time: Millis)
        requires
            old(self).draw_wf(),
            0 <= elapsed_time.0 <= MAX_FRAME_MILLIS,
        ensures
            final(self).draw_wf(),
    ;

    /// Moves the variant to game-space coordinates `coords`.
    fn set_position(&mut self, coords: (Game, Game))
        requires
            old(self).draw_wf(),
            -POS_LIMIT <= coords.0.0 <= POS_LIMIT,
            -POS_LIMIT <= coords.1.0 <= POS_LIMIT,
        ensures
            final(self).draw_wf(),
    ;
}

/// A static sprite: a fixed source rectangle of a cached sheet, drawn at
/// its current game-space coordinates.  The decoded sheet itself is owned
/// and shared by the rendering collaborator, which keys it by asset path.
#[derive(Clone, Copy, Debug)]
pub struct Sprite {
    pub source_rect: PixelRect,
    pub size: (Tile, Tile),
    pub coords: (Game, Game),
}

impl Sprite {
    /// The sprite is internally consistent and safely renderable.
    pub open spec fn wf(&self) -> bool {
        &&& self.size.0.0 <= SHEET_TILE_LIMIT
        &&& self.size.1.0 <= SHEET_TILE_LIMIT
        &&& -POS_LIMIT <= self.coords.0.0 <= POS_LIMIT
        &&& -POS_LIMIT <= self.coords.1.0 <= POS_LIMIT
    }

    /// A new static sprite drawing the `size`-tile region of the sheet at
    /// tile offset `offset`, positioned at game-space `coords`.
    pub fn new(coords: (Game, Game), offset: (Tile, Tile), size: (Tile, Tile)) -> (s: Sprite)
        requires
            offset.0.0 <= SHEET_TILE_LIMIT,
            offset.1.0 <= SHEET_TILE_LIMIT,
            size.0.0 <= SHEET_TILE_LIMIT,
            size.1.0 <= SHEET_TILE_LIMIT,
            -POS_LIMIT <= coords.0.0 <= POS_LIMIT,
            -POS_LIMIT <= coords.1.0 <= POS_LIMIT,
        ensures
            s.wf(),
            s.source_rect.x.0 == offset.0.0 * TILE_PIXELS,
            s.source_rect.y.0 == offset.1.0 * TILE_PIXELS,
            s.source_rect.w.0 == size.0.0 * TILE_PIXELS,
            s.source_rect.h.0 == size.1.0 * TILE_PIXELS,
            s.size == size,
            s.coords == coords,
    {
        let sx = offset.0.to_pixel();
        let sy = offset.1.to_pixel();
        let sw = size.0.to_pixel();
        let sh = size.1.to_pixel();
        Sprite {
            source_rect: PixelRect { x: sx, y: sy, w: sw, h: sh },
            size,
            coords,
        }
    }
}

impl Drawable for Sprite {
    open spec fn draw_wf(&self) -> bool {
        self.wf()
    }

    open spec fn blit_spec(&self) -> Blit {
        Blit { source: self.source_rect, dest: dest_rect_spec(self.coords, self.size) }
    }

    fn draw(&self) -> (b: Blit) {
        let dest = PixelRect {
            x: self.coords.0.to_pixel(),
            y: self.coords.1.to_pixel(),
            w: self.size.0.to_pixel(),
            h: self.size.1.to_pixel(),
        };
        Blit { source: self.source_rect, dest }
    }
}

impl Sprite {
    /// Moves the sprite to game-space coordinates `coords`; nothing else
    /// changes.
    pub fn place(&mut self, coords: (Game, Game))
        requires
            -POS_LIMIT <= coords.0.0 <= POS_LIMIT,
            -POS_LIMIT <= coords.1.0 <= POS_LIMIT,
        ensures
            *final(self) == (Sprite { coords, ..*old(self) }),
    {
        self.coords = coords;
    }
}

impl Updatable for Sprite {
    /// Time does not change a static sprite.
    fn update(&mut self, elapsed_time: Millis) {
    }

    fn set_position(&mut self, coords: (Game, Game)) {
        self.place(coords);
    }
}

/// A multi-frame sprite cycling on an FPS-derived schedule.
#[derive(Clone, Copy, Debug)]
pub struct AnimatedSprite {
    pub source_rect: PixelRect,
    pub coords: (Game, Game),
    pub offset: (Tile, Tile),
    pub size: (Tile, Tile),
    pub current_frame: Frame,
    pub num_frames: Frame,
    pub fps: Fps,
    pub last_update: Millis,
}

/// Milliseconds between frame advances: `1000 / fps`, by integer division.
/// Fractional remainders are not carried forward; time debt beyond one
/// frame interval is discarded, an inherited approximation kept as-is.
pub open spec fn frame_interval(fps: Fps) -> int {
    1000int / (fps.0 as int)
}

/// One animation tick: accumulate `elapsed`; once the accumulator passes
/// the frame interval, reset it, advance the frame index modulo the frame
/// count, and shift the source rectangle one frame width, wrapping back at
/// the end of the cycle.
pub open spec fn anim_step(s: AnimatedSprite, elapsed: int) -> AnimatedSprite {
    let acc = s.last_update.0 + elapsed;
    if acc > frame_interval(s.fps) {
        if s.current_frame.0 + 1 < s.num_frames.0 {
            AnimatedSprite {
                last_update: Millis(0),
                current_frame: Frame((s.current_frame.0 + 1) as u32),
                source_rect: PixelRect {
                    x: Pixel((s.source_rect.x.0 + s.source_rect.w.0) as i64),
                    ..s.source_rect
                },
                ..s
            }
        } else {
            AnimatedSprite {
                last_update: Millis(0),
                current_frame: Frame(0),
                source_rect: PixelRect {
                    x: Pixel((s.source_rect.x.0 - s.source_rect.w.0 * (s.num_frames.0 - 1)) as i64),
                    ..s.source_rect
                },
                ..s
            }
        }
    } else {
        AnimatedSprite { last_update: Millis(acc as i64), ..s }
    }
}

impl AnimatedSprite {
    /// The animation state is internally consistent: the frame index is
    /// inside the cycle and the source rectangle sits exactly at the
    /// current frame's offset in the sheet.
    pub open spec fn wf(&self) -> bool {
        &&& 1 <= self.num_frames.0 <= NUM_FRAMES_LIMIT
        &&& self.current_frame.0 < self.num_frames.0
        &&& 1 <= self.fps.0
        &&& 0 <= self.last_update.0 <= 1000
        &&& self.offset.0.0 <= SHEET_TILE_LIMIT
        &&& self.offset.1.0 <= SHEET_TILE_LIMIT
        &&& self.size.0.0 <= SHEET_TILE_LIMIT
        &&& self.size.1.0 <= SHEET_TILE_LIMIT
        &&& -POS_LIMIT <= self.coords.0.0 <= POS_LIMIT
        &&& -POS_LIMIT <= self.coords.1.0 <= POS_LIMIT
        &&& self.source_rect.x.0 == self.offset.0.0 * TILE_PIXELS + self.current_frame.0 * (
        self.size.0.0 * TILE_PIXELS)
        &&& self.source_rect.y.0 == self.offset.1.0 * TILE_PIXELS
        &&& self.source_rect.w.0 == self.size.0.0 * TILE_PIXELS
        &&& self.source_rect.h.0 == self.size.1.0 * TILE_PIXELS
    }

    /// A new animated sprite at game-space (0, 0), on the first frame of a
    /// cycle of `num_frames` frames at `fps` frames per second, viewing the
    /// `size`-tile region of the sheet at tile offset `offset`.
    pub fn new(offset: (Tile, Tile), size: (Tile, Tile), num_frames: Frame, fps: Fps) -> (s:
        AnimatedSprite)
        requires
            offset.0.0 <= SHEET_TILE_LIMIT,
            offset.1.0 <= SHEET_TILE_LIMIT,
            size.0.0 <= SHEET_TILE_LIMIT,
            size.1.0 <= SHEET_TILE_LIMIT,
            1 <= num_frames.0 <= NUM_FRAMES_LIMIT,
            1 <= fps.0,
        ensures
            s.wf(),
            s == (AnimatedSprite {
                source_rect: PixelRect {
                    x: Pixel((offset.0.0 * TILE_PIXELS) as i64),
                    y: Pixel((offset.1.0 * TILE_PIXELS) as i64),
                    w: Pixel((size.0.0 * TILE_PIXELS) as i64),
                    h: Pixel((size.1.0 * TILE_PIXELS) as i64),
                },
                coords: (Game(0), Game(0)),
                offset,
                size,
                current_frame: Frame(0),
                num_frames,
                fps,
                last_update: Millis(0),
            }),
    {
        let sx = offset.0.to_pixel();
        let sy = offset.1.to_pixel();
        let sw = size.0.to_pixel();
        let sh = size.1.to_pixel();
        AnimatedSprite {
            source_rect: PixelRect { x: sx, y: sy, w: sw, h: sh },
            coords: (Game(0), Game(0)),
            offset,
            size,
            current_frame: Frame(0),
            num_frames,
            fps,
            last_update: Millis(0),
        }
    }
}

impl Drawable for AnimatedSprite {
    open spec fn draw_wf(&self) -> bool {
        self.wf()
    }

    open spec fn blit_spec(&self) -> Blit {
        Blit { source: self.source_rect, dest: dest_rect_spec(self.coords, self.size) }
    }

    fn draw(&self) -> (b: Blit) {
        let dest = PixelRect {
            x: self.coords.0.to_pixel(),
            y: self.coords.1.to_pixel(),
            w: self.size.0.to_pixel(),
            h: self.size.1.to_pixel(),
        };
        Blit { source: self.source_rect, dest }
    }
}

impl Updatable for AnimatedSprite {
    fn update(&mut self, elapsed_time: Millis) {
        self.tick(elapsed_time);
    }

    fn set_position(&mut self, coords: (Game, Game)) {
        self.place(coords);
    }
}

impl AnimatedSprite {
    /// Advances the animation clock by `elapsed_time`, exactly as
    /// `anim_step` describes.
    pub fn tick(&mut self, elapsed_time: Millis)
        requires
            old(self).wf(),
            0 <= elapsed_time.0 <= MAX_FRAME_MILLIS,
        ensures
            final(self).wf(),
            *final(self) == anim_step(*old(self), elapsed_time.0 as int),
    {
        proof {
            lemma_anim_step_wf(*old(self), elapsed_time.0 as int);
            lemma_anim_bounds(*old(self));
        }
        let frame_time: u32 = 1000 / self.fps.0;
        self.last_update = Millis(self.last_update.0 + elapsed_time.0);
        if self.last_update.0 > frame_time as i64 {
            self.last_update = Millis(0);
            if self.current_frame.0 + 1 < self.num_frames.0 {
                self.current_frame = Frame(self.current_frame.0 + 1);
                self.source_rect.x = Pixel(self.source_rect.x.0 + self.source_rect.w.0);
            } else {
                self.current_frame = Frame(0);
                let back: i64 = self.source_rect.w.0 * ((self.num_frames.0 - 1) as i64);
                self.source_rect.x = Pixel(self.source_rect.x.0 - back);
            }
        }
    }
}

impl AnimatedSprite {
    /// Moves the sprite to game-space coordinates `coords`; nothing else
    /// changes.
    pub fn place(&mut self, coords: (Game, Game))
        requires
            -POS_LIMIT <= coords.0.0 <= POS_LIMIT,
            -POS_LIMIT <= coords.1.0 <= POS_LIMIT,
        ensures
            *final(self) == (AnimatedSprite { coords, ..*old(self) }),
    {
        self.coords = coords;
    }
}

/// Bounds on the source rectangle that follow from well-formedness; they
/// keep the offset arithmetic of a frame advance in range.
pub proof fn lemma_anim_bounds(s: AnimatedSprite)
    requires
        s.wf(),
    ensures
        0 <= s.source_rect.w.0 <= 32768,
        0 <= s.source_rect.x.0 <= 400000000,
        0 <= s.source_rect.w.0 * (s.num_frames.0 - 1) <= 400000000,
    {
    let w = s.size.0.0 * TILE_PIXELS;
    assert(0 <= w <= 32768) by (nonlinear_arith)
        requires
            w == s.size.0.0 * 32,
            0 <= s.size.0.0 <= 1024,
    ;
    assert(0 <= s.current_frame.0 * w <= 327680000) by (nonlinear_arith)
        requires
            0 <= s.current_frame.0 < 10000,
            0 <= w <= 32768,
    ;
    assert(0 <= s.offset.0.0 * TILE_PIXELS <= 32768) by (nonlinear_arith)
        requires
            TILE_PIXELS == 32,
            0 <= s.offset.0.0 <= 1024,
    ;
    assert(0 <= w * (s.num_frames.0 - 1) <= 400000000) by (nonlinear_arith)
        requires
            1 <= s.num_frames.0 <= 10000,
            0 <= w <= 32768,
    ;
}

/// One animation tick preserves well-formedness and leaves every field but
/// the clock, the frame index and the source-rectangle offset unchanged.
pub proof fn lemma_anim_step_wf(s: AnimatedSprite, elapsed: int)
    requires
        s.wf(),
        0 <= elapsed <= MAX_FRAME_MILLIS,
    ensures
        anim_step(s, elapsed).wf(),
        anim_step(s, elapsed).offset == s.offset,
        anim_step(s, elapsed).size == s.size,
        anim_step(s, elapsed).num_frames == s.num_frames,
        anim_step(s, elapsed).fps == s.fps,
        anim_step(s, elapsed).coords == s.coords,
        anim_step(s, elapsed).source_rect.y == s.source_rect.y,
        anim_step(s, elapsed).source_rect.w == s.source_rect.w,
        anim_step(s, elapsed).source_rect.h == s.source_rect.h,
    {
    let acc = s.last_update.0 + elapsed;
    let w = s.size.0.0 * TILE_PIXELS;
    lemma_anim_bounds(s);
    if acc > frame_interval(s.fps) {
        if s.current_frame.0 + 1 < s.num_frames.0 {
            assert((s.current_frame.0 + 1) * w == s.current_frame.0 * w + w) by (nonlinear_arith);
        } else {
            assert(s.current_frame.0 == s.num_frames.0 - 1);
            assert(s.current_frame.0 * w - w * (s.num_frames.0 - 1) == 0) by (nonlinear_arith)
                requires
                    s.current_frame.0 == s.num_frames.0 - 1,
            ;
            assert(0int * w == 0) by (nonlinear_arith);
        }
    } else {
        assert(0 <= acc);
        assert(frame_interval(s.fps) <= 1000) by {
            vstd::arithmetic::div_mod::lemma_div_is_ordered_by_denominator(
                1000,
                1,
                s.fps.0 as int,
            );
            vstd::arithmetic::div_mod::lemma_div_basics(1000);
        }
    }
}

/// The renderable variant the player owns for one movement key: a static
/// frame or a time-driven cycle, selected once at construction.
#[derive(Clone, Copy, Debug)]
pub enum PlayerSprite {
    Still(Sprite),
    Animated(AnimatedSprite),
}

/// The variant is internally consistent and safely renderable.
pub open spec fn player_sprite_wf(s: PlayerSprite) -> bool {
    match s {
        PlayerSprite::Still(sp) => sp.wf(),
        PlayerSprite::Animated(a) => a.wf(),
    }
}

/// The variant moved to game-space coordinates `coords`.
pub open spec fn sprite_positioned(s: PlayerSprite, coords: (Game, Game)) -> PlayerSprite {
    match s {
        PlayerSprite::Still(sp) => PlayerSprite::Still(Sprite { coords, ..sp }),
        PlayerSprite::Animated(a) => PlayerSprite::Animated(AnimatedSprite { coords, ..a }),
    }
}

/// The variant after one animation tick: a static frame is unchanged, a
/// cycle advances by `anim_step`.
pub open spec fn sprite_ticked(s: PlayerSprite, elapsed: int) -> PlayerSprite {
    match s {
        PlayerSprite::Still(sp) => PlayerSprite::Still(sp),
        PlayerSprite::Animated(a) => PlayerSprite::Animated(anim_step(a, elapsed)),
    }
}

/// The render command the variant produces in its current state.
pub open spec fn sprite_blit(s: PlayerSprite) -> Blit {
    match s {
        PlayerSprite::Still(sp) => sp.blit_spec(),
        PlayerSprite::Animated(a) => a.blit_spec(),
    }
}

impl PlayerSprite {
    /// Moves the variant to game-space coordinates `coords`.
    pub fn position(&mut self, coords: (Game, Game))
        requires
            player_sprite_wf(*old(self)),
            -POS_LIMIT <= coords.0.0 <= POS_LIMIT,
            -POS_LIMIT <= coords.1.0 <= POS_LIMIT,
        ensures
            *final(self) == sprite_positioned(*old(self), coords),
            player_sprite_wf(*final(self)),
    {
        match self {
            PlayerSprite::Still(sp) => sp.place(coords),
            PlayerSprite::Animated(a) => a.place(coords),
        }
    }

    /// Advances the variant's animation clock by `elapsed_time`.
    pub fn tick(&mut self, elapsed_time: Millis)
        requires
            player_sprite_wf(*old(self)),
            0 <= elapsed_time.0 <= MAX_FRAME_MILLIS,
        ensures
            *final(self) == sprite_ticked(*old(self), elapsed_time.0 as int),
            player_sprite_wf(*final(self)),
    {
        match self {
            PlayerSprite::Still(sp) => {},
            PlayerSprite::Animated(a) => a.tick(elapsed_time),
        }
    }

    /// Computes the render command for the current state.
    pub fn render(&self) -> (b: Blit)
        requires
            player_sprite_wf(*self),
        ensures
            b == sprite_blit(*self),
    {
        match self {
            PlayerSprite::Still(sp) => sp.draw(),
            PlayerSprite::Animated(a) => a.draw(),
        }
    }
}

impl Drawable for PlayerSprite {
    open spec fn draw_wf(&self) -> bool {
        player_sprite_wf(*self)
    }

    open spec fn blit_spec(&self) -> Blit {
        sprite_blit(*self)
    }

    fn draw(&self) -> (b: Blit) {
        self.render()
    }
}

impl Updatable for PlayerSprite {
    fn update(&mut self, elapsed_time: Millis) {
        self.tick(elapsed_time);
    }

    fn set_position(&mut self, coords: (Game, Game)) {
        self.position(coords);
    }
}

/// The animation state after a whole sequence of ticks.
pub open spec fn anim_run(s: AnimatedSprite, ticks: Seq<int>) -> AnimatedSprite
    decreases ticks.len(),
{
    if ticks.len() == 0 {
        s
    } else {
        anim_run(anim_step(s, ticks[0]), ticks.drop_first())
    }
}

/// How many frame advances a sequence of ticks causes.
pub open spec fn anim_advances(s: AnimatedSprite, ticks: Seq<int>) -> int
    decreases ticks.len(),
{
    if ticks.len() == 0 {
        0
    } else {
        (if s.last_update.0 + ticks[0] > frame_interval(s.fps) {
            1int
        } else {
            0int
        }) + anim_advances(anim_step(s, ticks[0]), ticks.drop_first())
    }
}

/// All ticks of a sequence are valid frame durations.
pub open spec fn ticks_ok(ticks: Seq<int>) -> bool {
    forall|i: int| 0 <= i < ticks.len() ==> 0 <= #[trigger] ticks[i] <= MAX_FRAME_MILLIS
}

/// Law of animation cycling: over any sequence of ticks, the frame index
/// ends at the initial index plus the number of frame advances, modulo the
/// frame count, and the source rectangle sits exactly at that frame's
/// offset.
pub proof fn lemma_anim_run_frame(s: AnimatedSprite, ticks: Seq<int>)
    requires
        s.wf(),
        ticks_ok(ticks),
    ensures
        anim_run(s, ticks).wf(),
        anim_run(s, ticks).offset == s.offset,
        anim_run(s, ticks).size == s.size,
        anim_run(s, ticks).num_frames == s.num_frames,
        anim_run(s, ticks).fps == s.fps,
        anim_run(s, ticks).coords == s.coords,
        0 <= anim_advances(s, ticks),
        anim_run(s, ticks).current_frame.0 == (s.current_frame.0 + anim_advances(s, ticks)) % (
        s.num_frames.0 as int),
    decreases ticks.len(),
{
    let n = s.num_frames.0 as int;
    if ticks.len() == 0 {
        assert((s.current_frame.0 as int) % n == s.current_frame.0) by {
            vstd::arithmetic::div_mod::lemma_small_mod(s.current_frame.0 as nat, n as nat);
        }
    } else {
        let s1 = anim_step(s, ticks[0]);
        lemma_anim_step_wf(s, ticks[0]);
        lemma_anim_run_frame(s1, ticks.drop_first());
        let a1 = anim_advances(s1, ticks.drop_first());
        let adv: int = if s.last_update.0 + ticks[0] > frame_interval(s.fps) {
            1
        } else {
            0
        };
        assert(anim_advances(s, ticks) == adv + a1);
        assert(s1.current_frame.0 == (s.current_frame.0 + adv) % n) by {
            if adv == 1 {
                if s.current_frame.0 + 1 < s.num_frames.0 {
                    vstd::arithmetic::div_mod::lemma_small_mod(
                        (s.current_frame.0 + 1) as nat,
                        n as nat,
                    );
                } else {
                    assert(s.current_frame.0 + 1 == n);
                    vstd::arithmetic::div_mod::lemma_mod_self_0(n);
                }
            } else {
                vstd::arithmetic::div_mod::lemma_small_mod(s.current_frame.0 as nat, n as nat);
            }
        }
        assert(anim_run(s, ticks) == anim_run(s1, ticks.drop_first()));
        assert(anim_run(s1, ticks.drop_first()).current_frame.0 == (s1.current_frame.0 + a1) % n);
        assert(((s.current_frame.0 + adv) % n + a1) % n == (s.current_frame.0 + adv + a1) % n) by {
            lemma_add_mod_noop(s.current_frame.0 + adv, a1, n);
            lemma_add_mod_noop((s.current_frame.0 + adv) % n, a1, n);
            lemma_mod_twice(s.current_frame.0 + adv, n);
            lemma_mod_twice(a1, n);
        }
    }
}

/// Law of cycle closure: a sequence of ticks whose number of frame
/// advances is a whole number of cycles returns the sprite to its original
/// frame and source-rectangle offset.
pub proof fn lemma_anim_cycle_closure(s: AnimatedSprite, ticks: Seq<int>)
    requires
        s.wf(),
        ticks_ok(ticks),
        anim_advances(s, ticks) % (s.num_frames.0 as int) == 0,
    ensures
        anim_run(s, ticks).current_frame == s.current_frame,
        anim_run(s, ticks).source_rect == s.source_rect,
    {
    let n = s.num_frames.0 as int;
    lemma_anim_run_frame(s, ticks);
    let a = anim_advances(s, ticks);
    assert((s.current_frame.0 + a) % n == s.current_frame.0) by {
        lemma_add_mod_noop(s.current_frame.0 as int, a, n);
        vstd::arithmetic::div_mod::lemma_small_mod(s.current_frame.0 as nat, n as nat);
        lemma_mod_twice(s.current_frame.0 as int, n);
        lemma_add_mod_noop(s.current_frame.0 as int, a % n, n);
        assert(a % n == 0);
        assert((s.current_frame.0 + a) % n == (s.current_frame.0 + 0) % n);
    }
}

} // verus!
