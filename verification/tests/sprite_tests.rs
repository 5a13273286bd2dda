use story_core::sprite::{AnimatedSprite, Drawable, Sprite};
use story_core::units::{Fps, Frame, Game, Millis, Tile, SUBUNITS};

#[test]
fn static_sprite_blits_its_fixed_frame() {
    let s = Sprite::new(
        (Game(10 * SUBUNITS), Game(20 * SUBUNITS)),
        (Tile(3), Tile(13)),
        (Tile(1), Tile(1)),
    );
    let b = s.draw();
    assert_eq!(b.source.x.0, 3 * 32);
    assert_eq!(b.source.y.0, 13 * 32);
    assert_eq!(b.source.w.0, 32);
    assert_eq!(b.source.h.0, 32);
    assert_eq!(b.dest.x.0, 10);
    assert_eq!(b.dest.y.0, 20);
}

#[test]
fn static_sprite_repositions() {
    let mut s = Sprite::new((Game(0), Game(0)), (Tile(0), Tile(0)), (Tile(1), Tile(1)));
    s.place((Game(7 * SUBUNITS), Game(9 * SUBUNITS)));
    let b = s.draw();
    assert_eq!(b.dest.x.0, 7);
    assert_eq!(b.dest.y.0, 9);
}

#[test]
fn animation_advances_only_past_the_frame_interval() {
    // 20 fps: the frame interval is 50 ms, and a frame advances only once
    // the accumulated time strictly exceeds it.
    let mut a = AnimatedSprite::new((Tile(0), Tile(12)), (Tile(1), Tile(1)), Frame(3), Fps(20));
    let x0 = a.source_rect.x.0;
    a.tick(Millis(50));
    assert_eq!(a.current_frame.0, 0);
    assert_eq!(a.source_rect.x.0, x0);
    a.tick(Millis(1));
    assert_eq!(a.current_frame.0, 1);
    assert_eq!(a.source_rect.x.0, x0 + 32);
}

#[test]
fn animation_wraps_back_to_the_first_frame() {
    let mut a = AnimatedSprite::new((Tile(0), Tile(12)), (Tile(1), Tile(1)), Frame(3), Fps(20));
    let x0 = a.source_rect.x.0;
    a.tick(Millis(51));
    assert_eq!((a.current_frame.0, a.source_rect.x.0), (1, x0 + 32));
    a.tick(Millis(51));
    assert_eq!((a.current_frame.0, a.source_rect.x.0), (2, x0 + 64));
    a.tick(Millis(51));
    assert_eq!((a.current_frame.0, a.source_rect.x.0), (0, x0));
}

#[test]
fn animation_discards_time_debt_beyond_one_interval() {
    // A single 150 ms tick advances one frame and discards the surplus:
    // the cumulative time of a whole cycle does not close the cycle when
    // it arrives in one call.  Inherited behavior, pinned as-is.
    let mut a = AnimatedSprite::new((Tile(0), Tile(12)), (Tile(1), Tile(1)), Frame(3), Fps(20));
    let x0 = a.source_rect.x.0;
    a.tick(Millis(150));
    assert_eq!(a.current_frame.0, 1);
    assert_eq!(a.source_rect.x.0, x0 + 32);
    assert_eq!(a.last_update.0, 0);
}

#[test]
fn cycle_closure_after_a_whole_number_of_advances() {
    // Any sequence whose number of frame advances is a multiple of the
    // frame count returns the source rectangle to its original offset.
    let mut a = AnimatedSprite::new((Tile(3), Tile(13)), (Tile(1), Tile(1)), Frame(3), Fps(20));
    let x0 = a.source_rect.x.0;
    for _ in 0..6 {
        a.tick(Millis(60));
    }
    assert_eq!(a.current_frame.0, 0);
    assert_eq!(a.source_rect.x.0, x0);
}

#[test]
fn animation_keeps_position_independent_of_clock() {
    let mut a = AnimatedSprite::new((Tile(0), Tile(0)), (Tile(1), Tile(1)), Frame(3), Fps(20));
    a.place((Game(4 * SUBUNITS), Game(5 * SUBUNITS)));
    a.tick(Millis(51));
    let b = a.draw();
    assert_eq!(b.dest.x.0, 4);
    assert_eq!(b.dest.y.0, 5);
    assert_eq!(b.source.x.0, 32);
}
