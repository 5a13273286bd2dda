use story_core::units::{Acceleration, Game, Millis, Pixel, Tile, Velocity, SUBUNITS, TILE_SUBUNITS};

#[test]
fn game_plus_and_minus() {
    let a = Game(3 * SUBUNITS);
    let b = Game(2 * SUBUNITS);
    assert_eq!(a.plus(b), Game(5 * SUBUNITS));
    assert_eq!(a.minus(b), Game(SUBUNITS));
}

#[test]
fn game_to_pixel_truncates_toward_zero() {
    assert_eq!(Game(3 * SUBUNITS + SUBUNITS / 2).to_pixel(), Pixel(3));
    assert_eq!(Game(-3 * SUBUNITS - SUBUNITS / 2).to_pixel(), Pixel(-3));
    assert_eq!(Game(0).to_pixel(), Pixel(0));
}

#[test]
fn tile_conversions_use_tile_size() {
    assert_eq!(Tile(5).to_game(), Game(5 * TILE_SUBUNITS));
    assert_eq!(Tile(5).to_pixel(), Pixel(5 * 32));
    assert_eq!(Tile(0).to_game(), Game(0));
}

#[test]
fn velocity_combines_with_time() {
    let v = Velocity(100).faster_by(Acceleration(5), Millis(20));
    assert_eq!(v, Velocity(200));
    assert_eq!(v.displacement(Millis(10)), Game(2000));
}

#[test]
fn velocity_caps() {
    assert_eq!(Velocity(500).capped_above(Velocity(300)), Velocity(300));
    assert_eq!(Velocity(200).capped_above(Velocity(300)), Velocity(200));
    assert_eq!(Velocity(-500).capped_below(Velocity(-300)), Velocity(-300));
    assert_eq!(Velocity(-200).capped_below(Velocity(-300)), Velocity(-200));
}
