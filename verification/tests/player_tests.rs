use story_core::player::{Player, JUMP_SPEED, MAX_VELOCITY_Y, X_BOX_RIGHT};
use story_core::sprite::{Facing, Looking, Motion};
use story_core::tile_map::{TileMap, TileType};
use story_core::units::{Game, Millis, SUBUNITS, TILE_SUBUNITS};

fn gu(x: i64) -> Game {
    Game(x * SUBUNITS)
}

/// A 10 by 10 map whose row 5 is a solid floor.
fn floor_map() -> TileMap {
    let mut m = TileMap::new(10, 10);
    for c in 0..10 {
        m.set_tile(5, c, TileType::Wall);
    }
    m
}

/// A player dropped at (50, 50) game units and run until it rests on the
/// floor of `floor_map`.
fn landed_player(m: &TileMap) -> Player {
    let mut p = Player::new(gu(50), gu(50));
    p.stop_moving();
    for _ in 0..60 {
        p.update(Millis(20), m);
    }
    assert!(p.on_ground());
    p
}

#[test]
fn new_player_spawns_standing_east_airborne() {
    let p = Player::new(gu(50), gu(50));
    assert_eq!(p.x(), gu(50));
    assert_eq!(p.y(), gu(50));
    let k = p.movement();
    assert_eq!(k.motion, Motion::Standing);
    assert_eq!(k.facing, Facing::East);
    assert_eq!(k.looking, Looking::Horizontal);
    assert!(!p.on_ground());
    assert_eq!(p.velocity_x().0, 0);
    assert_eq!(p.velocity_y().0, 0);
}

#[test]
fn center_x_is_half_a_tile_right_of_the_origin() {
    let p = Player::new(gu(50), gu(50));
    assert_eq!(p.center_x().0, 50 * SUBUNITS + TILE_SUBUNITS / 2);
}

#[test]
fn movement_controls_set_facing_and_intent() {
    let mut p = Player::new(gu(0), gu(0));
    p.start_moving_left();
    assert_eq!(p.movement().facing, Facing::West);
    p.start_moving_right();
    assert_eq!(p.movement().facing, Facing::East);
    p.stop_moving();
    assert_eq!(p.movement().facing, Facing::East);
}

#[test]
fn falling_velocity_grows_monotonically_to_the_cap() {
    let m = TileMap::new(10, 10);
    let mut p = Player::new(gu(50), gu(50));
    p.stop_moving();
    p.update(Millis(10), &m);
    assert_eq!(p.velocity_y().0, 800);
    p.update(Millis(10), &m);
    assert_eq!(p.velocity_y().0, 1600);
    let mut last = p.velocity_y().0;
    for _ in 0..50 {
        p.update(Millis(1000), &m);
        let v = p.velocity_y().0;
        assert!(v >= last);
        assert!(v <= MAX_VELOCITY_Y);
        last = v;
    }
    assert_eq!(last, MAX_VELOCITY_Y);
}

#[test]
fn friction_decays_velocity_to_zero_without_overshoot() {
    let m = floor_map();
    let mut p = landed_player(&m);
    p.start_moving_right();
    p.update(Millis(100), &m);
    assert_eq!(p.velocity_x().0, 8500);
    p.stop_moving();
    p.update(Millis(100), &m);
    assert_eq!(p.velocity_x().0, 3400);
    p.update(Millis(100), &m);
    assert_eq!(p.velocity_x().0, 0);
    p.update(Millis(100), &m);
    assert_eq!(p.velocity_x().0, 0);
}

#[test]
fn jump_from_ground_sets_exact_jump_speed() {
    let m = floor_map();
    let mut p = landed_player(&m);
    p.start_jump();
    assert_eq!(p.velocity_y().0, -JUMP_SPEED);
    // the on-ground flag only clears at the next vertical resolution
    assert!(p.on_ground());
    p.update(Millis(10), &m);
    assert!(!p.on_ground());
    assert_eq!(p.velocity_y().0, -JUMP_SPEED + 32 * 10);
}

#[test]
fn jump_while_airborne_leaves_velocity_alone() {
    let m = TileMap::new(10, 10);
    let mut p = Player::new(gu(50), gu(50));
    p.stop_moving();
    p.update(Millis(20), &m);
    let v = p.velocity_y().0;
    assert_eq!(v, 1600);
    p.start_jump();
    assert_eq!(p.velocity_y().0, v);
}

#[test]
fn rightward_motion_snaps_flush_to_a_wall() {
    let mut m = TileMap::new(8, 8);
    m.set_tile(0, 5, TileType::Wall);
    let mut p = Player::new(gu(133), gu(0));
    p.start_moving_right();
    p.update(Millis(100), &m);
    // the right edge of the collision box rests exactly on the wall's left
    // edge, and the horizontal velocity is exactly zero
    assert_eq!(p.x().0 + X_BOX_RIGHT, 5 * TILE_SUBUNITS);
    assert_eq!(p.velocity_x().0, 0);
}

#[test]
fn player_lands_exactly_on_the_floor() {
    let m = floor_map();
    let mut p = Player::new(gu(50), gu(50));
    p.stop_moving();
    for _ in 0..60 {
        p.update(Millis(20), &m);
    }
    // floor top edge (160) minus the collision box bottom offset (32)
    assert_eq!(p.y(), gu(128));
    assert!(p.on_ground());
    assert_eq!(p.velocity_y().0, 0);
    assert_eq!(p.x(), gu(50));
    assert_eq!(p.movement().motion, Motion::Standing);
}

#[test]
fn classifier_is_deterministic() {
    let m = floor_map();
    let mut p = landed_player(&m);
    p.current_motion();
    let first = p.movement().motion;
    p.current_motion();
    assert_eq!(p.movement().motion, first);
    p.current_motion();
    assert_eq!(p.movement().motion, first);
}

#[test]
fn look_down_is_suppressed_while_walking() {
    let m = floor_map();
    let mut p = landed_player(&m);
    p.start_moving_right();
    p.update(Millis(20), &m);
    assert_eq!(p.movement().motion, Motion::Walking);
    p.look_down();
    assert_eq!(p.movement().looking, Looking::Horizontal);
    assert!(!p.is_interacting());
}

#[test]
fn look_down_while_standing_interacts() {
    let m = floor_map();
    let mut p = landed_player(&m);
    p.update(Millis(20), &m);
    assert_eq!(p.movement().motion, Motion::Standing);
    p.look_down();
    assert_eq!(p.movement().looking, Looking::Down);
    assert!(p.is_interacting());
    // a second call is a no-op
    p.look_down();
    assert_eq!(p.movement().looking, Looking::Down);
}

#[test]
fn look_controls_update_the_looking_component() {
    let mut p = Player::new(gu(0), gu(0));
    p.look_up();
    assert_eq!(p.movement().looking, Looking::Up);
    p.look_horizontal();
    assert_eq!(p.movement().looking, Looking::Horizontal);
}

#[test]
fn draw_selects_the_falling_frame_in_the_air() {
    let m = TileMap::new(10, 10);
    let mut p = Player::new(gu(50), gu(50));
    p.stop_moving();
    p.update(Millis(0), &m);
    let b = p.draw();
    // falling frame: sheet row 2, east-facing column 13, at the player's
    // screen position
    assert_eq!(b.source.x.0, 2 * 32);
    assert_eq!(b.source.y.0, 13 * 32);
    assert_eq!(b.dest.x.0, 50);
    assert_eq!(b.dest.y.0, 50);
}

#[test]
fn walking_animates_the_active_sprite() {
    let m = floor_map();
    let mut p = landed_player(&m);
    p.start_moving_right();
    p.update(Millis(100), &m);
    let b = p.draw();
    // the walking cycle has advanced one frame width into the sheet
    assert_eq!(b.source.x.0, 32);
    assert_eq!(b.source.y.0, 13 * 32);
}

#[test]
fn look_up_cancels_interacting() {
    let m = floor_map();
    let mut p = landed_player(&m);
    p.update(Millis(20), &m);
    p.look_down();
    assert!(p.is_interacting());
    p.look_up();
    assert!(!p.is_interacting());
    assert_eq!(p.movement().looking, Looking::Up);
}

#[test]
fn interacting_selects_the_stand_down_frame() {
    let m = floor_map();
    let mut p = landed_player(&m);
    p.update(Millis(20), &m);
    p.look_down();
    p.update(Millis(20), &m);
    assert_eq!(p.movement().motion, Motion::Interacting);
    let b = p.draw();
    assert_eq!(b.source.x.0, 7 * 32);
    assert_eq!(b.source.y.0, 13 * 32);
}

#[test]
fn jumping_while_looking_down_selects_the_jump_down_frame() {
    let m = floor_map();
    let mut p = landed_player(&m);
    p.start_jump();
    p.update(Millis(10), &m);
    p.look_down();
    p.update(Millis(10), &m);
    assert_eq!(p.movement().motion, Motion::Jumping);
    let b = p.draw();
    assert_eq!(b.source.x.0, 6 * 32);
}

#[test]
fn walking_west_uses_the_west_sheet_column() {
    let m = floor_map();
    let mut p = landed_player(&m);
    p.start_moving_left();
    p.update(Millis(20), &m);
    assert_eq!(p.movement().motion, Motion::Walking);
    let b = p.draw();
    assert_eq!(b.source.y.0, 12 * 32);
}

#[test]
fn standing_looking_up_shifts_the_sheet_row() {
    let m = floor_map();
    let mut p = landed_player(&m);
    p.look_up();
    p.update(Millis(20), &m);
    assert_eq!(p.movement().motion, Motion::Standing);
    let b = p.draw();
    assert_eq!(b.source.x.0, 3 * 32);
}

#[test]
fn stop_jump_restores_full_gravity() {
    let m = floor_map();
    let mut p = landed_player(&m);
    p.start_jump();
    p.update(Millis(10), &m);
    assert_eq!(p.velocity_y().0, -JUMP_SPEED + 32 * 10);
    p.stop_jump();
    p.update(Millis(10), &m);
    assert_eq!(p.velocity_y().0, -JUMP_SPEED + 32 * 10 + 80 * 10);
}
