use story_core::collisions::Rectangle;
use story_core::tile_map::{TileMap, TileType};
use story_core::units::{Game, SUBUNITS};

fn gu(x: i64) -> Game {
    Game(x * SUBUNITS)
}

#[test]
fn query_reports_covered_tiles_in_row_major_order() {
    let mut m = TileMap::new(4, 4);
    m.set_tile(1, 2, TileType::Wall);
    // spans columns 1..=2 and rows 0..=1
    let rect = Rectangle { x: gu(40), y: gu(10), width: gu(40), height: gu(30) };
    let tiles = m.get_colliding_tiles(&rect);
    assert_eq!(tiles.len(), 4);
    let coords: Vec<(usize, usize)> = tiles.iter().map(|t| (t.row.0, t.col.0)).collect();
    assert_eq!(coords, vec![(0, 1), (0, 2), (1, 1), (1, 2)]);
    assert!(matches!(tiles[0].tile_type, TileType::Empty));
    assert!(matches!(tiles[3].tile_type, TileType::Wall));
}

#[test]
fn edge_touch_counts_as_overlap() {
    let m = TileMap::new(3, 3);
    // The right edge sits exactly on the boundary at 32 game units, so the
    // tile on the far side of that boundary is included.
    let rect = Rectangle { x: gu(0), y: gu(0), width: gu(32), height: gu(0) };
    let tiles = m.get_colliding_tiles(&rect);
    let cols: Vec<usize> = tiles.iter().map(|t| t.col.0).collect();
    assert_eq!(cols, vec![0, 1]);
}

#[test]
fn query_is_clamped_to_the_grid() {
    let m = TileMap::new(2, 2);
    let rect = Rectangle { x: gu(-100), y: gu(-100), width: gu(500), height: gu(500) };
    let tiles = m.get_colliding_tiles(&rect);
    assert_eq!(tiles.len(), 4);
    let rect_outside = Rectangle { x: gu(200), y: gu(200), width: gu(10), height: gu(10) };
    assert_eq!(m.get_colliding_tiles(&rect_outside).len(), 0);
}

#[test]
fn query_is_deterministic() {
    let mut m = TileMap::new(3, 3);
    m.set_tile(0, 0, TileType::Wall);
    let rect = Rectangle { x: gu(0), y: gu(0), width: gu(90), height: gu(90) };
    let a = m.get_colliding_tiles(&rect);
    let b = m.get_colliding_tiles(&rect);
    assert_eq!(a.len(), b.len());
    for i in 0..a.len() {
        assert_eq!(a[i].row, b[i].row);
        assert_eq!(a[i].col, b[i].col);
        assert_eq!(a[i].tile_type == TileType::Wall, b[i].tile_type == TileType::Wall);
    }
}
