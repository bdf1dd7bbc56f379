//! The four directional collision probes and the key probe.
//!
//! A character at screen position (0, 0) on an 8x8 grid occupies tile
//! (4, 4); its hitbox spans columns 4-5 and rows 4-5, so the probes sample:
//! bottom row 6, top row 3, right column 6, left column 3.

use platformer_core::level::Level;
use platformer_core::level::ScreenPos;
use platformer_core::level::TilePos;
use platformer_core::level::TilemapSize;
use platformer_core::tile::TileType;

fn level_with(cells: &[(i64, i64, TileType)]) -> Level {
    let mut tiles = vec![TileType::Air; 64];
    for &(col, row, kind) in cells {
        tiles[(row * 8 + col) as usize] = kind;
    }
    Level::new(TilemapSize { width: 8, height: 8 }, tiles, TilePos { x: 0, y: 0 }).unwrap()
}

fn wall_row(row: i64) -> Level {
    let cells: Vec<(i64, i64, TileType)> = (0..8).map(|c| (c, row, TileType::Wall)).collect();
    level_with(&cells)
}

#[test]
fn resting_on_wall_row_collides_bottom() {
    let level = wall_row(7);
    // feet exactly on top of row 7: top-left corner at the top edge of row 5
    assert!(level.is_colliding_bottom(ScreenPos { x: 0, y: -16 }));
    // at every sub-tile horizontal offset too
    for px in -16..16 {
        assert!(level.is_colliding_bottom(ScreenPos { x: px, y: -16 }));
    }
    // one tile higher there is air below the feet
    assert!(!level.is_colliding_bottom(ScreenPos { x: 0, y: 0 }));
}

#[test]
fn bottom_probe_samples_both_columns() {
    // wall only under the character's right half
    let level = level_with(&[(5, 6, TileType::Wall)]);
    assert!(level.is_colliding_bottom(ScreenPos { x: 0, y: 0 }));
    // wall only under the left half
    let level = level_with(&[(4, 6, TileType::Wall)]);
    assert!(level.is_colliding_bottom(ScreenPos { x: 0, y: 0 }));
    // wall outside the two sampled columns
    let level = level_with(&[(6, 6, TileType::Wall), (3, 6, TileType::Wall)]);
    assert!(!level.is_colliding_bottom(ScreenPos { x: 0, y: 0 }));
}

#[test]
fn top_probe_samples_row_above_head() {
    let level = level_with(&[(4, 3, TileType::Wall)]);
    assert!(level.is_colliding_top(ScreenPos { x: 0, y: 0 }));
    let level = level_with(&[(5, 3, TileType::Wall)]);
    assert!(level.is_colliding_top(ScreenPos { x: 0, y: 0 }));
    let level = level_with(&[(4, 4, TileType::Wall), (4, 2, TileType::Wall)]);
    assert!(!level.is_colliding_top(ScreenPos { x: 0, y: 0 }));
}

#[test]
fn right_probe_samples_column_past_right_edge() {
    let level = level_with(&[(6, 4, TileType::Wall)]);
    assert!(level.is_colliding_right(ScreenPos { x: 0, y: 0 }));
    assert!(!level.is_colliding_left(ScreenPos { x: 0, y: 0 }));
    assert!(!level.is_colliding_top(ScreenPos { x: 0, y: 0 }));
    assert!(!level.is_colliding_bottom(ScreenPos { x: 0, y: 0 }));
    let level = level_with(&[(6, 5, TileType::Wall)]);
    assert!(level.is_colliding_right(ScreenPos { x: 0, y: 0 }));
    let level = level_with(&[(7, 4, TileType::Wall), (5, 4, TileType::Wall)]);
    assert!(!level.is_colliding_right(ScreenPos { x: 0, y: 0 }));
}

#[test]
fn left_probe_samples_column_before_left_edge() {
    let level = level_with(&[(3, 4, TileType::Wall)]);
    assert!(level.is_colliding_left(ScreenPos { x: 0, y: 0 }));
    assert!(!level.is_colliding_right(ScreenPos { x: 0, y: 0 }));
    let level = level_with(&[(3, 5, TileType::Wall)]);
    assert!(level.is_colliding_left(ScreenPos { x: 0, y: 0 }));
    let level = level_with(&[(2, 4, TileType::Wall), (4, 4, TileType::Wall)]);
    assert!(!level.is_colliding_left(ScreenPos { x: 0, y: 0 }));
}

#[test]
fn grass_variants_collide_like_wall() {
    for kind in [TileType::Grass, TileType::GrassL, TileType::GrassR] {
        let level = level_with(&[(4, 6, kind)]);
        assert!(level.is_colliding_bottom(ScreenPos { x: 0, y: 0 }));
    }
}

#[test]
fn key_and_air_do_not_collide() {
    for kind in [TileType::Air, TileType::Key] {
        let level = level_with(&[(4, 6, kind)]);
        assert!(!level.is_colliding_bottom(ScreenPos { x: 0, y: 0 }));
    }
}

#[test]
fn off_map_is_open_space() {
    let level = wall_row(7);
    // far off the left edge: every probe sees absent tiles, none collides
    let pos = ScreenPos { x: -100000, y: 0 };
    assert!(!level.is_colliding_bottom(pos));
    assert!(!level.is_colliding_top(pos));
    assert!(!level.is_colliding_left(pos));
    assert!(!level.is_colliding_right(pos));
}

#[test]
fn key_probe_covers_two_by_two_region() {
    for (col, row) in [(4i64, 4i64), (5, 4), (4, 5), (5, 5)] {
        let level = level_with(&[(col, row, TileType::Key)]);
        assert!(level.colliding_key(ScreenPos { x: 0, y: 0 }), "key at ({col},{row}) missed");
    }
    for (col, row) in [(3i64, 4i64), (6, 4), (4, 3), (4, 6), (6, 6)] {
        let level = level_with(&[(col, row, TileType::Key)]);
        assert!(!level.colliding_key(ScreenPos { x: 0, y: 0 }), "key at ({col},{row}) seen");
    }
}
