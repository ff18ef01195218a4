use sheep_herd::field::Field;
use sheep_herd::num::{clamp_velocity, div_floor};

#[test]
fn new_field_derives_origin() {
    let f = Field::new(800, 600);
    assert_eq!(f.width, 800);
    assert_eq!(f.height, 600);
    assert_eq!(f.origin, (-400, 300));
}

#[test]
fn update_size_recomputes_origin_atomically() {
    let mut f = Field::new(800, 600);
    f.update_size(1000, 400);
    assert_eq!(f.width, 1000);
    assert_eq!(f.height, 400);
    assert_eq!(f.origin, (-500, 200));
}

#[test]
fn zero_field_is_a_valid_degenerate_state() {
    let f = Field::new(0, 0);
    assert_eq!(f.origin, (0, 0));
    assert_eq!(f.width_in_tiles(None), 1);
    assert_eq!(f.height_in_tiles(None), 1);
}

#[test]
fn tiles_cover_the_extent_with_one_row_of_overhang() {
    let f = Field::new(800, 600);
    // ceil(800 / 64) + 1 = 13 + 1; ceil(600 / 64) + 1 = 10 + 1.
    assert_eq!(f.width_in_tiles(None), 14);
    assert_eq!(f.height_in_tiles(None), 11);
    assert_eq!(f.width_in_tiles(Some(100)), 9);
    assert_eq!(f.height_in_tiles(Some(100)), 7);
}

#[test]
fn tile_offset_centers_the_overhang() {
    let f = Field::new(800, 600);
    // 14 * 64 - 800 = 96 and 11 * 64 - 600 = 104, each split in half.
    assert_eq!(f.tile_offset(None, None), (-48, -52));
}

#[test]
fn tile_origin_shifts_the_field_origin() {
    let f = Field::new(800, 600);
    assert_eq!(f.tile_origin(None, None), (-448, 352));
}

#[test]
fn tile_positions_walk_column_by_column() {
    let f = Field::new(800, 600);
    let tiles = f.tile_positions();
    assert_eq!(tiles.len(), 14 * 11);
    // First column starts at the grid corner and walks down...
    assert_eq!((tiles[0].x, tiles[0].y), (-448, 352));
    assert_eq!((tiles[1].x, tiles[1].y), (-448, 352 - 64));
    assert_eq!((tiles[10].x, tiles[10].y), (-448, 352 - 640));
    // ...then the next column starts one tile to the right.
    assert_eq!((tiles[11].x, tiles[11].y), (-448 + 64, 352));
    let last = tiles[14 * 11 - 1];
    assert_eq!((last.x, last.y), (-448 + 13 * 64, 352 - 10 * 64));
}

#[test]
fn negative_field_degenerates_but_stays_valid() {
    // Zero or negative dimensions are a valid, motion-constraining
    // state, not an error.
    let f = Field::new(-100, -100);
    assert_eq!(f.origin, (50, -50));
    assert_eq!(f.width_in_tiles(None), 0);
    assert_eq!(f.height_in_tiles(None), 0);
    assert_eq!(f.tile_positions().len(), 0);
}

#[test]
fn clamping_is_exact_at_the_band_edges() {
    assert_eq!(clamp_velocity(100, 50), 50);
    assert_eq!(clamp_velocity(-100, 50), -50);
    assert_eq!(clamp_velocity(50, 50), 50);
    assert_eq!(clamp_velocity(-50, 50), -50);
    assert_eq!(clamp_velocity(49, 50), 49);
    assert_eq!(clamp_velocity(0, 50), 0);
    assert_eq!(clamp_velocity(7, 0), 0);
    assert_eq!(clamp_velocity(-7, 0), 0);
}

#[test]
fn division_rounds_toward_negative_infinity() {
    assert_eq!(div_floor(7, 2), 3);
    assert_eq!(div_floor(-7, 2), -4);
    assert_eq!(div_floor(6, 3), 2);
    assert_eq!(div_floor(-6, 3), -2);
    assert_eq!(div_floor(0, 5), 0);
}
