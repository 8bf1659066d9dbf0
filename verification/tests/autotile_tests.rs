use chaz::ground_variant;
use chaz::{GroundVariant, Tile, TileArt, TileGrid, LAYER_GROUND, LAYER_WIN, TILE_SIZE};

fn empty_grid(width: usize, height: usize) -> Vec<Vec<Tile>> {
    let mut values = Vec::new();
    for _ in 0..width {
        let mut column = Vec::new();
        for _ in 0..height {
            column.push(Tile::Empty);
        }
        values.push(column);
    }
    values
}

#[test]
fn out_of_bounds_lookups_return_empty() {
    let mut values = empty_grid(8, 8);
    values[5][5] = Tile::Ground;
    let grid = TileGrid::new(values).unwrap();
    assert_eq!(grid.tile_at(5, 5), Tile::Ground);
    assert_eq!(grid.tile_at(8, 0), Tile::Empty);
    assert_eq!(grid.tile_at(0, 8), Tile::Empty);
    assert_eq!(grid.tile_at(usize::MAX, usize::MAX), Tile::Empty);
    // Neighbor queries at the grid edges stay total and answer Empty.
    assert_eq!(grid.left(0, 0), Tile::Empty);
    assert_eq!(grid.below(0, 0), Tile::Empty);
    assert_eq!(grid.right(7, 7), Tile::Empty);
    assert_eq!(grid.above(7, 7), Tile::Empty);
    assert_eq!(grid.below_left(0, 0), Tile::Empty);
    assert_eq!(grid.below_right(7, 0), Tile::Empty);
    assert_eq!(grid.above_left(0, 7), Tile::Empty);
    assert_eq!(grid.above_right(7, 7), Tile::Empty);
}

#[test]
fn vertical_strip_selects_above_below_variant_with_hitbox() {
    // Ground at (5,5) with ground above and below but not left or right.
    let mut values = empty_grid(10, 10);
    values[5][4] = Tile::Ground;
    values[5][5] = Tile::Ground;
    values[5][6] = Tile::Ground;
    let grid = TileGrid::new(values).unwrap();
    let info = grid.get_tile_info(5, 5).unwrap();
    assert_eq!(info.image, TileArt::Ground(GroundVariant::AboveBelow));
    let hitbox = info.hitbox.expect("a vertical strip tile carries a hitbox");
    assert_eq!(hitbox.size.x, TILE_SIZE);
    assert_eq!(hitbox.size.y, TILE_SIZE);
}

#[test]
fn same_cardinal_connectivity_same_variant() {
    // Two ground tiles whose cardinal neighborhoods agree but whose diagonal
    // neighborhoods differ get the same art, as long as one cardinal is open.
    let mut a = empty_grid(10, 10);
    a[5][5] = Tile::Ground;
    a[4][5] = Tile::Ground;
    a[6][5] = Tile::Ground;
    let grid_a = TileGrid::new(a).unwrap();

    let mut b = empty_grid(10, 10);
    b[5][5] = Tile::Ground;
    b[4][5] = Tile::Ground;
    b[6][5] = Tile::Ground;
    b[4][4] = Tile::Ground;
    b[6][6] = Tile::Ground;
    let grid_b = TileGrid::new(b).unwrap();

    let info_a = grid_a.get_tile_info(5, 5).unwrap();
    let info_b = grid_b.get_tile_info(5, 5).unwrap();
    assert_eq!(info_a.image, TileArt::Ground(GroundVariant::LeftRight));
    assert_eq!(info_a.image, info_b.image);
    assert_eq!(info_a.hitbox.is_some(), info_b.hitbox.is_some());
}

#[test]
fn fully_surrounded_tile_has_no_hitbox() {
    let mut values = empty_grid(10, 10);
    for i in 4..=6 {
        for j in 4..=6 {
            values[i][j] = Tile::Ground;
        }
    }
    let grid = TileGrid::new(values).unwrap();
    let center = grid.get_tile_info(5, 5).unwrap();
    assert_eq!(center.image, TileArt::Ground(GroundVariant::Full));
    assert!(center.hitbox.is_none());
    // A corner of the block still connects on two cardinals only and keeps
    // its hitbox.
    let corner = grid.get_tile_info(4, 4).unwrap();
    assert!(corner.hitbox.is_some());
}

#[test]
fn open_corner_selects_corner_variant() {
    // All four cardinals connect; the below-left diagonal is open.
    let mut values = empty_grid(10, 10);
    for i in 4..=6 {
        for j in 4..=6 {
            values[i][j] = Tile::Ground;
        }
    }
    values[4][4] = Tile::Empty;
    let grid = TileGrid::new(values).unwrap();
    let center = grid.get_tile_info(5, 5).unwrap();
    assert_eq!(center.image, TileArt::Ground(GroundVariant::CornerBelowLeft));
    assert!(center.hitbox.is_some());
}

#[test]
fn variant_table_base_cases() {
    assert_eq!(
        ground_variant(false, false, false, false, false, false, false, false),
        GroundVariant::Alone
    );
    assert_eq!(
        ground_variant(false, true, false, false, true, true, true, true),
        GroundVariant::Left
    );
    assert_eq!(
        ground_variant(false, false, true, false, false, false, false, false),
        GroundVariant::Right
    );
    assert_eq!(
        ground_variant(true, true, true, false, false, false, false, false),
        GroundVariant::AboveLeftRight
    );
    assert_eq!(
        ground_variant(true, true, false, true, false, false, false, false),
        GroundVariant::AboveBelowLeft
    );
    assert_eq!(
        ground_variant(true, true, true, true, true, true, true, true),
        GroundVariant::Full
    );
    assert_eq!(
        ground_variant(true, true, true, true, true, true, true, false),
        GroundVariant::CornerAboveRight
    );
}

#[test]
fn empty_cell_yields_no_tile_info() {
    let values = empty_grid(4, 4);
    let grid = TileGrid::new(values).unwrap();
    assert!(grid.get_tile_info(2, 2).is_none());
}

#[test]
fn tile_positions_scale_grid_coordinates() {
    // In a 100 x 20 grid the origin cell sits 20 tiles west and half the grid
    // height south of the world origin.
    let mut values = empty_grid(100, 20);
    values[0][0] = Tile::Ground;
    values[3][2] = Tile::Win;
    let grid = TileGrid::new(values).unwrap();
    let origin = grid.get_tile_info(0, 0).unwrap();
    assert_eq!(origin.position.x, -20 * TILE_SIZE);
    assert_eq!(origin.position.y, -10 * TILE_SIZE);
    assert_eq!(origin.position.z, LAYER_GROUND);
    let win = grid.get_tile_info(3, 2).unwrap();
    assert_eq!(win.position.x, -20 * TILE_SIZE + 3 * TILE_SIZE);
    assert_eq!(win.position.y, -10 * TILE_SIZE + 2 * TILE_SIZE);
    assert_eq!(win.position.z, LAYER_WIN);
    let win_hitbox = win.hitbox.unwrap();
    assert_eq!(win_hitbox.size.x, 5_000);
    assert_eq!(win_hitbox.size.y, 5_000);
}
