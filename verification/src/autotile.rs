//! Neighbor-aware tile decoration: selects the visual variant of a ground
//! tile from the connectivity of its 8 neighbors, assigns each tile kind its
//! world position and draw layer, and decides which tiles carry a hitbox.

use vstd::prelude::*;

use crate::geom::Hitbox;
use crate::geom::Size2;
use crate::geom::WorldVec;
use crate::grid::TileGrid;
use crate::tile::Tile;
use crate::tile::TILE_SIZE;
use crate::tile::spec_connects_to;

verus! {

/// Draw layer of ground tiles, in thousandths of a z unit.
pub const LAYER_GROUND: i64 = 500;

/// Draw layer of hazard and patrol enemies.
pub const LAYER_ENEMY: i64 = 1_000;

/// Draw layer of the rival.
pub const LAYER_RIVAL: i64 = 1_500;

/// Draw layer of the player.
pub const LAYER_PLAYER: i64 = 2_000;

/// Draw layer of the win tile.
pub const LAYER_WIN: i64 = 3_000;

/// The visual variant of a ground tile, named for the neighbors whose art it
/// joins with. The four cardinal neighbors pick one of the base variants; when
/// all four connect, the diagonals disambiguate among the corner variants,
/// falling back to the fully surrounded `Full` variant, the only one that
/// carries no hitbox.
#[derive(Clone, Copy, Debug, PartialEq, Eq, Structural)]
pub enum GroundVariant {
    /// No cardinal neighbor connects.
    Alone,
    /// Only the left neighbor connects.
    Left,
    /// Only the right neighbor connects.
    Right,
    /// Left and right connect.
    LeftRight,
    /// Only the neighbor below connects.
    Below,
    /// Below and left connect.
    BelowLeft,
    /// Below and right connect.
    BelowRight,
    /// Below, left and right connect.
    BelowLeftRight,
    /// Only the neighbor above connects.
    Above,
    /// Above and left connect.
    AboveLeft,
    /// Above and right connect.
    AboveRight,
    /// Above, left and right connect, nothing below.
    AboveLeftRight,
    /// Above and below connect, neither side.
    AboveBelow,
    /// All but the right neighbor connect.
    AboveBelowLeft,
    /// All but the left neighbor connect.
    AboveBelowRight,
    /// All cardinals connect but the corner below left is open.
    CornerBelowLeft,
    /// All cardinals connect but the corner below right is open.
    CornerBelowRight,
    /// All cardinals connect but the corner above left is open.
    CornerAboveLeft,
    /// All cardinals connect but the corner above right is open.
    CornerAboveRight,
    /// Fully surrounded interior tile; unreachable by the player, so it needs
    /// no hitbox.
    Full,
}

/// The autotiling table: the variant selected for a ground tile whose
/// neighbors connect as given. The four cardinal directions decide the base
/// variant; the diagonals matter only when all four cardinals connect, and the
/// first open corner in the order below-left, below-right, above-left,
/// above-right wins.
pub open spec fn spec_ground_variant(
    above: bool,
    left: bool,
    right: bool,
    below: bool,
    below_left: bool,
    below_right: bool,
    above_left: bool,
    above_right: bool,
) -> GroundVariant {
    match (above, left, right, below) {
        (false, false, false, false) => GroundVariant::Alone,
        (false, true, false, false) => GroundVariant::Left,
        (false, false, true, false) => GroundVariant::Right,
        (false, true, true, false) => GroundVariant::LeftRight,
        (false, false, false, true) => GroundVariant::Below,
        (false, true, false, true) => GroundVariant::BelowLeft,
        (false, false, true, true) => GroundVariant::BelowRight,
        (false, true, true, true) => GroundVariant::BelowLeftRight,
        (true, false, false, false) => GroundVariant::Above,
        (true, true, false, false) => GroundVariant::AboveLeft,
        (true, false, true, false) => GroundVariant::AboveRight,
        (true, true, true, false) => GroundVariant::AboveLeftRight,
        (true, false, false, true) => GroundVariant::AboveBelow,
        (true, true, false, true) => GroundVariant::AboveBelowLeft,
        (true, false, true, true) => GroundVariant::AboveBelowRight,
        (true, true, true, true) => match (below_left, below_right, above_left, above_right) {
            (false, _, _, _) => GroundVariant::CornerBelowLeft,
            (_, false, _, _) => GroundVariant::CornerBelowRight,
            (_, _, false, _) => GroundVariant::CornerAboveLeft,
            (_, _, _, false) => GroundVariant::CornerAboveRight,
            (_, _, _, _) => GroundVariant::Full,
        },
    }
}

/// The art drawn for a tile: ground picks a connectivity variant, the other
/// kinds have one fixed look each.
#[derive(Clone, Copy, Debug, PartialEq, Eq, Structural)]
pub enum TileArt {
    /// Ground art joined to its neighbors by the autotiling table.
    Ground(GroundVariant),
    /// The win tile's heart.
    Heart,
    /// The player's idle sheet.
    IdleGreen,
    /// The idle sheet shared by the rival and the stationary hazard.
    IdleBlue,
    /// The horizontally patrolling enemy.
    Jeremy,
    /// The vertically patrolling enemy while climbing.
    BlockySurprised,
}

/// Everything derived from one grid cell: its kind, its world position with a
/// kind-dependent draw layer, the art to draw, and the hitbox, if any.
/// Computed on demand from the cell and its 8 neighbors, never stored.
#[derive(Clone, Copy, Debug)]
pub struct TileInfo {
    pub tile_type: Tile,
    pub position: WorldVec,
    pub image: TileArt,
    pub hitbox: Option<Hitbox>,
}

/// World position of grid cell `(i, j)` in a grid of the given height, at
/// draw layer `z`: grid coordinates scaled by the tile size, with the origin
/// 20 tiles east of the west edge and at half the grid's height.
pub open spec fn spec_cell_position(i: int, j: int, height: int, z: int) -> WorldVec {
    WorldVec {
        x: (-20 * TILE_SIZE + i * TILE_SIZE) as i64,
        y: (-(height / 2) * TILE_SIZE + j * TILE_SIZE) as i64,
        z: z as i64,
    }
}

/// The full-tile hitbox shared by ground tiles and characters.
pub open spec fn spec_tile_hitbox() -> Hitbox {
    Hitbox {
        relative_position: WorldVec { x: 0, y: 0, z: 0 },
        size: Size2 { x: TILE_SIZE, y: TILE_SIZE },
    }
}

/// The small hitbox of the win tile.
pub open spec fn spec_win_hitbox() -> Hitbox {
    Hitbox { relative_position: WorldVec { x: 0, y: 0, z: 0 }, size: Size2 { x: 5_000, y: 5_000 } }
}

/// Whether the neighbor of cell `(i, j)` one step in direction `(di, dj)`
/// connects to a ground tile there.
pub open spec fn spec_neighbor_connects(grid: TileGrid, i: int, j: int, di: int, dj: int) -> bool {
    spec_connects_to(grid.tile(i, j), grid.tile(i + di, j + dj))
}

/// What `TileGrid::get_tile_info` returns for cell `(i, j)`: nothing for an
/// empty cell, and otherwise the cell's kind, world position, art and hitbox.
/// A ground tile's art follows the autotiling table over its 8 neighbors and
/// it carries a hitbox exactly when its variant is not `Full`; the win tile
/// carries the small win hitbox; characters and enemies carry the full-tile
/// hitbox.
pub open spec fn spec_tile_info(grid: TileGrid, i: int, j: int) -> Option<TileInfo> {
    match grid.tile(i, j) {
        Tile::Empty => None,
        Tile::Ground => {
            let variant = spec_ground_variant(
                spec_neighbor_connects(grid, i, j, 0, 1),
                spec_neighbor_connects(grid, i, j, -1, 0),
                spec_neighbor_connects(grid, i, j, 1, 0),
                spec_neighbor_connects(grid, i, j, 0, -1),
                spec_neighbor_connects(grid, i, j, -1, -1),
                spec_neighbor_connects(grid, i, j, 1, -1),
                spec_neighbor_connects(grid, i, j, -1, 1),
                spec_neighbor_connects(grid, i, j, 1, 1),
            );
            Some(
                TileInfo {
                    tile_type: Tile::Ground,
                    position: spec_cell_position(i, j, grid.spec_height(), LAYER_GROUND as int),
                    image: TileArt::Ground(variant),
                    hitbox: if variant is Full {
                        None
                    } else {
                        Some(spec_tile_hitbox())
                    },
                },
            )
        },
        Tile::Win => Some(
            TileInfo {
                tile_type: Tile::Win,
                position: spec_cell_position(i, j, grid.spec_height(), LAYER_WIN as int),
                image: TileArt::Heart,
                hitbox: Some(spec_win_hitbox()),
            },
        ),
        Tile::Player => Some(
            TileInfo {
                tile_type: Tile::Player,
                position: spec_cell_position(i, j, grid.spec_height(), LAYER_PLAYER as int),
                image: TileArt::IdleGreen,
                hitbox: Some(spec_tile_hitbox()),
            },
        ),
        Tile::Rival => Some(
            TileInfo {
                tile_type: Tile::Rival,
                position: spec_cell_position(i, j, grid.spec_height(), LAYER_RIVAL as int),
                image: TileArt::IdleBlue,
                hitbox: Some(spec_tile_hitbox()),
            },
        ),
        Tile::Blue => Some(
            TileInfo {
                tile_type: Tile::Blue,
                position: spec_cell_position(i, j, grid.spec_height(), LAYER_ENEMY as int),
                image: TileArt::IdleBlue,
                hitbox: Some(spec_tile_hitbox()),
            },
        ),
        Tile::Jeremy => Some(
            TileInfo {
                tile_type: Tile::Jeremy,
                position: spec_cell_position(i, j, grid.spec_height(), LAYER_ENEMY as int),
                image: TileArt::Jeremy,
                hitbox: Some(spec_tile_hitbox()),
            },
        ),
        Tile::Blocky => Some(
            TileInfo {
                tile_type: Tile::Blocky,
                position: spec_cell_position(i, j, grid.spec_height(), LAYER_ENEMY as int),
                image: TileArt::BlockySurprised,
                hitbox: Some(spec_tile_hitbox()),
            },
        ),
    }
}

/// Exec mirror of the autotiling table.
pub fn ground_variant(
    above: bool,
    left: bool,
    right: bool,
    below: bool,
    below_left: bool,
    below_right: bool,
    above_left: bool,
    above_right: bool,
) -> (v: GroundVariant)
    ensures
        v == spec_ground_variant(
            above,
            left,
            right,
            below,
            below_left,
            below_right,
            above_left,
            above_right,
        ),
{
    match (above, left, right, below) {
        (false, false, false, false) => GroundVariant::Alone,
        (false, true, false, false) => GroundVariant::Left,
        (false, false, true, false) => GroundVariant::Right,
        (false, true, true, false) => GroundVariant::LeftRight,
        (false, false, false, true) => GroundVariant::Below,
        (false, true, false, true) => GroundVariant::BelowLeft,
        (false, false, true, true) => GroundVariant::BelowRight,
        (false, true, true, true) => GroundVariant::BelowLeftRight,
        (true, false, false, false) => GroundVariant::Above,
        (true, true, false, false) => GroundVariant::AboveLeft,
        (true, false, true, false) => GroundVariant::AboveRight,
        (true, true, true, false) => GroundVariant::AboveLeftRight,
        (true, false, false, true) => GroundVariant::AboveBelow,
        (true, true, false, true) => GroundVariant::AboveBelowLeft,
        (true, false, true, true) => GroundVariant::AboveBelowRight,
        (true, true, true, true) => match (below_left, below_right, above_left, above_right) {
            (false, _, _, _) => GroundVariant::CornerBelowLeft,
            (_, false, _, _) => GroundVariant::CornerBelowRight,
            (_, _, false, _) => GroundVariant::CornerAboveLeft,
            (_, _, _, false) => GroundVariant::CornerAboveRight,
            (_, _, _, _) => GroundVariant::Full,
        },
    }
}

impl TileGrid {
    /// Derives the renderable and collidable content of cell `(i, j)`:
    /// `None` for an empty cell (nothing to draw, no collider), otherwise the
    /// tile's kind, world position, art variant and hitbox, with a ground
    /// tile's art selected from its neighbors' connectivity.
    pub fn get_tile_info(&self, i: usize, j: usize) -> (r: Option<TileInfo>)
        requires
            self.wf(),
            i < self.spec_width(),
            j < self.spec_height(),
        ensures
            r == spec_tile_info(*self, i as int, j as int),
    {
        let height = self.height();
        let x: i64 = -20 * TILE_SIZE + (i as i64) * TILE_SIZE;
        let y: i64 = -((height as i64) / 2) * TILE_SIZE + (j as i64) * TILE_SIZE;
        let tile = self.tile_at(i, j);
        match tile {
            Tile::Empty => None,
            Tile::Ground => {
                let above = tile.connects_to(self.above(i, j));
                let left = tile.connects_to(self.left(i, j));
                let right = tile.connects_to(self.right(i, j));
                let below = tile.connects_to(self.below(i, j));
                let below_left = tile.connects_to(self.below_left(i, j));
                let below_right = tile.connects_to(self.below_right(i, j));
                let above_left = tile.connects_to(self.above_left(i, j));
                let above_right = tile.connects_to(self.above_right(i, j));
                let variant = ground_variant(
                    above,
                    left,
                    right,
                    below,
                    below_left,
                    below_right,
                    above_left,
                    above_right,
                );
                let hitbox = if matches!(variant, GroundVariant::Full) {
                    None
                } else {
                    Some(tile_hitbox())
                };
                Some(
                    TileInfo {
                        tile_type: tile,
                        position: WorldVec { x, y, z: LAYER_GROUND },
                        image: TileArt::Ground(variant),
                        hitbox,
                    },
                )
            },
            Tile::Win => Some(
                TileInfo {
                    tile_type: tile,
                    position: WorldVec { x, y, z: LAYER_WIN },
                    image: TileArt::Heart,
                    hitbox: Some(
                        Hitbox {
                            relative_position: WorldVec { x: 0, y: 0, z: 0 },
                            size: Size2 { x: 5_000, y: 5_000 },
                        },
                    ),
                },
            ),
            Tile::Player => Some(
                TileInfo {
                    tile_type: tile,
                    position: WorldVec { x, y, z: LAYER_PLAYER },
                    image: TileArt::IdleGreen,
                    hitbox: Some(tile_hitbox()),
                },
            ),
            Tile::Rival => Some(
                TileInfo {
                    tile_type: tile,
                    position: WorldVec { x, y, z: LAYER_RIVAL },
                    image: TileArt::IdleBlue,
                    hitbox: Some(tile_hitbox()),
                },
            ),
            Tile::Blue => Some(
                TileInfo {
                    tile_type: tile,
                    position: WorldVec { x, y, z: LAYER_ENEMY },
                    image: TileArt::IdleBlue,
                    hitbox: Some(tile_hitbox()),
                },
            ),
            Tile::Jeremy => Some(
                TileInfo {
                    tile_type: tile,
                    position: WorldVec { x, y, z: LAYER_ENEMY },
                    image: TileArt::Jeremy,
                    hitbox: Some(tile_hitbox()),
                },
            ),
            Tile::Blocky => Some(
                TileInfo {
                    tile_type: tile,
                    position: WorldVec { x, y, z: LAYER_ENEMY },
                    image: TileArt::BlockySurprised,
                    hitbox: Some(tile_hitbox()),
                },
            ),
        }
    }
}

/// The full-tile hitbox, as executable code.
pub fn tile_hitbox() -> (h: Hitbox)
    ensures
        h == spec_tile_hitbox(),
{
    Hitbox {
        relative_position: WorldVec { x: 0, y: 0, z: 0 },
        size: Size2 { x: TILE_SIZE, y: TILE_SIZE },
    }
}

/// Ground tiles with identical 4-cardinal connectivity get the same visual
/// variant whenever at least one cardinal neighbor is open: the diagonal
/// neighbors then play no part in the selection.
pub proof fn lemma_variant_determined_by_cardinals(
    above: bool,
    left: bool,
    right: bool,
    below: bool,
    d1: (bool, bool, bool, bool),
    d2: (bool, bool, bool, bool),
)
    requires
        !(above && left && right && below),
    ensures
        spec_ground_variant(above, left, right, below, d1.0, d1.1, d1.2, d1.3)
            == spec_ground_variant(above, left, right, below, d2.0, d2.1, d2.2, d2.3),
{
}

/// A ground tile's visual variant alone determines whether the tile carries a
/// hitbox: every variant but the fully surrounded one comes with the full-tile
/// hitbox.
pub proof fn lemma_variant_determines_hitbox(grid: TileGrid, i: int, j: int)
    requires
        grid.wf(),
        grid.tile(i, j) is Ground,
    ensures
        spec_tile_info(grid, i, j) matches Some(info) && (info.image matches TileArt::Ground(v)
            && (info.hitbox == if v is Full {
            Option::<Hitbox>::None
        } else {
            Some(spec_tile_hitbox())
        })),
{
}

} // verus!
