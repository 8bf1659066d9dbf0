//! Levels: a tile grid together with the rival's path, decoded strictly from
//! external data, and the per-session registry of rival paths that a win
//! replaces with the player's own recorded run.

use vstd::prelude::*;

use std::collections::VecDeque;

use vstd::arithmetic::div_mod::lemma_div_multiples_vanish_fancy;
use vstd::arithmetic::div_mod::lemma_fundamental_div_mod;
use vstd::pervasive::unreached;

use crate::autotile::LAYER_RIVAL;
use crate::autotile::TileArt;
use crate::autotile::spec_tile_info;
use crate::direction::Direction;
use crate::geom::Hitbox;
use crate::errors::LoadError;
use crate::geom::WorldVec;
use crate::grid::TileGrid;
use crate::grid::read_map_from_file;
use crate::grid::columns_wf;
use crate::grid::spec_read_map;
use crate::parse::spec_lines;
use crate::parse::spec_parse_coord;
use crate::parse::spec_split;
use crate::parse::parse_coord;
use crate::parse::split_lines;
use crate::parse::split_on;
use crate::parse::str_to_chars;
use crate::positions::Positions;
use crate::positions::RepeatTimer;
use crate::positions::SAMPLE_INTERVAL_MS;
use crate::state::Difficulty;
use crate::tile::Tile;

verus! {

/// How many levels the game ships with.
pub const LEVEL_COUNT: usize = 4;

/// The position written by one line of a recorded path: two or three
/// comma-separated coordinates. A missing third coordinate leaves the
/// position on the rival's draw layer.
pub open spec fn spec_parse_pos_line(l: Seq<char>) -> Option<WorldVec> {
    let parts = spec_split(l, ',');
    if parts.len() == 2 {
        if spec_parse_coord(parts[0]) is Some && spec_parse_coord(parts[1]) is Some {
            Some(
                WorldVec {
                    x: spec_parse_coord(parts[0]).unwrap() as i64,
                    y: spec_parse_coord(parts[1]).unwrap() as i64,
                    z: LAYER_RIVAL,
                },
            )
        } else {
            None
        }
    } else if parts.len() == 3 {
        if spec_parse_coord(parts[0]) is Some && spec_parse_coord(parts[1]) is Some
            && spec_parse_coord(parts[2]) is Some {
            Some(
                WorldVec {
                    x: spec_parse_coord(parts[0]).unwrap() as i64,
                    y: spec_parse_coord(parts[1]).unwrap() as i64,
                    z: spec_parse_coord(parts[2]).unwrap() as i64,
                },
            )
        } else {
            None
        }
    } else {
        None
    }
}

/// The positions written by a recorded path: one per line, in file order.
/// A single malformed line fails the whole path.
pub open spec fn spec_parse_path(s: Seq<char>) -> Option<Seq<WorldVec>> {
    let lines = spec_lines(s);
    if forall|i: int| 0 <= i < lines.len() ==> #[trigger] spec_parse_pos_line(lines[i]) is Some {
        Some(Seq::new(lines.len(), |i: int| spec_parse_pos_line(lines[i]).unwrap()))
    } else {
        None
    }
}

/// Decodes a recorded path, as `spec_parse_path` describes: the queue that a
/// replaying rival will consume, in file order.
pub fn parse_path(path_text: &str) -> (r: Result<VecDeque<WorldVec>, LoadError>)
    ensures
        r is Ok <==> spec_parse_path(path_text@) is Some,
        r matches Ok(v) ==> v@ == spec_parse_path(path_text@).unwrap(),
        r is Err ==> r == Result::<VecDeque<WorldVec>, LoadError>::Err(LoadError::BadNumber),
        r matches Ok(v) ==> forall|i: int| 0 <= i < v@.len() ==> (#[trigger] v@[i]).in_range(),
{
    let ghost lns: Seq<Seq<char>> = spec_lines(path_text@);
    let chars = str_to_chars(path_text);
    let line_vecs = split_lines(&chars);
    let mut out: VecDeque<WorldVec> = VecDeque::new();
    let mut i: usize = 0;
    while i < line_vecs.len()
        invariant
            lns == spec_lines(path_text@),
            line_vecs@.map_values(|piece: Vec<char>| piece@) == lns,
            i <= line_vecs@.len(),
            lns.len() == line_vecs@.len(),
            out@.len() == i,
            forall|k: int| 0 <= k < i ==> #[trigger] spec_parse_pos_line(lns[k]) is Some,
            forall|k: int|
                0 <= k < i ==> #[trigger] out@[k] == spec_parse_pos_line(lns[k]).unwrap(),
            forall|k: int| 0 <= k < i ==> (#[trigger] out@[k]).in_range(),
        decreases line_vecs@.len() - i,
    {
        proof {
            assert(line_vecs@.map_values(|piece: Vec<char>| piece@)[i as int] == lns[i as int]);
        }
        let parts = split_on(&line_vecs[i], ',');
        let ghost sparts = spec_split(lns[i as int], ',');
        proof {
            assert(parts@.map_values(|piece: Vec<char>| piece@) == sparts);
        }
        if parts.len() != 2 && parts.len() != 3 {
            proof {
                assert(spec_parse_pos_line(lns[i as int]) is None);
                lemma_path_line_witness(path_text@, i as int);
            }
            return Err(LoadError::BadNumber);
        }
        proof {
            assert(parts@.map_values(|piece: Vec<char>| piece@)[0] == sparts[0]);
            assert(parts@.map_values(|piece: Vec<char>| piece@)[1] == sparts[1]);
            if parts@.len() == 3 {
                assert(parts@.map_values(|piece: Vec<char>| piece@)[2] == sparts[2]);
            }
        }
        let x: i64 = match parse_coord(&parts[0]) {
            Ok(v) => v,
            Err(_) => {
                proof {
                    assert(spec_parse_pos_line(lns[i as int]) is None);
                    lemma_path_line_witness(path_text@, i as int);
                }
                return Err(LoadError::BadNumber);
            },
        };
        let y: i64 = match parse_coord(&parts[1]) {
            Ok(v) => v,
            Err(_) => {
                proof {
                    assert(spec_parse_pos_line(lns[i as int]) is None);
                    lemma_path_line_witness(path_text@, i as int);
                }
                return Err(LoadError::BadNumber);
            },
        };
        let z: i64 = if parts.len() == 3 {
            match parse_coord(&parts[2]) {
                Ok(v) => v,
                Err(_) => {
                    proof {
                        assert(spec_parse_pos_line(lns[i as int]) is None);
                        lemma_path_line_witness(path_text@, i as int);
                    }
                    return Err(LoadError::BadNumber);
                },
            }
        } else {
            LAYER_RIVAL
        };
        out.push_back(WorldVec { x, y, z });
        i += 1;
    }
    proof {
        let parsed = spec_parse_path(path_text@);
        assert(parsed is Some);
        assert(out@ =~= parsed.unwrap());
    }
    Ok(out)
}

/// A line that fails to parse fails the whole path.
proof fn lemma_path_line_witness(s: Seq<char>, i: int)
    requires
        0 <= i < spec_lines(s).len(),
        spec_parse_pos_line(spec_lines(s)[i]) is None,
    ensures
        spec_parse_path(s) is None,
{
    if spec_parse_path(s) is Some {
        assert(spec_parse_pos_line(spec_lines(s)[i]) is Some);
    }
}

/// A level as decoded from external data: its tile grid and the
/// designer-supplied rival path.
#[derive(Debug)]
pub struct Level {
    pub grid: TileGrid,
    pub rival_positions: Positions,
}

/// Decodes a level from its two external descriptions: the token grid and the
/// recorded rival path. Any unknown tile token, a non-rectangular grid, or a
/// malformed path coordinate fails the whole load — no partially loaded level
/// is returned.
pub fn read_map(map_text: &str, path_text: &str) -> (r: Result<Level, LoadError>)
    ensures
        r is Ok <==> (spec_read_map(map_text@) matches Ok(tiles) && columns_wf(tiles)
            && spec_parse_path(path_text@) is Some),
        r matches Ok(level) ==> {
            &&& level.grid.wf()
            &&& Ok::<_, ()>(level.grid.tiles()) == spec_read_map(map_text@)
            &&& level.rival_positions.values@ == spec_parse_path(path_text@).unwrap()
            &&& level.rival_positions.timer == (RepeatTimer {
                interval_ms: SAMPLE_INTERVAL_MS,
                elapsed_ms: 0,
            })
            &&& level.rival_positions.wf()
        },
        r matches Err(e) ==> e == (if spec_read_map(map_text@) is Err {
            LoadError::BadTile
        } else if !columns_wf(spec_read_map(map_text@).unwrap()) {
            LoadError::BadShape
        } else {
            LoadError::BadNumber
        }),
{
    let tiles = match read_map_from_file(map_text) {
        Ok(t) => t,
        Err(()) => {
            return Err(LoadError::BadTile);
        },
    };
    let grid = match TileGrid::new(tiles) {
        Ok(g) => g,
        Err(_) => {
            return Err(LoadError::BadShape);
        },
    };
    let values = match parse_path(path_text) {
        Ok(v) => v,
        Err(e) => {
            return Err(e);
        },
    };
    Ok(
        Level {
            grid,
            rival_positions: Positions {
                values,
                timer: RepeatTimer { interval_ms: SAMPLE_INTERVAL_MS, elapsed_ms: 0 },
            },
        },
    )
}

/// Where a level's rival path comes from this session: the designer-supplied
/// one decoded with the level, or the player's own winning run, captured when
/// the player last won the level.
#[derive(Clone, Debug)]
pub enum RivalLevelPositions {
    HardCoded,
    Stolen(Positions),
}

impl Default for RivalLevelPositions {
    fn default() -> (r: Self)
        ensures
            r is HardCoded,
    {
        RivalLevelPositions::HardCoded
    }
}

/// The per-session registry of rival paths, one per level.
#[derive(Clone, Debug)]
pub struct RivalPositions(pub [RivalLevelPositions; LEVEL_COUNT]);

impl RivalPositions {
    /// Records the player's winning run as the rival path for `level`: future
    /// attempts at that level race the player's own ghost.
    pub fn steal(&mut self, level: usize, path: Positions)
        requires
            level < LEVEL_COUNT,
        ensures
            final(self).0@[level as int] matches RivalLevelPositions::Stolen(p) && p.values@
                == path.values@ && p.timer == path.timer,
            forall|k: int|
                0 <= k < LEVEL_COUNT && k != level ==> final(self).0@[k] == old(self).0@[k],
    {
        self.0[level] = RivalLevelPositions::Stolen(path);
    }
}

impl Default for RivalPositions {
    fn default() -> (r: Self)
        ensures
            forall|k: int| 0 <= k < LEVEL_COUNT ==> (#[trigger] r.0@[k]) is HardCoded,
    {
        RivalPositions(
            [
                RivalLevelPositions::HardCoded,
                RivalLevelPositions::HardCoded,
                RivalLevelPositions::HardCoded,
                RivalLevelPositions::HardCoded,
            ],
        )
    }
}

/// What one grid cell spawns: the markers and data that the engine's render
/// and query systems filter on.
#[derive(Clone, Copy, Debug, PartialEq, Eq, Structural)]
pub enum EntityKind {
    /// A tile drawn with no collider: the fully surrounded ground variant.
    Decoration,
    /// A ground tile the player collides with.
    GroundCollider(Hitbox),
    /// The win tile; touching it ends the run with a win.
    WinCollider(Hitbox),
    /// The player, with one hitbox for ground collision and one for hazards,
    /// spawned airborne with zero velocity and a recording position log.
    Player { ground_hitbox: Hitbox, enemy_hitbox: Hitbox },
    /// The rival, spawned with a replaying position log seeded from the
    /// level's chosen path (see `chosen_rival_path`).
    Rival { hitbox: Hitbox },
    /// A stationary hazard.
    StaticEnemy(Hitbox),
    /// A horizontally patrolling hazard, anchored where it spawned.
    PatrolHorizontal { hitbox: Hitbox, initial_position: WorldVec, direction: Direction },
    /// A vertically patrolling hazard, anchored where it spawned.
    PatrolVertical { hitbox: Hitbox, initial_position: WorldVec, direction: Direction },
}

/// One entity of a loaded level: its source tile kind, world position, art,
/// and behavior-defining kind.
#[derive(Clone, Copy, Debug, PartialEq, Eq, Structural)]
pub struct SpawnedEntity {
    pub tile_type: Tile,
    pub position: WorldVec,
    pub image: TileArt,
    pub kind: EntityKind,
}

/// The entity spawned for grid cell `(i, j)`, if any: empty cells spawn
/// nothing, and in `Training` difficulty the rival is left out. An empty cell
/// never asks for a hitbox — the autotiler never emits one — so the fatal
/// hitbox-on-empty-tile contradiction cannot arise, which `load_level`
/// witnesses by proof.
pub open spec fn spec_spawn_for_cell(
    grid: TileGrid,
    difficulty: Difficulty,
    i: int,
    j: int,
) -> Option<SpawnedEntity> {
    match spec_tile_info(grid, i, j) {
        None => None,
        Some(info) => match info.tile_type {
            Tile::Empty => None,
            Tile::Ground => Some(
                SpawnedEntity {
                    tile_type: info.tile_type,
                    position: info.position,
                    image: info.image,
                    kind: match info.hitbox {
                        None => EntityKind::Decoration,
                        Some(h) => EntityKind::GroundCollider(h),
                    },
                },
            ),
            Tile::Win => Some(
                SpawnedEntity {
                    tile_type: info.tile_type,
                    position: info.position,
                    image: info.image,
                    kind: EntityKind::WinCollider(info.hitbox.unwrap()),
                },
            ),
            Tile::Player => Some(
                SpawnedEntity {
                    tile_type: info.tile_type,
                    position: info.position,
                    image: info.image,
                    kind: EntityKind::Player {
                        ground_hitbox: info.hitbox.unwrap(),
                        enemy_hitbox: info.hitbox.unwrap(),
                    },
                },
            ),
            Tile::Rival => if difficulty is Training {
                None
            } else {
                Some(
                    SpawnedEntity {
                        tile_type: info.tile_type,
                        position: info.position,
                        image: info.image,
                        kind: EntityKind::Rival { hitbox: info.hitbox.unwrap() },
                    },
                )
            },
            Tile::Blue => Some(
                SpawnedEntity {
                    tile_type: info.tile_type,
                    position: info.position,
                    image: info.image,
                    kind: EntityKind::StaticEnemy(info.hitbox.unwrap()),
                },
            ),
            Tile::Jeremy => Some(
                SpawnedEntity {
                    tile_type: info.tile_type,
                    position: info.position,
                    image: info.image,
                    kind: EntityKind::PatrolHorizontal {
                        hitbox: info.hitbox.unwrap(),
                        initial_position: info.position,
                        direction: Direction::Left,
                    },
                },
            ),
            Tile::Blocky => Some(
                SpawnedEntity {
                    tile_type: info.tile_type,
                    position: info.position,
                    image: info.image,
                    kind: EntityKind::PatrolVertical {
                        hitbox: info.hitbox.unwrap(),
                        initial_position: info.position,
                        direction: Direction::Up,
                    },
                },
            ),
        },
    }
}

/// The entities of the first `n` cells in load order: cell `(i, j)` has flat
/// index `i * height + j`, so columns are loaded west to east, each from
/// bottom to top.
pub open spec fn spec_level_entities_upto(
    grid: TileGrid,
    difficulty: Difficulty,
    n: int,
) -> Seq<SpawnedEntity>
    decreases n,
{
    if n <= 0 {
        Seq::<SpawnedEntity>::empty()
    } else {
        let prev = spec_level_entities_upto(grid, difficulty, n - 1);
        match spec_spawn_for_cell(
            grid,
            difficulty,
            (n - 1) / grid.spec_height(),
            (n - 1) % grid.spec_height(),
        ) {
            None => prev,
            Some(e) => prev.push(e),
        }
    }
}

/// Every entity of the level, in load order.
pub open spec fn spec_level_entities(grid: TileGrid, difficulty: Difficulty) -> Seq<
    SpawnedEntity,
> {
    spec_level_entities_upto(grid, difficulty, grid.spec_width() * grid.spec_height())
}

/// The path the rival replays this session: the level's own decoded path, or
/// the player's captured winning run when one was stolen for this level.
pub fn chosen_rival_path(level: &Level, source: &RivalLevelPositions) -> (r: Positions)
    requires
        level.rival_positions.wf(),
        source matches RivalLevelPositions::Stolen(p) ==> p.wf(),
    ensures
        r.values@ == (match source {
            RivalLevelPositions::HardCoded => level.rival_positions.values@,
            RivalLevelPositions::Stolen(p) => p.values@,
        }),
        r.timer == (match source {
            RivalLevelPositions::HardCoded => level.rival_positions.timer,
            RivalLevelPositions::Stolen(p) => p.timer,
        }),
        r.wf(),
{
    match source {
        RivalLevelPositions::HardCoded => clone_positions(&level.rival_positions),
        RivalLevelPositions::Stolen(p) => clone_positions(p),
    }
}

/// Copies a position log, queue and timer.
fn clone_positions(positions: &Positions) -> (r: Positions)
    ensures
        r.values@ == positions.values@,
        r.timer == positions.timer,
{
    let mut values: VecDeque<WorldVec> = VecDeque::new();
    let mut i: usize = 0;
    while i < positions.values.len()
        invariant
            i <= positions.values@.len(),
            values@ =~= positions.values@.take(i as int),
        decreases positions.values@.len() - i,
    {
        let p: WorldVec = positions.values[i];
        values.push_back(p);
        proof {
            assert(values@ =~= positions.values@.take(i + 1));
        }
        i += 1;
    }
    proof {
        assert(values@ =~= positions.values@);
    }
    Positions { values, timer: positions.timer }
}

/// Produces the full set of level entities, walking every grid cell and
/// spawning what `spec_spawn_for_cell` describes. In `Training` difficulty no
/// rival is spawned; the proof inside witnesses that a hitbox is never asked
/// of an empty tile.
pub fn load_level(level: &Level, difficulty: Difficulty) -> (r: Vec<SpawnedEntity>)
    requires
        level.grid.wf(),
    ensures
        r@ == spec_level_entities(level.grid, difficulty),
{
    let grid = &level.grid;
    let width = grid.width();
    let height = grid.height();
    let mut out: Vec<SpawnedEntity> = Vec::new();
    let mut i: usize = 0;
    while i < width
        invariant
            level.grid.wf(),
            grid == &level.grid,
            width == grid.spec_width(),
            height == grid.spec_height(),
            i <= width,
            out@ == spec_level_entities_upto(*grid, difficulty, i as int * height as int),
        decreases width - i,
    {
        let mut j: usize = 0;
        while j < height
            invariant
                level.grid.wf(),
                grid == &level.grid,
                width == grid.spec_width(),
                height == grid.spec_height(),
                i < width,
                j <= height,
                out@ == spec_level_entities_upto(
                    *grid,
                    difficulty,
                    i as int * height as int + j as int,
                ),
            decreases height - j,
        {
            let ghost n: int = i as int * height as int + j as int;
            proof {
                lemma_div_multiples_vanish_fancy(i as int, j as int, height as int);
                assert((height as int * i as int + j as int) / height as int == i as int);
                assert(height as int * i as int == i as int * height as int) by (nonlinear_arith);
                lemma_fundamental_div_mod(n, height as int);
                assert(n % height as int == j as int);
                assert(0 <= n && n + 1 <= width as int * height as int) by (nonlinear_arith)
                    requires
                        0 <= i as int,
                        (i as int) < (width as int),
                        0 <= j as int,
                        (j as int) < (height as int),
                        n == i as int * height as int + j as int,
                ;
            }
            match grid.get_tile_info(i, j) {
                None => {},
                Some(info) => {
                    let entity = match info.tile_type {
                        Tile::Empty => unreached(),
                        Tile::Ground => Some(
                            SpawnedEntity {
                                tile_type: info.tile_type,
                                position: info.position,
                                image: info.image,
                                kind: match info.hitbox {
                                    None => EntityKind::Decoration,
                                    Some(h) => EntityKind::GroundCollider(h),
                                },
                            },
                        ),
                        Tile::Win => Some(
                            SpawnedEntity {
                                tile_type: info.tile_type,
                                position: info.position,
                                image: info.image,
                                kind: EntityKind::WinCollider(info.hitbox.unwrap()),
                            },
                        ),
                        Tile::Player => {
                            let h = info.hitbox.unwrap();
                            Some(
                                SpawnedEntity {
                                    tile_type: info.tile_type,
                                    position: info.position,
                                    image: info.image,
                                    kind: EntityKind::Player {
                                        ground_hitbox: h,
                                        enemy_hitbox: h,
                                    },
                                },
                            )
                        },
                        Tile::Rival => {
                            if matches!(difficulty, Difficulty::Training) {
                                None
                            } else {
                                Some(
                                    SpawnedEntity {
                                        tile_type: info.tile_type,
                                        position: info.position,
                                        image: info.image,
                                        kind: EntityKind::Rival { hitbox: info.hitbox.unwrap() },
                                    },
                                )
                            }
                        },
                        Tile::Blue => Some(
                            SpawnedEntity {
                                tile_type: info.tile_type,
                                position: info.position,
                                image: info.image,
                                kind: EntityKind::StaticEnemy(info.hitbox.unwrap()),
                            },
                        ),
                        Tile::Jeremy => Some(
                            SpawnedEntity {
                                tile_type: info.tile_type,
                                position: info.position,
                                image: info.image,
                                kind: EntityKind::PatrolHorizontal {
                                    hitbox: info.hitbox.unwrap(),
                                    initial_position: info.position,
                                    direction: Direction::Left,
                                },
                            },
                        ),
                        Tile::Blocky => Some(
                            SpawnedEntity {
                                tile_type: info.tile_type,
                                position: info.position,
                                image: info.image,
                                kind: EntityKind::PatrolVertical {
                                    hitbox: info.hitbox.unwrap(),
                                    initial_position: info.position,
                                    direction: Direction::Up,
                                },
                            },
                        ),
                    };
                    if let Some(e) = entity {
                        out.push(e);
                    }
                },
            }
            j += 1;
        }
        proof {
            assert((i as int + 1) * height as int == i as int * height as int + height as int)
                by (nonlinear_arith);
        }
        i += 1;
    }
    proof {
        assert(width as int * height as int == i as int * height as int) by (nonlinear_arith)
            requires
                i as int == width as int,
        ;
    }
    out
}

} // verus!
