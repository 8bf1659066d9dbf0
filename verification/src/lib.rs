//! Core logic of a 2D tile-based platformer: a tile grid with neighbor-aware
//! autotiling, axis-aligned collision resolution, fixed-point motion
//! integration, and a record/replay mechanism that lets the player race a
//! ghost-like rival along a previously recorded path.
//!
//! World coordinates, velocities and hitbox extents are carried as `i64`
//! fixed-point values in thousandths of a world unit; times are carried in
//! milliseconds. The rendering engine around this library converts to and from
//! its own floating-point types at the boundary.

use vstd::prelude::*;

mod autotile;
mod direction;
mod encode;
mod errors;
mod flow;
mod geom;
mod grid;
mod level;
mod motion;
mod parse;
mod player;
mod positions;
mod state;
mod tile;
mod velocity;

pub use autotile::ground_variant;
pub use autotile::tile_hitbox;
pub use autotile::GroundVariant;
pub use autotile::TileArt;
pub use autotile::TileInfo;
pub use autotile::LAYER_ENEMY;
pub use autotile::LAYER_GROUND;
pub use autotile::LAYER_PLAYER;
pub use autotile::LAYER_RIVAL;
pub use autotile::LAYER_WIN;
pub use direction::Direction;
pub use encode::encode_path;
pub use errors::LoadError;
pub use flow::check_win;
pub use flow::first_outcome;
pub use flow::out_of_bounds;
pub use flow::outcome_event;
pub use flow::player_enemy_collision;
pub use flow::player_ground_collision;
pub use flow::resolve_ground_collision;
pub use flow::stolen_path;
pub use flow::EnemyAction;
pub use flow::GameOverEvent;
pub use flow::Outcome;
pub use flow::LAYER_STEP;
pub use flow::MAX_COLLIDERS;
pub use geom::Collision;
pub use geom::CollisionType;
pub use geom::Hitbox;
pub use geom::Size2;
pub use geom::WorldVec;
pub use geom::COORD_LIMIT;
pub use geom::RESOLVE_LIMIT;
pub use grid::convert_map_text_to_tiles;
pub use grid::read_map_from_file;
pub use grid::TileGrid;
pub use grid::MAX_GRID;
pub use level::chosen_rival_path;
pub use level::load_level;
pub use level::parse_path;
pub use level::read_map;
pub use level::EntityKind;
pub use level::Level;
pub use level::RivalLevelPositions;
pub use level::RivalPositions;
pub use level::SpawnedEntity;
pub use level::LEVEL_COUNT;
pub use motion::blocky_movement;
pub use motion::camera_movement;
pub use motion::jeremy_movement;
pub use motion::movement;
pub use motion::CLIMB_AMPLITUDE;
pub use motion::CLIMB_SPEED;
pub use motion::DIVE_SPEED;
pub use motion::PATROL_AMPLITUDE;
pub use motion::PATROL_SPEED;
pub use parse::split_lines;
pub use parse::split_on;
pub use parse::str_to_chars;
pub use player::input;
pub use player::Character;
pub use positions::Positions;
pub use positions::RepeatTimer;
pub use positions::ReplayStep;
pub use positions::SAMPLE_INTERVAL_MS;
pub use state::AppState;
pub use state::Difficulty;
pub use state::LeaderBoardOptions;
pub use state::Options;
pub use tile::str_eq;
pub use tile::tile_from_chars;
pub use tile::Tile;
pub use tile::TILE_SIZE;
pub use velocity::Velocity;
pub use velocity::GRAVITY_PER_MS;
pub use velocity::JUMP_SPEED;
pub use velocity::MAX_FALL_SPEED;
pub use velocity::MAX_RUN_SPEED;
pub use velocity::MAX_TICK_MS;
pub use velocity::RUN_ACCEL;
pub use velocity::SPEED_LIMIT;

verus! {

} // verus!
