use chaz::AppState;
use chaz::{
    Difficulty, EntityKind, GameOverEvent, Outcome, Positions, RivalLevelPositions,
    RivalPositions, Tile, TileArt, WorldVec, chosen_rival_path, first_outcome, load_level,
    out_of_bounds, outcome_event, read_map,
};

#[test]
fn outcome_messages_match_the_run_ended_screen() {
    let e = outcome_event(Outcome::Win);
    assert_eq!(e.main_message, "You\nwin");
    assert!(e.secondary_message.is_none());
    let e = outcome_event(Outcome::KilledByEnemy);
    assert_eq!(e.main_message, "Game\nOver");
    assert_eq!(e.secondary_message.as_deref(), Some("Killed by an enemy"));
    let e = outcome_event(Outcome::FellOutOfBounds);
    assert_eq!(e.secondary_message.as_deref(), Some("Fell from a great height"));
    let e = outcome_event(Outcome::RivalFinished);
    assert_eq!(e.secondary_message.as_deref(), Some("Your rival was faster"));
    let e = GameOverEvent::default();
    assert_eq!(e.main_message, "Game\nOver");
    assert!(e.secondary_message.is_none());
}

#[test]
fn simultaneous_terminal_conditions_resolve_by_priority() {
    assert_eq!(first_outcome(true, true, true, true), Some(Outcome::Win));
    assert_eq!(first_outcome(false, true, true, true), Some(Outcome::KilledByEnemy));
    assert_eq!(first_outcome(false, false, true, true), Some(Outcome::FellOutOfBounds));
    assert_eq!(first_outcome(false, false, false, true), Some(Outcome::RivalFinished));
    assert_eq!(first_outcome(false, false, false, false), None);
}

#[test]
fn falling_below_the_visible_edge_ends_the_run() {
    // Camera at 0 in a 400-unit-high window: the visible lower edge is -200.
    assert!(!out_of_bounds(-200_000, 0, 400_000));
    assert!(out_of_bounds(-200_001, 0, 400_000));
    assert!(!out_of_bounds(50_000, 0, 400_000));
}

fn sample_level() -> chaz::Level {
    let map_text = "Tile::Player Tile::Ground\nTile::Rival Tile::Ground\nTile::Blue Tile::Jeremy\nTile::Blocky Tile::Win\n";
    let path_text = "0,1\n2,3\n";
    read_map(map_text, path_text).unwrap()
}

#[test]
fn load_level_spawns_one_entity_per_non_empty_cell() {
    let level = sample_level();
    let entities = load_level(&level, Difficulty::Medium);
    assert_eq!(entities.len(), 8);
    // Cells load west to east, bottom to top within a column.
    assert!(matches!(entities[0].kind, EntityKind::Player { .. }));
    assert_eq!(entities[0].tile_type, Tile::Player);
    assert!(matches!(entities[1].kind, EntityKind::GroundCollider(_)));
    assert!(matches!(entities[2].kind, EntityKind::Rival { .. }));
    assert!(matches!(entities[4].kind, EntityKind::StaticEnemy(_)));
    assert!(
        matches!(entities[5].kind, EntityKind::PatrolHorizontal { direction, .. } if direction == chaz::Direction::Left)
    );
    assert!(
        matches!(entities[6].kind, EntityKind::PatrolVertical { direction, .. } if direction == chaz::Direction::Up)
    );
    assert!(matches!(entities[7].kind, EntityKind::WinCollider(_)));
    assert_eq!(entities[7].image, TileArt::Heart);
    // A patrolling enemy is anchored where it spawned.
    match entities[5].kind {
        EntityKind::PatrolHorizontal { initial_position, .. } => {
            assert_eq!(initial_position, entities[5].position);
        },
        _ => unreachable!(),
    }
}

#[test]
fn training_difficulty_spawns_no_rival() {
    let level = sample_level();
    let entities = load_level(&level, Difficulty::Training);
    assert_eq!(entities.len(), 7);
    assert!(entities.iter().all(|e| !matches!(e.kind, EntityKind::Rival { .. })));
}

#[test]
fn fully_surrounded_ground_spawns_a_decoration() {
    let mut rows = Vec::new();
    for _ in 0..3 {
        rows.push("Tile::Ground Tile::Ground Tile::Ground".to_string());
    }
    let map_text = format!("{}\n", rows.join("\n"));
    let level = read_map(&map_text, "").unwrap();
    let entities = load_level(&level, Difficulty::Medium);
    assert_eq!(entities.len(), 9);
    // The center cell is fully surrounded: drawn, but with no collider.
    let center = &entities[4];
    assert_eq!(center.kind, EntityKind::Decoration);
    assert_eq!(center.image, TileArt::Ground(chaz::GroundVariant::Full));
}

#[test]
fn the_rival_replays_the_stolen_path_after_a_win() {
    let level = sample_level();
    let hardcoded = chosen_rival_path(&level, &RivalLevelPositions::HardCoded);
    assert_eq!(hardcoded.values.len(), 2);
    assert_eq!(hardcoded.values[0], WorldVec { x: 0, y: 1_000, z: chaz::LAYER_RIVAL });

    let mut registry = RivalPositions::default();
    assert!(matches!(registry.0[2], RivalLevelPositions::HardCoded));
    let mut run = Positions::default();
    run.record_tick(&WorldVec { x: 5_000, y: 6_000, z: 2_000 }, 100);
    let path = chaz::stolen_path(&run);
    registry.steal(2, path);
    match &registry.0[2] {
        RivalLevelPositions::Stolen(p) => {
            let chosen = chosen_rival_path(&level, &registry.0[2]);
            assert_eq!(chosen.values.len(), 1);
            assert_eq!(chosen.values[0], WorldVec { x: 5_000, y: 6_000, z: 1_000 });
            assert_eq!(p.values.len(), 1);
        },
        _ => unreachable!(),
    }
    assert!(matches!(registry.0[0], RivalLevelPositions::HardCoded));
    assert!(matches!(registry.0[3], RivalLevelPositions::HardCoded));
}

#[test]
fn difficulty_cycles_through_all_choices() {
    let mut d = Difficulty::default();
    assert_eq!(d, Difficulty::Medium);
    d = d.next();
    assert_eq!(d, Difficulty::Hard);
    d = d.next();
    assert_eq!(d, Difficulty::Zatoichi);
    d = d.next();
    assert_eq!(d, Difficulty::Training);
    d = d.next();
    assert_eq!(d, Difficulty::Easy);
    d = d.next();
    assert_eq!(d, Difficulty::Medium);
    assert_eq!(Difficulty::Hard.label(), "Hard");
}

#[test]
fn options_default_to_a_medium_first_level_run() {
    let mut options = chaz::Options::default();
    assert_eq!(options.name, "Chaz");
    assert_eq!(options.difficulty, Difficulty::Medium);
    assert_eq!(options.level, 1);
    assert_eq!(options.music_volume, 100);
    options.set_difficulty(Difficulty::Zatoichi);
    options.set_level(3);
    assert_eq!(options.difficulty, Difficulty::Zatoichi);
    assert_eq!(options.level, 3);
    assert_eq!(options.name, "Chaz");
    let lb = chaz::LeaderBoardOptions::default();
    assert_eq!(lb.level, 1);
}

#[test]
fn app_states_are_distinct() {
    let states = [
        AppState::PreLoad,
        AppState::Loading,
        AppState::Menu,
        AppState::Options,
        AppState::LevelSelect,
        AppState::Game,
        AppState::GameOver,
        AppState::Pause,
    ];
    for (i, a) in states.iter().enumerate() {
        for (j, b) in states.iter().enumerate() {
            assert_eq!(a == b, i == j);
        }
    }
}
