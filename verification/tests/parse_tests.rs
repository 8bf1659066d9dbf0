use chaz::{
    split_lines, split_on, str_to_chars, LoadError, Tile, TileGrid, convert_map_text_to_tiles,
    parse_path, read_map, read_map_from_file, str_eq, tile_from_chars, LAYER_RIVAL,
    SAMPLE_INTERVAL_MS,
};

fn pieces(text: &str, sep: char) -> Vec<String> {
    let chars = str_to_chars(text);
    split_on(&chars, sep)
        .into_iter()
        .map(|piece| piece.into_iter().collect())
        .collect()
}

#[test]
fn splitting_always_yields_one_more_piece_than_separators() {
    assert_eq!(pieces("a b", ' '), vec!["a", "b"]);
    assert_eq!(pieces("a  b", ' '), vec!["a", "", "b"]);
    assert_eq!(pieces("", ' '), vec![""]);
    assert_eq!(pieces("a ", ' '), vec!["a", ""]);
    assert_eq!(pieces(" a", ' '), vec!["", "a"]);
}

#[test]
fn line_splitting_ignores_one_trailing_newline() {
    let lines = |text: &str| -> Vec<String> {
        let chars = str_to_chars(text);
        split_lines(&chars)
            .into_iter()
            .map(|piece| piece.into_iter().collect())
            .collect()
    };
    assert_eq!(lines(""), Vec::<String>::new());
    assert_eq!(lines("a\nb\n"), vec!["a", "b"]);
    assert_eq!(lines("a\nb"), vec!["a", "b"]);
    assert_eq!(lines("a\n\n"), vec!["a", ""]);
}

#[test]
fn every_tile_token_parses_to_its_kind() {
    assert_eq!(Tile::from_str("Tile::Empty"), Ok(Tile::Empty));
    assert_eq!(Tile::from_str("Tile::Ground"), Ok(Tile::Ground));
    assert_eq!(Tile::from_str("Tile::Win"), Ok(Tile::Win));
    assert_eq!(Tile::from_str("Tile::Player"), Ok(Tile::Player));
    assert_eq!(Tile::from_str("Tile::Rival"), Ok(Tile::Rival));
    assert_eq!(Tile::from_str("Tile::Blue"), Ok(Tile::Blue));
    assert_eq!(Tile::from_str("Tile::Jeremy"), Ok(Tile::Jeremy));
    assert_eq!(Tile::from_str("Tile::Blocky"), Ok(Tile::Blocky));
}

#[test]
fn unknown_tokens_are_errors_not_substitutions() {
    assert_eq!(Tile::from_str("Tile::Lava"), Err(()));
    assert_eq!(Tile::from_str("Ground"), Err(()));
    assert_eq!(Tile::from_str(""), Err(()));
    assert_eq!(Tile::from_str("tile::ground"), Err(()));
}

#[test]
fn char_level_token_parsing_agrees() {
    let token: Vec<char> = "Tile::Jeremy".chars().collect();
    assert_eq!(tile_from_chars(&token), Ok(Tile::Jeremy));
    let token: Vec<char> = "Tile::JeremyX".chars().collect();
    assert_eq!(tile_from_chars(&token), Err(()));
    assert!(str_eq("abc", "abc"));
    assert!(!str_eq("abc", "abd"));
    assert!(!str_eq("abc", "ab"));
}

#[test]
fn token_grids_convert_cell_by_cell() {
    let text = vec![
        vec!["Tile::Empty", "Tile::Ground"],
        vec!["Tile::Player", "Tile::Win"],
    ];
    let tiles = convert_map_text_to_tiles(text).unwrap();
    assert_eq!(
        tiles,
        vec![
            vec![Tile::Empty, Tile::Ground],
            vec![Tile::Player, Tile::Win],
        ]
    );
    let bad = vec![vec!["Tile::Empty", "Tile::Slime"]];
    assert_eq!(convert_map_text_to_tiles(bad), Err(()));
}

#[test]
fn level_text_decodes_line_by_line() {
    // One line per grid column, tokens separated by single spaces.
    let text = "Tile::Ground Tile::Empty\nTile::Rival Tile::Blocky\n";
    let tiles = read_map_from_file(text).unwrap();
    assert_eq!(
        tiles,
        vec![
            vec![Tile::Ground, Tile::Empty],
            vec![Tile::Rival, Tile::Blocky],
        ]
    );
    assert!(read_map_from_file("Tile::Ground Tile::What\n").is_err());
}

#[test]
fn grid_shape_is_validated() {
    assert!(TileGrid::new(vec![vec![Tile::Ground], vec![Tile::Empty]]).is_ok());
    assert_eq!(
        TileGrid::new(vec![]).unwrap_err(),
        LoadError::BadShape
    );
    assert_eq!(
        TileGrid::new(vec![vec![]]).unwrap_err(),
        LoadError::BadShape
    );
    assert_eq!(
        TileGrid::new(vec![vec![Tile::Ground, Tile::Empty], vec![Tile::Empty]]).unwrap_err(),
        LoadError::BadShape
    );
}

#[test]
fn path_lines_decode_to_fixed_point_positions() {
    let path = parse_path("-144.0,-38.077\n10.5,2\n").unwrap();
    assert_eq!(path.len(), 2);
    assert_eq!(path[0].x, -144_000);
    assert_eq!(path[0].y, -38_077);
    assert_eq!(path[0].z, LAYER_RIVAL);
    assert_eq!(path[1].x, 10_500);
    assert_eq!(path[1].y, 2_000);
}

#[test]
fn fractional_digits_beyond_thousandths_are_truncated() {
    let path = parse_path("0.1234,-0.9999\n").unwrap();
    assert_eq!(path[0].x, 123);
    assert_eq!(path[0].y, -999);
}

#[test]
fn a_third_coordinate_sets_the_draw_layer() {
    let path = parse_path("1,2,3.5\n").unwrap();
    assert_eq!(path[0].z, 3_500);
}

#[test]
fn malformed_path_lines_fail_the_whole_path() {
    assert_eq!(parse_path("1.0\n").unwrap_err(), LoadError::BadNumber);
    assert_eq!(parse_path("1,2,3,4\n").unwrap_err(), LoadError::BadNumber);
    assert_eq!(parse_path("a,b\n").unwrap_err(), LoadError::BadNumber);
    assert_eq!(parse_path("1.,2\n").unwrap_err(), LoadError::BadNumber);
    assert_eq!(parse_path(".5,2\n").unwrap_err(), LoadError::BadNumber);
    assert_eq!(parse_path("1 ,2\n").unwrap_err(), LoadError::BadNumber);
    assert_eq!(parse_path("--1,2\n").unwrap_err(), LoadError::BadNumber);
    assert_eq!(parse_path("1,2\n\n3,4\n").unwrap_err(), LoadError::BadNumber);
    // A coordinate beyond the representable range is rejected, not wrapped.
    assert_eq!(
        parse_path("99999999999999999999,0\n").unwrap_err(),
        LoadError::BadNumber
    );
}

#[test]
fn an_empty_path_is_a_valid_empty_queue() {
    let path = parse_path("").unwrap();
    assert_eq!(path.len(), 0);
}

#[test]
fn an_encoded_path_decodes_to_the_same_positions() {
    let text = "-144.0,-38.077\n10.5,2,1.5\n0.001,-0.001,0\n";
    let decoded = parse_path(text).unwrap();
    let encoded: String = chaz::encode_path(&decoded).into_iter().collect();
    assert_eq!(encoded, "-144.000,-38.077,1.500\n10.500,2.000,1.500\n0.001,-0.001,0.000\n");
    let round_tripped = parse_path(&encoded).unwrap();
    assert_eq!(decoded, round_tripped);
}

#[test]
fn read_map_assembles_grid_and_rival_path() {
    let map_text = "Tile::Player Tile::Ground\nTile::Rival Tile::Ground\nTile::Win Tile::Ground\n";
    let path_text = "0,1\n2,3\n";
    let level = read_map(map_text, path_text).unwrap();
    assert_eq!(level.grid.width(), 3);
    assert_eq!(level.grid.height(), 2);
    assert_eq!(level.grid.tile_at(0, 0), Tile::Player);
    assert_eq!(level.grid.tile_at(2, 0), Tile::Win);
    assert_eq!(level.rival_positions.values.len(), 2);
    assert_eq!(level.rival_positions.timer.interval_ms, SAMPLE_INTERVAL_MS);
    assert_eq!(level.rival_positions.timer.elapsed_ms, 0);
}

#[test]
fn read_map_reports_the_first_failure() {
    assert_eq!(
        read_map("Tile::Nope\n", "0,1\n").unwrap_err(),
        LoadError::BadTile
    );
    assert_eq!(
        read_map("Tile::Ground Tile::Ground\nTile::Ground\n", "0,1\n").unwrap_err(),
        LoadError::BadShape
    );
    assert_eq!(
        read_map("Tile::Ground\n", "zero,one\n").unwrap_err(),
        LoadError::BadNumber
    );
}
