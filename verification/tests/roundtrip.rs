use offline_chess_puzzles::config::{
    parse_config, serialize_config, Color, OfflinePuzzlesConfig,
};
use offline_chess_puzzles::styles::{PieceTheme, Theme};

fn full_config() -> OfflinePuzzlesConfig {
    OfflinePuzzlesConfig {
        engine_path: Some(String::from("C:\\engines\\stockfish.exe")),
        engine_limit: 15,
        window_width: 1280,
        window_height: 720,
        puzzle_db_location: String::from("data/lichess_db_puzzle.csv"),
        piece_theme: PieceTheme::Merida,
        search_results_limit: 500,
        play_sound: true,
        auto_load_next: true,
        flip_board: false,
        board_theme: Theme::Green,
        last_min_rating: 1200,
        last_max_rating: 2400,
        last_theme: String::from("endgame"),
        last_opening: String::from("Sicilian \"Najdorf\""),
        last_opening_side: Some(Color::Black),
    }
}

#[test]
fn round_trip_default_record() {
    let c = OfflinePuzzlesConfig::default();
    let text = serialize_config(&c);
    assert_eq!(parse_config(&text), Some(c));
}

#[test]
fn round_trip_full_record() {
    let c = full_config();
    let text = serialize_config(&c);
    assert_eq!(parse_config(&text), Some(c));
}

#[test]
fn round_trip_without_engine_path() {
    let mut c = full_config();
    c.engine_path = None;
    c.last_opening_side = None;
    let text = serialize_config(&c);
    assert_eq!(parse_config(&text), Some(c));
}

#[test]
fn round_trip_awkward_strings() {
    let mut c = full_config();
    c.engine_path = Some(String::from("a \"quoted\" \\ path\nwith a newline"));
    c.puzzle_db_location = String::from("");
    c.last_theme = String::from("\\\\\"\"");
    c.last_opening = String::from("žluťoučký kůň");
    let text = serialize_config(&c);
    assert_eq!(parse_config(&text), Some(c));
}

#[test]
fn round_trip_extreme_numbers() {
    let mut c = full_config();
    c.engine_limit = u32::MAX;
    c.window_width = 0;
    c.window_height = 1;
    c.search_results_limit = usize::MAX;
    c.last_min_rating = 0;
    c.last_max_rating = u32::MAX;
    let text = serialize_config(&c);
    assert_eq!(parse_config(&text), Some(c));
}

#[test]
fn document_text_is_exact() {
    let c = OfflinePuzzlesConfig::default();
    let expected = "{\n  \"engine_path\": null,\n  \"engine_limit\": 3,\n  \"window_width\": 930,\n  \"window_height\": 600,\n  \"puzzle_db_location\": \"puzzles.db\",\n  \"piece_theme\": \"cburnett\",\n  \"search_results_limit\": 20,\n  \"play_sound\": false,\n  \"auto_load_next\": false,\n  \"flip_board\": false,\n  \"board_theme\": \"blue\",\n  \"last_min_rating\": 0,\n  \"last_max_rating\": 4000,\n  \"last_theme\": \"all\",\n  \"last_opening\": \"any\",\n  \"last_opening_side\": null\n}";
    assert_eq!(serialize_config(&c), expected);
}

#[test]
fn escaped_characters_stand_escaped_in_the_document() {
    let mut c = OfflinePuzzlesConfig::default();
    c.last_theme = String::from("a\"b\\c");
    let text = serialize_config(&c);
    assert!(text.contains("\"a\\\"b\\\\c\""));
}

#[test]
fn round_trip_control_characters() {
    let mut c = full_config();
    c.last_theme = String::from("tab\there\nand\rthere");
    c.last_opening = String::from("\u{8}\u{c}\u{1}\u{1f}\u{0}");
    let text = serialize_config(&c);
    assert_eq!(parse_config(&text), Some(c));
}

#[test]
fn control_characters_stand_as_their_escapes_in_the_document() {
    let mut c = OfflinePuzzlesConfig::default();
    c.last_theme = String::from("a\tb\nc\u{1}d");
    let text = serialize_config(&c);
    assert!(text.contains("\"a\\tb\\nc\\u0001d\""));
}

#[test]
fn reading_accepts_the_other_escape_spellings() {
    let good = serialize_config(&OfflinePuzzlesConfig::default());
    let slash = good.replace("\"all\"", "\"a\\/b\"");
    let parsed = parse_config(&slash).unwrap();
    assert_eq!(parsed.last_theme, "a/b");
    let hex = good.replace("\"all\"", "\"a\\u000Ab\"");
    let parsed = parse_config(&hex).unwrap();
    assert_eq!(parsed.last_theme, "a\nb");
}

#[test]
fn bad_escapes_are_rejected() {
    let good = serialize_config(&OfflinePuzzlesConfig::default());
    let unknown = good.replace("\"all\"", "\"a\\xb\"");
    assert_eq!(parse_config(&unknown), None);
    let short_hex = good.replace("\"all\"", "\"a\\u00g1b\"");
    assert_eq!(parse_config(&short_hex), None);
    let too_high = good.replace("\"all\"", "\"a\\u0100b\"");
    assert_eq!(parse_config(&too_high), None);
}

#[test]
fn corrupt_documents_are_rejected() {
    assert_eq!(parse_config(""), None);
    assert_eq!(parse_config("{}"), None);
    assert_eq!(parse_config("not a settings document"), None);
    let good = serialize_config(&OfflinePuzzlesConfig::default());
    let truncated = &good[..good.len() - 2];
    assert_eq!(parse_config(truncated), None);
    let mut trailing = good.clone();
    trailing.push('x');
    assert_eq!(parse_config(&trailing), None);
    let renamed = good.replace("play_sound", "play_laugh");
    assert_eq!(parse_config(&renamed), None);
}

#[test]
fn out_of_range_numbers_are_rejected() {
    let good = serialize_config(&OfflinePuzzlesConfig::default());
    let too_big = good.replace("\"engine_limit\": 3", "\"engine_limit\": 4294967296");
    assert_eq!(parse_config(&too_big), None);
    let huge = good.replace(
        "\"engine_limit\": 3",
        "\"engine_limit\": 99999999999999999999999999999999",
    );
    assert_eq!(parse_config(&huge), None);
}

#[test]
fn unknown_tags_are_rejected() {
    let good = serialize_config(&OfflinePuzzlesConfig::default());
    let bad_piece = good.replace("\"cburnett\"", "\"staunton\"");
    assert_eq!(parse_config(&bad_piece), None);
    let bad_board = good.replace("\"blue\"", "\"mauve\"");
    assert_eq!(parse_config(&bad_board), None);
}
