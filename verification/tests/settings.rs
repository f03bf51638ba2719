use offline_chess_puzzles::config::{
    parse_config, serialize_config, Color, OfflinePuzzlesConfig,
};
use offline_chess_puzzles::settings::{
    ChangedFields, SaveOutcome, SettingsAction, SettingsMessage, SettingsTab,
};
use offline_chess_puzzles::styles::{PieceTheme, Theme};

fn sample_config() -> OfflinePuzzlesConfig {
    OfflinePuzzlesConfig {
        engine_path: None,
        engine_limit: 7,
        window_width: 800,
        window_height: 640,
        puzzle_db_location: String::from("puzzles.db"),
        piece_theme: PieceTheme::Alpha,
        search_results_limit: 42,
        play_sound: false,
        auto_load_next: true,
        flip_board: false,
        board_theme: Theme::Purple,
        last_min_rating: 1000,
        last_max_rating: 2000,
        last_theme: String::from("fork"),
        last_opening: String::from("caro-kann"),
        last_opening_side: Some(Color::White),
    }
}

#[test]
fn new_binds_every_field_to_the_record() {
    let tab = SettingsTab::new(sample_config());
    assert_eq!(tab.engine_path, "");
    assert_eq!(tab.window_width, 800);
    assert_eq!(tab.window_height, 640);
    assert_eq!(tab.piece_theme, PieceTheme::Alpha);
    assert_eq!(tab.board_theme, Theme::Purple);
    assert!(!tab.play_sound);
    assert!(tab.auto_load_next);
    assert!(!tab.flip_board);
    assert_eq!(tab.puzzle_db_location_value, "puzzles.db");
    assert_eq!(tab.search_results_limit_value, "42");
    assert_eq!(tab.settings_status, "");
    assert_eq!(tab.saved_configs, sample_config());
    assert_eq!(tab.title(), "Settings");
}

#[test]
fn empty_numeric_input_becomes_zero() {
    let mut tab = SettingsTab::new(sample_config());
    let action = tab.update(SettingsMessage::ChangeSearchResultLimit(String::new()));
    assert!(matches!(action, SettingsAction::Stay));
    assert_eq!(tab.search_results_limit_value, "0");
}

#[test]
fn non_numeric_input_leaves_field_and_status_unchanged() {
    let mut tab = SettingsTab::new(sample_config());
    tab.record_save_result(SaveOutcome::Saved);
    let action = tab.update(SettingsMessage::ChangeSearchResultLimit(String::from("12x")));
    assert!(matches!(action, SettingsAction::Stay));
    assert_eq!(tab.search_results_limit_value, "42");
    assert_eq!(tab.settings_status, "Settings saved!");
    let action = tab.update(SettingsMessage::ChangeSearchResultLimit(String::from("-3")));
    assert!(matches!(action, SettingsAction::Stay));
    assert_eq!(tab.search_results_limit_value, "42");
    assert_eq!(tab.settings_status, "Settings saved!");
}

#[test]
fn numeric_input_is_canonicalized_and_clears_status() {
    let mut tab = SettingsTab::new(sample_config());
    tab.record_save_result(SaveOutcome::Saved);
    let action = tab.update(SettingsMessage::ChangeSearchResultLimit(String::from("007")));
    assert!(matches!(action, SettingsAction::Stay));
    assert_eq!(tab.search_results_limit_value, "7");
    assert_eq!(tab.settings_status, "");
}

#[test]
fn a_leading_plus_sign_is_accepted_and_canonicalized() {
    let mut tab = SettingsTab::new(sample_config());
    let action = tab.update(SettingsMessage::ChangeSearchResultLimit(String::from("+3")));
    assert!(matches!(action, SettingsAction::Stay));
    assert_eq!(tab.search_results_limit_value, "3");
    assert_eq!(tab.settings_status, "");
}

#[test]
fn a_bare_or_repeated_plus_sign_is_rejected() {
    let mut tab = SettingsTab::new(sample_config());
    let action = tab.update(SettingsMessage::ChangeSearchResultLimit(String::from("+")));
    assert!(matches!(action, SettingsAction::Stay));
    assert_eq!(tab.search_results_limit_value, "42");
    let action = tab.update(SettingsMessage::ChangeSearchResultLimit(String::from("++3")));
    assert!(matches!(action, SettingsAction::Stay));
    assert_eq!(tab.search_results_limit_value, "42");
}

#[test]
fn toggles_ask_for_a_recompute_with_the_current_fields() {
    let mut tab = SettingsTab::new(sample_config());
    let action = tab.update(SettingsMessage::CheckPlaySound(true));
    assert!(tab.play_sound);
    match action {
        SettingsAction::Recompute(f) => {
            assert!(f.play_sound);
            assert!(f.auto_load);
            assert!(!f.flip_board);
            assert_eq!(f.piece_theme, PieceTheme::Alpha);
            assert_eq!(f.board_theme, Theme::Purple);
            assert_eq!(f.engine_path, "");
        }
        _ => panic!("expected a recompute"),
    }
    let action = tab.update(SettingsMessage::SelectBoardTheme(Theme::Green));
    assert_eq!(tab.board_theme, Theme::Green);
    match action {
        SettingsAction::Recompute(f) => assert_eq!(f.board_theme, Theme::Green),
        _ => panic!("expected a recompute"),
    }
    let action = tab.update(SettingsMessage::ChangeEnginePath(String::from("sf.exe")));
    assert_eq!(tab.engine_path, "sf.exe");
    match action {
        SettingsAction::Recompute(f) => assert_eq!(f.engine_path, "sf.exe"),
        _ => panic!("expected a recompute"),
    }
}

#[test]
fn db_location_edits_stay_local() {
    let mut tab = SettingsTab::new(sample_config());
    let action = tab.update(SettingsMessage::ChangePuzzleDbLocation(String::from("other.db")));
    assert!(matches!(action, SettingsAction::Stay));
    assert_eq!(tab.puzzle_db_location_value, "other.db");
}

#[test]
fn pressing_save_snapshots_the_editor_and_keeps_the_filters() {
    let mut tab = SettingsTab::new(sample_config());
    tab.update(SettingsMessage::CheckPlaySound(true));
    tab.update(SettingsMessage::ChangeEnginePath(String::from("sf.exe")));
    tab.update(SettingsMessage::ChangeSearchResultLimit(String::from("99")));
    let action = tab.update(SettingsMessage::ChangePressed);
    match action {
        SettingsAction::SaveRequest(c) => {
            assert_eq!(c.engine_path, Some(String::from("sf.exe")));
            assert_eq!(c.engine_limit, 7);
            assert_eq!(c.window_width, 800);
            assert_eq!(c.window_height, 640);
            assert!(c.play_sound);
            assert_eq!(c.search_results_limit, 99);
            assert_eq!(c.last_min_rating, 1000);
            assert_eq!(c.last_max_rating, 2000);
            assert_eq!(c.last_theme, "fork");
            assert_eq!(c.last_opening, "caro-kann");
            assert_eq!(c.last_opening_side, Some(Color::White));
        }
        _ => panic!("expected a save request"),
    }
}

#[test]
fn an_empty_engine_path_is_saved_as_no_engine() {
    let mut tab = SettingsTab::new(sample_config());
    let action = tab.update(SettingsMessage::ChangePressed);
    match action {
        SettingsAction::SaveRequest(c) => assert_eq!(c.engine_path, None),
        _ => panic!("expected a save request"),
    }
}

#[test]
fn save_outcomes_set_their_status_lines() {
    let mut tab = SettingsTab::new(sample_config());
    tab.record_save_result(SaveOutcome::Saved);
    assert_eq!(tab.settings_status, "Settings saved!");
    tab.record_save_result(SaveOutcome::SerializationFailed);
    assert_eq!(tab.settings_status, "Error saving config file.");
    tab.record_save_result(SaveOutcome::StoreUnreachable);
    assert_eq!(tab.settings_status, "Error reading config file.");
}

#[test]
fn send_changes_overlays_only_the_given_fields() {
    let saved = sample_config();
    let fields = ChangedFields {
        play_sound: true,
        auto_load: false,
        flip_board: true,
        piece_theme: PieceTheme::Cburnett,
        board_theme: Theme::Blue,
        engine_path: String::from("engine"),
    };
    let c = SettingsTab::send_changes(fields, &saved).unwrap();
    assert!(c.play_sound);
    assert!(!c.auto_load_next);
    assert!(c.flip_board);
    assert_eq!(c.piece_theme, PieceTheme::Cburnett);
    assert_eq!(c.board_theme, Theme::Blue);
    assert_eq!(c.engine_path, Some(String::from("engine")));
    assert_eq!(c.engine_limit, saved.engine_limit);
    assert_eq!(c.puzzle_db_location, saved.puzzle_db_location);
    assert_eq!(c.search_results_limit, saved.search_results_limit);
    assert_eq!(c.last_min_rating, saved.last_min_rating);
    assert_eq!(c.last_max_rating, saved.last_max_rating);
    assert_eq!(c.last_theme, saved.last_theme);
    assert_eq!(c.last_opening, saved.last_opening);
    assert_eq!(c.last_opening_side, saved.last_opening_side);
}

#[test]
fn send_changes_with_empty_engine_path_means_no_engine() {
    let saved = sample_config();
    let fields = ChangedFields {
        play_sound: false,
        auto_load: true,
        flip_board: false,
        piece_theme: PieceTheme::Alpha,
        board_theme: Theme::Purple,
        engine_path: String::new(),
    };
    let c = SettingsTab::send_changes(fields, &saved).unwrap();
    assert_eq!(c.engine_path, None);
}

#[test]
fn saved_window_size_survives_the_round_trip() {
    let prior = sample_config();
    let resized = SettingsTab::save_window_size(1024, 768, &prior);
    let text = serialize_config(&resized);
    let loaded = parse_config(&text).unwrap();
    assert_eq!(loaded.window_width, 1024);
    assert_eq!(loaded.window_height, 768);
    assert_eq!(loaded.engine_path, prior.engine_path);
    assert_eq!(loaded.engine_limit, prior.engine_limit);
    assert_eq!(loaded.puzzle_db_location, prior.puzzle_db_location);
    assert_eq!(loaded.piece_theme, prior.piece_theme);
    assert_eq!(loaded.search_results_limit, prior.search_results_limit);
    assert_eq!(loaded.play_sound, prior.play_sound);
    assert_eq!(loaded.auto_load_next, prior.auto_load_next);
    assert_eq!(loaded.flip_board, prior.flip_board);
    assert_eq!(loaded.board_theme, prior.board_theme);
    assert_eq!(loaded.last_min_rating, prior.last_min_rating);
    assert_eq!(loaded.last_max_rating, prior.last_max_rating);
    assert_eq!(loaded.last_theme, prior.last_theme);
    assert_eq!(loaded.last_opening, prior.last_opening);
    assert_eq!(loaded.last_opening_side, prior.last_opening_side);
}
