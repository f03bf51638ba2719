use offline_chess_puzzles::puzzles::{PromotionPiece, PuzzleTab};

#[test]
fn short_notations_are_no_promotion() {
    assert_eq!(PuzzleTab::check_promotion(""), None);
    assert_eq!(PuzzleTab::check_promotion("a1"), None);
    assert_eq!(PuzzleTab::check_promotion("e7e8"), None);
    assert_eq!(PuzzleTab::check_promotion("abcd"), None);
}

#[test]
fn length_counts_characters_not_bytes() {
    // four characters, twelve bytes: still no promotion
    assert_eq!(PuzzleTab::check_promotion("žžžž"), None);
    // five characters ending in the rook letter
    assert_eq!(PuzzleTab::check_promotion("žžžžr"), Some(PromotionPiece::Rook));
}

#[test]
fn recognized_suffix_letters() {
    assert_eq!(PuzzleTab::check_promotion("e7e8r"), Some(PromotionPiece::Rook));
    assert_eq!(PuzzleTab::check_promotion("e7e8n"), Some(PromotionPiece::Knight));
    assert_eq!(PuzzleTab::check_promotion("e7e8b"), Some(PromotionPiece::Bishop));
}

#[test]
fn unrecognized_suffix_defaults_to_queen() {
    assert_eq!(PuzzleTab::check_promotion("e7e8q"), Some(PromotionPiece::Queen));
    assert_eq!(PuzzleTab::check_promotion("e7e8z"), Some(PromotionPiece::Queen));
    assert_eq!(PuzzleTab::check_promotion("e7e8 "), Some(PromotionPiece::Queen));
}

#[test]
fn only_the_fifth_character_decides() {
    assert_eq!(PuzzleTab::check_promotion("e7e8r+"), Some(PromotionPiece::Rook));
    assert_eq!(PuzzleTab::check_promotion("e7e8qn"), Some(PromotionPiece::Queen));
}

#[test]
fn concrete_scenario() {
    assert_eq!(PuzzleTab::check_promotion("e7e8q"), Some(PromotionPiece::Queen));
    assert_eq!(PuzzleTab::check_promotion("e7e8n"), Some(PromotionPiece::Knight));
    assert_eq!(PuzzleTab::check_promotion("e7e8"), None);
    assert_eq!(PuzzleTab::check_promotion("a1"), None);
}

#[test]
fn fresh_puzzle_tab_is_empty() {
    let tab = PuzzleTab::new();
    assert!(tab.puzzles.is_empty());
    assert_eq!(tab.current_puzzle, 0);
    assert_eq!(tab.current_puzzle_move, 1);
    assert!(!tab.is_playing);
    assert_eq!(tab.current_puzzle_fen, "");
    assert_eq!(tab.title(), "Current Puzzle");
}
