//! The puzzle-viewer state and the move-notation promotion rule.

use vstd::prelude::*;
use vstd::string::*;
use crate::config::{Color, Puzzle};

verus! {

#[derive(Debug, Clone)]
pub enum PuzzleMessage {
    ChangeTextInputs(String),
}

/// A promotion named by the fifth character of a move in coordinate notation.
#[derive(Debug, Clone, Copy, PartialEq, Eq, Structural)]
pub enum PromotionPiece {
    Queen,
    Rook,
    Knight,
    Bishop,
}

/// The piece a promotion suffix character denotes. Anything other than the
/// three recognized letters falls back to a queen; the rule validates nothing.
pub open spec fn promotion_of(c: char) -> PromotionPiece {
    if c == 'r' {
        PromotionPiece::Rook
    } else if c == 'n' {
        PromotionPiece::Knight
    } else if c == 'b' {
        PromotionPiece::Bishop
    } else {
        PromotionPiece::Queen
    }
}

/// The state behind the puzzle-viewer tab.
#[derive(Debug, Clone)]
pub struct PuzzleTab {
    pub puzzles: Vec<Puzzle>,
    pub current_puzzle: usize,
    pub current_puzzle_move: usize,
    pub current_puzzle_side: Color,
    pub is_playing: bool,
    pub current_puzzle_fen: String,
}

impl PuzzleTab {
    pub fn new() -> (r: Self)
        ensures
            r.puzzles@.len() == 0,
            r.current_puzzle == 0,
            r.current_puzzle_move == 1,
            r.current_puzzle_side == Color::White,
            !r.is_playing,
            r.current_puzzle_fen@.len() == 0,
    {
        PuzzleTab {
            puzzles: Vec::new(),
            current_puzzle: 0,
            current_puzzle_move: 1,
            current_puzzle_side: Color::White,
            is_playing: false,
            current_puzzle_fen: String::new(),
        }
    }

    /// Text edits in the viewer are display-only: nothing changes.
    pub fn update(&mut self, message: PuzzleMessage)
        ensures
            *final(self) == *old(self),
    {
        match message {
            PuzzleMessage::ChangeTextInputs(_) => {},
        }
    }

    /// Whether the notation encodes a promotion, and to which piece: nothing
    /// for four or fewer characters, else the piece the fifth character
    /// denotes, a queen for any unrecognized character.
    pub fn check_promotion(notation: &str) -> (r: Option<PromotionPiece>)
        ensures
            notation@.len() <= 4 ==> r is None,
            notation@.len() > 4 ==> r == Some(promotion_of(notation@[4])),
    {
        if notation.unicode_len() > 4 {
            let c = notation.get_char(4);
            if c == 'r' {
                Some(PromotionPiece::Rook)
            } else if c == 'n' {
                Some(PromotionPiece::Knight)
            } else if c == 'b' {
                Some(PromotionPiece::Bishop)
            } else {
                Some(PromotionPiece::Queen)
            }
        } else {
            None
        }
    }

    pub fn title(&self) -> (r: String)
        ensures
            r@ == "Current Puzzle"@,
    {
        String::from_str("Current Puzzle")
    }
}

} // verus!
