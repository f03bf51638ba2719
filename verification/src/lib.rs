//! Core logic of an offline chess-puzzle trainer: parsing the promotion
//! suffix of a move in coordinate notation, and keeping the user's settings
//! record in sync with its on-disk document.

pub mod config;
pub mod puzzles;
pub mod settings;
pub mod styles;
pub mod text;
