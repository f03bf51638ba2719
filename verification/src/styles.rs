//! Enumerated piece and board themes that the settings record stores.

use vstd::prelude::*;
use crate::text::str_eq;

verus! {

#[derive(Debug, Clone, Copy, PartialEq, Eq, Structural)]
pub enum PieceTheme {
    Cburnett,
    Merida,
    Alpha,
}

#[derive(Debug, Clone, Copy, PartialEq, Eq, Structural)]
pub enum Theme {
    Blue,
    Green,
    Purple,
}

/// The tag under which a piece theme stands in the settings document.
pub open spec fn piece_tag(t: PieceTheme) -> Seq<char> {
    match t {
        PieceTheme::Cburnett => "cburnett"@,
        PieceTheme::Merida => "merida"@,
        PieceTheme::Alpha => "alpha"@,
    }
}

/// The piece theme a tag denotes, if any.
pub open spec fn piece_of_tag(v: Seq<char>) -> Option<PieceTheme> {
    if v == "cburnett"@ {
        Some(PieceTheme::Cburnett)
    } else if v == "merida"@ {
        Some(PieceTheme::Merida)
    } else if v == "alpha"@ {
        Some(PieceTheme::Alpha)
    } else {
        None
    }
}

/// The tag under which a board theme stands in the settings document.
pub open spec fn theme_tag(t: Theme) -> Seq<char> {
    match t {
        Theme::Blue => "blue"@,
        Theme::Green => "green"@,
        Theme::Purple => "purple"@,
    }
}

/// The board theme a tag denotes, if any.
pub open spec fn theme_of_tag(v: Seq<char>) -> Option<Theme> {
    if v == "blue"@ {
        Some(Theme::Blue)
    } else if v == "green"@ {
        Some(Theme::Green)
    } else if v == "purple"@ {
        Some(Theme::Purple)
    } else {
        None
    }
}

/// Tags denote their own theme and no other.
pub proof fn lemma_piece_of_tag(t: PieceTheme)
    ensures
        piece_of_tag(piece_tag(t)) == Some(t),
{
    reveal_strlit("cburnett");
    reveal_strlit("merida");
    reveal_strlit("alpha");
    assert("cburnett"@.len() == 8);
    assert("merida"@.len() == 6);
    assert("alpha"@.len() == 5);
}

/// Tags denote their own theme and no other.
pub proof fn lemma_theme_of_tag(t: Theme)
    ensures
        theme_of_tag(theme_tag(t)) == Some(t),
{
    reveal_strlit("blue");
    reveal_strlit("green");
    reveal_strlit("purple");
    assert("blue"@.len() == 4);
    assert("green"@.len() == 5);
    assert("purple"@.len() == 6);
}

pub fn piece_tag_str(t: PieceTheme) -> (r: &'static str)
    ensures
        r@ == piece_tag(t),
{
    match t {
        PieceTheme::Cburnett => "cburnett",
        PieceTheme::Merida => "merida",
        PieceTheme::Alpha => "alpha",
    }
}

pub fn theme_tag_str(t: Theme) -> (r: &'static str)
    ensures
        r@ == theme_tag(t),
{
    match t {
        Theme::Blue => "blue",
        Theme::Green => "green",
        Theme::Purple => "purple",
    }
}

pub fn piece_from_tag(s: &str) -> (r: Option<PieceTheme>)
    ensures
        r == piece_of_tag(s@),
{
    if str_eq(s, "cburnett") {
        Some(PieceTheme::Cburnett)
    } else if str_eq(s, "merida") {
        Some(PieceTheme::Merida)
    } else if str_eq(s, "alpha") {
        Some(PieceTheme::Alpha)
    } else {
        None
    }
}

pub fn theme_from_tag(s: &str) -> (r: Option<Theme>)
    ensures
        r == theme_of_tag(s@),
{
    if str_eq(s, "blue") {
        Some(Theme::Blue)
    } else if str_eq(s, "green") {
        Some(Theme::Green)
    } else if str_eq(s, "purple") {
        Some(Theme::Purple)
    } else {
        None
    }
}

} // verus!
