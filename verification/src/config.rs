//! The user's configuration record and its settings document: a structured,
//! human-readable text holding exactly the record's fields, written wholesale
//! on every save and read back on load.

use vstd::prelude::*;
use vstd::string::*;
use crate::styles::{PieceTheme, Theme, piece_tag, piece_of_tag, theme_tag, theme_of_tag,
    piece_tag_str, theme_tag_str, piece_from_tag, theme_from_tag, lemma_piece_of_tag,
    lemma_theme_of_tag};
use crate::text::{dec, sp_lit, sp_uint, sp_str, sp_bool, bool_txt, quoted, str_eq, parse_lit,
    parse_u64, parse_string, parse_bool, quote_string, fmt_u64, lemma_sp_lit, lemma_sp_uint_dec,
    lemma_sp_str_quoted, lemma_sp_bool};

verus! {

/// The side a puzzle is played from.
#[derive(Debug, Clone, Copy, PartialEq, Eq, Structural)]
pub enum Color {
    White,
    Black,
}

/// The tag under which a side stands in the settings document.
pub open spec fn color_tag(c: Color) -> Seq<char> {
    match c {
        Color::White => "white"@,
        Color::Black => "black"@,
    }
}

/// The side a tag denotes, if any.
pub open spec fn color_of_tag(v: Seq<char>) -> Option<Color> {
    if v == "white"@ {
        Some(Color::White)
    } else if v == "black"@ {
        Some(Color::Black)
    } else {
        None
    }
}

/// Tags denote their own side and no other.
pub proof fn lemma_color_of_tag(c: Color)
    ensures
        color_of_tag(color_tag(c)) == Some(c),
{
    reveal_strlit("white");
    reveal_strlit("black");
    assert("white"@[0] == 'w');
    assert("black"@[0] == 'b');
    assert("black"@ != "white"@);
}

pub fn color_tag_str(c: Color) -> (r: &'static str)
    ensures
        r@ == color_tag(c),
{
    match c {
        Color::White => "white",
        Color::Black => "black",
    }
}

pub fn color_from_tag(s: &str) -> (r: Option<Color>)
    ensures
        r == color_of_tag(s@),
{
    if str_eq(s, "white") {
        Some(Color::White)
    } else if str_eq(s, "black") {
        Some(Color::Black)
    } else {
        None
    }
}

/// One puzzle as the puzzle provider hands it over.
#[derive(Debug, Clone, PartialEq)]
pub struct Puzzle {
    pub puzzle_id: String,
    pub fen: String,
    pub moves: String,
    pub rating: i64,
    pub rating_deviation: i64,
    pub popularity: i64,
    pub nb_plays: i64,
    pub themes: String,
    pub game_url: String,
}

/// The user's configuration record, persisted wholesale to the settings
/// document on every save.
#[derive(Debug, PartialEq)]
pub struct OfflinePuzzlesConfig {
    pub engine_path: Option<String>,
    pub engine_limit: u32,
    pub window_width: u32,
    pub window_height: u32,
    pub puzzle_db_location: String,
    pub piece_theme: PieceTheme,
    pub search_results_limit: usize,
    pub play_sound: bool,
    pub auto_load_next: bool,
    pub flip_board: bool,
    pub board_theme: Theme,
    pub last_min_rating: u32,
    pub last_max_rating: u32,
    pub last_theme: String,
    pub last_opening: String,
    pub last_opening_side: Option<Color>,
}

/// The mathematical shape of a configuration record.
#[verifier::ext_equal]
pub ghost struct ConfigV {
    pub engine_path: Option<Seq<char>>,
    pub engine_limit: u32,
    pub window_width: u32,
    pub window_height: u32,
    pub puzzle_db_location: Seq<char>,
    pub piece_theme: PieceTheme,
    pub search_results_limit: usize,
    pub play_sound: bool,
    pub auto_load_next: bool,
    pub flip_board: bool,
    pub board_theme: Theme,
    pub last_min_rating: u32,
    pub last_max_rating: u32,
    pub last_theme: Seq<char>,
    pub last_opening: Seq<char>,
    pub last_opening_side: Option<Color>,
}

pub open spec fn opt_view(o: Option<String>) -> Option<Seq<char>> {
    match o {
        Some(s) => Some(s@),
        None => None,
    }
}

impl View for OfflinePuzzlesConfig {
    type V = ConfigV;

    open spec fn view(&self) -> ConfigV {
        ConfigV {
            engine_path: opt_view(self.engine_path),
            engine_limit: self.engine_limit,
            window_width: self.window_width,
            window_height: self.window_height,
            puzzle_db_location: self.puzzle_db_location@,
            piece_theme: self.piece_theme,
            search_results_limit: self.search_results_limit,
            play_sound: self.play_sound,
            auto_load_next: self.auto_load_next,
            flip_board: self.flip_board,
            board_theme: self.board_theme,
            last_min_rating: self.last_min_rating,
            last_max_rating: self.last_max_rating,
            last_theme: self.last_theme@,
            last_opening: self.last_opening@,
            last_opening_side: self.last_opening_side,
        }
    }
}

impl OfflinePuzzlesConfig {
    /// A copy of the record, field for field.
    pub fn duplicate(&self) -> (r: Self)
        ensures
            r@ == self@,
    {
        OfflinePuzzlesConfig {
            engine_path: match &self.engine_path {
                Some(s) => Some(s.clone()),
                None => None,
            },
            engine_limit: self.engine_limit,
            window_width: self.window_width,
            window_height: self.window_height,
            puzzle_db_location: self.puzzle_db_location.clone(),
            piece_theme: self.piece_theme,
            search_results_limit: self.search_results_limit,
            play_sound: self.play_sound,
            auto_load_next: self.auto_load_next,
            flip_board: self.flip_board,
            board_theme: self.board_theme,
            last_min_rating: self.last_min_rating,
            last_max_rating: self.last_max_rating,
            last_theme: self.last_theme.clone(),
            last_opening: self.last_opening.clone(),
            last_opening_side: self.last_opening_side,
        }
    }
}

/// The record a fresh installation starts from.
pub open spec fn default_config_v() -> ConfigV {
    ConfigV {
        engine_path: None,
        engine_limit: 3,
        window_width: 930,
        window_height: 600,
        puzzle_db_location: "puzzles.db"@,
        piece_theme: PieceTheme::Cburnett,
        search_results_limit: 20,
        play_sound: false,
        auto_load_next: false,
        flip_board: false,
        board_theme: Theme::Blue,
        last_min_rating: 0,
        last_max_rating: 4000,
        last_theme: "all"@,
        last_opening: "any"@,
        last_opening_side: None,
    }
}

impl Default for OfflinePuzzlesConfig {
    /// The record a fresh installation starts from.
    fn default() -> (r: Self)
        ensures
            r@ == default_config_v(),
    {
        OfflinePuzzlesConfig {
            engine_path: None,
            engine_limit: 3,
            window_width: 930,
            window_height: 600,
            puzzle_db_location: String::from_str("puzzles.db"),
            piece_theme: PieceTheme::Cburnett,
            search_results_limit: 20,
            play_sound: false,
            auto_load_next: false,
            flip_board: false,
            board_theme: Theme::Blue,
            last_min_rating: 0,
            last_max_rating: 4000,
            last_theme: String::from_str("all"),
            last_opening: String::from_str("any"),
            last_opening_side: None,
        }
    }
}

/// An optional string in the settings document: `null`, or quoted text.
pub open spec fn opt_str_txt(o: Option<Seq<char>>) -> Seq<char> {
    match o {
        Some(v) => quoted(v),
        None => "null"@,
    }
}

/// An optional side in the settings document: `null`, or a quoted tag.
pub open spec fn opt_color_txt(o: Option<Color>) -> Seq<char> {
    match o {
        Some(c) => quoted(color_tag(c)),
        None => "null"@,
    }
}

/// Read an optional string from the front of the input.
pub open spec fn sp_opt_str(s: Seq<char>) -> Option<(Option<Seq<char>>, Seq<char>)> {
    if s.len() > 0 && s[0] == '"' {
        match sp_str(s) {
            Some((v, r)) => Some((Some(v), r)),
            None => None,
        }
    } else {
        match sp_lit(s, "null"@) {
            Some(r) => Some((None, r)),
            None => None,
        }
    }
}

/// Read a quoted piece-theme tag from the front of the input.
pub open spec fn sp_piece(s: Seq<char>) -> Option<(PieceTheme, Seq<char>)> {
    match sp_str(s) {
        Some((v, r)) => match piece_of_tag(v) {
            Some(t) => Some((t, r)),
            None => None,
        },
        None => None,
    }
}

/// Read a quoted board-theme tag from the front of the input.
pub open spec fn sp_theme(s: Seq<char>) -> Option<(Theme, Seq<char>)> {
    match sp_str(s) {
        Some((v, r)) => match theme_of_tag(v) {
            Some(t) => Some((t, r)),
            None => None,
        },
        None => None,
    }
}

/// Read an optional quoted side tag from the front of the input.
pub open spec fn sp_opt_color(s: Seq<char>) -> Option<(Option<Color>, Seq<char>)> {
    if s.len() > 0 && s[0] == '"' {
        match sp_str(s) {
            Some((v, r)) => match color_of_tag(v) {
                Some(c) => Some((Some(c), r)),
                None => None,
            },
            None => None,
        }
    } else {
        match sp_lit(s, "null"@) {
            Some(r) => Some((None, r)),
            None => None,
        }
    }
}

/// The tail of the settings document, from the play-sound field to the
/// closing brace.
pub open spec fn json_tail(v: ConfigV) -> Seq<char> {
    let t16 = opt_color_txt(v.last_opening_side) + "\n}"@;
    let s16 = ",\n  \"last_opening_side\": "@ + t16;
    let t15 = quoted(v.last_opening) + s16;
    let s15 = ",\n  \"last_opening\": "@ + t15;
    let t14 = quoted(v.last_theme) + s15;
    let s14 = ",\n  \"last_theme\": "@ + t14;
    let t13 = dec(v.last_max_rating as nat) + s14;
    let s13 = ",\n  \"last_max_rating\": "@ + t13;
    let t12 = dec(v.last_min_rating as nat) + s13;
    let s12 = ",\n  \"last_min_rating\": "@ + t12;
    let t11 = quoted(theme_tag(v.board_theme)) + s12;
    let s11 = ",\n  \"board_theme\": "@ + t11;
    let t10 = bool_txt(v.flip_board) + s11;
    let s10 = ",\n  \"flip_board\": "@ + t10;
    let t9 = bool_txt(v.auto_load_next) + s10;
    let s9 = ",\n  \"auto_load_next\": "@ + t9;
    let t8 = bool_txt(v.play_sound) + s9;
    ",\n  \"play_sound\": "@ + t8
}

/// The settings document of a configuration record: every field on its own
/// line, in a fixed order.
pub open spec fn json_of(v: ConfigV) -> Seq<char> {
    let s8 = json_tail(v);
    let t7 = dec(v.search_results_limit as nat) + s8;
    let s7 = ",\n  \"search_results_limit\": "@ + t7;
    let t6 = quoted(piece_tag(v.piece_theme)) + s7;
    let s6 = ",\n  \"piece_theme\": "@ + t6;
    let t5 = quoted(v.puzzle_db_location) + s6;
    let s5 = ",\n  \"puzzle_db_location\": "@ + t5;
    let t4 = dec(v.window_height as nat) + s5;
    let s4 = ",\n  \"window_height\": "@ + t4;
    let t3 = dec(v.window_width as nat) + s4;
    let s3 = ",\n  \"window_width\": "@ + t3;
    let t2 = dec(v.engine_limit as nat) + s3;
    let s2 = ",\n  \"engine_limit\": "@ + t2;
    let t1 = opt_str_txt(v.engine_path) + s2;
    "{\n  \"engine_path\": "@ + t1
}

/// Read a whole settings document: every field in order, nothing after the
/// closing brace.
pub open spec fn sp_config(s: Seq<char>) -> Option<ConfigV> {
    match sp_lit(s, "{\n  \"engine_path\": "@) {
        None => None,
        Some(r1) => match sp_opt_str(r1) {
            None => None,
            Some((engine_path, r1b)) => match sp_lit(r1b, ",\n  \"engine_limit\": "@) {
                None => None,
                Some(r2) => match sp_uint(r2, u32::MAX as nat) {
                    None => None,
                    Some((engine_limit, r2b)) => match sp_lit(
                        r2b,
                        ",\n  \"window_width\": "@,
                    ) {
                        None => None,
                        Some(r3) => match sp_uint(r3, u32::MAX as nat) {
                            None => None,
                            Some((window_width, r3b)) => match sp_lit(
                                r3b,
                                ",\n  \"window_height\": "@,
                            ) {
                                None => None,
                                Some(r4) => match sp_uint(r4, u32::MAX as nat) {
                                    None => None,
                                    Some((window_height, r4b)) => match sp_lit(
                                        r4b,
                                        ",\n  \"puzzle_db_location\": "@,
                                    ) {
                                        None => None,
                                        Some(r5) => match sp_str(r5) {
                                            None => None,
                                            Some((puzzle_db_location, r5b)) => match sp_lit(
                                                r5b,
                                                ",\n  \"piece_theme\": "@,
                                            ) {
                                                None => None,
                                                Some(r6) => match sp_piece(r6) {
                                                    None => None,
                                                    Some((piece_theme, r6b)) => match sp_lit(
                                                        r6b,
                                                        ",\n  \"search_results_limit\": "@,
                                                    ) {
                                                        None => None,
                                                        Some(r7) => match sp_uint(
                                                            r7,
                                                            usize::MAX as nat,
                                                        ) {
                                                            None => None,
                                                            Some((limit, r7b)) => sp_config_rest(
                                                                ConfigPrefix {
                                                                    engine_path,
                                                                    engine_limit: engine_limit as u32,
                                                                    window_width: window_width as u32,
                                                                    window_height: window_height as u32,
                                                                    puzzle_db_location,
                                                                    piece_theme,
                                                                    search_results_limit: limit as usize,
                                                                },
                                                                r7b,
                                                            ),
                                                        },
                                                    },
                                                },
                                            },
                                        },
                                    },
                                },
                            },
                        },
                    },
                },
            },
        },
    }
}

/// The first seven fields of a settings document, already read.
pub ghost struct ConfigPrefix {
    pub engine_path: Option<Seq<char>>,
    pub engine_limit: u32,
    pub window_width: u32,
    pub window_height: u32,
    pub puzzle_db_location: Seq<char>,
    pub piece_theme: PieceTheme,
    pub search_results_limit: usize,
}

/// Read the rest of a settings document, after the search-result limit.
pub open spec fn sp_config_rest(p: ConfigPrefix, s: Seq<char>) -> Option<ConfigV> {
    match sp_lit(s, ",\n  \"play_sound\": "@) {
        None => None,
        Some(r8) => match sp_bool(r8) {
            None => None,
            Some((play_sound, r8b)) => match sp_lit(r8b, ",\n  \"auto_load_next\": "@) {
                None => None,
                Some(r9) => match sp_bool(r9) {
                    None => None,
                    Some((auto_load_next, r9b)) => match sp_lit(r9b, ",\n  \"flip_board\": "@) {
                        None => None,
                        Some(r10) => match sp_bool(r10) {
                            None => None,
                            Some((flip_board, r10b)) => match sp_lit(
                                r10b,
                                ",\n  \"board_theme\": "@,
                            ) {
                                None => None,
                                Some(r11) => match sp_theme(r11) {
                                    None => None,
                                    Some((board_theme, r11b)) => match sp_lit(
                                        r11b,
                                        ",\n  \"last_min_rating\": "@,
                                    ) {
                                        None => None,
                                        Some(r12) => match sp_uint(r12, u32::MAX as nat) {
                                            None => None,
                                            Some((last_min_rating, r12b)) => match sp_lit(
                                                r12b,
                                                ",\n  \"last_max_rating\": "@,
                                            ) {
                                                None => None,
                                                Some(r13) => match sp_uint(r13, u32::MAX as nat) {
                                                    None => None,
                                                    Some((last_max_rating, r13b)) => match sp_lit(
                                                        r13b,
                                                        ",\n  \"last_theme\": "@,
                                                    ) {
                                                        None => None,
                                                        Some(r14) => match sp_str(r14) {
                                                            None => None,
                                                            Some((last_theme, r14b)) => match sp_lit(
                                                                r14b,
                                                                ",\n  \"last_opening\": "@,
                                                            ) {
                                                                None => None,
                                                                Some(r15) => match sp_str(r15) {
                                                                    None => None,
                                                                    Some((last_opening, r15b)) => match sp_lit(
                                                                        r15b,
                                                                        ",\n  \"last_opening_side\": "@,
                                                                    ) {
                                                                        None => None,
                                                                        Some(r16) => match sp_opt_color(
                                                                            r16,
                                                                        ) {
                                                                            None => None,
                                                                            Some(
                                                                                (last_opening_side, r16b),
                                                                            ) => match sp_lit(r16b, "\n}"@) {
                                                                                None => None,
                                                                                Some(rend) => if rend.len()
                                                                                    == 0 {
                                                                                    Some(
                                                                                        ConfigV {
                                                                                            engine_path: p.engine_path,
                                                                                            engine_limit: p.engine_limit,
                                                                                            window_width: p.window_width,
                                                                                            window_height: p.window_height,
                                                                                            puzzle_db_location: p.puzzle_db_location,
                                                                                            piece_theme: p.piece_theme,
                                                                                            search_results_limit: p.search_results_limit,
                                                                                            play_sound,
                                                                                            auto_load_next,
                                                                                            flip_board,
                                                                                            board_theme,
                                                                                            last_min_rating: last_min_rating as u32,
                                                                                            last_max_rating: last_max_rating as u32,
                                                                                            last_theme,
                                                                                            last_opening,
                                                                                            last_opening_side,
                                                                                        },
                                                                                    )
                                                                                } else {
                                                                                    None
                                                                                },
                                                                            },
                                                                        },
                                                                    },
                                                                },
                                                            },
                                                        },
                                                    },
                                                },
                                            },
                                        },
                                    },
                                },
                            },
                        },
                    },
                },
            },
        },
    }
}

fn opt_str_string(o: &Option<String>) -> (r: String)
    ensures
        r@ == opt_str_txt(opt_view(*o)),
{
    match o {
        Some(s) => quote_string(s.as_str()),
        None => String::from_str("null"),
    }
}

fn opt_color_string(o: &Option<Color>) -> (r: String)
    ensures
        r@ == opt_color_txt(*o),
{
    match o {
        Some(c) => quote_string(color_tag_str(*c)),
        None => String::from_str("null"),
    }
}

/// Write the whole settings document for a configuration record.
pub fn serialize_config(c: &OfflinePuzzlesConfig) -> (r: String)
    ensures
        r@ == json_of(c@),
{
    let mut t16 = opt_color_string(&c.last_opening_side);
    t16.append("\n}");
    let mut s16 = String::from_str(",\n  \"last_opening_side\": ");
    s16.append(t16.as_str());
    let mut t15 = quote_string(c.last_opening.as_str());
    t15.append(s16.as_str());
    let mut s15 = String::from_str(",\n  \"last_opening\": ");
    s15.append(t15.as_str());
    let mut t14 = quote_string(c.last_theme.as_str());
    t14.append(s15.as_str());
    let mut s14 = String::from_str(",\n  \"last_theme\": ");
    s14.append(t14.as_str());
    let mut t13 = fmt_u64(c.last_max_rating as u64);
    t13.append(s14.as_str());
    let mut s13 = String::from_str(",\n  \"last_max_rating\": ");
    s13.append(t13.as_str());
    let mut t12 = fmt_u64(c.last_min_rating as u64);
    t12.append(s13.as_str());
    let mut s12 = String::from_str(",\n  \"last_min_rating\": ");
    s12.append(t12.as_str());
    let mut t11 = quote_string(theme_tag_str(c.board_theme));
    t11.append(s12.as_str());
    let mut s11 = String::from_str(",\n  \"board_theme\": ");
    s11.append(t11.as_str());
    let mut t10 = String::from_str(if c.flip_board { "true" } else { "false" });
    t10.append(s11.as_str());
    let mut s10 = String::from_str(",\n  \"flip_board\": ");
    s10.append(t10.as_str());
    let mut t9 = String::from_str(if c.auto_load_next { "true" } else { "false" });
    t9.append(s10.as_str());
    let mut s9 = String::from_str(",\n  \"auto_load_next\": ");
    s9.append(t9.as_str());
    let mut t8 = String::from_str(if c.play_sound { "true" } else { "false" });
    t8.append(s9.as_str());
    let mut s8 = String::from_str(",\n  \"play_sound\": ");
    s8.append(t8.as_str());
    let mut t7 = fmt_u64(c.search_results_limit as u64);
    t7.append(s8.as_str());
    let mut s7 = String::from_str(",\n  \"search_results_limit\": ");
    s7.append(t7.as_str());
    let mut t6 = quote_string(piece_tag_str(c.piece_theme));
    t6.append(s7.as_str());
    let mut s6 = String::from_str(",\n  \"piece_theme\": ");
    s6.append(t6.as_str());
    let mut t5 = quote_string(c.puzzle_db_location.as_str());
    t5.append(s6.as_str());
    let mut s5 = String::from_str(",\n  \"puzzle_db_location\": ");
    s5.append(t5.as_str());
    let mut t4 = fmt_u64(c.window_height as u64);
    t4.append(s5.as_str());
    let mut s4 = String::from_str(",\n  \"window_height\": ");
    s4.append(t4.as_str());
    let mut t3 = fmt_u64(c.window_width as u64);
    t3.append(s4.as_str());
    let mut s3 = String::from_str(",\n  \"window_width\": ");
    s3.append(t3.as_str());
    let mut t2 = fmt_u64(c.engine_limit as u64);
    t2.append(s3.as_str());
    let mut s2 = String::from_str(",\n  \"engine_limit\": ");
    s2.append(t2.as_str());
    let mut t1 = opt_str_string(&c.engine_path);
    t1.append(s2.as_str());
    let mut out = String::from_str("{\n  \"engine_path\": ");
    out.append(t1.as_str());
    out
}

fn parse_opt_string(s: &str, i: usize) -> (r: Option<(Option<String>, usize)>)
    requires
        i <= s@.len(),
    ensures
        ({
            let t = s@.skip(i as int);
            match sp_opt_str(t) {
                Some((v, rest)) => match r {
                    Some((o, j)) => opt_view(o) == v && i <= j && j <= s@.len() && s@.skip(
                        j as int,
                    ) == rest,
                    None => false,
                },
                None => r is None,
            }
        }),
{
    let sl = s.unicode_len();
    proof {
        if i < sl {
            assert(s@.skip(i as int)[0] == s@[i as int]);
        }
    }
    if i < sl && s.get_char(i) == '"' {
        match parse_string(s, i) {
            Some((v, j)) => Some((Some(v), j)),
            None => None,
        }
    } else {
        match parse_lit(s, i, "null") {
            Some(j) => Some((None, j)),
            None => None,
        }
    }
}

fn parse_piece_theme(s: &str, i: usize) -> (r: Option<(PieceTheme, usize)>)
    requires
        i <= s@.len(),
    ensures
        ({
            let t = s@.skip(i as int);
            match sp_piece(t) {
                Some((v, rest)) => match r {
                    Some((x, j)) => x == v && i <= j && j <= s@.len() && s@.skip(j as int)
                        == rest,
                    None => false,
                },
                None => r is None,
            }
        }),
{
    match parse_string(s, i) {
        Some((v, j)) => match piece_from_tag(v.as_str()) {
            Some(t) => Some((t, j)),
            None => None,
        },
        None => None,
    }
}

fn parse_board_theme(s: &str, i: usize) -> (r: Option<(Theme, usize)>)
    requires
        i <= s@.len(),
    ensures
        ({
            let t = s@.skip(i as int);
            match sp_theme(t) {
                Some((v, rest)) => match r {
                    Some((x, j)) => x == v && i <= j && j <= s@.len() && s@.skip(j as int)
                        == rest,
                    None => false,
                },
                None => r is None,
            }
        }),
{
    match parse_string(s, i) {
        Some((v, j)) => match theme_from_tag(v.as_str()) {
            Some(t) => Some((t, j)),
            None => None,
        },
        None => None,
    }
}

fn parse_opt_color(s: &str, i: usize) -> (r: Option<(Option<Color>, usize)>)
    requires
        i <= s@.len(),
    ensures
        ({
            let t = s@.skip(i as int);
            match sp_opt_color(t) {
                Some((v, rest)) => match r {
                    Some((o, j)) => o == v && i <= j && j <= s@.len() && s@.skip(j as int)
                        == rest,
                    None => false,
                },
                None => r is None,
            }
        }),
{
    let sl = s.unicode_len();
    proof {
        if i < sl {
            assert(s@.skip(i as int)[0] == s@[i as int]);
        }
    }
    if i < sl && s.get_char(i) == '"' {
        match parse_string(s, i) {
            Some((v, j)) => match color_from_tag(v.as_str()) {
                Some(c) => Some((Some(c), j)),
                None => None,
            },
            None => None,
        }
    } else {
        match parse_lit(s, i, "null") {
            Some(j) => Some((None, j)),
            None => None,
        }
    }
}

/// Read a whole settings document back into a configuration record.
#[verifier::rlimit(100)]
pub fn parse_config(s: &str) -> (r: Option<OfflinePuzzlesConfig>)
    ensures
        match sp_config(s@) {
            Some(cv) => match r {
                Some(c) => c@ == cv,
                None => false,
            },
            None => r is None,
        },
{
    proof {
        assert(s@.skip(0) =~= s@);
    }
    let j1 = match parse_lit(s, 0, "{\n  \"engine_path\": ") {
        Some(j) => j,
        None => return None,
    };
    let (engine_path, j1b) = match parse_opt_string(s, j1) {
        Some(x) => x,
        None => return None,
    };
    let j2 = match parse_lit(s, j1b, ",\n  \"engine_limit\": ") {
        Some(j) => j,
        None => return None,
    };
    let (engine_limit, j2b) = match parse_u64(s, j2, u32::MAX as u64) {
        Some(x) => x,
        None => return None,
    };
    let j3 = match parse_lit(s, j2b, ",\n  \"window_width\": ") {
        Some(j) => j,
        None => return None,
    };
    let (window_width, j3b) = match parse_u64(s, j3, u32::MAX as u64) {
        Some(x) => x,
        None => return None,
    };
    let j4 = match parse_lit(s, j3b, ",\n  \"window_height\": ") {
        Some(j) => j,
        None => return None,
    };
    let (window_height, j4b) = match parse_u64(s, j4, u32::MAX as u64) {
        Some(x) => x,
        None => return None,
    };
    let j5 = match parse_lit(s, j4b, ",\n  \"puzzle_db_location\": ") {
        Some(j) => j,
        None => return None,
    };
    let (puzzle_db_location, j5b) = match parse_string(s, j5) {
        Some(x) => x,
        None => return None,
    };
    let j6 = match parse_lit(s, j5b, ",\n  \"piece_theme\": ") {
        Some(j) => j,
        None => return None,
    };
    let (piece_theme, j6b) = match parse_piece_theme(s, j6) {
        Some(x) => x,
        None => return None,
    };
    let j7 = match parse_lit(s, j6b, ",\n  \"search_results_limit\": ") {
        Some(j) => j,
        None => return None,
    };
    let (limit, j7b) = match parse_u64(s, j7, usize::MAX as u64) {
        Some(x) => x,
        None => return None,
    };
    let j8 = match parse_lit(s, j7b, ",\n  \"play_sound\": ") {
        Some(j) => j,
        None => return None,
    };
    let (play_sound, j8b) = match parse_bool(s, j8) {
        Some(x) => x,
        None => return None,
    };
    let j9 = match parse_lit(s, j8b, ",\n  \"auto_load_next\": ") {
        Some(j) => j,
        None => return None,
    };
    let (auto_load_next, j9b) = match parse_bool(s, j9) {
        Some(x) => x,
        None => return None,
    };
    let j10 = match parse_lit(s, j9b, ",\n  \"flip_board\": ") {
        Some(j) => j,
        None => return None,
    };
    let (flip_board, j10b) = match parse_bool(s, j10) {
        Some(x) => x,
        None => return None,
    };
    let j11 = match parse_lit(s, j10b, ",\n  \"board_theme\": ") {
        Some(j) => j,
        None => return None,
    };
    let (board_theme, j11b) = match parse_board_theme(s, j11) {
        Some(x) => x,
        None => return None,
    };
    let j12 = match parse_lit(s, j11b, ",\n  \"last_min_rating\": ") {
        Some(j) => j,
        None => return None,
    };
    let (last_min_rating, j12b) = match parse_u64(s, j12, u32::MAX as u64) {
        Some(x) => x,
        None => return None,
    };
    let j13 = match parse_lit(s, j12b, ",\n  \"last_max_rating\": ") {
        Some(j) => j,
        None => return None,
    };
    let (last_max_rating, j13b) = match parse_u64(s, j13, u32::MAX as u64) {
        Some(x) => x,
        None => return None,
    };
    let j14 = match parse_lit(s, j13b, ",\n  \"last_theme\": ") {
        Some(j) => j,
        None => return None,
    };
    let (last_theme, j14b) = match parse_string(s, j14) {
        Some(x) => x,
        None => return None,
    };
    let j15 = match parse_lit(s, j14b, ",\n  \"last_opening\": ") {
        Some(j) => j,
        None => return None,
    };
    let (last_opening, j15b) = match parse_string(s, j15) {
        Some(x) => x,
        None => return None,
    };
    let j16 = match parse_lit(s, j15b, ",\n  \"last_opening_side\": ") {
        Some(j) => j,
        None => return None,
    };
    let (last_opening_side, j16b) = match parse_opt_color(s, j16) {
        Some(x) => x,
        None => return None,
    };
    let jend = match parse_lit(s, j16b, "\n}") {
        Some(j) => j,
        None => return None,
    };
    if jend != s.unicode_len() {
        return None;
    }
    Some(
        OfflinePuzzlesConfig {
            engine_path,
            engine_limit: engine_limit as u32,
            window_width: window_width as u32,
            window_height: window_height as u32,
            puzzle_db_location,
            piece_theme,
            search_results_limit: limit as usize,
            play_sound,
            auto_load_next,
            flip_board,
            board_theme,
            last_min_rating: last_min_rating as u32,
            last_max_rating: last_max_rating as u32,
            last_theme,
            last_opening,
            last_opening_side,
        },
    )
}

pub proof fn lemma_sp_opt_str(o: Option<Seq<char>>, rest: Seq<char>)
    ensures
        sp_opt_str(opt_str_txt(o) + rest) == Some((o, rest)),
{
    reveal_strlit("null");
    let s = opt_str_txt(o) + rest;
    match o {
        Some(v) => {
            assert(s[0] == '"');
            lemma_sp_str_quoted(v, rest);
        },
        None => {
            assert(s[0] == 'n');
            lemma_sp_lit("null"@, rest);
        },
    }
}

pub proof fn lemma_sp_piece(t: PieceTheme, rest: Seq<char>)
    ensures
        sp_piece(quoted(piece_tag(t)) + rest) == Some((t, rest)),
{
    lemma_sp_str_quoted(piece_tag(t), rest);
    lemma_piece_of_tag(t);
}

pub proof fn lemma_sp_theme(t: Theme, rest: Seq<char>)
    ensures
        sp_theme(quoted(theme_tag(t)) + rest) == Some((t, rest)),
{
    lemma_sp_str_quoted(theme_tag(t), rest);
    lemma_theme_of_tag(t);
}

pub proof fn lemma_sp_opt_color(o: Option<Color>, rest: Seq<char>)
    ensures
        sp_opt_color(opt_color_txt(o) + rest) == Some((o, rest)),
{
    reveal_strlit("null");
    let s = opt_color_txt(o) + rest;
    match o {
        Some(c) => {
            assert(s[0] == '"');
            lemma_sp_str_quoted(color_tag(c), rest);
            lemma_color_of_tag(c);
        },
        None => {
            assert(s[0] == 'n');
            lemma_sp_lit("null"@, rest);
        },
    }
}

/// The tail of the settings document reads back as the last nine fields,
/// over any prefix already read that matches the record.
#[verifier::rlimit(100)]
proof fn lemma_config_rest_round_trip(v: ConfigV, p: ConfigPrefix)
    requires
        p.engine_path == v.engine_path,
        p.engine_limit == v.engine_limit,
        p.window_width == v.window_width,
        p.window_height == v.window_height,
        p.puzzle_db_location == v.puzzle_db_location,
        p.piece_theme == v.piece_theme,
        p.search_results_limit == v.search_results_limit,
    ensures
        sp_config_rest(p, json_tail(v)) == Some(v),
{
    let t16 = opt_color_txt(v.last_opening_side) + "\n}"@;
    let s16 = ",\n  \"last_opening_side\": "@ + t16;
    let t15 = quoted(v.last_opening) + s16;
    let s15 = ",\n  \"last_opening\": "@ + t15;
    let t14 = quoted(v.last_theme) + s15;
    let s14 = ",\n  \"last_theme\": "@ + t14;
    let t13 = dec(v.last_max_rating as nat) + s14;
    let s13 = ",\n  \"last_max_rating\": "@ + t13;
    let t12 = dec(v.last_min_rating as nat) + s13;
    let s12 = ",\n  \"last_min_rating\": "@ + t12;
    let t11 = quoted(theme_tag(v.board_theme)) + s12;
    let s11 = ",\n  \"board_theme\": "@ + t11;
    let t10 = bool_txt(v.flip_board) + s11;
    let s10 = ",\n  \"flip_board\": "@ + t10;
    let t9 = bool_txt(v.auto_load_next) + s10;
    let s9 = ",\n  \"auto_load_next\": "@ + t9;
    let t8 = bool_txt(v.play_sound) + s9;

    reveal_strlit(",\n  \"last_max_rating\": ");
    reveal_strlit(",\n  \"last_theme\": ");

    lemma_sp_lit(",\n  \"play_sound\": "@, t8);
    lemma_sp_bool(v.play_sound, s9);
    lemma_sp_lit(",\n  \"auto_load_next\": "@, t9);
    lemma_sp_bool(v.auto_load_next, s10);
    lemma_sp_lit(",\n  \"flip_board\": "@, t10);
    lemma_sp_bool(v.flip_board, s11);
    lemma_sp_lit(",\n  \"board_theme\": "@, t11);
    lemma_sp_theme(v.board_theme, s12);
    lemma_sp_lit(",\n  \"last_min_rating\": "@, t12);
    assert(s13[0] == ',');
    lemma_sp_uint_dec(v.last_min_rating as nat, u32::MAX as nat, s13);
    lemma_sp_lit(",\n  \"last_max_rating\": "@, t13);
    assert(s14[0] == ',');
    lemma_sp_uint_dec(v.last_max_rating as nat, u32::MAX as nat, s14);
    lemma_sp_lit(",\n  \"last_theme\": "@, t14);
    lemma_sp_str_quoted(v.last_theme, s15);
    lemma_sp_lit(",\n  \"last_opening\": "@, t15);
    lemma_sp_str_quoted(v.last_opening, s16);
    lemma_sp_lit(",\n  \"last_opening_side\": "@, t16);
    lemma_sp_opt_color(v.last_opening_side, "\n}"@);
    let e: Seq<char> = Seq::empty();
    lemma_sp_lit("\n}"@, e);
    assert("\n}"@ + e =~= "\n}"@);

    let out = sp_config_rest(p, json_tail(v));
    assert(out is Some);
    assert(out.unwrap() =~= v);
}

/// Law: the settings round trip. Reading back the settings document written
/// for any configuration record yields exactly that record, whatever its
/// field values — engine path present or absent, and strings with any
/// characters in them.
#[verifier::rlimit(100)]
pub proof fn lemma_config_round_trip(v: ConfigV)
    ensures
        sp_config(json_of(v)) == Some(v),
{
    let s8 = json_tail(v);
    let t7 = dec(v.search_results_limit as nat) + s8;
    let s7 = ",\n  \"search_results_limit\": "@ + t7;
    let t6 = quoted(piece_tag(v.piece_theme)) + s7;
    let s6 = ",\n  \"piece_theme\": "@ + t6;
    let t5 = quoted(v.puzzle_db_location) + s6;
    let s5 = ",\n  \"puzzle_db_location\": "@ + t5;
    let t4 = dec(v.window_height as nat) + s5;
    let s4 = ",\n  \"window_height\": "@ + t4;
    let t3 = dec(v.window_width as nat) + s4;
    let s3 = ",\n  \"window_width\": "@ + t3;
    let t2 = dec(v.engine_limit as nat) + s3;
    let s2 = ",\n  \"engine_limit\": "@ + t2;
    let t1 = opt_str_txt(v.engine_path) + s2;

    reveal_strlit(",\n  \"window_width\": ");
    reveal_strlit(",\n  \"window_height\": ");
    reveal_strlit(",\n  \"puzzle_db_location\": ");
    reveal_strlit(",\n  \"play_sound\": ");

    lemma_sp_lit("{\n  \"engine_path\": "@, t1);
    lemma_sp_opt_str(v.engine_path, s2);
    lemma_sp_lit(",\n  \"engine_limit\": "@, t2);
    assert(s3[0] == ',');
    lemma_sp_uint_dec(v.engine_limit as nat, u32::MAX as nat, s3);
    lemma_sp_lit(",\n  \"window_width\": "@, t3);
    assert(s4[0] == ',');
    lemma_sp_uint_dec(v.window_width as nat, u32::MAX as nat, s4);
    lemma_sp_lit(",\n  \"window_height\": "@, t4);
    assert(s5[0] == ',');
    lemma_sp_uint_dec(v.window_height as nat, u32::MAX as nat, s5);
    lemma_sp_lit(",\n  \"puzzle_db_location\": "@, t5);
    lemma_sp_str_quoted(v.puzzle_db_location, s6);
    lemma_sp_lit(",\n  \"piece_theme\": "@, t6);
    lemma_sp_piece(v.piece_theme, s7);
    lemma_sp_lit(",\n  \"search_results_limit\": "@, t7);
    assert(s8[0] == ',');
    lemma_sp_uint_dec(v.search_results_limit as nat, usize::MAX as nat, s8);

    let p = ConfigPrefix {
        engine_path: v.engine_path,
        engine_limit: v.engine_limit,
        window_width: v.window_width,
        window_height: v.window_height,
        puzzle_db_location: v.puzzle_db_location,
        piece_theme: v.piece_theme,
        search_results_limit: v.search_results_limit,
    };
    lemma_config_rest_round_trip(v, p);
    assert(sp_config(json_of(v)) == sp_config_rest(p, s8));
}

} // verus!
