//! The settings-editor state: field edits, validation of the numeric
//! search-limit field, and the snapshots handed to the shell for recomputing
//! or persisting the configuration record.

use vstd::prelude::*;
use vstd::string::*;
use crate::config::{ConfigV, OfflinePuzzlesConfig, json_of, sp_config, lemma_config_round_trip};
use crate::styles::{PieceTheme, Theme};
use crate::text::{dec, digits_value, is_digit, sp_uint, parse_u64, fmt_u64, lemma_sp_uint_dec,
    lemma_digits_value_dec, lemma_dec_is_digits};

verus! {

#[derive(Debug, Clone)]
pub enum SettingsMessage {
    CheckPlaySound(bool),
    CheckAutoLoad(bool),
    CheckFlipBoard(bool),
    SelectPieceTheme(PieceTheme),
    SelectBoardTheme(Theme),
    ChangePuzzleDbLocation(String),
    ChangeSearchResultLimit(String),
    ChangeEnginePath(String),
    ChangePressed,
}

/// The toggle and picker fields carried into a recompute, as one immutable
/// bundle rather than a row of positional arguments.
#[derive(Debug, Clone)]
pub struct ChangedFields {
    pub play_sound: bool,
    pub auto_load: bool,
    pub flip_board: bool,
    pub piece_theme: PieceTheme,
    pub board_theme: Theme,
    pub engine_path: String,
}

/// What the surrounding shell is asked to do after an update step.
#[derive(Debug)]
pub enum SettingsAction {
    Stay,
    Recompute(ChangedFields),
    SaveRequest(OfflinePuzzlesConfig),
}

/// How a requested save ended: written, the document could not be written
/// out, or the settings store could not be opened at all.
#[derive(Debug, Clone, Copy, PartialEq, Eq, Structural)]
pub enum SaveOutcome {
    Saved,
    SerializationFailed,
    StoreUnreachable,
}

/// The status line shown for each save outcome.
pub open spec fn status_text(o: SaveOutcome) -> Seq<char> {
    match o {
        SaveOutcome::Saved => "Settings saved!"@,
        SaveOutcome::SerializationFailed => "Error saving config file."@,
        SaveOutcome::StoreUnreachable => "Error reading config file."@,
    }
}

/// The state behind the settings-editor tab.
#[derive(Debug)]
pub struct SettingsTab {
    pub engine_path: String,
    pub window_width: u32,
    pub window_height: u32,
    pub piece_theme: PieceTheme,
    pub board_theme: Theme,
    pub theme: Theme,
    pub play_sound: bool,
    pub auto_load_next: bool,
    pub flip_board: bool,
    pub puzzle_db_location_value: String,
    pub search_results_limit_value: String,
    pub settings_status: String,
    pub saved_configs: OfflinePuzzlesConfig,
}

/// The mathematical shape of the settings-editor state.
#[verifier::ext_equal]
pub ghost struct TabV {
    pub engine_path: Seq<char>,
    pub window_width: u32,
    pub window_height: u32,
    pub piece_theme: PieceTheme,
    pub board_theme: Theme,
    pub theme: Theme,
    pub play_sound: bool,
    pub auto_load_next: bool,
    pub flip_board: bool,
    pub puzzle_db_location_value: Seq<char>,
    pub search_results_limit_value: Seq<char>,
    pub settings_status: Seq<char>,
    pub saved_configs: ConfigV,
}

impl View for SettingsTab {
    type V = TabV;

    open spec fn view(&self) -> TabV {
        TabV {
            engine_path: self.engine_path@,
            window_width: self.window_width,
            window_height: self.window_height,
            piece_theme: self.piece_theme,
            board_theme: self.board_theme,
            theme: self.theme,
            play_sound: self.play_sound,
            auto_load_next: self.auto_load_next,
            flip_board: self.flip_board,
            puzzle_db_location_value: self.puzzle_db_location_value@,
            search_results_limit_value: self.search_results_limit_value@,
            settings_status: self.settings_status@,
            saved_configs: self.saved_configs@,
        }
    }
}

/// The number a numeric input field denotes: an optional leading plus sign,
/// then nothing but digits, and the value must fit the platform's size type.
pub open spec fn limit_of_text(s: Seq<char>) -> Option<usize> {
    let t = if s.len() > 0 && s[0] == '+' {
        s.skip(1)
    } else {
        s
    };
    match sp_uint(t, usize::MAX as nat) {
        Some((n, rest)) => if rest.len() == 0 {
            Some(n as usize)
        } else {
            None
        },
        None => None,
    }
}

/// The configuration record a save request snapshots from the editor: edited
/// fields from the tab, engine limit and the last-used search filters carried
/// forward unchanged from the record loaded at start.
pub open spec fn config_of_tab(s: SettingsTab) -> ConfigV {
    ConfigV {
        engine_path: if s.engine_path@.len() == 0 {
            None
        } else {
            Some(s.engine_path@)
        },
        engine_limit: s.saved_configs@.engine_limit,
        window_width: s.window_width,
        window_height: s.window_height,
        puzzle_db_location: s.puzzle_db_location_value@,
        piece_theme: s.piece_theme,
        search_results_limit: digits_value(s.search_results_limit_value@) as usize,
        play_sound: s.play_sound,
        auto_load_next: s.auto_load_next,
        flip_board: s.flip_board,
        board_theme: s.board_theme,
        last_min_rating: s.saved_configs@.last_min_rating,
        last_max_rating: s.saved_configs@.last_max_rating,
        last_theme: s.saved_configs@.last_theme,
        last_opening: s.saved_configs@.last_opening,
        last_opening_side: s.saved_configs@.last_opening_side,
    }
}

pub open spec fn action_is_recompute(a: SettingsAction, s: SettingsTab) -> bool {
    match a {
        SettingsAction::Recompute(f) => f.play_sound == s.play_sound && f.auto_load
            == s.auto_load_next && f.flip_board == s.flip_board && f.piece_theme == s.piece_theme
            && f.board_theme == s.board_theme && f.engine_path@ == s.engine_path@,
        _ => false,
    }
}

pub open spec fn action_is_save(a: SettingsAction, s: SettingsTab) -> bool {
    match a {
        SettingsAction::SaveRequest(c) => c@ == config_of_tab(s),
        _ => false,
    }
}

/// A fresh configuration record with the toggle and picker fields overlaid
/// on a base record, and everything else — the last-used search filters above
/// all — left as the base has it.
pub open spec fn overlay(base: ConfigV, f_play_sound: bool, f_auto_load: bool, f_flip: bool,
    f_piece: PieceTheme, f_board: Theme, f_engine: Seq<char>) -> ConfigV {
    ConfigV {
        play_sound: f_play_sound,
        auto_load_next: f_auto_load,
        flip_board: f_flip,
        piece_theme: f_piece,
        board_theme: f_board,
        engine_path: if f_engine.len() == 0 {
            None
        } else {
            Some(f_engine)
        },
        ..base
    }
}

fn parse_limit_text(v: &str) -> (r: Option<usize>)
    ensures
        r == limit_of_text(v@),
{
    let vl = v.unicode_len();
    let start: usize = if vl > 0 && v.get_char(0) == '+' {
        1
    } else {
        0
    };
    proof {
        assert(v@.skip(0) =~= v@);
    }
    match parse_u64(v, start, usize::MAX as u64) {
        Some((x, j)) => if j == vl {
            Some(x as usize)
        } else {
            None
        },
        None => None,
    }
}

impl SettingsTab {
    /// The numeric search-limit field always holds the canonical decimal text
    /// of some value.
    pub open spec fn wf(self) -> bool {
        exists|n: usize| self.search_results_limit_value@ == dec(n as nat)
    }

    /// A fresh editor over a loaded configuration record: every field bound
    /// to the record's value, the record itself kept for the fields a save
    /// must carry forward.
    pub fn new(config: OfflinePuzzlesConfig) -> (r: Self)
        ensures
            r@ == (TabV {
                engine_path: match config@.engine_path {
                    Some(p) => p,
                    None => Seq::<char>::empty(),
                },
                window_width: config@.window_width,
                window_height: config@.window_height,
                piece_theme: config@.piece_theme,
                board_theme: config@.board_theme,
                theme: Theme::Blue,
                play_sound: config@.play_sound,
                auto_load_next: config@.auto_load_next,
                flip_board: config@.flip_board,
                puzzle_db_location_value: config@.puzzle_db_location,
                search_results_limit_value: dec(config@.search_results_limit as nat),
                settings_status: Seq::<char>::empty(),
                saved_configs: config@,
            }),
            r.wf(),
    {
        let engine_path = match &config.engine_path {
            Some(s) => s.clone(),
            None => String::new(),
        };
        let tab = SettingsTab {
            engine_path,
            window_width: config.window_width,
            window_height: config.window_height,
            piece_theme: config.piece_theme,
            board_theme: config.board_theme,
            theme: Theme::Blue,
            play_sound: config.play_sound,
            auto_load_next: config.auto_load_next,
            flip_board: config.flip_board,
            puzzle_db_location_value: config.puzzle_db_location.clone(),
            search_results_limit_value: fmt_u64(config.search_results_limit as u64),
            settings_status: String::new(),
            saved_configs: config,
        };
        proof {
            let n0: usize = tab.saved_configs.search_results_limit;
            assert(tab.search_results_limit_value@ == dec(n0 as nat));
        }
        tab
    }

    fn changed_fields(&self) -> (f: ChangedFields)
        ensures
            f.play_sound == self.play_sound,
            f.auto_load == self.auto_load_next,
            f.flip_board == self.flip_board,
            f.piece_theme == self.piece_theme,
            f.board_theme == self.board_theme,
            f.engine_path@ == self.engine_path@,
    {
        ChangedFields {
            play_sound: self.play_sound,
            auto_load: self.auto_load_next,
            flip_board: self.flip_board,
            piece_theme: self.piece_theme,
            board_theme: self.board_theme,
            engine_path: self.engine_path.clone(),
        }
    }

    /// One editor step: apply the message to the in-memory state and say what
    /// the shell must do next. A toggle or picker change asks for a
    /// recompute; an edit of the numeric field validates the input, keeping
    /// the prior value and status on anything unparseable and turning an
    /// empty input into zero; pressing save hands over the full snapshot.
    pub fn update(&mut self, message: SettingsMessage) -> (action: SettingsAction)
        requires
            old(self).wf(),
        ensures
            final(self).wf(),
            match message {
                SettingsMessage::CheckPlaySound(v) => final(self)@ == (TabV {
                    play_sound: v,
                    ..old(self)@
                }) && action_is_recompute(action, *final(self)),
                SettingsMessage::CheckAutoLoad(v) => final(self)@ == (TabV {
                    auto_load_next: v,
                    ..old(self)@
                }) && action_is_recompute(action, *final(self)),
                SettingsMessage::CheckFlipBoard(v) => final(self)@ == (TabV {
                    flip_board: v,
                    ..old(self)@
                }) && action_is_recompute(action, *final(self)),
                SettingsMessage::SelectPieceTheme(v) => final(self)@ == (TabV {
                    piece_theme: v,
                    ..old(self)@
                }) && action_is_recompute(action, *final(self)),
                SettingsMessage::SelectBoardTheme(v) => final(self)@ == (TabV {
                    board_theme: v,
                    ..old(self)@
                }) && action_is_recompute(action, *final(self)),
                SettingsMessage::ChangePuzzleDbLocation(v) => final(self)@ == (TabV {
                    puzzle_db_location_value: v@,
                    ..old(self)@
                }) && action is Stay,
                SettingsMessage::ChangeEnginePath(v) => final(self)@ == (TabV {
                    engine_path: v@,
                    ..old(self)@
                }) && action_is_recompute(action, *final(self)),
                SettingsMessage::ChangeSearchResultLimit(v) => {
                    &&& (v@.len() == 0 ==> final(self)@ == (TabV {
                        search_results_limit_value: dec(0),
                        ..old(self)@
                    }))
                    &&& (v@.len() > 0 ==> match limit_of_text(v@) {
                        Some(n) => final(self)@ == (TabV {
                            search_results_limit_value: dec(n as nat),
                            settings_status: Seq::<char>::empty(),
                            ..old(self)@
                        }),
                        None => final(self)@ == old(self)@,
                    })
                    &&& action is Stay
                },
                SettingsMessage::ChangePressed => final(self)@ == old(self)@ && action_is_save(
                    action,
                    *old(self),
                ),
            },
    {
        match message {
            SettingsMessage::CheckPlaySound(v) => {
                self.play_sound = v;
                SettingsAction::Recompute(self.changed_fields())
            },
            SettingsMessage::CheckAutoLoad(v) => {
                self.auto_load_next = v;
                SettingsAction::Recompute(self.changed_fields())
            },
            SettingsMessage::CheckFlipBoard(v) => {
                self.flip_board = v;
                SettingsAction::Recompute(self.changed_fields())
            },
            SettingsMessage::SelectPieceTheme(v) => {
                self.piece_theme = v;
                SettingsAction::Recompute(self.changed_fields())
            },
            SettingsMessage::SelectBoardTheme(v) => {
                self.board_theme = v;
                SettingsAction::Recompute(self.changed_fields())
            },
            SettingsMessage::ChangePuzzleDbLocation(v) => {
                self.puzzle_db_location_value = v;
                SettingsAction::Stay
            },
            SettingsMessage::ChangeEnginePath(v) => {
                self.engine_path = v;
                SettingsAction::Recompute(self.changed_fields())
            },
            SettingsMessage::ChangeSearchResultLimit(v) => {
                if v.as_str().is_empty() {
                    self.search_results_limit_value = fmt_u64(0);
                } else {
                    match parse_limit_text(v.as_str()) {
                        Some(n) => {
                            self.search_results_limit_value = fmt_u64(n as u64);
                            self.settings_status = String::new();
                        },
                        None => {},
                    }
                }
                SettingsAction::Stay
            },
            SettingsMessage::ChangePressed => {
                let engine_path = if self.engine_path.as_str().is_empty() {
                    None
                } else {
                    Some(self.engine_path.clone())
                };
                let limit = match parse_limit_text(self.search_results_limit_value.as_str()) {
                    Some(n) => n,
                    None => {
                        proof {
                            let n0 = choose|n: usize|
                                self.search_results_limit_value@ == dec(n as nat);
                            let e: Seq<char> = Seq::empty();
                            lemma_sp_uint_dec(n0 as nat, usize::MAX as nat, e);
                            assert(dec(n0 as nat) + e =~= dec(n0 as nat));
                            lemma_dec_is_digits(n0 as nat);
                            assert(!is_digit('+'));
                            assert(false);
                        }
                        0
                    },
                };
                proof {
                    let n0 = choose|n: usize|
                        self.search_results_limit_value@ == dec(n as nat);
                    let e: Seq<char> = Seq::empty();
                    lemma_sp_uint_dec(n0 as nat, usize::MAX as nat, e);
                    assert(dec(n0 as nat) + e =~= dec(n0 as nat));
                    lemma_dec_is_digits(n0 as nat);
                    assert(!is_digit('+'));
                    lemma_digits_value_dec(n0 as nat);
                    assert(limit == n0);
                }
                let config = OfflinePuzzlesConfig {
                    engine_path,
                    engine_limit: self.saved_configs.engine_limit,
                    window_width: self.window_width,
                    window_height: self.window_height,
                    puzzle_db_location: self.puzzle_db_location_value.clone(),
                    piece_theme: self.piece_theme,
                    search_results_limit: limit,
                    play_sound: self.play_sound,
                    auto_load_next: self.auto_load_next,
                    flip_board: self.flip_board,
                    board_theme: self.board_theme,
                    last_min_rating: self.saved_configs.last_min_rating,
                    last_max_rating: self.saved_configs.last_max_rating,
                    last_theme: self.saved_configs.last_theme.clone(),
                    last_opening: self.saved_configs.last_opening.clone(),
                    last_opening_side: self.saved_configs.last_opening_side,
                };
                SettingsAction::SaveRequest(config)
            },
        }
    }

    /// Record how a requested save ended: only the status line changes.
    pub fn record_save_result(&mut self, outcome: SaveOutcome)
        ensures
            final(self)@ == (TabV { settings_status: status_text(outcome), ..old(self)@ }),
            old(self).wf() ==> final(self).wf(),
    {
        self.settings_status = match outcome {
            SaveOutcome::Saved => String::from_str("Settings saved!"),
            SaveOutcome::SerializationFailed => String::from_str("Error saving config file."),
            SaveOutcome::StoreUnreachable => String::from_str("Error reading config file."),
        };
    }

    /// The record to persist when only the window size changed: the given
    /// size over an otherwise untouched base record.
    pub fn save_window_size(width: u32, height: u32, saved: &OfflinePuzzlesConfig) -> (r:
        OfflinePuzzlesConfig)
        ensures
            r@ == (ConfigV { window_width: width, window_height: height, ..saved@ }),
    {
        let mut config = saved.duplicate();
        config.window_width = width;
        config.window_height = height;
        config
    }

    /// A fresh configuration snapshot from the current toggle and picker
    /// fields over a just-loaded record, leaving the last-used search filters
    /// untouched; an empty engine path means no engine.
    pub fn send_changes(fields: ChangedFields, saved: &OfflinePuzzlesConfig) -> (r: Option<
        OfflinePuzzlesConfig,
    >)
        ensures
            match r {
                Some(c) => c@ == overlay(
                    saved@,
                    fields.play_sound,
                    fields.auto_load,
                    fields.flip_board,
                    fields.piece_theme,
                    fields.board_theme,
                    fields.engine_path@,
                ),
                None => false,
            },
    {
        let engine = if fields.engine_path.as_str().is_empty() {
            None
        } else {
            Some(fields.engine_path)
        };
        let mut config = saved.duplicate();
        config.board_theme = fields.board_theme;
        config.piece_theme = fields.piece_theme;
        config.play_sound = fields.play_sound;
        config.auto_load_next = fields.auto_load;
        config.flip_board = fields.flip_board;
        config.engine_path = engine;
        Some(config)
    }

    pub fn title(&self) -> (r: String)
        ensures
            r@ == "Settings"@,
    {
        String::from_str("Settings")
    }
}

/// Law: saving a record with only the window size replaced and loading it
/// back yields exactly that size, and every other field of the prior record.
pub proof fn lemma_save_window_size_round_trip(prior: ConfigV, width: u32, height: u32)
    ensures
        ({
            let resized = ConfigV { window_width: width, window_height: height, ..prior };
            sp_config(json_of(resized)) == Some(resized)
        }),
{
    lemma_config_round_trip(ConfigV { window_width: width, window_height: height, ..prior });
}

} // verus!
