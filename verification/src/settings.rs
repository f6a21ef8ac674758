//! The settings that decisions are made on.
use vstd::prelude::*;

verus! {

/// Which language the speech model is told to expect.
#[derive(Debug, Clone, Copy, PartialEq, Eq, Structural)]
pub enum LanguageMode {
    Japanese,
    English,
    Auto,
}

/// Where the local speech server runs, and how it is started.
#[derive(Debug, Clone)]
pub struct LocalSttServer {
    pub host: String,
    pub port: u16,
    pub model: String,
    pub python_path: String,
}

/// The settings of the app, as far as a decision depends on them.
#[derive(Debug, Clone)]
pub struct AppSettings {
    /// The record hotkey, such as `ctrl+shift+a`.
    pub hotkey_key: String,
    /// The name of the way in which the hotkey starts and stops a recording.
    pub activation_mode: String,
    pub double_tap_ms: u64,
    /// The hotkeys that switch the mode, as pairs of a mode and its key, in no order; see
    /// [`AppSettings::well_formed`].
    pub mode_hotkeys: Vec<(String, String)>,
    pub history_enabled: bool,
    pub history_retention_days: u32,
    pub language_mode: LanguageMode,
    pub primary_language: String,
    /// Recordings shorter than this are dropped; 0 drops none.
    pub min_recording_ms: u32,
    pub remove_fillers: bool,
    pub auto_paste: bool,
    pub replace_selection: bool,
    pub stt_preset: String,
    pub local_stt_server: LocalSttServer,
    pub ui_language: String,
    pub onboarding_completed: bool,
    pub onboarding_step: u32,
}

/// The pairs of a mode and its key.
pub open spec fn pairs(modes: Seq<(String, String)>) -> Seq<(Seq<char>, Seq<char>)> {
    modes.map_values(|m: (String, String)| (m.0@, m.1@))
}

/// No mode occurs twice.
pub open spec fn modes_distinct(modes: Seq<(Seq<char>, Seq<char>)>) -> bool {
    forall|i: int, j: int|
        0 <= i < j < modes.len() ==> (#[trigger] modes[i]).0 != (#[trigger] modes[j]).0
}

impl AppSettings {
    /// No mode has two hotkeys.
    pub open spec fn well_formed(self) -> bool {
        modes_distinct(pairs(self.mode_hotkeys@))
    }
}

/// A copy of the pairs of a mode and its key.
pub fn copy_modes(modes: &Vec<(String, String)>) -> (r: Vec<(String, String)>)
    ensures
        pairs(r@) == pairs(modes@),
{
    let mut r: Vec<(String, String)> = Vec::new();
    for i in 0..modes.len()
        invariant
            r@.len() == i,
            forall|k: int|
                0 <= k < i ==> (#[trigger] r@[k]).0@ == modes@[k].0@ && r@[k].1@ == modes@[k].1@,
    {
        r.push((modes[i].0.clone(), modes[i].1.clone()));
    }
    assert(pairs(r@) =~= pairs(modes@));
    r
}

/// The code of the language that the speech model is told to expect, if it is told one.
pub open spec fn language_of(mode: LanguageMode) -> Option<Seq<char>> {
    match mode {
        LanguageMode::Japanese => Some("ja"@),
        LanguageMode::English => Some("en"@),
        LanguageMode::Auto => None,
    }
}

/// The code of the language that the speech model is told to expect.
pub fn language_code(mode: LanguageMode) -> (r: Option<String>)
    ensures
        r.deep_view() == language_of(mode),
{
    match mode {
        LanguageMode::Japanese => Some("ja".to_owned()),
        LanguageMode::English => Some("en".to_owned()),
        LanguageMode::Auto => None,
    }
}

/// The pairs keep every mode with its own key, in place.
pub proof fn law_pairs_keep_modes_and_keys(modes: Seq<(String, String)>, i: int)
    requires
        0 <= i < modes.len(),
    ensures
        pairs(modes).len() == modes.len(),
        pairs(modes)[i].0 == modes[i].0@,
        pairs(modes)[i].1 == modes[i].1@,
{
}

} // verus!
