//! What the windows and the start of the app ask for.
use crate::settings::{modes_distinct, pairs, AppSettings};
use crate::state::AppState;
use crate::text::same_text;
use vstd::prelude::*;
use vstd::string::*;

verus! {

/// One thing to do when settings are saved.
#[derive(Debug, Clone, Copy, PartialEq, Eq, Structural)]
pub enum SaveEffect {
    /// Throw the history away.
    ClearHistory,
    /// Tell the windows that the history changed.
    HistoryUpdated,
    /// Throw away what is older than so many days in the history.
    PruneHistory(u32),
    /// Write the new settings to disk; how that went is handed to [`settings_written`].
    WriteSettings,
    /// Put the new settings in place of the ones in use.
    ReplaceSettings,
    /// Take the hotkeys down and register them anew.
    ReloadHotkeys,
    /// Build the menu in the tray anew.
    RebuildTray,
    /// Tell the windows that the settings changed.
    SettingsChanged,
}

/// The pairs of a mode and its key, in no order.
pub open spec fn mode_keys(modes: Seq<(String, String)>) -> Set<(Seq<char>, Seq<char>)> {
    pairs(modes).to_set()
}

/// Something differs that the hotkeys depend on.
pub open spec fn hotkeys_differ(a: AppSettings, b: AppSettings) -> bool {
    ||| a.hotkey_key@ != b.hotkey_key@
    ||| a.activation_mode@ != b.activation_mode@
    ||| a.double_tap_ms != b.double_tap_ms
    ||| mode_keys(a.mode_hotkeys@) != mode_keys(b.mode_hotkeys@)
}

/// What is done about the history when settings are saved. Turning it off throws it away.
pub open spec fn history_deeds(was_enabled: bool, settings: AppSettings) -> Seq<SaveEffect> {
    if was_enabled && !settings.history_enabled {
        seq![SaveEffect::ClearHistory, SaveEffect::HistoryUpdated]
    } else if settings.history_enabled {
        seq![SaveEffect::PruneHistory(settings.history_retention_days)]
    } else {
        seq![]
    }
}

/// Whether `modes` holds this mode with this key.
fn holds_mode_key(modes: &Vec<(String, String)>, mode: &str, key: &str) -> (r: bool)
    ensures
        r == mode_keys(modes@).contains((mode@, key@)),
{
    let ghost views = pairs(modes@);
    for i in 0..modes.len()
        invariant
            views == pairs(modes@),
            views.len() == modes@.len(),
            forall|k: int| 0 <= k < i ==> #[trigger] views[k] != (mode@, key@),
    {
        let entry = &modes[i];
        assert(views[i as int] == (entry.0@, entry.1@));
        if same_text(entry.0.as_str(), mode) && same_text(entry.1.as_str(), key) {
            assert(views.contains((mode@, key@)));
            return true;
        }
    }
    assert(!views.contains((mode@, key@)));
    false
}

/// Whether `b` holds every mode of `a` with the same key.
fn holds_mode_keys(a: &Vec<(String, String)>, b: &Vec<(String, String)>) -> (r: bool)
    ensures
        r == mode_keys(a@).subset_of(mode_keys(b@)),
{
    let ghost views = pairs(a@);
    for i in 0..a.len()
        invariant
            views == pairs(a@),
            views.len() == a@.len(),
            forall|k: int| 0 <= k < i ==> mode_keys(b@).contains(#[trigger] views[k]),
    {
        let entry = &a[i];
        assert(views[i as int] == (entry.0@, entry.1@));
        if !holds_mode_key(b, entry.0.as_str(), entry.1.as_str()) {
            assert(mode_keys(a@).contains(views[i as int])) by {
                assert(views.contains(views[i as int]));
            }
            return false;
        }
    }
    assert forall|x: (Seq<char>, Seq<char>)| mode_keys(a@).contains(x) implies mode_keys(
        b@,
    ).contains(x) by {
        assert(views.contains(x));
        let k = choose|k: int| 0 <= k < views.len() && views[k] == x;
        assert(mode_keys(b@).contains(views[k]));
    }
    true
}

/// Whether something differs that the hotkeys depend on.
pub fn hotkeys_changed(current: &AppSettings, settings: &AppSettings) -> (r: bool)
    ensures
        r == hotkeys_differ(*current, *settings),
{
    let modes_same = holds_mode_keys(&current.mode_hotkeys, &settings.mode_hotkeys)
        && holds_mode_keys(&settings.mode_hotkeys, &current.mode_hotkeys);
    proof {
        let a = mode_keys(current.mode_hotkeys@);
        let b = mode_keys(settings.mode_hotkeys@);
        if modes_same {
            assert(a =~= b);
        }
    }
    !same_text(current.hotkey_key.as_str(), settings.hotkey_key.as_str()) || !same_text(
        current.activation_mode.as_str(),
        settings.activation_mode.as_str(),
    ) || current.double_tap_ms != settings.double_tap_ms || !modes_same
}

/// What is done when `settings` are to be saved in place of the current ones: the history is seen
/// to, and the settings are written. Whether the hotkeys are to be registered anew, if that goes
/// well, is told too.
pub fn save_settings(current: &AppSettings, settings: &AppSettings) -> (r: (Vec<SaveEffect>, bool))
    ensures
        r.0@ == history_deeds(current.history_enabled, *settings).push(SaveEffect::WriteSettings),
        r.1 == hotkeys_differ(*current, *settings),
{
    let mut effects: Vec<SaveEffect> = Vec::new();
    if current.history_enabled && !settings.history_enabled {
        effects.push(SaveEffect::ClearHistory);
        effects.push(SaveEffect::HistoryUpdated);
    } else if settings.history_enabled {
        effects.push(SaveEffect::PruneHistory(settings.history_retention_days));
    }
    assert(effects@ =~= history_deeds(current.history_enabled, *settings));
    effects.push(SaveEffect::WriteSettings);
    (effects, hotkeys_changed(current, settings))
}

/// What is done once settings have been written. They replace the ones in use first. Hotkeys that
/// are not registered are left so.
pub open spec fn deeds_once_written(hotkeys_changed: bool, initialized: bool) -> Seq<SaveEffect> {
    seq![SaveEffect::ReplaceSettings] + (if hotkeys_changed && initialized {
        seq![SaveEffect::ReloadHotkeys]
    } else {
        seq![]
    }) + seq![SaveEffect::RebuildTray, SaveEffect::SettingsChanged]
}

/// Goes on once it is known how writing the settings went. If it failed, that is the error, and
/// nothing more is done: the settings in use stay as they are.
pub fn settings_written(
    state: &AppState,
    hotkeys_changed: bool,
    written: Result<(), String>,
) -> (r: (Result<(), String>, Vec<SaveEffect>))
    ensures
        match written {
            Err(reason) => (r.0 matches Err(e) && e@ == reason@) && r.1@.len() == 0,
            Ok(_) => r.0 is Ok && r.1@ == deeds_once_written(
                hotkeys_changed,
                state.hotkeys_initialized,
            ),
        },
{
    match written {
        Err(reason) => (Err(reason), Vec::new()),
        Ok(_) => {
            let mut effects: Vec<SaveEffect> = Vec::new();
            effects.push(SaveEffect::ReplaceSettings);
            if hotkeys_changed && state.hotkeys_initialized {
                effects.push(SaveEffect::ReloadHotkeys);
            }
            effects.push(SaveEffect::RebuildTray);
            effects.push(SaveEffect::SettingsChanged);
            assert(effects@ =~= deeds_once_written(hotkeys_changed, state.hotkeys_initialized));
            (Ok(()), effects)
        },
    }
}

/// Everything that is done when `settings` are saved in place of `current`, given how writing
/// them went.
pub open spec fn save_run(
    current: AppSettings,
    settings: AppSettings,
    initialized: bool,
    written: bool,
) -> Seq<SaveEffect> {
    history_deeds(current.history_enabled, settings).push(SaveEffect::WriteSettings) + (if written {
        deeds_once_written(hotkeys_differ(current, settings), initialized)
    } else {
        seq![]
    })
}

/// Settings that cannot be written change nothing but the history: the ones in use are not
/// replaced, the hotkeys are not registered anew, and the windows are told of no change. Settings
/// that are written replace the ones in use, before the hotkeys and the windows hear of them.
pub proof fn law_settings_are_replaced_only_once_written(
    current: AppSettings,
    settings: AppSettings,
    initialized: bool,
    written: bool,
)
    ensures
        ({
            let run = save_run(current, settings, initialized, written);
            &&& run.contains(SaveEffect::ReplaceSettings) <==> written
            &&& run.contains(SaveEffect::SettingsChanged) <==> written
            &&& run.contains(SaveEffect::ReloadHotkeys) <==> (written && initialized
                && hotkeys_differ(current, settings))
            &&& forall|i: int, j: int|
                0 <= i < run.len() && 0 <= j < run.len() && #[trigger] run[i]
                    == SaveEffect::ReplaceSettings && (#[trigger] run[j]
                    == SaveEffect::ReloadHotkeys || run[j] == SaveEffect::SettingsChanged) ==> i < j
        }),
{
    let run = save_run(current, settings, initialized, written);
    let n = history_deeds(current.history_enabled, settings).len() as int + 1;
    if written {
        assert(run[n] == SaveEffect::ReplaceSettings);
        assert(run[run.len() - 1] == SaveEffect::SettingsChanged);
        if initialized && hotkeys_differ(current, settings) {
            assert(run[n + 1] == SaveEffect::ReloadHotkeys);
        }
    }
}

/// The history is thrown away exactly when it is turned off.
pub proof fn law_history_is_cleared_only_when_turned_off(
    current: AppSettings,
    settings: AppSettings,
)
    ensures
        history_deeds(current.history_enabled, settings).contains(SaveEffect::ClearHistory) <==> (
        current.history_enabled && !settings.history_enabled),
{
    if current.history_enabled && !settings.history_enabled {
        assert(history_deeds(current.history_enabled, settings)[0] == SaveEffect::ClearHistory);
    }
}

/// The order in which the modes are listed makes no difference to the hotkeys.
pub proof fn law_mode_order_is_irrelevant(a: AppSettings, b: AppSettings)
    requires
        a.hotkey_key == b.hotkey_key,
        a.activation_mode == b.activation_mode,
        a.double_tap_ms == b.double_tap_ms,
        a.mode_hotkeys@.to_multiset() == b.mode_hotkeys@.to_multiset(),
    ensures
        !hotkeys_differ(a, b),
{
    lemma_mode_keys_of_same_entries(a.mode_hotkeys@, b.mode_hotkeys@);
    lemma_mode_keys_of_same_entries(b.mode_hotkeys@, a.mode_hotkeys@);
    assert(mode_keys(a.mode_hotkeys@) =~= mode_keys(b.mode_hotkeys@));
}

proof fn lemma_mode_keys_of_same_entries(a: Seq<(String, String)>, b: Seq<(String, String)>)
    requires
        a.to_multiset() == b.to_multiset(),
    ensures
        mode_keys(a).subset_of(mode_keys(b)),
{
    assert forall|x: (Seq<char>, Seq<char>)| mode_keys(a).contains(x) implies mode_keys(
        b,
    ).contains(x) by {
        assert(pairs(a).contains(x));
        let i = choose|i: int| 0 <= i < pairs(a).len() && pairs(a)[i] == x;
        a.to_multiset_ensures();
        b.to_multiset_ensures();
        assert(a.contains(a[i]));
        assert(a.to_multiset().count(a[i]) > 0);
        assert(b.to_multiset().count(a[i]) > 0);
        assert(b.contains(a[i]));
        let j = choose|j: int| 0 <= j < b.len() && b[j] == a[i];
        assert(pairs(b)[j] == x);
    }
}

/// The modes with their keys as a map, which they are where no mode occurs twice.
pub open spec fn mode_map(modes: Seq<(Seq<char>, Seq<char>)>) -> Map<Seq<char>, Seq<char>> {
    Map::new(
        |mode: Seq<char>| exists|i: int| 0 <= i < modes.len() && (#[trigger] modes[i]).0 == mode,
        |mode: Seq<char>|
            modes[choose|i: int| 0 <= i < modes.len() && (#[trigger] modes[i]).0 == mode].1,
    )
}

proof fn lemma_mode_map(modes: Seq<(Seq<char>, Seq<char>)>, mode: Seq<char>, key: Seq<char>)
    requires
        modes_distinct(modes),
    ensures
        modes.to_set().contains((mode, key)) <==> (mode_map(modes).contains_key(mode) && mode_map(
            modes,
        )[mode] == key),
{
    if modes.contains((mode, key)) {
        let k = choose|k: int| 0 <= k < modes.len() && modes[k] == (mode, key);
        assert(modes[k].0 == mode);
        let i = choose|i: int| 0 <= i < modes.len() && (#[trigger] modes[i]).0 == mode;
        assert(i == k) by {
            if i < k {
                assert(modes[i].0 != modes[k].0);
            } else if k < i {
                assert(modes[k].0 != modes[i].0);
            }
        }
    }
    if mode_map(modes).contains_key(mode) {
        let i = choose|i: int| 0 <= i < modes.len() && (#[trigger] modes[i]).0 == mode;
        assert(modes[i] == (mode, mode_map(modes)[mode]));
        assert(modes.contains(modes[i]));
    }
}

/// Of settings where no mode occurs twice, the hotkeys of the modes differ exactly when they do
/// as maps from a mode to its key.
pub proof fn law_mode_hotkeys_compare_as_maps(a: AppSettings, b: AppSettings)
    requires
        a.well_formed(),
        b.well_formed(),
    ensures
        mode_keys(a.mode_hotkeys@) == mode_keys(b.mode_hotkeys@) <==> mode_map(
            pairs(a.mode_hotkeys@),
        ) == mode_map(pairs(b.mode_hotkeys@)),
{
    let (x, y) = (pairs(a.mode_hotkeys@), pairs(b.mode_hotkeys@));
    let (m, n) = (mode_map(x), mode_map(y));
    if x.to_set() == y.to_set() {
        assert forall|mode: Seq<char>| m.contains_key(mode) <==> n.contains_key(mode) by {
            lemma_mode_map(x, mode, m[mode]);
            lemma_mode_map(y, mode, m[mode]);
            lemma_mode_map(x, mode, n[mode]);
            lemma_mode_map(y, mode, n[mode]);
        }
        assert forall|mode: Seq<char>| m.contains_key(mode) implies m[mode] == n[mode] by {
            lemma_mode_map(x, mode, m[mode]);
            lemma_mode_map(y, mode, m[mode]);
        }
        assert(m =~= n);
    }
    if m == n {
        assert forall|e: (Seq<char>, Seq<char>)| x.to_set().contains(e) <==> y.to_set().contains(
            e,
        ) by {
            lemma_mode_map(x, e.0, e.1);
            lemma_mode_map(y, e.0, e.1);
        }
        assert(x.to_set() =~= y.to_set());
    }
}

/// For how many days back the history is shown, or `None` if there is none to show.
pub fn get_history(settings: &AppSettings) -> (r: Option<u32>)
    ensures
        r == if settings.history_enabled {
            Some(settings.history_retention_days)
        } else {
            None
        },
{
    if settings.history_enabled {
        Some(settings.history_retention_days)
    } else {
        None
    }
}

/// Remembers how far the introduction has come.
pub fn save_onboarding_step(settings: &mut AppSettings, step: u32)
    ensures
        *final(settings) == (AppSettings { onboarding_step: step, ..*old(settings) }),
        old(settings).well_formed() ==> final(settings).well_formed(),
{
    settings.onboarding_step = step;
}

/// Begins or ends trying out the hotkey.
pub fn set_hotkey_test_mode(state: &mut AppState, enabled: bool)
    ensures
        *final(state) == (AppState { hotkey_test_mode: enabled, ..*old(state) }),
{
    state.hotkey_test_mode = enabled;
}

/// The number of a build; one that has none is build 0.
pub open spec fn build_number(build: Option<&str>) -> Seq<char> {
    match build {
        Some(number) => number@,
        None => "0"@,
    }
}

/// The number of a build.
pub fn get_build_number(build: Option<&str>) -> (r: String)
    ensures
        r@ == build_number(build),
{
    match build {
        Some(number) => number.to_owned(),
        None => "0".to_owned(),
    }
}

/// The title of the app: `Flow (1.0.0 · build 300)`.
pub fn app_title_with_build(version: &str, build: Option<&str>) -> (r: String)
    ensures
        r@ == "Flow ("@ + version@ + " · build "@ + build_number(build) + ")"@,
{
    let mut r = "Flow (".to_owned();
    r.append(version);
    r.append(" · build ");
    r.append(get_build_number(build).as_str());
    r.append(")");
    r
}

/// What is done when the app is started.
#[derive(Debug, Clone, Copy, PartialEq, Eq, Structural)]
pub struct StartupPlan {
    /// Show the settings, for the introduction; else hide them.
    pub show_settings: bool,
    /// Register the hotkeys and watch their permissions; else the introduction will.
    pub register_hotkeys: bool,
    /// Bring up the local speech server.
    pub ensure_server: bool,
}

/// What is done when the app is started.
pub fn startup_plan(settings: &AppSettings) -> (r: StartupPlan)
    ensures
        r == (StartupPlan {
            show_settings: !settings.onboarding_completed,
            register_hotkeys: settings.onboarding_completed,
            ensure_server: settings.stt_preset@ == "local_whisper"@,
        }),
{
    StartupPlan {
        show_settings: !settings.onboarding_completed,
        register_hotkeys: settings.onboarding_completed,
        ensure_server: same_text(settings.stt_preset.as_str(), "local_whisper"),
    }
}

/// The hotkeys are registered anew exactly when the record key, the way it works, the time for a
/// double tap or the key of some mode is another one; no other setting matters.
pub proof fn law_hotkeys_differ_in_what_they_depend_on(
    a: AppSettings,
    b: AppSettings,
    entry: (Seq<char>, Seq<char>),
)
    ensures
        hotkeys_differ(a, b) == hotkeys_differ(b, a),
        a.hotkey_key@ != b.hotkey_key@ ==> hotkeys_differ(a, b),
        a.activation_mode@ != b.activation_mode@ ==> hotkeys_differ(a, b),
        a.double_tap_ms != b.double_tap_ms ==> hotkeys_differ(a, b),
        pairs(a.mode_hotkeys@).contains(entry) && !pairs(b.mode_hotkeys@).contains(entry)
            ==> hotkeys_differ(a, b),
        a.hotkey_key@ == b.hotkey_key@ && a.activation_mode@ == b.activation_mode@
            && a.double_tap_ms == b.double_tap_ms && pairs(a.mode_hotkeys@) == pairs(
            b.mode_hotkeys@,
        ) ==> !hotkeys_differ(a, b),
{
    if pairs(a.mode_hotkeys@).contains(entry) && !pairs(b.mode_hotkeys@).contains(entry) {
        assert(mode_keys(a.mode_hotkeys@).contains(entry));
        assert(!mode_keys(b.mode_hotkeys@).contains(entry));
    }
}

/// A history that is wanted is rid of what is too old, at the age that the new settings name; one
/// that is no longer wanted is thrown away and the windows learn of it; one that was not wanted
/// and is not is left alone.
pub proof fn law_history_follows_the_settings(current: AppSettings, settings: AppSettings)
    ensures
        history_deeds(current.history_enabled, settings) == if settings.history_enabled {
            seq![SaveEffect::PruneHistory(settings.history_retention_days)]
        } else if current.history_enabled {
            seq![SaveEffect::ClearHistory, SaveEffect::HistoryUpdated]
        } else {
            seq![]
        },
{
}

/// Settings that have been written are put into use, then the hotkeys follow if they have to, then
/// the tray, and last the windows hear of it.
pub proof fn law_written_settings_take_effect_in_order(hotkeys_changed: bool, initialized: bool)
    ensures
        deeds_once_written(hotkeys_changed, initialized) == if hotkeys_changed && initialized {
            seq![
                SaveEffect::ReplaceSettings,
                SaveEffect::ReloadHotkeys,
                SaveEffect::RebuildTray,
                SaveEffect::SettingsChanged,
            ]
        } else {
            seq![
                SaveEffect::ReplaceSettings,
                SaveEffect::RebuildTray,
                SaveEffect::SettingsChanged,
            ]
        },
{
    let r = deeds_once_written(hotkeys_changed, initialized);
    if hotkeys_changed && initialized {
        assert(r =~= seq![
            SaveEffect::ReplaceSettings,
            SaveEffect::ReloadHotkeys,
            SaveEffect::RebuildTray,
            SaveEffect::SettingsChanged,
        ]);
    } else {
        assert(r =~= seq![
            SaveEffect::ReplaceSettings,
            SaveEffect::RebuildTray,
            SaveEffect::SettingsChanged,
        ]);
    }
}

/// A build is known by its number, and by `0` if it has none.
pub proof fn law_builds_have_numbers(number: &str)
    ensures
        build_number(Some(number)) == number@,
        build_number(None) == "0"@,
{
}

} // verus!
