//! Registering the hotkeys, and finding out what a shortcut that was pressed stands for.
use crate::settings::{copy_modes, pairs, AppSettings};
use crate::shortcut::{parse_shortcut, shortcut_text};
use crate::state::AppState;
use crate::text::{blank, law_blank_is_nothing_once_trimmed, same_text, trim, trimmed};
use vstd::prelude::*;
use vstd::string::*;

verus! {

/// One thing to do about hotkeys. A list of them is carried out in order; a question comes last
/// in its list, and its answer is handed to [`Registration::step`].
#[derive(Debug)]
pub enum HotkeyEffect {
    /// Take down the event taps, for the record key and for the cancel key.
    UninstallListeners,
    /// Unregister every global shortcut.
    UnregisterShortcuts,
    /// Tell the hotkey detector this activation mode and this time for a double tap.
    UpdateDetector { activation_mode: String, double_tap_ms: u64 },
    /// Register this record hotkey and these hotkeys of modes, with [`register_hotkeys`].
    RegisterHotkeys { hotkey: String, modes: Vec<(String, String)> },
    /// Install an event tap for this record key.
    InstallKeyListener(String),
    /// Install an event tap for the cancel key.
    InstallCancelListener,
    /// Register this shortcut for recording.
    RegisterRecordShortcut(u32),
    /// Is this a key that takes an event tap?
    AskEventTap(String),
    /// Does this text name a shortcut, and which?
    AskShortcut(String),
    /// Register this shortcut for a mode. Could it be registered?
    AskRegister(u32),
}

/// What a [`HotkeyEffect`] says.
pub ghost enum HotkeyDeed {
    UninstallListeners,
    UnregisterShortcuts,
    UpdateDetector { activation_mode: Seq<char>, double_tap_ms: u64 },
    RegisterHotkeys { hotkey: Seq<char>, modes: Seq<(Seq<char>, Seq<char>)> },
    InstallKeyListener(Seq<char>),
    InstallCancelListener,
    RegisterRecordShortcut(u32),
    AskEventTap(Seq<char>),
    AskShortcut(Seq<char>),
    AskRegister(u32),
}

impl DeepView for HotkeyEffect {
    type V = HotkeyDeed;

    open spec fn deep_view(&self) -> HotkeyDeed {
        match self {
            HotkeyEffect::UninstallListeners => HotkeyDeed::UninstallListeners,
            HotkeyEffect::UnregisterShortcuts => HotkeyDeed::UnregisterShortcuts,
            HotkeyEffect::UpdateDetector { activation_mode, double_tap_ms } => {
                HotkeyDeed::UpdateDetector {
                    activation_mode: activation_mode@,
                    double_tap_ms: *double_tap_ms,
                }
            },
            HotkeyEffect::RegisterHotkeys { hotkey, modes } => HotkeyDeed::RegisterHotkeys {
                hotkey: hotkey@,
                modes: pairs(modes@),
            },
            HotkeyEffect::InstallKeyListener(key) => HotkeyDeed::InstallKeyListener(key@),
            HotkeyEffect::InstallCancelListener => HotkeyDeed::InstallCancelListener,
            HotkeyEffect::RegisterRecordShortcut(id) => HotkeyDeed::RegisterRecordShortcut(*id),
            HotkeyEffect::AskEventTap(key) => HotkeyDeed::AskEventTap(key@),
            HotkeyEffect::AskShortcut(text) => HotkeyDeed::AskShortcut(text@),
            HotkeyEffect::AskRegister(id) => HotkeyDeed::AskRegister(*id),
        }
    }
}

/// The answer to a question.
#[derive(Debug, Clone, Copy, PartialEq, Eq, Structural)]
pub enum HotkeyAnswer {
    /// The key takes an event tap, or does not.
    EventTap(bool),
    /// The number of the shortcut that the text names, if it names one.
    Shortcut(Option<u32>),
    /// The shortcut could be registered, or could not.
    Registered(bool),
}

/// What a registration waits for. Modes are given by their place in the list.
#[derive(Debug, Clone, Copy, PartialEq, Eq, Structural)]
pub enum RegistrationPhase {
    /// Whether the record key takes an event tap.
    RecordKey,
    /// The shortcut that the record key names.
    RecordShortcut,
    /// The shortcut that is taken instead.
    FallbackShortcut,
    /// Whether the key of this mode takes an event tap.
    ModeKey { mode: usize },
    /// The shortcut that the key of this mode names.
    ModeShortcut { mode: usize },
    /// Whether this shortcut could be registered for this mode.
    ModeRegistered { mode: usize, id: u32 },
    /// Nothing.
    Done,
}

/// The first mode from `from` on that has a key, or the number of modes if none has.
pub open spec fn next_mode(modes: Seq<(Seq<char>, Seq<char>)>, from: int) -> int
    decreases modes.len() - from,
{
    if 0 <= from < modes.len() && trimmed(modes[from].1).len() == 0 {
        next_mode(modes, from + 1)
    } else {
        from
    }
}

/// What is done about the modes from `from` on.
pub open spec fn once_at_mode(modes: Seq<(Seq<char>, Seq<char>)>, from: int) -> (
    RegistrationPhase,
    Seq<HotkeyDeed>,
) {
    let mode = next_mode(modes, from);
    if mode < modes.len() {
        (
            RegistrationPhase::ModeKey { mode: mode as usize },
            seq![HotkeyDeed::AskEventTap(trimmed(modes[mode].1))],
        )
    } else {
        (RegistrationPhase::Done, seq![HotkeyDeed::InstallCancelListener])
    }
}

/// The next step of a registration.
pub ghost struct RegistrationNext {
    pub phase: RegistrationPhase,
    pub deeds: Seq<HotkeyDeed>,
    /// The shortcut that records, from now on.
    pub record: Option<u32>,
    /// A shortcut that switches the mode, from now on, and the mode.
    pub added: Option<(u32, Seq<char>)>,
}

/// The next step where no shortcut changes its meaning.
pub open spec fn unchanged(
    next: (RegistrationPhase, Seq<HotkeyDeed>),
    record: Option<u32>,
) -> RegistrationNext {
    RegistrationNext { phase: next.0, deeds: next.1, record, added: None }
}

/// The next step of a registration after the answer to its question. `record` is the shortcut
/// that records so far. An answer that the phase does not wait for changes nothing.
pub open spec fn registration_step(
    phase: RegistrationPhase,
    answer: HotkeyAnswer,
    hotkey: Seq<char>,
    modes: Seq<(Seq<char>, Seq<char>)>,
    record: Option<u32>,
) -> RegistrationNext {
    match (phase, answer) {
        (RegistrationPhase::RecordKey, HotkeyAnswer::EventTap(taps)) => if taps {
            let next = once_at_mode(modes, 0);
            unchanged(
                (next.0, seq![HotkeyDeed::InstallKeyListener(hotkey)] + next.1),
                record,
            )
        } else {
            unchanged(
                (
                    RegistrationPhase::RecordShortcut,
                    seq![HotkeyDeed::AskShortcut(shortcut_text(hotkey))],
                ),
                record,
            )
        },
        (RegistrationPhase::RecordShortcut, HotkeyAnswer::Shortcut(None)) => unchanged(
            (RegistrationPhase::FallbackShortcut, seq![HotkeyDeed::AskShortcut("F5"@)]),
            record,
        ),
        (
            RegistrationPhase::RecordShortcut | RegistrationPhase::FallbackShortcut,
            HotkeyAnswer::Shortcut(Some(id)),
        ) => {
            let next = once_at_mode(modes, 0);
            unchanged(
                (next.0, seq![HotkeyDeed::RegisterRecordShortcut(id)] + next.1),
                Some(id),
            )
        },
        (RegistrationPhase::ModeKey { mode }, HotkeyAnswer::EventTap(taps)) => {
            let key = trimmed(modes[mode as int].1);
            if taps || key == hotkey {
                unchanged(once_at_mode(modes, mode + 1), record)
            } else {
                unchanged(
                    (
                        RegistrationPhase::ModeShortcut { mode },
                        seq![HotkeyDeed::AskShortcut(shortcut_text(key))],
                    ),
                    record,
                )
            }
        },
        (RegistrationPhase::ModeShortcut { mode }, HotkeyAnswer::Shortcut(parsed)) => {
            if parsed is None || parsed == record {
                unchanged(once_at_mode(modes, mode + 1), record)
            } else {
                unchanged(
                    (
                        RegistrationPhase::ModeRegistered { mode, id: parsed->0 },
                        seq![HotkeyDeed::AskRegister(parsed->0)],
                    ),
                    record,
                )
            }
        },
        (RegistrationPhase::ModeRegistered { mode, id }, HotkeyAnswer::Registered(done)) => {
            let next = once_at_mode(modes, mode + 1);
            RegistrationNext {
                phase: next.0,
                deeds: next.1,
                record,
                added: if done {
                    Some((id, modes[mode as int].0))
                } else {
                    None
                },
            }
        },
        _ => unchanged((phase, seq![]), record),
    }
}

/// A registration that is under way.
#[derive(Debug)]
pub struct Registration {
    pub phase: RegistrationPhase,
    /// The record hotkey.
    pub hotkey: String,
    /// The pairs of a mode and its key.
    pub modes: Vec<(String, String)>,
}

/// The phase speaks of a mode that there is.
pub open spec fn phase_fits(phase: RegistrationPhase, mode_count: nat) -> bool {
    match phase {
        RegistrationPhase::ModeKey { mode } => mode < mode_count,
        RegistrationPhase::ModeShortcut { mode } => mode < mode_count,
        RegistrationPhase::ModeRegistered { mode, id } => mode < mode_count,
        _ => true,
    }
}

proof fn lemma_next_mode(modes: Seq<(Seq<char>, Seq<char>)>, from: int)
    requires
        0 <= from <= modes.len(),
    ensures
        from <= next_mode(modes, from) <= modes.len(),
        next_mode(modes, from) < modes.len() ==> trimmed(
            modes[next_mode(modes, from)].1,
        ).len() > 0,
    decreases modes.len() - from,
{
    if from < modes.len() && trimmed(modes[from].1).len() == 0 {
        lemma_next_mode(modes, from + 1);
    }
}

/// `first` and then `rest`.
fn after(first: HotkeyEffect, rest: Vec<HotkeyEffect>) -> (r: Vec<HotkeyEffect>)
    ensures
        r.deep_view() == seq![first.deep_view()] + rest.deep_view(),
{
    let mut r = rest;
    r.insert(0, first);
    assert(r.deep_view() =~= seq![first.deep_view()] + rest.deep_view());
    r
}

fn alone(effect: HotkeyEffect) -> (r: Vec<HotkeyEffect>)
    ensures
        r.deep_view() == seq![effect.deep_view()],
{
    let r = vec![effect];
    assert(r.deep_view() =~= seq![effect.deep_view()]);
    r
}

impl Registration {
    /// The phase speaks of a mode that there is.
    pub open spec fn well_formed(self) -> bool {
        phase_fits(self.phase, self.modes@.len())
    }

    /// Goes on to the modes from `from` on.
    fn at_mode(&mut self, from: usize) -> (r: Vec<HotkeyEffect>)
        requires
            from <= old(self).modes@.len(),
        ensures
            (final(self).phase, r.deep_view()) == once_at_mode(
                pairs(old(self).modes@),
                from as int,
            ),
            final(self).hotkey == old(self).hotkey,
            final(self).modes == old(self).modes,
            final(self).well_formed(),
    {
        let mut mode: usize = from;
        let ghost modes = pairs(self.modes@);
        while mode < self.modes.len()
            invariant
                self.hotkey == old(self).hotkey,
                self.modes == old(self).modes,
                modes == pairs(self.modes@),
                modes.len() == self.modes@.len(),
                from <= mode <= modes.len(),
                next_mode(modes, mode as int) == next_mode(modes, from as int),
            decreases self.modes@.len() - mode,
        {
            assert(modes[mode as int].1 == self.modes@[mode as int].1@);
            let key = trim(self.modes[mode].1.as_str());
            if !key.as_str().is_empty() {
                self.phase = RegistrationPhase::ModeKey { mode };
                return alone(HotkeyEffect::AskEventTap(key));
            }
            mode = mode + 1;
        }
        self.phase = RegistrationPhase::Done;
        alone(HotkeyEffect::InstallCancelListener)
    }

    /// Goes on after the answer to the last question. Where even the fallback names no shortcut
    /// there is nothing to record with; that answer is not taken.
    pub fn step(&mut self, state: &mut AppState, answer: HotkeyAnswer) -> (r: Vec<HotkeyEffect>)
        requires
            old(self).well_formed(),
            !(old(self).phase is FallbackShortcut && answer == HotkeyAnswer::Shortcut(None)),
        ensures
            ({
                let next = registration_step(
                    old(self).phase,
                    answer,
                    old(self).hotkey@,
                    pairs(old(self).modes@),
                    old(state).record_shortcut,
                );
                &&& final(self).phase == next.phase
                &&& r.deep_view() == next.deeds
                &&& final(state).record_shortcut == next.record
                &&& match next.added {
                    None => final(state).mode_shortcuts == old(state).mode_shortcuts,
                    Some((id, mode)) => {
                        &&& final(state).mode_shortcuts@.len() == old(state).mode_shortcuts@.len()
                            + 1
                        &&& final(state).mode_shortcuts@.drop_last() == old(state).mode_shortcuts@
                        &&& final(state).mode_shortcuts@.last().0 == id
                        &&& final(state).mode_shortcuts@.last().1@ == mode
                    },
                }
            }),
            *final(state) == (AppState {
                record_shortcut: final(state).record_shortcut,
                mode_shortcuts: final(state).mode_shortcuts,
                ..*old(state)
            }),
            final(self).hotkey == old(self).hotkey,
            final(self).modes == old(self).modes,
            final(self).well_formed(),
    {
        let ghost modes = pairs(self.modes@);
        let count: usize = self.modes.len();
        assert(modes.len() == count);
        assert(forall|i: int| 0 <= i < modes.len() ==> modes[i].1 == self.modes@[i].1@);
        match (self.phase, answer) {
            (RegistrationPhase::RecordKey, HotkeyAnswer::EventTap(taps)) => {
                if taps {
                    let listener = HotkeyEffect::InstallKeyListener(self.hotkey.clone());
                    let rest = self.at_mode(0);
                    after(listener, rest)
                } else {
                    self.phase = RegistrationPhase::RecordShortcut;
                    alone(HotkeyEffect::AskShortcut(parse_shortcut(self.hotkey.as_str())))
                }
            },
            (RegistrationPhase::RecordShortcut, HotkeyAnswer::Shortcut(None)) => {
                self.phase = RegistrationPhase::FallbackShortcut;
                alone(HotkeyEffect::AskShortcut("F5".to_owned()))
            },
            (RegistrationPhase::RecordShortcut, HotkeyAnswer::Shortcut(Some(id))) => {
                state.record_shortcut = Some(id);
                let rest = self.at_mode(0);
                after(HotkeyEffect::RegisterRecordShortcut(id), rest)
            },
            (RegistrationPhase::FallbackShortcut, HotkeyAnswer::Shortcut(Some(id))) => {
                state.record_shortcut = Some(id);
                let rest = self.at_mode(0);
                after(HotkeyEffect::RegisterRecordShortcut(id), rest)
            },
            (RegistrationPhase::ModeKey { mode }, HotkeyAnswer::EventTap(taps)) => {
                let key = trim(self.modes[mode].1.as_str());
                if taps || same_text(key.as_str(), self.hotkey.as_str()) {
                    self.at_mode(mode + 1)
                } else {
                    self.phase = RegistrationPhase::ModeShortcut { mode };
                    alone(HotkeyEffect::AskShortcut(parse_shortcut(key.as_str())))
                }
            },
            (RegistrationPhase::ModeShortcut { mode }, HotkeyAnswer::Shortcut(parsed)) => {
                match parsed {
                    Some(id) => {
                        let records = match state.record_shortcut {
                            Some(record) => record == id,
                            None => false,
                        };
                        if records {
                            self.at_mode(mode + 1)
                        } else {
                            self.phase = RegistrationPhase::ModeRegistered { mode, id };
                            alone(HotkeyEffect::AskRegister(id))
                        }
                    },
                    None => self.at_mode(mode + 1),
                }
            },
            (RegistrationPhase::ModeRegistered { mode, id }, HotkeyAnswer::Registered(done)) => {
                if done {
                    let name = self.modes[mode].0.clone();
                    state.mode_shortcuts.push((id, name));
                    assert(state.mode_shortcuts@.drop_last() =~= old(state).mode_shortcuts@);
                    assert(modes[mode as int].0 == name@);
                }
                self.at_mode(mode + 1)
            },
            _ => {
                let r: Vec<HotkeyEffect> = Vec::new();
                assert(r.deep_view() =~= Seq::<HotkeyDeed>::empty());
                r
            },
        }
    }
}

/// Starts to register the hotkeys, unless they are registered already: forgets the shortcuts of
/// the last time and asks whether the record key takes an event tap.
pub fn register_hotkeys(state: &mut AppState, hotkey: &str, modes: Vec<(String, String)>) -> (r:
    Option<(Registration, HotkeyEffect)>)
    ensures
        r is None == old(state).hotkeys_initialized,
        r is None ==> *final(state) == *old(state),
        r matches Some((registration, effect)) ==> {
            &&& registration.phase is RecordKey
            &&& registration.hotkey@ == hotkey@
            &&& registration.modes == modes
            &&& registration.well_formed()
            &&& effect.deep_view() == HotkeyDeed::AskEventTap(hotkey@)
            &&& final(state).hotkeys_initialized
            &&& final(state).record_shortcut is None
            &&& final(state).mode_shortcuts@.len() == 0
            &&& *final(state) == (AppState {
                hotkeys_initialized: true,
                record_shortcut: None,
                mode_shortcuts: final(state).mode_shortcuts,
                ..*old(state)
            })
        },
{
    if state.hotkeys_initialized {
        return None;
    }
    state.hotkeys_initialized = true;
    state.record_shortcut = None;
    state.mode_shortcuts = Vec::new();
    let registration = Registration {
        phase: RegistrationPhase::RecordKey,
        hotkey: hotkey.to_owned(),
        modes,
    };
    Some((registration, HotkeyEffect::AskEventTap(hotkey.to_owned())))
}

/// What takes the hotkeys down, where they are registered.
pub open spec fn takedown(initialized: bool) -> Seq<HotkeyDeed> {
    if initialized {
        seq![HotkeyDeed::UninstallListeners, HotkeyDeed::UnregisterShortcuts]
    } else {
        seq![]
    }
}

/// Takes the hotkeys down, if they are registered.
pub fn unregister_hotkeys(state: &mut AppState) -> (r: Vec<HotkeyEffect>)
    ensures
        *final(state) == (AppState { hotkeys_initialized: false, ..*old(state) }),
        r.deep_view() == takedown(old(state).hotkeys_initialized),
{
    let mut r: Vec<HotkeyEffect> = Vec::new();
    if state.hotkeys_initialized {
        state.hotkeys_initialized = false;
        r.push(HotkeyEffect::UninstallListeners);
        r.push(HotkeyEffect::UnregisterShortcuts);
    }
    assert(r.deep_view() =~= takedown(old(state).hotkeys_initialized));
    r
}

/// Registers the hotkeys of `settings`.
pub open spec fn registering(settings: AppSettings) -> HotkeyDeed {
    HotkeyDeed::RegisterHotkeys {
        hotkey: settings.hotkey_key@,
        modes: pairs(settings.mode_hotkeys@),
    }
}

/// Takes down the hotkeys, where they are registered, tells the detector what `settings` say, and
/// registers the hotkeys of `settings`.
pub open spec fn reloading(initialized: bool, settings: AppSettings) -> Seq<HotkeyDeed> {
    takedown(initialized) + seq![
        HotkeyDeed::UpdateDetector {
            activation_mode: settings.activation_mode@,
            double_tap_ms: settings.double_tap_ms,
        },
        registering(settings),
    ]
}

fn registering_effect(settings: &AppSettings) -> (r: HotkeyEffect)
    ensures
        r.deep_view() == registering(*settings),
{
    HotkeyEffect::RegisterHotkeys {
        hotkey: settings.hotkey_key.clone(),
        modes: copy_modes(&settings.mode_hotkeys),
    }
}

/// Takes the hotkeys down and registers those of the settings.
pub fn reload_hotkeys(state: &mut AppState, settings: &AppSettings) -> (r: Vec<HotkeyEffect>)
    ensures
        *final(state) == (AppState { hotkeys_initialized: false, ..*old(state) }),
        r.deep_view() == reloading(old(state).hotkeys_initialized, *settings),
{
    let mut r = unregister_hotkeys(state);
    r.push(
        HotkeyEffect::UpdateDetector {
            activation_mode: settings.activation_mode.clone(),
            double_tap_ms: settings.double_tap_ms,
        },
    );
    r.push(registering_effect(settings));
    assert(r.deep_view() =~= reloading(old(state).hotkeys_initialized, *settings));
    r
}

/// Registers the hotkeys of the settings, after taking down those that are registered.
pub fn initialize_hotkeys(state: &mut AppState, settings: &AppSettings) -> (r: Vec<HotkeyEffect>)
    ensures
        *final(state) == (AppState { hotkeys_initialized: false, ..*old(state) }),
        r.deep_view() == if old(state).hotkeys_initialized {
            reloading(true, *settings)
        } else {
            seq![registering(*settings)]
        },
{
    if state.hotkeys_initialized {
        reload_hotkeys(state, settings)
    } else {
        alone(registering_effect(settings))
    }
}

/// Whether the permissions are to be watched from now on: they are, the first time.
pub fn start_permission_monitor_once(state: &mut AppState) -> (r: bool)
    ensures
        r == !old(state).permission_monitor_started,
        *final(state) == (AppState { permission_monitor_started: true, ..*old(state) }),
{
    let first = !state.permission_monitor_started;
    state.permission_monitor_started = true;
    first
}

/// What a shortcut stands for when it is pressed or released.
#[derive(Debug)]
pub enum ShortcutAction {
    /// Make this the active mode.
    SwitchMode(String),
    /// The record key went down.
    RecordKeyDown,
    /// The record key went up.
    RecordKeyUp,
    Nothing,
}

/// The first place from `from` on where the shortcut `id` stands, or the number of places.
pub open spec fn first_mode_with(modes: Seq<(u32, String)>, id: u32, from: int) -> int
    decreases modes.len() - from,
{
    if 0 <= from < modes.len() && modes[from].0 != id {
        first_mode_with(modes, id, from + 1)
    } else {
        from
    }
}

/// Tells what a shortcut stands for: the first mode that it switches to, when it is pressed;
/// else the record key, if it is that.
pub fn route_shortcut(state: &AppState, id: u32, pressed: bool) -> (r: ShortcutAction)
    ensures
        ({
            let modes = state.mode_shortcuts@;
            let mode = first_mode_with(modes, id, 0);
            if mode < modes.len() {
                if pressed {
                    r matches ShortcutAction::SwitchMode(name) && name@ == modes[mode].1@
                } else {
                    r is Nothing
                }
            } else if state.record_shortcut == Some(id) {
                if pressed {
                    r is RecordKeyDown
                } else {
                    r is RecordKeyUp
                }
            } else {
                r is Nothing
            }
        }),
{
    let mut i: usize = 0;
    while i < state.mode_shortcuts.len()
        invariant
            i <= state.mode_shortcuts@.len(),
            first_mode_with(state.mode_shortcuts@, id, i as int) == first_mode_with(
                state.mode_shortcuts@,
                id,
                0,
            ),
        decreases state.mode_shortcuts@.len() - i,
    {
        if state.mode_shortcuts[i].0 == id {
            return if pressed {
                ShortcutAction::SwitchMode(state.mode_shortcuts[i].1.clone())
            } else {
                ShortcutAction::Nothing
            };
        }
        i = i + 1;
    }
    let records = match state.record_shortcut {
        Some(record) => record == id,
        None => false,
    };
    if !records {
        ShortcutAction::Nothing
    } else if pressed {
        ShortcutAction::RecordKeyDown
    } else {
        ShortcutAction::RecordKeyUp
    }
}

/// The shortcuts that switch the mode, after a step of a registration.
pub open spec fn modes_after(
    before: Seq<(u32, Seq<char>)>,
    next: RegistrationNext,
) -> Seq<(u32, Seq<char>)> {
    match next.added {
        Some(entry) => before.push(entry),
        None => before,
    }
}

/// No shortcut both records and switches the mode, nor is about to.
pub open spec fn shortcuts_apart(
    phase: RegistrationPhase,
    record: Option<u32>,
    modes: Seq<(u32, Seq<char>)>,
) -> bool {
    &&& forall|i: int| 0 <= i < modes.len() ==> Some((#[trigger] modes[i]).0) != record
    &&& phase matches RegistrationPhase::ModeRegistered { mode, id } ==> Some(id) != record
    &&& phase is RecordKey || phase is RecordShortcut || phase is FallbackShortcut
        ==> modes.len() == 0
}

proof fn lemma_step_keeps_shortcuts_apart(
    phase: RegistrationPhase,
    answer: HotkeyAnswer,
    hotkey: Seq<char>,
    settings_modes: Seq<(Seq<char>, Seq<char>)>,
    record: Option<u32>,
    modes: Seq<(u32, Seq<char>)>,
)
    requires
        shortcuts_apart(phase, record, modes),
    ensures
        ({
            let next = registration_step(phase, answer, hotkey, settings_modes, record);
            shortcuts_apart(next.phase, next.record, modes_after(modes, next))
        }),
{
}

/// What a registration comes to: its phase, the shortcut that records, those that switch the mode,
/// and everything that was asked and done on the way.
pub ghost struct Registered {
    pub phase: RegistrationPhase,
    pub record: Option<u32>,
    pub modes: Seq<(u32, Seq<char>)>,
    pub deeds: Seq<HotkeyDeed>,
}

/// What a registration comes to that is given `answers` from its beginning.
pub open spec fn registration_run(
    answers: Seq<HotkeyAnswer>,
    hotkey: Seq<char>,
    settings_modes: Seq<(Seq<char>, Seq<char>)>,
) -> Registered
    decreases answers.len(),
{
    if answers.len() == 0 {
        Registered {
            phase: RegistrationPhase::RecordKey,
            record: None,
            modes: seq![],
            deeds: seq![HotkeyDeed::AskEventTap(hotkey)],
        }
    } else {
        let before = registration_run(answers.drop_last(), hotkey, settings_modes);
        let next = registration_step(
            before.phase,
            answers.last(),
            hotkey,
            settings_modes,
            before.record,
        );
        Registered {
            phase: next.phase,
            record: next.record,
            modes: modes_after(before.modes, next),
            deeds: before.deeds + next.deeds,
        }
    }
}

/// A registration, whatever it is answered, never lets one shortcut both record and switch the
/// mode.
pub proof fn law_registration_keeps_shortcuts_apart(
    answers: Seq<HotkeyAnswer>,
    hotkey: Seq<char>,
    settings_modes: Seq<(Seq<char>, Seq<char>)>,
)
    ensures
        ({
            let end = registration_run(answers, hotkey, settings_modes);
            shortcuts_apart(end.phase, end.record, end.modes)
        }),
    decreases answers.len(),
{
    if answers.len() > 0 {
        law_registration_keeps_shortcuts_apart(answers.drop_last(), hotkey, settings_modes);
        let before = registration_run(answers.drop_last(), hotkey, settings_modes);
        lemma_step_keeps_shortcuts_apart(
            before.phase,
            answers.last(),
            hotkey,
            settings_modes,
            before.record,
            before.modes,
        );
    }
}

/// How the outside answers the questions of a registration.
pub ghost struct Outside {
    /// Whether a key takes an event tap.
    pub taps: spec_fn(Seq<char>) -> bool,
    /// The shortcut that a text names, if it names one.
    pub names: spec_fn(Seq<char>) -> Option<u32>,
    /// Whether a shortcut can be registered for the mode at this place of the list.
    pub registers: spec_fn(int, u32) -> bool,
}

/// The key of the mode at `mode`.
pub open spec fn mode_key(modes: Seq<(Seq<char>, Seq<char>)>, mode: int) -> Seq<char> {
    trimmed(modes[mode].1)
}

/// The answer to what a registration asked last. Only for the registering of a shortcut does it
/// matter which mode the registration is at.
pub open spec fn answer_to(at: Registered, outside: Outside) -> HotkeyAnswer {
    match at.deeds.last() {
        HotkeyDeed::AskEventTap(key) => HotkeyAnswer::EventTap((outside.taps)(key)),
        HotkeyDeed::AskShortcut(text) => HotkeyAnswer::Shortcut((outside.names)(text)),
        HotkeyDeed::AskRegister(id) => HotkeyAnswer::Registered(
            (outside.registers)(
                match at.phase {
                    RegistrationPhase::ModeRegistered { mode, id: _ } => mode as int,
                    _ => 0,
                },
                id,
            ),
        ),
        _ => HotkeyAnswer::Registered(true),
    }
}

/// The first `n` answers that a registration is given.
pub open spec fn answers_from(
    outside: Outside,
    hotkey: Seq<char>,
    modes: Seq<(Seq<char>, Seq<char>)>,
    n: nat,
) -> Seq<HotkeyAnswer>
    decreases n,
{
    if n == 0 {
        seq![]
    } else {
        let before = answers_from(outside, hotkey, modes, (n - 1) as nat);
        before.push(answer_to(registration_run(before, hotkey, modes), outside))
    }
}

/// The shortcut that is to record: none where an event tap does, else the one that the hotkey
/// names, else the fallback.
pub open spec fn record_shortcut_for(hotkey: Seq<char>, outside: Outside) -> Option<u32> {
    if (outside.taps)(hotkey) {
        None
    } else if (outside.names)(shortcut_text(hotkey)) is Some {
        (outside.names)(shortcut_text(hotkey))
    } else {
        (outside.names)("F5"@)
    }
}

/// The mode at `mode` is to have a shortcut: it has a key, which takes no event tap, is not the
/// record hotkey, and names a shortcut that does not record and can be registered.
pub open spec fn mode_qualifies(
    hotkey: Seq<char>,
    modes: Seq<(Seq<char>, Seq<char>)>,
    mode: int,
    outside: Outside,
) -> bool {
    let key = mode_key(modes, mode);
    &&& key.len() > 0
    &&& !(outside.taps)(key)
    &&& key != hotkey
    &&& (outside.names)(shortcut_text(key)) matches Some(id)
    &&& Some(id) != record_shortcut_for(hotkey, outside)
    &&& (outside.registers)(mode, id)
}

/// The shortcuts of those among the first `n` modes that are to have one, in order.
pub open spec fn mode_shortcuts_for(
    hotkey: Seq<char>,
    modes: Seq<(Seq<char>, Seq<char>)>,
    n: int,
    outside: Outside,
) -> Seq<(u32, Seq<char>)>
    decreases n,
{
    if n <= 0 {
        seq![]
    } else {
        let before = mode_shortcuts_for(hotkey, modes, n - 1, outside);
        if mode_qualifies(hotkey, modes, n - 1, outside) {
            let id = (outside.names)(shortcut_text(mode_key(modes, n - 1)))->0;
            before.push((id, modes[n - 1].0))
        } else {
            before
        }
    }
}

proof fn lemma_modes_without_key(
    hotkey: Seq<char>,
    modes: Seq<(Seq<char>, Seq<char>)>,
    from: int,
    outside: Outside,
)
    requires
        0 <= from <= modes.len(),
    ensures
        from <= next_mode(modes, from) <= modes.len(),
        mode_shortcuts_for(hotkey, modes, next_mode(modes, from), outside) == mode_shortcuts_for(
            hotkey,
            modes,
            from,
            outside,
        ),
    decreases modes.len() - from,
{
    if from < modes.len() && trimmed(modes[from].1).len() == 0 {
        lemma_modes_without_key(hotkey, modes, from + 1, outside);
        assert(!mode_qualifies(hotkey, modes, from, outside));
    }
}

proof fn lemma_contains_either(a: Seq<HotkeyDeed>, b: Seq<HotkeyDeed>, deed: HotkeyDeed)
    ensures
        (a + b).contains(deed) <==> (a.contains(deed) || b.contains(deed)),
{
    let all = a + b;
    if a.contains(deed) {
        let i = choose|i: int| 0 <= i < a.len() && a[i] == deed;
        assert(all[i] == deed);
    }
    if b.contains(deed) {
        let i = choose|i: int| 0 <= i < b.len() && b[i] == deed;
        assert(all[a.len() + i] == deed);
    }
}

/// What has been set up for the record key, once `settled`, and for the cancel key, once `done`.
spec fn keys_set_up(
    deeds: Seq<HotkeyDeed>,
    hotkey: Seq<char>,
    outside: Outside,
    settled: bool,
    done: bool,
) -> bool {
    &&& forall|key: Seq<char>| #[trigger]
        deeds.contains(HotkeyDeed::InstallKeyListener(key)) <==> (settled && (outside.taps)(hotkey)
            && key == hotkey)
    &&& forall|id: u32| #[trigger]
        deeds.contains(HotkeyDeed::RegisterRecordShortcut(id)) <==> (settled
            && record_shortcut_for(hotkey, outside) == Some(id))
    &&& deeds.contains(HotkeyDeed::InstallCancelListener) <==> done
}

/// What holds of a registration after `n` answers.
spec fn registration_holds(
    at: Registered,
    hotkey: Seq<char>,
    modes: Seq<(Seq<char>, Seq<char>)>,
    outside: Outside,
    n: int,
) -> bool {
    let nothing = at.record is None && at.modes.len() == 0 && keys_set_up(
        at.deeds,
        hotkey,
        outside,
        false,
        false,
    );
    let recorded = at.record == record_shortcut_for(hotkey, outside) && keys_set_up(
        at.deeds,
        hotkey,
        outside,
        true,
        at.phase is Done,
    );
    &&& at.deeds.len() > 0
    &&& match at.phase {
        RegistrationPhase::RecordKey => {
            &&& nothing && n == 0
            &&& at.deeds.last() == HotkeyDeed::AskEventTap(hotkey)
        },
        RegistrationPhase::RecordShortcut => {
            &&& nothing && n <= 1 && !(outside.taps)(hotkey)
            &&& at.deeds.last() == HotkeyDeed::AskShortcut(shortcut_text(hotkey))
        },
        RegistrationPhase::FallbackShortcut => {
            &&& nothing && n <= 2 && !(outside.taps)(hotkey)
            &&& (outside.names)(shortcut_text(hotkey)) is None
            &&& at.deeds.last() == HotkeyDeed::AskShortcut("F5"@)
        },
        RegistrationPhase::ModeKey { mode } => {
            let key = mode_key(modes, mode as int);
            &&& recorded && mode < modes.len() && n <= 3 + 3 * mode
            &&& at.modes == mode_shortcuts_for(hotkey, modes, mode as int, outside)
            &&& key.len() > 0
            &&& at.deeds.last() == HotkeyDeed::AskEventTap(key)
        },
        RegistrationPhase::ModeShortcut { mode } => {
            let key = mode_key(modes, mode as int);
            &&& recorded && mode < modes.len() && n <= 4 + 3 * mode
            &&& at.modes == mode_shortcuts_for(hotkey, modes, mode as int, outside)
            &&& key.len() > 0 && !(outside.taps)(key) && key != hotkey
            &&& at.deeds.last() == HotkeyDeed::AskShortcut(shortcut_text(key))
        },
        RegistrationPhase::ModeRegistered { mode, id } => {
            let key = mode_key(modes, mode as int);
            &&& recorded && mode < modes.len() && n <= 5 + 3 * mode
            &&& at.modes == mode_shortcuts_for(hotkey, modes, mode as int, outside)
            &&& key.len() > 0 && !(outside.taps)(key) && key != hotkey
            &&& (outside.names)(shortcut_text(key)) == Some(id) && Some(id) != at.record
            &&& at.deeds.last() == HotkeyDeed::AskRegister(id)
        },
        RegistrationPhase::Done => {
            &&& recorded
            &&& at.modes == mode_shortcuts_for(hotkey, modes, modes.len() as int, outside)
            &&& at.deeds.last() is InstallCancelListener
        },
    }
}

/// What a registration comes to with one more answer.
spec fn registered_next(
    at: Registered,
    hotkey: Seq<char>,
    modes: Seq<(Seq<char>, Seq<char>)>,
    outside: Outside,
) -> Registered {
    let next = registration_step(at.phase, answer_to(at, outside), hotkey, modes, at.record);
    Registered {
        phase: next.phase,
        record: next.record,
        modes: modes_after(at.modes, next),
        deeds: at.deeds + next.deeds,
    }
}

proof fn lemma_keys_stay_set_up(
    a: Seq<HotkeyDeed>,
    b: Seq<HotkeyDeed>,
    hotkey: Seq<char>,
    outside: Outside,
    before: (bool, bool),
    after: (bool, bool),
)
    requires
        keys_set_up(a, hotkey, outside, before.0, before.1),
        before.0 ==> after.0,
        before.1 ==> after.1,
        forall|key: Seq<char>| #[trigger]
            b.contains(HotkeyDeed::InstallKeyListener(key)) ==> after.0 && (outside.taps)(hotkey)
                && key == hotkey,
        forall|id: u32| #[trigger]
            b.contains(HotkeyDeed::RegisterRecordShortcut(id)) ==> after.0 && record_shortcut_for(
                hotkey,
                outside,
            ) == Some(id),
        b.contains(HotkeyDeed::InstallCancelListener) ==> after.1,
        after.0 && !before.0 && (outside.taps)(hotkey) ==> b.contains(
            HotkeyDeed::InstallKeyListener(hotkey),
        ),
        after.0 && !before.0 ==> (record_shortcut_for(hotkey, outside) matches Some(id)
            ==> b.contains(HotkeyDeed::RegisterRecordShortcut(id))),
        after.1 && !before.1 ==> b.contains(HotkeyDeed::InstallCancelListener),
    ensures
        keys_set_up(a + b, hotkey, outside, after.0, after.1),
{
    let all = a + b;
    assert forall|key: Seq<char>| #[trigger]
        all.contains(HotkeyDeed::InstallKeyListener(key)) <==> (after.0 && (outside.taps)(hotkey)
            && key == hotkey) by {
        lemma_contains_either(a, b, HotkeyDeed::InstallKeyListener(key));
    }
    assert forall|id: u32| #[trigger]
        all.contains(HotkeyDeed::RegisterRecordShortcut(id)) <==> (after.0 && record_shortcut_for(
            hotkey,
            outside,
        ) == Some(id)) by {
        lemma_contains_either(a, b, HotkeyDeed::RegisterRecordShortcut(id));
    }
    lemma_contains_either(a, b, HotkeyDeed::InstallCancelListener);
}

proof fn lemma_registration_step(
    at: Registered,
    hotkey: Seq<char>,
    modes: Seq<(Seq<char>, Seq<char>)>,
    outside: Outside,
    n: int,
)
    requires
        n >= 0,
        modes.len() <= usize::MAX,
        registration_holds(at, hotkey, modes, outside, n),
        (outside.taps)(hotkey) || record_shortcut_for(hotkey, outside) is Some,
    ensures
        registration_holds(registered_next(at, hotkey, modes, outside), hotkey, modes, outside, n + 1),
{
    let none = mode_shortcuts_for(hotkey, modes, 0, outside);
    assert(none.len() == 0);
    lemma_modes_without_key(hotkey, modes, 0, outside);
    lemma_next_mode(modes, 0);
    assert(at.modes.len() == 0 ==> at.modes =~= none);
    match at.phase {
        RegistrationPhase::ModeKey { mode } => {
            lemma_modes_without_key(hotkey, modes, mode + 1, outside);
            lemma_next_mode(modes, mode + 1);
        },
        RegistrationPhase::ModeShortcut { mode } => {
            lemma_modes_without_key(hotkey, modes, mode + 1, outside);
            lemma_next_mode(modes, mode + 1);
        },
        RegistrationPhase::ModeRegistered { mode, id } => {
            lemma_modes_without_key(hotkey, modes, mode + 1, outside);
            lemma_next_mode(modes, mode + 1);
        },
        _ => {},
    }
    let next = registration_step(at.phase, answer_to(at, outside), hotkey, modes, at.record);
    let then = registered_next(at, hotkey, modes, outside);
    let early = at.phase is RecordKey || at.phase is RecordShortcut || at.phase is FallbackShortcut;
    let late = !(then.phase is RecordKey || then.phase is RecordShortcut || then.phase
        is FallbackShortcut);
    if next.deeds.len() > 0 {
        assert(then.deeds.last() == next.deeds.last());
        if early && late {
            assert(next.deeds[0] is InstallKeyListener || next.deeds[0] is RegisterRecordShortcut);
            if (outside.taps)(hotkey) {
                assert(next.deeds[0] == HotkeyDeed::InstallKeyListener(hotkey));
            }
        }
        if then.phase is Done {
            assert(next.deeds[next.deeds.len() - 1] == HotkeyDeed::InstallCancelListener);
        }
    } else {
        assert(then.deeds =~= at.deeds);
    }
    lemma_keys_stay_set_up(
        at.deeds,
        next.deeds,
        hotkey,
        outside,
        (!early, at.phase is Done),
        (late, then.phase is Done),
    );
}

proof fn lemma_registration_holds(
    hotkey: Seq<char>,
    modes: Seq<(Seq<char>, Seq<char>)>,
    outside: Outside,
    n: nat,
)
    requires
        modes.len() <= usize::MAX,
        (outside.taps)(hotkey) || record_shortcut_for(hotkey, outside) is Some,
    ensures
        registration_holds(
            registration_run(answers_from(outside, hotkey, modes, n), hotkey, modes),
            hotkey,
            modes,
            outside,
            n as int,
        ),
    decreases n,
{
    if n > 0 {
        let before = answers_from(outside, hotkey, modes, (n - 1) as nat);
        lemma_registration_holds(hotkey, modes, outside, (n - 1) as nat);
        let at = registration_run(before, hotkey, modes);
        lemma_registration_step(at, hotkey, modes, outside, n - 1);
        let all = answers_from(outside, hotkey, modes, n);
        assert(all.drop_last() =~= before);
    }
}

/// What a registration comes to, each of its questions being answered as it was asked. Whatever
/// the outside answers, the registration is done after three answers for the record key and three
/// for each mode at most. The record shortcut is the one that the hotkey stands for, and exactly
/// the modes that qualify have a shortcut, in order. An event tap has been installed for the
/// record hotkey exactly where that takes one, the record shortcut has been registered where
/// there is one, and no other, and the cancel key comes last.
pub proof fn law_registration_comes_to_its_end(
    hotkey: Seq<char>,
    modes: Seq<(Seq<char>, Seq<char>)>,
    outside: Outside,
    n: nat,
)
    requires
        modes.len() <= usize::MAX,
        (outside.taps)(hotkey) || record_shortcut_for(hotkey, outside) is Some,
        n >= 3 + 3 * modes.len(),
    ensures
        ({
            let end = registration_run(answers_from(outside, hotkey, modes, n), hotkey, modes);
            &&& end.phase is Done
            &&& end.record == record_shortcut_for(hotkey, outside)
            &&& end.modes == mode_shortcuts_for(hotkey, modes, modes.len() as int, outside)
            &&& forall|key: Seq<char>| #[trigger]
                end.deeds.contains(HotkeyDeed::InstallKeyListener(key)) <==> ((outside.taps)(hotkey)
                    && key == hotkey)
            &&& forall|id: u32| #[trigger]
                end.deeds.contains(HotkeyDeed::RegisterRecordShortcut(id)) <==> end.record == Some(
                    id,
                )
            &&& end.deeds.last() is InstallCancelListener
        }),
{
    lemma_registration_holds(hotkey, modes, outside, n);
}

/// Every question of a registration is about the shortcut that a key stands for: the record hotkey
/// or the key of the mode that the registration is at, turned into a shortcut as a whole.
pub proof fn law_questions_are_about_the_keys(
    phase: RegistrationPhase,
    answer: HotkeyAnswer,
    hotkey: Seq<char>,
    modes: Seq<(Seq<char>, Seq<char>)>,
    record: Option<u32>,
)
    requires
        modes.len() <= usize::MAX,
        phase_fits(phase, modes.len()),
        registration_step(phase, answer, hotkey, modes, record).phase != phase,
    ensures
        ({
            let next = registration_step(phase, answer, hotkey, modes, record);
            match next.phase {
                RegistrationPhase::RecordKey => false,
                RegistrationPhase::RecordShortcut => next.deeds == seq![
                    HotkeyDeed::AskShortcut(shortcut_text(hotkey)),
                ],
                RegistrationPhase::FallbackShortcut => next.deeds == seq![
                    HotkeyDeed::AskShortcut("F5"@),
                ],
                RegistrationPhase::ModeKey { mode } => mode < modes.len() && next.deeds.len() > 0
                    && next.deeds.last() == HotkeyDeed::AskEventTap(trimmed(modes[mode as int].1)),
                RegistrationPhase::ModeShortcut { mode } => mode < modes.len() && next.deeds
                    == seq![
                    HotkeyDeed::AskShortcut(shortcut_text(trimmed(modes[mode as int].1))),
                ],
                RegistrationPhase::ModeRegistered { mode, id } => mode < modes.len() && next.deeds
                    == seq![HotkeyDeed::AskRegister(id)] && answer == HotkeyAnswer::Shortcut(
                    Some(id),
                ) && phase == (RegistrationPhase::ModeShortcut { mode }),
                RegistrationPhase::Done => next.deeds.len() > 0 && next.deeds.last()
                    is InstallCancelListener,
            }
        }),
{
    lemma_next_mode(modes, 0);
    match phase {
        RegistrationPhase::ModeKey { mode } => lemma_next_mode(modes, mode + 1),
        RegistrationPhase::ModeShortcut { mode } => lemma_next_mode(modes, mode + 1),
        RegistrationPhase::ModeRegistered { mode, id } => lemma_next_mode(modes, mode + 1),
        _ => {},
    }
}

/// A shortcut comes into use only by an answer: the record shortcut when the hotkey, or the
/// fallback, is found to name it, and the shortcut of a mode when it has been registered.
pub proof fn law_shortcuts_come_into_use_by_an_answer(
    phase: RegistrationPhase,
    answer: HotkeyAnswer,
    hotkey: Seq<char>,
    modes: Seq<(Seq<char>, Seq<char>)>,
    record: Option<u32>,
)
    ensures
        ({
            let next = registration_step(phase, answer, hotkey, modes, record);
            let settles = phase is RecordShortcut || phase is FallbackShortcut;
            &&& settles && (answer matches HotkeyAnswer::Shortcut(Some(id)) && true) ==> next.record
                == answer->Shortcut_0 && next.deeds.len() > 1 && next.deeds[0]
                == HotkeyDeed::RegisterRecordShortcut(answer->Shortcut_0->0)
            &&& !(settles && (answer matches HotkeyAnswer::Shortcut(Some(id)) && true))
                ==> next.record == record
            &&& phase is RecordKey && answer == HotkeyAnswer::EventTap(true) ==> next.deeds.len()
                > 1 && next.deeds[0] == HotkeyDeed::InstallKeyListener(hotkey)
            &&& next.added is Some <==> (phase is ModeRegistered && answer
                == HotkeyAnswer::Registered(true))
            &&& next.added matches Some(entry) ==> phase matches RegistrationPhase::ModeRegistered {
                mode,
                id,
            } && entry == (id, modes[mode as int].0)
        }),
{
}

/// A registration waits for one answer at a time: any other changes nothing.
pub proof fn law_registration_takes_only_what_it_waits_for(
    phase: RegistrationPhase,
    answer: HotkeyAnswer,
    hotkey: Seq<char>,
    modes: Seq<(Seq<char>, Seq<char>)>,
    record: Option<u32>,
)
    ensures
        ({
            let awaited = match phase {
                RegistrationPhase::RecordKey => answer is EventTap,
                RegistrationPhase::RecordShortcut => answer is Shortcut,
                RegistrationPhase::FallbackShortcut => answer matches HotkeyAnswer::Shortcut(s) && s
                    is Some,
                RegistrationPhase::ModeKey { mode } => answer is EventTap,
                RegistrationPhase::ModeShortcut { mode } => answer is Shortcut,
                RegistrationPhase::ModeRegistered { mode, id } => answer is Registered,
                RegistrationPhase::Done => false,
            };
            let next = registration_step(phase, answer, hotkey, modes, record);
            &&& awaited ==> next.deeds.len() > 0
            &&& !awaited ==> next == (RegistrationNext {
                phase,
                deeds: Seq::<HotkeyDeed>::empty(),
                record,
                added: None,
            })
        }),
{
}

/// The mode that a registration turns to next is the first one left whose key is more than white
/// space.
pub proof fn law_modes_without_a_key_are_passed_over(
    modes: Seq<(Seq<char>, Seq<char>)>,
    from: int,
    i: int,
)
    requires
        0 <= from <= modes.len(),
    ensures
        from <= next_mode(modes, from) <= modes.len(),
        from <= i < next_mode(modes, from) ==> blank(modes[i].1),
        next_mode(modes, from) < modes.len() ==> !blank(modes[next_mode(modes, from)].1),
    decreases modes.len() - from,
{
    if from < modes.len() {
        law_blank_is_nothing_once_trimmed(modes[from].1);
        if trimmed(modes[from].1).len() == 0 {
            law_modes_without_a_key_are_passed_over(modes, from + 1, i);
        }
    }
}

/// A shortcut that was pressed stands for the first mode that has it, and for none if none has.
pub proof fn law_first_mode_with_a_shortcut_counts(modes: Seq<(u32, String)>, id: u32, i: int)
    ensures
        0 <= first_mode_with(modes, id, 0) <= modes.len(),
        first_mode_with(modes, id, 0) < modes.len() ==> modes[first_mode_with(modes, id, 0)].0
            == id,
        0 <= i < first_mode_with(modes, id, 0) ==> modes[i].0 != id,
{
    lemma_first_mode(modes, id, 0, i);
}

proof fn lemma_first_mode(modes: Seq<(u32, String)>, id: u32, from: int, i: int)
    requires
        0 <= from <= modes.len(),
    ensures
        from <= first_mode_with(modes, id, from) <= modes.len(),
        first_mode_with(modes, id, from) < modes.len() ==> modes[first_mode_with(modes, id, from)].0
            == id,
        from <= i < first_mode_with(modes, id, from) ==> modes[i].0 != id,
    decreases modes.len() - from,
{
    if from < modes.len() && modes[from].0 != id {
        lemma_first_mode(modes, id, from + 1, i);
    }
}

/// Hotkeys that are registered are taken down before others are registered; hotkeys that are not
/// need no taking down. The detector learns the activation mode before the hotkeys are back.
pub proof fn law_reloading_takes_down_first(settings: AppSettings)
    ensures
        ({
            let anew = seq![
                HotkeyDeed::UpdateDetector {
                    activation_mode: settings.activation_mode@,
                    double_tap_ms: settings.double_tap_ms,
                },
                HotkeyDeed::RegisterHotkeys {
                    hotkey: settings.hotkey_key@,
                    modes: pairs(settings.mode_hotkeys@),
                },
            ];
            &&& reloading(false, settings) == anew
            &&& reloading(true, settings) == seq![
                HotkeyDeed::UninstallListeners,
                HotkeyDeed::UnregisterShortcuts,
            ] + anew
            &&& takedown(true) == seq![
                HotkeyDeed::UninstallListeners,
                HotkeyDeed::UnregisterShortcuts,
            ]
            &&& takedown(false).len() == 0
            &&& registering(settings) == anew[1]
        }),
{
    assert(reloading(false, settings) =~= seq![
        HotkeyDeed::UpdateDetector {
            activation_mode: settings.activation_mode@,
            double_tap_ms: settings.double_tap_ms,
        },
        HotkeyDeed::RegisterHotkeys {
            hotkey: settings.hotkey_key@,
            modes: pairs(settings.mode_hotkeys@),
        },
    ]);
}

proof fn lemma_first_mode_with(modes: Seq<(u32, String)>, id: u32, from: int)
    requires
        0 <= from <= modes.len(),
        forall|i: int| 0 <= i < modes.len() ==> (#[trigger] modes[i]).0 != id,
    ensures
        first_mode_with(modes, id, from) == modes.len(),
    decreases modes.len() - from,
{
    if from < modes.len() {
        lemma_first_mode_with(modes, id, from + 1);
    }
}

/// Where no shortcut both records and switches the mode, the one that records is never taken
/// for a mode.
pub proof fn law_record_shortcut_is_not_shadowed(state: AppState, id: u32)
    requires
        state.record_shortcut == Some(id),
        forall|i: int|
            0 <= i < state.mode_shortcuts@.len() ==> Some((#[trigger] state.mode_shortcuts@[i]).0)
                != state.record_shortcut,
    ensures
        first_mode_with(state.mode_shortcuts@, id, 0) == state.mode_shortcuts@.len(),
{
    lemma_first_mode_with(state.mode_shortcuts@, id, 0);
}

/// A mode whose key takes an event tap or is the record hotkey is passed over: the registration
/// goes on with a later mode, or is done.
pub proof fn law_unusable_mode_key_is_passed_over(
    mode: usize,
    taps: bool,
    hotkey: Seq<char>,
    modes: Seq<(Seq<char>, Seq<char>)>,
    record: Option<u32>,
)
    requires
        mode < modes.len() <= usize::MAX,
        taps || trimmed(modes[mode as int].1) == hotkey,
    ensures
        ({
            let next = registration_step(
                RegistrationPhase::ModeKey { mode },
                HotkeyAnswer::EventTap(taps),
                hotkey,
                modes,
                record,
            );
            &&& next.added is None
            &&& next.phase is Done || (next.phase matches RegistrationPhase::ModeKey { mode: later }
                && later > mode)
        }),
{
    lemma_next_mode(modes, mode + 1);
}

/// A registration that comes to its end installs the cancel key last.
pub proof fn law_cancel_key_comes_last(
    phase: RegistrationPhase,
    answer: HotkeyAnswer,
    hotkey: Seq<char>,
    modes: Seq<(Seq<char>, Seq<char>)>,
    record: Option<u32>,
)
    requires
        !(phase is Done),
        registration_step(phase, answer, hotkey, modes, record).phase is Done,
    ensures
        registration_step(phase, answer, hotkey, modes, record).deeds.len() > 0,
        registration_step(phase, answer, hotkey, modes, record).deeds.last()
            is InstallCancelListener,
{
}

/// A mode whose key can be used is given its shortcut: its key is turned into one, and the
/// shortcut is registered unless it records already. Then, whether or not that worked, the
/// registration goes on to a later mode.
pub proof fn law_usable_mode_key_is_registered(
    mode: usize,
    id: u32,
    done: bool,
    parsed: Option<u32>,
    hotkey: Seq<char>,
    modes: Seq<(Seq<char>, Seq<char>)>,
    record: Option<u32>,
)
    requires
        mode < modes.len() <= usize::MAX,
    ensures
        trimmed(modes[mode as int].1) != hotkey ==> registration_step(
            RegistrationPhase::ModeKey { mode },
            HotkeyAnswer::EventTap(false),
            hotkey,
            modes,
            record,
        ).phase == (RegistrationPhase::ModeShortcut { mode }),
        ({
            let named = registration_step(
                RegistrationPhase::ModeShortcut { mode },
                HotkeyAnswer::Shortcut(parsed),
                hotkey,
                modes,
                record,
            );
            &&& parsed is Some && parsed != record ==> named.phase
                == (RegistrationPhase::ModeRegistered { mode, id: parsed->0 })
            &&& parsed is None || parsed == record ==> named.phase is Done || (named.phase matches
                RegistrationPhase::ModeKey { mode: later } && later > mode)
        }),
        ({
            let next = registration_step(
                RegistrationPhase::ModeRegistered { mode, id },
                HotkeyAnswer::Registered(done),
                hotkey,
                modes,
                record,
            );
            next.phase is Done || (next.phase matches RegistrationPhase::ModeKey { mode: later }
                && later > mode)
        }),
{
    lemma_next_mode(modes, mode + 1);
}

} // verus!
