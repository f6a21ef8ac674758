//! A recording session: from the hotkey that starts it to the one that ends it.
use crate::effect::{
    error_effect, idle_effect, lemma_after_concat, overlay_after, recording_state_effect,
    state_after, Deed, Effect,
};
use crate::server::{health_url, server_health_url};
use crate::settings::AppSettings;
use crate::state::AppState;
use crate::text::{decimal, same_text};
use vstd::prelude::*;
use vstd::string::*;

verus! {

/// What the hotkeys ask for.
#[derive(Debug, Clone, Copy, PartialEq, Eq, Structural)]
pub enum HotkeyEvent {
    RecordStart,
    RecordStop,
    RecordCancel,
}

/// How far the start of a recording has come.
#[derive(Debug, Clone, Copy, PartialEq, Eq, Structural)]
pub enum StartPhase {
    /// The hotkey is being left.
    EnteringTask,
    /// The local speech server is asked whether it is up.
    ProbingServer,
    /// The local speech server is being started.
    EnsuringServer,
    /// The local speech server was started; it is asked again, this often at most.
    AwaitingServer { left: u32 },
    /// The main thread is being entered, to copy the selected text.
    EnteringMainThread,
    /// The selected text is being copied.
    CapturingSelection,
    /// The recorder is being started.
    StartingRecorder,
    /// The recorder runs.
    Recording,
    /// The start was given up.
    Aborted,
}

/// What came of the effect that the start of a recording last asked for.
#[derive(Debug, Clone)]
pub enum StartEvent {
    /// The start goes on in a task of its own.
    TaskEntered,
    /// The server is up, or is not.
    ServerHealth(bool),
    /// The server could be started, or could not.
    ServerEnsured(bool),
    /// The start goes on in the main thread.
    MainThreadEntered,
    /// The main thread could not be entered, or was left without an answer.
    MainThreadLost,
    /// The selection was copied; the clipboard held this text before.
    SelectionCaptured(Option<String>),
    /// The selection could not be copied.
    SelectionFailed,
    /// The recorder runs.
    RecorderStarted,
    /// The recorder could not be started, for this reason.
    RecorderFailed(String),
}

/// How often a server that was just started is asked whether it is up.
pub const SERVER_POLLS: u32 = 20;

/// How long to wait before a server that was just started is asked again.
pub const SERVER_POLL_MS: u64 = 250;

/// How long an error is left on the screen.
pub const ERROR_SHOWN_MS: u64 = 3000;

/// The message for a local server that does not come up.
pub open spec fn server_down_message() -> Seq<char> {
    "ローカルモデルのサーバーが起動していません\nLocal model server is not running"@
}

/// The server preset that runs on this machine.
pub open spec fn uses_local_server(settings: AppSettings) -> bool {
    settings.stt_preset@ == "local_whisper"@
}

/// The effects that bring a recording onto the screen and start it.
pub open spec fn begin_recording() -> Seq<Deed> {
    seq![Deed::RecordingState("recording"@), Deed::ShowOverlay, Deed::StartRecorder]
}

/// What is done when nothing stands in the way of the recording any more: copy the selection
/// if it is to be replaced, else start the recorder.
pub open spec fn once_ready(settings: AppSettings) -> (StartPhase, Seq<Deed>) {
    if settings.replace_selection {
        (StartPhase::EnteringMainThread, seq![Deed::EnterMainThread])
    } else {
        (StartPhase::StartingRecorder, begin_recording())
    }
}

/// What is done once it is known whether the local server is up.
pub open spec fn once_server_known(
    up: bool,
    cancelled: bool,
    settings: AppSettings,
) -> (StartPhase, Seq<Deed>) {
    if cancelled {
        (StartPhase::Aborted, seq![])
    } else if !up {
        (
            StartPhase::Aborted,
            seq![
                Deed::Error(server_down_message()),
                Deed::RecordingState("error"@),
                Deed::ShowOverlay,
                Deed::Pause(ERROR_SHOWN_MS),
                Deed::ConcealOverlay,
                Deed::RecordingState("idle"@),
            ],
        )
    } else {
        once_ready(settings)
    }
}

/// What is done once the selection was copied, or was not.
pub open spec fn once_captured(cancelled: bool) -> (StartPhase, Seq<Deed>) {
    if cancelled {
        (StartPhase::Aborted, seq![Deed::RestoreClipboard])
    } else {
        (StartPhase::StartingRecorder, begin_recording())
    }
}

/// The next phase of a start and what is to be done, from what has happened and whether the
/// user has cancelled. An event that the phase does not wait for changes nothing.
pub open spec fn start_step(
    phase: StartPhase,
    event: StartEvent,
    cancelled: bool,
    url: Seq<char>,
    settings: AppSettings,
) -> (StartPhase, Seq<Deed>) {
    match (phase, event) {
        (StartPhase::EnteringTask, StartEvent::TaskEntered) => if cancelled {
            (StartPhase::Aborted, seq![])
        } else {
            once_ready(settings)
        },
        (StartPhase::ProbingServer, StartEvent::ServerHealth(up)) => if up {
            once_server_known(true, cancelled, settings)
        } else {
            (StartPhase::EnsuringServer, seq![Deed::EnsureServer])
        },
        (StartPhase::EnsuringServer, StartEvent::ServerEnsured(started)) => if started {
            (
                StartPhase::AwaitingServer { left: SERVER_POLLS },
                seq![Deed::Pause(SERVER_POLL_MS), Deed::ProbeServer(url)],
            )
        } else {
            once_server_known(false, cancelled, settings)
        },
        (StartPhase::AwaitingServer { left }, StartEvent::ServerHealth(up)) => if up {
            once_server_known(true, cancelled, settings)
        } else if left <= 1 {
            once_server_known(false, cancelled, settings)
        } else {
            (
                StartPhase::AwaitingServer { left: (left - 1) as u32 },
                seq![Deed::Pause(SERVER_POLL_MS), Deed::ProbeServer(url)],
            )
        },
        (StartPhase::EnteringMainThread, StartEvent::MainThreadEntered) => (
            StartPhase::CapturingSelection,
            seq![Deed::CaptureSelection],
        ),
        (StartPhase::EnteringMainThread, StartEvent::MainThreadLost) => once_captured(cancelled),
        (StartPhase::CapturingSelection, StartEvent::SelectionCaptured(_)) => once_captured(
            cancelled,
        ),
        (StartPhase::CapturingSelection, StartEvent::SelectionFailed) => once_captured(cancelled),
        (StartPhase::CapturingSelection, StartEvent::MainThreadLost) => once_captured(cancelled),
        (StartPhase::StartingRecorder, StartEvent::RecorderFailed(reason)) => (
            StartPhase::Aborted,
            seq![
                Deed::RestoreClipboard,
                Deed::Error("Failed to start recording: "@ + reason@),
                Deed::ConcealOverlay,
                Deed::RecordingState("idle"@),
            ],
        ),
        (StartPhase::StartingRecorder, StartEvent::RecorderStarted) => if cancelled {
            (
                StartPhase::Aborted,
                seq![
                    Deed::CancelRecorder,
                    Deed::RestoreClipboard,
                    Deed::ConcealOverlay,
                    Deed::RecordingState("idle"@),
                ],
            )
        } else {
            (StartPhase::Recording, seq![Deed::StartLevelMeter])
        },
        _ => (phase, seq![]),
    }
}

/// The clipboard text that is set aside after `event`, given the one before. What was set aside
/// earlier is forgotten before the selection is copied.
pub open spec fn backup_after(
    phase: StartPhase,
    event: StartEvent,
    before: Option<String>,
) -> Option<String> {
    match (phase, event) {
        (StartPhase::EnteringMainThread, StartEvent::MainThreadEntered) => None,
        (StartPhase::CapturingSelection, StartEvent::SelectionCaptured(previous)) => previous,
        _ => before,
    }
}

/// The start of a recording.
#[derive(Debug, Clone)]
pub struct Start {
    pub phase: StartPhase,
    /// Where the local server says whether it is up.
    pub url: String,
}

/// The effects that bring a recording onto the screen and start it.
fn begin_recording_effects() -> (r: Vec<Effect>)
    ensures
        r.deep_view() == begin_recording(),
{
    let r = vec![recording_state_effect("recording"), Effect::ShowOverlay, Effect::StartRecorder];
    assert(r.deep_view() =~= begin_recording());
    r
}

/// The effects that ask the server once more.
fn poll_effects(url: &str) -> (r: Vec<Effect>)
    ensures
        r.deep_view() == seq![Deed::Pause(SERVER_POLL_MS), Deed::ProbeServer(url@)],
{
    let r = vec![Effect::Pause(SERVER_POLL_MS), Effect::ProbeServer(url.to_owned())];
    assert(r.deep_view() =~= seq![Deed::Pause(SERVER_POLL_MS), Deed::ProbeServer(url@)]);
    r
}

impl Start {
    /// Starts to start a recording.
    pub fn begin(settings: &AppSettings) -> (r: (Start, Vec<Effect>))
        ensures
            (r.0.phase, r.1.deep_view()) == first_start_step(*settings),
            r.0.url@ == server_health_url(*settings),
    {
        let server = &settings.local_stt_server;
        let url = health_url(server.host.as_str(), server.port);
        if same_text(settings.stt_preset.as_str(), "local_whisper") {
            let effects = vec![Effect::ProbeServer(url.clone())];
            assert(effects.deep_view() =~= seq![Deed::ProbeServer(server_health_url(*settings))]);
            (Start { phase: StartPhase::ProbingServer, url }, effects)
        } else {
            let effects = vec![Effect::EnterTask];
            assert(effects.deep_view() =~= seq![Deed::EnterTask]);
            (Start { phase: StartPhase::EnteringTask, url }, effects)
        }
    }

    fn ready(&mut self, settings: &AppSettings) -> (r: Vec<Effect>)
        ensures
            (final(self).phase, r.deep_view()) == once_ready(*settings),
            final(self).url == old(self).url,
    {
        if settings.replace_selection {
            self.phase = StartPhase::EnteringMainThread;
            let r = vec![Effect::EnterMainThread];
            assert(r.deep_view() =~= seq![Deed::EnterMainThread]);
            r
        } else {
            self.phase = StartPhase::StartingRecorder;
            begin_recording_effects()
        }
    }

    fn server_known(&mut self, up: bool, cancelled: bool, settings: &AppSettings) -> (r: Vec<
        Effect,
    >)
        ensures
            (final(self).phase, r.deep_view()) == once_server_known(up, cancelled, *settings),
            final(self).url == old(self).url,
    {
        if cancelled {
            self.phase = StartPhase::Aborted;
            let r: Vec<Effect> = Vec::new();
            assert(r.deep_view() =~= Seq::<Deed>::empty());
            r
        } else if !up {
            self.phase = StartPhase::Aborted;
            let message =
                "ローカルモデルのサーバーが起動していません\nLocal model server is not running";
            let r = vec![
                error_effect(message.to_owned()),
                recording_state_effect("error"),
                Effect::ShowOverlay,
                Effect::Pause(ERROR_SHOWN_MS),
                Effect::ConcealOverlay,
                idle_effect(),
            ];
            assert(r.deep_view() =~= once_server_known(up, cancelled, *settings).1);
            r
        } else {
            self.ready(settings)
        }
    }

    fn captured(&mut self, cancelled: bool) -> (r: Vec<Effect>)
        ensures
            (final(self).phase, r.deep_view()) == once_captured(cancelled),
            final(self).url == old(self).url,
    {
        if cancelled {
            self.phase = StartPhase::Aborted;
            let r = vec![Effect::RestoreClipboard];
            assert(r.deep_view() =~= seq![Deed::RestoreClipboard]);
            r
        } else {
            self.phase = StartPhase::StartingRecorder;
            begin_recording_effects()
        }
    }

    /// Goes on with the start after `event`. Giving up ends the session.
    pub fn step(&mut self, state: &mut AppState, settings: &AppSettings, event: StartEvent) -> (r:
        Vec<Effect>)
        ensures
            (final(self).phase, r.deep_view()) == start_step(
                old(self).phase,
                event,
                old(state).cancel_requested,
                old(self).url@,
                *settings,
            ),
            final(self).url == old(self).url,
            final(state).recording_session == (old(state).recording_session && !(
            final(self).phase is Aborted && !(old(self).phase is Aborted))),
            *final(state) == (AppState {
                recording_session: final(state).recording_session,
                clipboard_backup: backup_after(
                    old(self).phase,
                    event,
                    old(state).clipboard_backup,
                ),
                ..*old(state)
            }),
    {
        let cancelled = state.cancel_requested;
        let was_aborted = matches!(self.phase, StartPhase::Aborted);
        let r: Vec<Effect> = match (self.phase, event) {
            (StartPhase::EnteringTask, StartEvent::TaskEntered) => {
                self.server_known(true, cancelled, settings)
            },
            (StartPhase::ProbingServer, StartEvent::ServerHealth(up)) => if up {
                self.server_known(true, cancelled, settings)
            } else {
                self.phase = StartPhase::EnsuringServer;
                let r = vec![Effect::EnsureServer];
                assert(r.deep_view() =~= seq![Deed::EnsureServer]);
                r
            },
            (StartPhase::EnsuringServer, StartEvent::ServerEnsured(started)) => if started {
                self.phase = StartPhase::AwaitingServer { left: SERVER_POLLS };
                poll_effects(self.url.as_str())
            } else {
                self.server_known(false, cancelled, settings)
            },
            (StartPhase::AwaitingServer { left }, StartEvent::ServerHealth(up)) => if up {
                self.server_known(true, cancelled, settings)
            } else if left <= 1 {
                self.server_known(false, cancelled, settings)
            } else {
                self.phase = StartPhase::AwaitingServer { left: left - 1 };
                poll_effects(self.url.as_str())
            },
            (StartPhase::EnteringMainThread, StartEvent::MainThreadEntered) => {
                state.clipboard_backup = None;
                self.phase = StartPhase::CapturingSelection;
                let r = vec![Effect::CaptureSelection];
                assert(r.deep_view() =~= seq![Deed::CaptureSelection]);
                r
            },
            (StartPhase::EnteringMainThread, StartEvent::MainThreadLost) => {
                self.captured(cancelled)
            },
            (StartPhase::CapturingSelection, StartEvent::SelectionCaptured(previous)) => {
                state.clipboard_backup = previous;
                self.captured(cancelled)
            },
            (StartPhase::CapturingSelection, StartEvent::SelectionFailed) => {
                self.captured(cancelled)
            },
            (StartPhase::CapturingSelection, StartEvent::MainThreadLost) => {
                self.captured(cancelled)
            },
            (StartPhase::StartingRecorder, StartEvent::RecorderFailed(reason)) => {
                self.phase = StartPhase::Aborted;
                let mut message = "Failed to start recording: ".to_owned();
                message.append(reason.as_str());
                let r = vec![
                    Effect::RestoreClipboard,
                    error_effect(message),
                    Effect::ConcealOverlay,
                    idle_effect(),
                ];
                assert(r.deep_view() =~= start_step(
                    old(self).phase,
                    event,
                    cancelled,
                    old(self).url@,
                    *settings,
                ).1);
                r
            },
            (StartPhase::StartingRecorder, StartEvent::RecorderStarted) => if cancelled {
                self.phase = StartPhase::Aborted;
                let r = vec![
                    Effect::CancelRecorder,
                    Effect::RestoreClipboard,
                    Effect::ConcealOverlay,
                    idle_effect(),
                ];
                assert(r.deep_view() =~= start_step(
                    old(self).phase,
                    event,
                    cancelled,
                    old(self).url@,
                    *settings,
                ).1);
                r
            } else {
                self.phase = StartPhase::Recording;
                let r = vec![Effect::StartLevelMeter];
                assert(r.deep_view() =~= seq![Deed::StartLevelMeter]);
                r
            },
            _ => {
                let r: Vec<Effect> = Vec::new();
                assert(r.deep_view() =~= Seq::<Deed>::empty());
                r
            },
        };
        if matches!(self.phase, StartPhase::Aborted) && !was_aborted {
            state.recording_session = false;
        }
        r
    }
}

/// How the start of a recording begins: with the server if it is local, else by leaving the
/// hotkey. Nothing else is done before it has been seen whether the user has cancelled meanwhile.
pub open spec fn first_start_step(settings: AppSettings) -> (StartPhase, Seq<Deed>) {
    if uses_local_server(settings) {
        (StartPhase::ProbingServer, seq![Deed::ProbeServer(server_health_url(settings))])
    } else {
        (StartPhase::EnteringTask, seq![Deed::EnterTask])
    }
}

/// What a hotkey event asks for: the new state, the phase of the start that it begins, and what
/// is to be done.
pub open spec fn hotkey_step(
    state: AppState,
    settings: AppSettings,
    event: HotkeyEvent,
    detector_recording: bool,
) -> (AppState, Option<StartPhase>, Seq<Deed>) {
    if state.hotkey_test_mode {
        match event {
            HotkeyEvent::RecordStart => (state, None, seq![Deed::HotkeyDetected("pressed"@)]),
            HotkeyEvent::RecordStop => (state, None, seq![Deed::HotkeyDetected("released"@)]),
            HotkeyEvent::RecordCancel => (state, None, seq![]),
        }
    } else {
        match event {
            HotkeyEvent::RecordStart => if state.recording_session {
                (state, None, seq![])
            } else {
                (
                    AppState { recording_session: true, cancel_requested: false, ..state },
                    Some(first_start_step(settings).0),
                    first_start_step(settings).1,
                )
            },
            HotkeyEvent::RecordStop => if state.cancel_requested || !state.recording_session {
                (state, None, seq![])
            } else {
                (AppState { recording_session: false, ..state }, None, seq![Deed::StopRecorder])
            },
            HotkeyEvent::RecordCancel => if !state.recording_session && !detector_recording {
                (state, None, seq![])
            } else {
                (
                    AppState { recording_session: false, cancel_requested: true, ..state },
                    None,
                    seq![
                        Deed::CancelDetector,
                        Deed::CancelRecorderIfRunning,
                        Deed::RestoreClipboard,
                        Deed::ConcealOverlay,
                        Deed::RecordingState("idle"@),
                    ],
                )
            },
        }
    }
}

/// Reacts to a hotkey event, given whether the hotkey detector takes a recording to be running.
/// Where a recording is to be started, its start is returned.
pub fn handle_hotkey_event(
    state: &mut AppState,
    settings: &AppSettings,
    event: HotkeyEvent,
    detector_recording: bool,
) -> (r: (Option<Start>, Vec<Effect>))
    ensures
        ({
            let next = hotkey_step(*old(state), *settings, event, detector_recording);
            &&& *final(state) == next.0
            &&& r.0 is Some == next.1 is Some
            &&& r.0 is Some ==> r.0->0.phase == next.1->0
            &&& r.0 is Some ==> r.0->0.url@ == server_health_url(*settings)
            &&& r.1.deep_view() == next.2
        }),
{
    if state.hotkey_test_mode {
        let effects = match event {
            HotkeyEvent::RecordStart => vec![Effect::HotkeyDetected("pressed".to_owned())],
            HotkeyEvent::RecordStop => vec![Effect::HotkeyDetected("released".to_owned())],
            HotkeyEvent::RecordCancel => Vec::new(),
        };
        assert(effects.deep_view() =~= hotkey_step(
            *old(state),
            *settings,
            event,
            detector_recording,
        ).2);
        return (None, effects);
    }
    match event {
        HotkeyEvent::RecordStart => {
            if state.recording_session {
                let effects: Vec<Effect> = Vec::new();
                assert(effects.deep_view() =~= Seq::<Deed>::empty());
                return (None, effects);
            }
            state.recording_session = true;
            state.cancel_requested = false;
            let (start, effects) = Start::begin(settings);
            (Some(start), effects)
        },
        HotkeyEvent::RecordStop => {
            let mut effects: Vec<Effect> = Vec::new();
            if !state.cancel_requested && state.recording_session {
                state.recording_session = false;
                effects.push(Effect::StopRecorder);
            }
            assert(effects.deep_view() =~= hotkey_step(
                *old(state),
                *settings,
                event,
                detector_recording,
            ).2);
            (None, effects)
        },
        HotkeyEvent::RecordCancel => {
            if !state.recording_session && !detector_recording {
                let effects: Vec<Effect> = Vec::new();
                assert(effects.deep_view() =~= Seq::<Deed>::empty());
                return (None, effects);
            }
            state.cancel_requested = true;
            state.recording_session = false;
            let effects = vec![
                Effect::CancelDetector,
                Effect::CancelRecorderIfRunning,
                Effect::RestoreClipboard,
                Effect::ConcealOverlay,
                idle_effect(),
            ];
            assert(effects.deep_view() =~= hotkey_step(
                *old(state),
                *settings,
                event,
                detector_recording,
            ).2);
            (None, effects)
        },
    }
}

/// A start that is under way is left alone by a second request to record.
pub proof fn law_second_start_is_ignored(state: AppState, settings: AppSettings, detector: bool)
    requires
        !state.hotkey_test_mode,
        state.recording_session,
    ensures
        hotkey_step(state, settings, HotkeyEvent::RecordStart, detector) == (
            state,
            None::<StartPhase>,
            Seq::<Deed>::empty(),
        ),
{
}

/// What was cancelled is not transcribed: a stop that follows a cancel does nothing.
pub proof fn law_cancelled_recording_is_not_stopped(
    state: AppState,
    settings: AppSettings,
    detector: bool,
    detector_after: bool,
)
    requires
        !state.hotkey_test_mode,
        state.recording_session || detector,
    ensures
        ({
            let cancelled = hotkey_step(state, settings, HotkeyEvent::RecordCancel, detector).0;
            &&& cancelled.cancel_requested
            &&& !cancelled.recording_session
            &&& hotkey_step(cancelled, settings, HotkeyEvent::RecordStop, detector_after) == (
                cancelled,
                None::<StartPhase>,
                Seq::<Deed>::empty(),
            )
        }),
{
}

/// A recording that was started and neither cancelled nor given up is stopped, once: a second
/// stop does nothing.
pub proof fn law_session_is_stopped_once(
    state: AppState,
    settings: AppSettings,
    detector: bool,
)
    requires
        !state.hotkey_test_mode,
        !state.recording_session,
    ensures
        ({
            let started = hotkey_step(state, settings, HotkeyEvent::RecordStart, detector).0;
            let stopped = hotkey_step(started, settings, HotkeyEvent::RecordStop, detector);
            &&& stopped.2 == seq![Deed::StopRecorder]
            &&& hotkey_step(stopped.0, settings, HotkeyEvent::RecordStop, detector).2.len() == 0
        }),
{
}

/// Outside a recording the cancel key is left to other programs.
pub proof fn law_idle_cancel_does_nothing(state: AppState, settings: AppSettings)
    requires
        !state.recording_session,
    ensures
        hotkey_step(state, settings, HotkeyEvent::RecordCancel, false) == (
            state,
            None::<StartPhase>,
            Seq::<Deed>::empty(),
        ),
{
}

/// While the hotkey is tried out it changes nothing and is at most reported.
pub proof fn law_test_mode_records_nothing(
    state: AppState,
    settings: AppSettings,
    event: HotkeyEvent,
    detector: bool,
)
    requires
        state.hotkey_test_mode,
    ensures
        ({
            let next = hotkey_step(state, settings, event, detector);
            &&& next.0 == state
            &&& next.1 is None
            &&& forall|i: int| 0 <= i < next.2.len() ==> #[trigger] next.2[i] is HotkeyDetected
        }),
{
}

/// The overlay is on the screen in this phase.
pub open spec fn overlay_in(phase: StartPhase) -> bool {
    phase is StartingRecorder || phase is Recording
}

/// The state of the recorder that the windows know in this phase.
pub open spec fn state_in(phase: StartPhase) -> Seq<char> {
    if overlay_in(phase) {
        "recording"@
    } else {
        "idle"@
    }
}

/// One event of a start, with what the user had asked for and the settings at that time.
pub ghost struct StartInput {
    pub event: StartEvent,
    pub cancelled: bool,
    pub settings: AppSettings,
}

/// The phase that a start comes to through `inputs`, and everything that is done on the way.
pub open spec fn start_run(phase: StartPhase, url: Seq<char>, inputs: Seq<StartInput>) -> (
    StartPhase,
    Seq<Deed>,
)
    decreases inputs.len(),
{
    if inputs.len() == 0 {
        (phase, seq![])
    } else {
        let before = start_run(phase, url, inputs.drop_last());
        let last = inputs.last();
        let next = start_step(before.0, last.event, last.cancelled, url, last.settings);
        (next.0, before.1 + next.1)
    }
}

/// Whatever happens during a start, the overlay and the state that the windows know fit the
/// phase. So a start that is given up leaves no overlay on the screen and the windows idle.
pub proof fn law_start_leaves_no_overlay_behind(
    phase: StartPhase,
    url: Seq<char>,
    inputs: Seq<StartInput>,
)
    ensures
        ({
            let run = start_run(phase, url, inputs);
            &&& overlay_after(run.1, overlay_in(phase)) == overlay_in(run.0)
            &&& state_after(run.1, state_in(phase)) == state_in(run.0)
        }),
    decreases inputs.len(),
{
    if inputs.len() > 0 {
        law_start_leaves_no_overlay_behind(phase, url, inputs.drop_last());
        let before = start_run(phase, url, inputs.drop_last());
        let last = inputs.last();
        let next = start_step(before.0, last.event, last.cancelled, url, last.settings);
        lemma_after_concat(before.1, next.1, overlay_in(phase), state_in(phase));
        lemma_start_step_overlay(before.0, last.event, last.cancelled, url, last.settings);
    }
}

proof fn lemma_start_step_overlay(
    phase: StartPhase,
    event: StartEvent,
    cancelled: bool,
    url: Seq<char>,
    settings: AppSettings,
)
    ensures
        ({
            let next = start_step(phase, event, cancelled, url, settings);
            &&& overlay_after(next.1, overlay_in(phase)) == overlay_in(next.0)
            &&& state_after(next.1, state_in(phase)) == state_in(next.0)
        }),
{
    reveal_with_fuel(overlay_after, 7);
    reveal_with_fuel(state_after, 7);
}

/// This begins something that a recording needs: the recorder, its overlay or a copy of the
/// selection.
pub open spec fn begins_recording(deed: Deed) -> bool {
    deed is StartRecorder || deed is ShowOverlay || deed is EnterMainThread
}

proof fn lemma_cancelled_step(
    phase: StartPhase,
    event: StartEvent,
    url: Seq<char>,
    settings: AppSettings,
)
    requires
        !(phase is Recording),
    ensures
        ({
            let next = start_step(phase, event, true, url, settings);
            &&& !(next.0 is Recording)
            &&& !(phase is EnteringMainThread) ==> !(next.0 is EnteringMainThread)
            &&& forall|i: int| 0 <= i < next.1.len() ==> !begins_recording(#[trigger] next.1[i])
            &&& !(phase is EnteringMainThread) ==> forall|i: int|
                0 <= i < next.1.len() ==> !(#[trigger] next.1[i] is CaptureSelection)
        }),
{
}

/// Once the user has cancelled, a start never comes to record, whatever happens. It shows no
/// overlay and starts no recorder any more, and copies no selection unless it was about to.
pub proof fn law_cancelled_start_never_records(
    phase: StartPhase,
    url: Seq<char>,
    inputs: Seq<StartInput>,
)
    requires
        !(phase is Recording),
        forall|i: int| 0 <= i < inputs.len() ==> (#[trigger] inputs[i]).cancelled,
    ensures
        ({
            let run = start_run(phase, url, inputs);
            &&& !(run.0 is Recording)
            &&& !(phase is EnteringMainThread) ==> !(run.0 is EnteringMainThread)
            &&& forall|i: int| 0 <= i < run.1.len() ==> !begins_recording(#[trigger] run.1[i])
            &&& !(phase is EnteringMainThread) ==> forall|i: int|
                0 <= i < run.1.len() ==> !(#[trigger] run.1[i] is CaptureSelection)
        }),
    decreases inputs.len(),
{
    if inputs.len() > 0 {
        let front = inputs.drop_last();
        let last = inputs.last();
        assert(inputs[inputs.len() - 1].cancelled);
        assert forall|i: int| 0 <= i < front.len() implies (#[trigger] front[i]).cancelled by {
            assert(front[i] == inputs[i]);
        }
        law_cancelled_start_never_records(phase, url, front);
        let before = start_run(phase, url, front);
        lemma_cancelled_step(before.0, last.event, url, last.settings);
        let next = start_step(before.0, last.event, true, url, last.settings);
        let all = before.1 + next.1;
        assert forall|i: int| 0 <= i < all.len() implies !begins_recording(#[trigger] all[i]) && (
        !(phase is EnteringMainThread) ==> !(all[i] is CaptureSelection)) by {
            if i < before.1.len() {
                assert(all[i] == before.1[i]);
            } else {
                assert(all[i] == next.1[i - before.1.len()]);
            }
        }
    }
}

/// A request to record by itself begins nothing that a recording needs: that waits for a step,
/// which sees whether the user has cancelled. So a cancel that follows the request at once is in
/// time.
pub proof fn law_request_alone_begins_nothing(settings: AppSettings)
    ensures
        ({
            let first = first_start_step(settings);
            &&& !(first.0 is Recording) && !(first.0 is EnteringMainThread)
            &&& forall|i: int|
                0 <= i < first.1.len() ==> !begins_recording(#[trigger] first.1[i]) && !(
                first.1[i] is CaptureSelection)
        }),
{
}

/// When the selection is copied, no clipboard text of an earlier time is set aside any more.
pub proof fn law_copy_finds_nothing_set_aside(
    phase: StartPhase,
    event: StartEvent,
    cancelled: bool,
    url: Seq<char>,
    settings: AppSettings,
    before: Option<String>,
)
    requires
        start_step(phase, event, cancelled, url, settings).1.contains(Deed::CaptureSelection),
    ensures
        backup_after(phase, event, before) is None,
{
}

/// A recorder that has come to run after the user had cancelled is cancelled.
pub proof fn law_late_recorder_is_cancelled(url: Seq<char>, settings: AppSettings)
    ensures
        ({
            let next = start_step(
                StartPhase::StartingRecorder,
                StartEvent::RecorderStarted,
                true,
                url,
                settings,
            );
            next.0 is Aborted && next.1.contains(Deed::CancelRecorder)
        }),
{
    let next = start_step(
        StartPhase::StartingRecorder,
        StartEvent::RecorderStarted,
        true,
        url,
        settings,
    );
    assert(next.1[0] == Deed::CancelRecorder);
}

/// A start that is given up once the selection was to be copied puts the clipboard back.
pub proof fn law_given_up_start_restores_the_clipboard(
    phase: StartPhase,
    event: StartEvent,
    cancelled: bool,
    url: Seq<char>,
    settings: AppSettings,
)
    requires
        phase is EnteringMainThread || phase is CapturingSelection || phase is StartingRecorder,
        start_step(phase, event, cancelled, url, settings).0 is Aborted,
    ensures
        start_step(phase, event, cancelled, url, settings).1.contains(Deed::RestoreClipboard),
{
    let next = start_step(phase, event, cancelled, url, settings);
    assert(next.1[0] == Deed::RestoreClipboard || next.1[1] == Deed::RestoreClipboard);
}

/// A server that does not come up is asked as often as it should be and then given up.
pub proof fn law_server_is_given_up(url: Seq<char>, left: u32, inputs: Seq<StartInput>)
    requires
        1 <= left,
        inputs.len() == left,
        forall|i: int|
            0 <= i < inputs.len() ==> (#[trigger] inputs[i]).event == StartEvent::ServerHealth(
                false,
            ) && !inputs[i].cancelled,
    ensures
        forall|n: int|
            0 <= n < left ==> #[trigger] start_run(
                StartPhase::AwaitingServer { left },
                url,
                inputs.take(n),
            ).0 == (StartPhase::AwaitingServer { left: (left - n) as u32 }),
        start_run(StartPhase::AwaitingServer { left }, url, inputs).0 is Aborted,
{
    let first = StartPhase::AwaitingServer { left };
    assert forall|n: int| 0 <= n < left implies #[trigger] start_run(first, url, inputs.take(n)).0
        == (StartPhase::AwaitingServer { left: (left - n) as u32 }) by {
        lemma_server_polls(url, left, inputs, n);
    }
    lemma_server_polls(url, left, inputs, left - 1);
    assert(inputs.drop_last() =~= inputs.take(left - 1));
}

proof fn lemma_server_polls(url: Seq<char>, left: u32, inputs: Seq<StartInput>, n: int)
    requires
        inputs.len() == left,
        0 <= n < left,
        forall|i: int|
            0 <= i < inputs.len() ==> (#[trigger] inputs[i]).event == StartEvent::ServerHealth(
                false,
            ) && !inputs[i].cancelled,
    ensures
        start_run(StartPhase::AwaitingServer { left }, url, inputs.take(n)).0 == (
        StartPhase::AwaitingServer { left: (left - n) as u32 }),
    decreases n,
{
    if n > 0 {
        lemma_server_polls(url, left, inputs, n - 1);
        assert(inputs.take(n).drop_last() =~= inputs.take(n - 1));
        assert(inputs.take(n).last() == inputs[n - 1]);
    }
}

/// A server that has come up while it was waited for is as good as one that was up at the first
/// probe, and as none being needed: the start goes on in the same way.
pub proof fn law_late_server_is_as_good_as_an_early_one(
    left: u32,
    cancelled: bool,
    url: Seq<char>,
    settings: AppSettings,
)
    ensures
        start_step(
            StartPhase::AwaitingServer { left },
            StartEvent::ServerHealth(true),
            cancelled,
            url,
            settings,
        ) == start_step(
            StartPhase::ProbingServer,
            StartEvent::ServerHealth(true),
            cancelled,
            url,
            settings,
        ),
        start_step(
            StartPhase::ProbingServer,
            StartEvent::ServerHealth(true),
            cancelled,
            url,
            settings,
        ) == start_step(
            StartPhase::EnteringTask,
            StartEvent::TaskEntered,
            cancelled,
            url,
            settings,
        ),
{
}

/// Nothing stands in the way of the recording any more: the hotkey has been left, or the server
/// has said that it is up.
pub open spec fn way_is_clear(phase: StartPhase, event: StartEvent) -> bool {
    ||| phase is EnteringTask && event is TaskEntered
    ||| phase is ProbingServer && event == StartEvent::ServerHealth(true)
    ||| phase is AwaitingServer && event == StartEvent::ServerHealth(true)
}

/// The selection has been copied, or will not be.
pub open spec fn selection_is_settled(phase: StartPhase, event: StartEvent) -> bool {
    ||| phase is EnteringMainThread && event is MainThreadLost
    ||| phase is CapturingSelection && (event is SelectionCaptured || event is SelectionFailed
        || event is MainThreadLost)
}

/// A start whose way is clear, and which the user has not cancelled, copies the selection if it is
/// to be replaced, and otherwise records. Once the selection is settled it records too, whether
/// or not the copy worked. To record is to tell the windows, then to show the overlay, then to
/// start the recorder.
pub proof fn law_start_with_a_clear_way_records(
    phase: StartPhase,
    event: StartEvent,
    url: Seq<char>,
    settings: AppSettings,
)
    ensures
        ({
            let next = start_step(phase, event, false, url, settings);
            let records = next == (
                StartPhase::StartingRecorder,
                seq![Deed::RecordingState("recording"@), Deed::ShowOverlay, Deed::StartRecorder],
            );
            &&& way_is_clear(phase, event) && settings.replace_selection ==> next == (
                StartPhase::EnteringMainThread,
                seq![Deed::EnterMainThread],
            )
            &&& way_is_clear(phase, event) && !settings.replace_selection ==> records
            &&& selection_is_settled(phase, event) ==> records
            &&& phase is EnteringMainThread && event is MainThreadEntered ==> next == (
                StartPhase::CapturingSelection,
                seq![Deed::CaptureSelection],
            )
            &&& phase is StartingRecorder && event is RecorderStarted ==> next == (
                StartPhase::Recording,
                seq![Deed::StartLevelMeter],
            )
        }),
{
}

/// The server could not be brought up: it could not be started, or the last probe found it down.
pub open spec fn server_failed(phase: StartPhase, event: StartEvent) -> bool {
    ||| phase is EnsuringServer && event == StartEvent::ServerEnsured(false)
    ||| phase matches StartPhase::AwaitingServer { left } && left <= 1 && event
        == StartEvent::ServerHealth(false)
}

/// A start is given up for three reasons and for no other: the user has cancelled by the time that
/// it would go on, the server could not be brought up, or the recorder failed.
pub proof fn law_start_is_given_up_for_a_reason(
    phase: StartPhase,
    event: StartEvent,
    cancelled: bool,
    url: Seq<char>,
    settings: AppSettings,
)
    requires
        !(phase is Aborted),
    ensures
        start_step(phase, event, cancelled, url, settings).0 is Aborted <==> {
            ||| cancelled && (way_is_clear(phase, event) || selection_is_settled(phase, event) || (
            phase is StartingRecorder && event is RecorderStarted))
            ||| server_failed(phase, event)
            ||| phase is StartingRecorder && event is RecorderFailed
        },
{
}

/// What the user is told when a start is given up, and only then. That the server is down is told
/// only when it has just been found down and the user has not cancelled; the message goes with
/// an overlay that is taken away again.
pub proof fn law_trouble_at_the_start_is_told(
    phase: StartPhase,
    event: StartEvent,
    cancelled: bool,
    url: Seq<char>,
    settings: AppSettings,
    message: Seq<char>,
)
    ensures
        ({
            let next = start_step(phase, event, cancelled, url, settings);
            &&& next.1.contains(Deed::Error(message)) <==> {
                ||| server_failed(phase, event) && !cancelled && message
                    == "ローカルモデルのサーバーが起動していません\nLocal model server is not running"@
                ||| phase is StartingRecorder && (event matches StartEvent::RecorderFailed(reason)
                    && message == "Failed to start recording: "@ + reason@)
            }
            &&& server_failed(phase, event) && cancelled ==> next.1.len() == 0
            &&& server_failed(phase, event) && !cancelled ==> next.1.len() == 6 && next.1[0]
                is Error && next.1.skip(1) == seq![
                Deed::RecordingState("error"@),
                Deed::ShowOverlay,
                Deed::Pause(3000),
                Deed::ConcealOverlay,
                Deed::RecordingState("idle"@),
            ]
            &&& phase is StartingRecorder && event is RecorderFailed ==> next.1.len() == 4
                && next.1[0] is RestoreClipboard && next.1[1] is Error && next.1[2]
                is ConcealOverlay && next.1[3] == Deed::RecordingState("idle"@)
            &&& phase is StartingRecorder && event is RecorderStarted && cancelled ==> next.1
                == seq![
                Deed::CancelRecorder,
                Deed::RestoreClipboard,
                Deed::ConcealOverlay,
                Deed::RecordingState("idle"@),
            ]
            &&& cancelled && way_is_clear(phase, event) ==> next.1.len() == 0
            &&& cancelled && selection_is_settled(phase, event) ==> next.1 == seq![
                Deed::RestoreClipboard,
            ]
        }),
{
    let next = start_step(phase, event, cancelled, url, settings);
    if server_failed(phase, event) && !cancelled {
        assert(next.1[0] == Deed::Error(server_down_message()));
        assert(next.1.skip(1) =~= seq![
            Deed::RecordingState("error"@),
            Deed::ShowOverlay,
            Deed::Pause(3000),
            Deed::ConcealOverlay,
            Deed::RecordingState("idle"@),
        ]);
    }
    if phase is StartingRecorder && event is RecorderFailed {
        assert(next.1[1] == Deed::Error("Failed to start recording: "@ + event->RecorderFailed_0@));
    }
    if next.1.contains(Deed::Error(message)) {
        let i = choose|i: int| 0 <= i < next.1.len() && next.1[i] == Deed::Error(message);
        assert(next.1[i] is Error);
    }
}

/// A server that is down is started, and then probed up to twenty times, a quarter of a second
/// apart, whether or not the user cancels meanwhile.
pub proof fn law_server_gets_five_seconds(
    left: u32,
    cancelled: bool,
    url: Seq<char>,
    settings: AppSettings,
)
    requires
        left > 1,
    ensures
        start_step(
            StartPhase::ProbingServer,
            StartEvent::ServerHealth(false),
            cancelled,
            url,
            settings,
        ) == (StartPhase::EnsuringServer, seq![Deed::EnsureServer]),
        start_step(
            StartPhase::EnsuringServer,
            StartEvent::ServerEnsured(true),
            cancelled,
            url,
            settings,
        ) == (
            StartPhase::AwaitingServer { left: 20 },
            seq![Deed::Pause(250), Deed::ProbeServer(url)],
        ),
        start_step(
            StartPhase::AwaitingServer { left },
            StartEvent::ServerHealth(false),
            cancelled,
            url,
            settings,
        ) == (
            StartPhase::AwaitingServer { left: (left - 1) as u32 },
            seq![Deed::Pause(250), Deed::ProbeServer(url)],
        ),
{
}

proof fn lemma_polls(url: Seq<char>, inputs: Seq<StartInput>, n: int)
    requires
        2 <= n <= inputs.len(),
        n < 22,
        inputs[0].event == StartEvent::ServerHealth(false),
        inputs[1].event == StartEvent::ServerEnsured(true),
        forall|i: int| 2 <= i < n ==> (#[trigger] inputs[i]).event == StartEvent::ServerHealth(false),
    ensures
        ({
            let run = start_run(StartPhase::ProbingServer, url, inputs.take(n));
            &&& run.0 == (StartPhase::AwaitingServer { left: (22 - n) as u32 })
            &&& forall|i: int| 0 <= i < run.1.len() ==> !(#[trigger] run.1[i] is Error)
        }),
    decreases n,
{
    reveal_with_fuel(start_run, 3);
    let front = inputs.take(n).drop_last();
    assert(front =~= inputs.take(n - 1));
    assert(inputs.take(n).last() == inputs[n - 1]);
    if n == 2 {
        let none = front.drop_last();
        assert(none =~= Seq::<StartInput>::empty());
        assert(front.last() == inputs[0]);
        assert(start_run(StartPhase::ProbingServer, url, none).1.len() == 0);
        let first = start_run(StartPhase::ProbingServer, url, front);
        assert(first.0 == StartPhase::EnsuringServer);
        assert(first.1 =~= seq![Deed::EnsureServer]);
    } else {
        lemma_polls(url, inputs, n - 1);
    }
}

/// A server that is down when the hotkey is pressed, but comes up within those twenty probes,
/// keeps nobody from recording: the start goes on as with a server that was up, and tells of no
/// error.
pub proof fn law_server_may_come_up_late(url: Seq<char>, inputs: Seq<StartInput>)
    requires
        3 <= inputs.len() <= 22,
        inputs[0].event == StartEvent::ServerHealth(false),
        inputs[1].event == StartEvent::ServerEnsured(true),
        forall|i: int|
            2 <= i < inputs.len() - 1 ==> (#[trigger] inputs[i]).event == StartEvent::ServerHealth(
                false,
            ),
        inputs.last().event == StartEvent::ServerHealth(true),
        !inputs.last().cancelled,
    ensures
        ({
            let run = start_run(StartPhase::ProbingServer, url, inputs);
            &&& run.0 == if inputs.last().settings.replace_selection {
                StartPhase::EnteringMainThread
            } else {
                StartPhase::StartingRecorder
            }
            &&& !inputs.last().settings.replace_selection ==> run.1.len() > 0 && run.1.last()
                is StartRecorder
            &&& inputs.last().settings.replace_selection ==> run.1.len() > 0 && run.1.last()
                is EnterMainThread
            &&& forall|i: int| 0 <= i < run.1.len() ==> !(#[trigger] run.1[i] is Error)
        }),
{
    let n = inputs.len() - 1;
    lemma_polls(url, inputs, n);
    assert(inputs.drop_last() =~= inputs.take(n));
}

/// A start waits for one thing at a time: an event that answers nothing that it has asked changes
/// neither its phase nor what is set aside, and has no consequence.
pub proof fn law_start_takes_only_what_it_waits_for(
    phase: StartPhase,
    event: StartEvent,
    cancelled: bool,
    url: Seq<char>,
    settings: AppSettings,
    backup: Option<String>,
)
    ensures
        ({
            let awaited = match phase {
                StartPhase::EnteringTask => event is TaskEntered,
                StartPhase::ProbingServer => event is ServerHealth,
                StartPhase::EnsuringServer => event is ServerEnsured,
                StartPhase::AwaitingServer { left } => event is ServerHealth,
                StartPhase::EnteringMainThread => event is MainThreadEntered || event
                    is MainThreadLost,
                StartPhase::CapturingSelection => event is SelectionCaptured || event
                    is SelectionFailed || event is MainThreadLost,
                StartPhase::StartingRecorder => event is RecorderStarted || event
                    is RecorderFailed,
                StartPhase::Recording => false,
                StartPhase::Aborted => false,
            };
            &&& !awaited ==> start_step(phase, event, cancelled, url, settings) == (
                phase,
                Seq::<Deed>::empty(),
            )
            &&& awaited ==> start_step(phase, event, cancelled, url, settings).0 != phase
            &&& !awaited ==> backup_after(phase, event, backup) == backup
            &&& awaited && !(event is MainThreadEntered) && !(event is SelectionCaptured)
                ==> backup_after(phase, event, backup) == backup
        }),
{
}

/// What a copied selection leaves to be put back is what the clipboard held, from the time that
/// the copy is made; until then nothing is.
pub proof fn law_copied_selection_sets_the_clipboard_aside(
    held: Option<String>,
    before: Option<String>,
)
    ensures
        backup_after(StartPhase::EnteringMainThread, StartEvent::MainThreadEntered, before) is None,
        backup_after(StartPhase::CapturingSelection, StartEvent::SelectionCaptured(held), before)
            == held,
{
}

/// A request to record, where none is running and the hotkey is not being tried out, opens a
/// session and forgets an earlier cancel. It begins with the local server if the settings name
/// it, at its address, and otherwise by leaving the hotkey.
pub proof fn law_request_opens_a_session(state: AppState, settings: AppSettings, detector: bool)
    requires
        !state.hotkey_test_mode,
        !state.recording_session,
    ensures
        ({
            let next = hotkey_step(state, settings, HotkeyEvent::RecordStart, detector);
            let server = settings.local_stt_server;
            &&& next.0 == (AppState { recording_session: true, cancel_requested: false, ..state })
            &&& settings.stt_preset@ == "local_whisper"@ ==> next.1 == Some(
                StartPhase::ProbingServer,
            ) && next.2 == seq![
                Deed::ProbeServer(
                    "http://"@ + server.host@ + ":"@ + decimal(server.port as nat) + "/health"@,
                ),
            ]
            &&& settings.stt_preset@ != "local_whisper"@ ==> next.1 == Some(
                StartPhase::EnteringTask,
            ) && next.2 == seq![Deed::EnterTask]
        }),
{
}

/// A stop ends a session that is open and not cancelled, and hands over what was recorded; a
/// cancel ends one that is open, or that only the detector knows of, and throws it away. Either
/// leaves everything else as it was, and starts nothing.
pub proof fn law_stop_and_cancel_end_a_session(state: AppState, settings: AppSettings, detector: bool)
    requires
        !state.hotkey_test_mode,
    ensures
        ({
            let stop = hotkey_step(state, settings, HotkeyEvent::RecordStop, detector);
            let cancel = hotkey_step(state, settings, HotkeyEvent::RecordCancel, detector);
            &&& stop.1 is None && cancel.1 is None
            &&& state.recording_session && !state.cancel_requested ==> stop.0 == (AppState {
                recording_session: false,
                ..state
            }) && stop.2 == seq![Deed::StopRecorder]
            &&& !(state.recording_session && !state.cancel_requested) ==> stop.0 == state
                && stop.2.len() == 0
            &&& state.recording_session || detector ==> cancel.0 == (AppState {
                recording_session: false,
                cancel_requested: true,
                ..state
            }) && cancel.2 == seq![
                Deed::CancelDetector,
                Deed::CancelRecorderIfRunning,
                Deed::RestoreClipboard,
                Deed::ConcealOverlay,
                Deed::RecordingState("idle"@),
            ]
        }),
{
}

/// While the hotkey is tried out, a press and a release are reported as such.
pub proof fn law_test_mode_reports_the_hotkey(
    state: AppState,
    settings: AppSettings,
    detector: bool,
)
    requires
        state.hotkey_test_mode,
    ensures
        hotkey_step(state, settings, HotkeyEvent::RecordStart, detector).2 == seq![
            Deed::HotkeyDetected("pressed"@),
        ],
        hotkey_step(state, settings, HotkeyEvent::RecordStop, detector).2 == seq![
            Deed::HotkeyDetected("released"@),
        ],
        hotkey_step(state, settings, HotkeyEvent::RecordCancel, detector).2.len() == 0,
{
}

} // verus!
