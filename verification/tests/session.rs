use flow::effect::Effect;
use flow::session::{handle_hotkey_event, HotkeyEvent, Start, StartEvent, StartPhase};
use flow::settings::{AppSettings, LanguageMode, LocalSttServer};
use flow::state::AppState;

fn settings() -> AppSettings {
    AppSettings {
        hotkey_key: "f5".to_string(),
        activation_mode: "push_to_talk".to_string(),
        double_tap_ms: 300,
        mode_hotkeys: vec![],
        history_enabled: true,
        history_retention_days: 30,
        language_mode: LanguageMode::Japanese,
        primary_language: "fr".to_string(),
        min_recording_ms: 300,
        remove_fillers: true,
        auto_paste: true,
        replace_selection: false,
        stt_preset: "local_whisper".to_string(),
        local_stt_server: LocalSttServer {
            host: "127.0.0.1".to_string(),
            port: 8787,
            model: "small".to_string(),
            python_path: "/opt/py".to_string(),
        },
        ui_language: "en".to_string(),
        onboarding_completed: true,
        onboarding_step: 0,
    }
}

fn names(effects: &[Effect]) -> Vec<String> {
    effects.iter().map(|e| format!("{e:?}")).collect()
}

const IDLE: &str = "RecordingState(RecordingStateEvent { state: \"idle\" })";
const RECORDING: &str = "RecordingState(RecordingStateEvent { state: \"recording\" })";

fn cloud() -> AppSettings {
    let mut s = settings();
    s.stt_preset = "openai".to_string();
    s
}

fn requested(state: &mut AppState, settings: &AppSettings) -> (Start, Vec<String>) {
    let (start, effects) = handle_hotkey_event(state, settings, HotkeyEvent::RecordStart, false);
    (start.unwrap(), names(&effects))
}

/// A start that has left the hotkey.
fn started(state: &mut AppState, settings: &AppSettings) -> (Start, Vec<String>) {
    let (mut start, effects) = requested(state, settings);
    if start.phase == StartPhase::EnteringTask {
        assert_eq!(effects, vec!["EnterTask"]);
        let effects = start.step(state, settings, StartEvent::TaskEntered);
        return (start, names(&effects));
    }
    (start, effects)
}

#[test]
fn a_recording_is_started_and_stopped_once() {
    let mut state = AppState::new();
    let s = cloud();
    let (mut start, effects) = started(&mut state, &s);
    assert_eq!(effects, vec![RECORDING, "ShowOverlay", "StartRecorder"]);
    assert!(state.recording_session);
    assert_eq!(names(&start.step(&mut state, &s, StartEvent::RecorderStarted)), vec![
        "StartLevelMeter"
    ]);
    assert_eq!(start.phase, StartPhase::Recording);
    let (again, effects) = handle_hotkey_event(&mut state, &s, HotkeyEvent::RecordStart, true);
    assert!(again.is_none() && effects.is_empty());
    let (_, effects) = handle_hotkey_event(&mut state, &s, HotkeyEvent::RecordStop, true);
    assert_eq!(names(&effects), vec!["StopRecorder"]);
    assert!(!state.recording_session);
    let (_, effects) = handle_hotkey_event(&mut state, &s, HotkeyEvent::RecordStop, true);
    assert!(effects.is_empty());
}

#[test]
fn a_cancelled_recording_is_not_stopped() {
    let mut state = AppState::new();
    let s = cloud();
    let (_, effects) = handle_hotkey_event(&mut state, &s, HotkeyEvent::RecordCancel, false);
    assert!(effects.is_empty() && !state.cancel_requested);
    started(&mut state, &s);
    let (_, effects) = handle_hotkey_event(&mut state, &s, HotkeyEvent::RecordCancel, false);
    assert_eq!(names(&effects), vec![
        "CancelDetector",
        "CancelRecorderIfRunning",
        "RestoreClipboard",
        "ConcealOverlay",
        IDLE
    ]);
    assert!(state.cancel_requested && !state.recording_session);
    let (_, effects) = handle_hotkey_event(&mut state, &s, HotkeyEvent::RecordStop, true);
    assert!(effects.is_empty());
    // A recording that only the detector knows of is cancelled too.
    let mut state = AppState::new();
    let (_, effects) = handle_hotkey_event(&mut state, &s, HotkeyEvent::RecordCancel, true);
    assert_eq!(effects.len(), 5);
    // A new start forgets the cancel.
    started(&mut state, &s);
    assert!(!state.cancel_requested);
}

#[test]
fn trying_out_the_hotkey_records_nothing() {
    let mut state = AppState::new();
    state.hotkey_test_mode = true;
    let s = settings();
    for (event, expected) in [
        (HotkeyEvent::RecordStart, vec!["HotkeyDetected(\"pressed\")"]),
        (HotkeyEvent::RecordStop, vec!["HotkeyDetected(\"released\")"]),
        (HotkeyEvent::RecordCancel, vec![]),
    ] {
        let (start, effects) = handle_hotkey_event(&mut state, &s, event, true);
        assert!(start.is_none());
        assert_eq!(names(&effects), expected);
    }
    assert!(!state.recording_session && !state.cancel_requested);
}

#[test]
fn a_local_server_is_asked_first() {
    let mut state = AppState::new();
    let mut s = settings();
    s.replace_selection = true;
    let (mut start, effects) = started(&mut state, &s);
    assert_eq!(effects, vec!["ProbeServer(\"http://127.0.0.1:8787/health\")"]);
    let effects = start.step(&mut state, &s, StartEvent::ServerHealth(true));
    assert_eq!(names(&effects), vec!["EnterMainThread"]);
    state.clipboard_backup = Some("stale".to_string());
    let effects = start.step(&mut state, &s, StartEvent::MainThreadEntered);
    assert_eq!(names(&effects), vec!["CaptureSelection"]);
    assert_eq!(state.clipboard_backup, None);
    let captured = StartEvent::SelectionCaptured(Some("kept".to_string()));
    let effects = start.step(&mut state, &s, captured);
    assert_eq!(names(&effects), vec![RECORDING, "ShowOverlay", "StartRecorder"]);
    assert_eq!(state.clipboard_backup, Some("kept".to_string()));
}

#[test]
fn a_server_that_stays_down_is_given_up() {
    let mut state = AppState::new();
    let s = settings();
    let (mut start, _) = started(&mut state, &s);
    let effects = start.step(&mut state, &s, StartEvent::ServerHealth(false));
    assert_eq!(names(&effects), vec!["EnsureServer"]);
    let poll = vec!["Pause(250)", "ProbeServer(\"http://127.0.0.1:8787/health\")"];
    assert_eq!(names(&start.step(&mut state, &s, StartEvent::ServerEnsured(true))), poll);
    for _ in 0..19 {
        assert_eq!(names(&start.step(&mut state, &s, StartEvent::ServerHealth(false))), poll);
        assert!(state.recording_session);
    }
    let effects = names(&start.step(&mut state, &s, StartEvent::ServerHealth(false)));
    assert_eq!(effects, vec![
        "Error(ErrorEvent { message: \"ローカルモデルのサーバーが起動していません\\nLocal model server is not running\" })",
        "RecordingState(RecordingStateEvent { state: \"error\" })",
        "ShowOverlay",
        "Pause(3000)",
        "ConcealOverlay",
        IDLE
    ]);
    assert_eq!(start.phase, StartPhase::Aborted);
    assert!(!state.recording_session);
    // What comes late changes nothing, nor the session that was started meanwhile.
    state.recording_session = true;
    assert!(start.step(&mut state, &s, StartEvent::ServerHealth(true)).is_empty());
    assert!(state.recording_session);
}

#[test]
fn a_server_that_cannot_be_started_is_given_up_at_once() {
    let mut state = AppState::new();
    let s = settings();
    let (mut start, _) = started(&mut state, &s);
    start.step(&mut state, &s, StartEvent::ServerHealth(false));
    let effects = start.step(&mut state, &s, StartEvent::ServerEnsured(false));
    assert_eq!(effects.len(), 6);
    assert!(!state.recording_session);
}

#[test]
fn a_cancelled_start_is_given_up() {
    // While the server is asked.
    let mut state = AppState::new();
    let mut s = settings();
    s.replace_selection = true;
    let (mut start, _) = started(&mut state, &s);
    handle_hotkey_event(&mut state, &s, HotkeyEvent::RecordCancel, false);
    assert!(start.step(&mut state, &s, StartEvent::ServerHealth(true)).is_empty());
    assert_eq!(start.phase, StartPhase::Aborted);

    // While the selection is copied.
    let mut s = cloud();
    s.replace_selection = true;
    let mut state = AppState::new();
    let (mut start, effects) = started(&mut state, &s);
    assert_eq!(effects, vec!["EnterMainThread"]);
    state.clipboard_backup = Some("stale".to_string());
    start.step(&mut state, &s, StartEvent::MainThreadEntered);
    handle_hotkey_event(&mut state, &s, HotkeyEvent::RecordCancel, false);
    let effects = start.step(&mut state, &s, StartEvent::SelectionFailed);
    assert_eq!(names(&effects), vec!["RestoreClipboard"]);
    assert_eq!(state.clipboard_backup, None);

    // Before the selection is copied, or the overlay is shown.
    for replace_selection in [true, false] {
        s.replace_selection = replace_selection;
        let mut state = AppState::new();
        let (mut start, effects) = requested(&mut state, &s);
        assert_eq!(effects, vec!["EnterTask"]);
        handle_hotkey_event(&mut state, &s, HotkeyEvent::RecordCancel, false);
        assert!(start.step(&mut state, &s, StartEvent::TaskEntered).is_empty());
        assert_eq!(start.phase, StartPhase::Aborted);
    }

    // While the recorder is started.
    let s = cloud();
    let mut state = AppState::new();
    let (mut start, _) = started(&mut state, &s);
    handle_hotkey_event(&mut state, &s, HotkeyEvent::RecordCancel, false);
    let effects = start.step(&mut state, &s, StartEvent::RecorderStarted);
    assert_eq!(names(&effects), vec![
        "CancelRecorder",
        "RestoreClipboard",
        "ConcealOverlay",
        IDLE
    ]);
    assert_eq!(start.phase, StartPhase::Aborted);
}

#[test]
fn a_recorder_that_fails_is_told() {
    let s = cloud();
    let mut state = AppState::new();
    let (mut start, _) = started(&mut state, &s);
    let effects = start.step(&mut state, &s, StartEvent::RecorderFailed("no device".to_string()));
    assert_eq!(names(&effects), vec![
        "RestoreClipboard",
        "Error(ErrorEvent { message: \"Failed to start recording: no device\" })",
        "ConcealOverlay",
        IDLE
    ]);
    assert!(!state.recording_session);
}

#[test]
fn a_main_thread_that_is_lost_keeps_the_backup() {
    let mut s = cloud();
    s.replace_selection = true;
    let mut state = AppState::new();
    let (mut start, _) = started(&mut state, &s);
    state.clipboard_backup = Some("kept".to_string());
    let effects = start.step(&mut state, &s, StartEvent::MainThreadLost);
    assert_eq!(effects.len(), 3);
    assert_eq!(state.clipboard_backup, Some("kept".to_string()));
}
