use flow::hotkeys::{
    initialize_hotkeys, register_hotkeys, reload_hotkeys, route_shortcut,
    start_permission_monitor_once, unregister_hotkeys, HotkeyAnswer, HotkeyEffect, Registration,
    RegistrationPhase, ShortcutAction,
};
use flow::settings::{copy_modes, AppSettings, LanguageMode, LocalSttServer};
use flow::shortcut::{convert_key, convert_part, parse_shortcut};
use flow::state::{restore_clipboard_backup, AppState};

#[test]
fn shortcuts_are_converted() {
    assert_eq!(parse_shortcut("ctrl+shift+a"), "CmdOrCtrl+Shift+A");
    assert_eq!(parse_shortcut("meta+Alt+f12"), "CmdOrCtrl+Alt+F12");
    assert_eq!(parse_shortcut("CMD+space"), "CmdOrCtrl+Space");
    assert_eq!(parse_shortcut("hyper+Enter"), "hyper+Enter");
    assert_eq!(parse_shortcut("ENTER"), "Enter");
    assert_eq!(parse_shortcut("backspace"), "Backspace");
    assert_eq!(parse_shortcut("TAB"), "Tab");
    assert_eq!(parse_shortcut("arrowUp"), "Arrowup");
    assert_eq!(parse_shortcut("fn"), "Fn");
    assert_eq!(parse_shortcut("f4294967295"), "F4294967295");
    assert_eq!(parse_shortcut("f4294967296"), "F4294967296");
    assert_eq!(parse_shortcut(""), "");
    assert_eq!(parse_shortcut("a+"), "a+");
    assert_eq!(parse_shortcut("ß"), "SS");
    assert_eq!(parse_shortcut("Éa"), "Éa");
    assert_eq!(parse_shortcut("shift"), "Shift");
}

#[test]
fn parts_are_converted_from_their_lowered_form() {
    assert_eq!(convert_key("f5"), "F5");
    assert_eq!(convert_key("f+5"), "F+5");
    assert_eq!(convert_key("fx"), "Fx");
    assert_eq!(convert_key("ñu"), "Ñu");
    assert_eq!(convert_part("Hyper", "hyper", false), "Hyper");
    assert_eq!(convert_part("Hyper", "hyper", true), "Hyper");
    assert_eq!(convert_part("X", "ctrl", true), "CmdOrCtrl");
    assert_eq!(convert_part("X", "alt", false), "Alt");
}

#[test]
fn a_shortcut_stands_for_itself() {
    for key in ["ctrl+shift+a", "f5", "alt+arrowdown", "hyper+q", "shift", "", "a++B"] {
        let once = parse_shortcut(key);
        assert_eq!(parse_shortcut(&once), once, "{key}");
    }
    // The command key alone is no shortcut.
    assert_eq!(parse_shortcut(&parse_shortcut("cmd")), "Cmdorctrl");
}

fn settings() -> AppSettings {
    AppSettings {
        hotkey_key: "f5".to_string(),
        activation_mode: "push_to_talk".to_string(),
        double_tap_ms: 300,
        mode_hotkeys: vec![],
        history_enabled: true,
        history_retention_days: 30,
        language_mode: LanguageMode::Japanese,
        primary_language: "fr".to_string(),
        min_recording_ms: 300,
        remove_fillers: true,
        auto_paste: true,
        replace_selection: false,
        stt_preset: "local_whisper".to_string(),
        local_stt_server: LocalSttServer {
            host: "127.0.0.1".to_string(),
            port: 8787,
            model: "small".to_string(),
            python_path: "/opt/py".to_string(),
        },
        ui_language: "en".to_string(),
        onboarding_completed: true,
        onboarding_step: 0,
    }
}

fn pair(mode: &str, key: &str) -> (String, String) {
    (mode.to_string(), key.to_string())
}

fn numbered(text: &str) -> Option<u32> {
    match text {
        "CmdOrCtrl+Shift+A" => Some(1),
        "F5" => Some(5),
        "F6" => Some(6),
        "F7" => Some(7),
        _ => None,
    }
}

fn run(
    state: &mut AppState,
    registration: &mut Registration,
    first: HotkeyEffect,
    refused: u32,
) -> Vec<String> {
    let mut log = Vec::new();
    let mut pending = vec![first];
    loop {
        let mut answer = None;
        for effect in pending {
            log.push(format!("{effect:?}"));
            match effect {
                HotkeyEffect::AskEventTap(key) => {
                    answer = Some(HotkeyAnswer::EventTap(key == "rshift"))
                }
                HotkeyEffect::AskShortcut(text) => {
                    answer = Some(HotkeyAnswer::Shortcut(numbered(&text)))
                }
                HotkeyEffect::AskRegister(id) => {
                    answer = Some(HotkeyAnswer::Registered(id != refused))
                }
                _ => {}
            }
        }
        match answer {
            Some(answer) => pending = registration.step(state, answer),
            None => return log,
        }
    }
}

#[test]
fn hotkeys_are_registered_apart() {
    let mut state = AppState::new();
    state.mode_shortcuts.push((9, "old".to_string()));
    let modes = vec![
        pair("blank", "  "),
        pair("tap", "rshift"),
        pair("same", " f5 "),
        pair("collides", "F5"),
        pair("strange", "f99"),
        pair("refused", "f6"),
        pair("good", " f7 "),
    ];
    let (mut registration, first) = register_hotkeys(&mut state, "f5", modes).unwrap();
    assert!(state.hotkeys_initialized && state.mode_shortcuts.is_empty());
    let log = run(&mut state, &mut registration, first, 6);
    assert_eq!(
        log,
        vec![
            "AskEventTap(\"f5\")",
            "AskShortcut(\"F5\")",
            "RegisterRecordShortcut(5)",
            "AskEventTap(\"rshift\")",
            "AskEventTap(\"f5\")",
            "AskEventTap(\"F5\")",
            "AskShortcut(\"F5\")",
            "AskEventTap(\"f99\")",
            "AskShortcut(\"F99\")",
            "AskEventTap(\"f6\")",
            "AskShortcut(\"F6\")",
            "AskRegister(6)",
            "AskEventTap(\"f7\")",
            "AskShortcut(\"F7\")",
            "AskRegister(7)",
            "InstallCancelListener",
        ]
    );
    assert_eq!(registration.phase, RegistrationPhase::Done);
    assert_eq!(state.record_shortcut, Some(5));
    assert_eq!(state.mode_shortcuts, vec![(7, "good".to_string())]);

    assert!(matches!(route_shortcut(&state, 5, true), ShortcutAction::RecordKeyDown));
    assert!(matches!(route_shortcut(&state, 5, false), ShortcutAction::RecordKeyUp));
    assert!(matches!(route_shortcut(&state, 7, true), ShortcutAction::SwitchMode(m) if m == "good"));
    assert!(matches!(route_shortcut(&state, 7, false), ShortcutAction::Nothing));
    assert!(matches!(route_shortcut(&state, 6, true), ShortcutAction::Nothing));

    assert!(register_hotkeys(&mut state, "f6", vec![]).is_none());
    assert_eq!(state.record_shortcut, Some(5));
}

#[test]
fn record_key_falls_back_or_takes_a_tap() {
    let mut state = AppState::new();
    let (mut registration, first) = register_hotkeys(&mut state, "nonsense", vec![]).unwrap();
    let log = run(&mut state, &mut registration, first, 0);
    assert_eq!(
        log,
        vec![
            "AskEventTap(\"nonsense\")",
            "AskShortcut(\"Nonsense\")",
            "AskShortcut(\"F5\")",
            "RegisterRecordShortcut(5)",
            "InstallCancelListener",
        ]
    );

    let mut state = AppState::new();
    let modes = vec![pair("m", "ctrl+shift+a")];
    let (mut registration, first) = register_hotkeys(&mut state, "rshift", modes).unwrap();
    let log = run(&mut state, &mut registration, first, 0);
    assert_eq!(
        log,
        vec![
            "AskEventTap(\"rshift\")",
            "InstallKeyListener(\"rshift\")",
            "AskEventTap(\"ctrl+shift+a\")",
            "AskShortcut(\"CmdOrCtrl+Shift+A\")",
            "AskRegister(1)",
            "InstallCancelListener",
        ]
    );
    assert_eq!(state.record_shortcut, None);
    assert!(registration.step(&mut state, HotkeyAnswer::Registered(true)).is_empty());
    assert_eq!(state.mode_shortcuts.len(), 1);
}

fn shown(effects: &[HotkeyEffect]) -> Vec<String> {
    effects.iter().map(|e| format!("{e:?}")).collect()
}

#[test]
fn hotkeys_are_taken_down_and_reloaded() {
    let mut state = AppState::new();
    let mut s = settings();
    s.mode_hotkeys = vec![pair("m", "f6")];
    assert_eq!(copy_modes(&s.mode_hotkeys), s.mode_hotkeys);
    let update = "UpdateDetector { activation_mode: \"push_to_talk\", double_tap_ms: 300 }";
    let register = "RegisterHotkeys { hotkey: \"f5\", modes: [(\"m\", \"f6\")] }";
    assert!(unregister_hotkeys(&mut state).is_empty());
    assert_eq!(shown(&initialize_hotkeys(&mut state, &s)), vec![register]);
    assert_eq!(shown(&reload_hotkeys(&mut state, &s)), vec![update, register]);
    state.hotkeys_initialized = true;
    assert_eq!(
        shown(&initialize_hotkeys(&mut state, &s)),
        vec!["UninstallListeners", "UnregisterShortcuts", update, register]
    );
    assert!(!state.hotkeys_initialized);
    state.hotkeys_initialized = true;
    assert_eq!(
        shown(&unregister_hotkeys(&mut state)),
        vec!["UninstallListeners", "UnregisterShortcuts"]
    );
    assert!(start_permission_monitor_once(&mut state));
    assert!(!start_permission_monitor_once(&mut state));
}

#[test]
fn the_clipboard_is_put_back_once() {
    let mut state = AppState::new();
    assert_eq!(restore_clipboard_backup(&mut state), None);
    state.clipboard_backup = Some("before".to_string());
    assert_eq!(restore_clipboard_backup(&mut state), Some("before".to_string()));
    assert_eq!(restore_clipboard_backup(&mut state), None);
}
