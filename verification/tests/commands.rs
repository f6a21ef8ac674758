use flow::commands::{
    app_title_with_build, get_build_number, get_history, hotkeys_changed, save_onboarding_step,
    save_settings, set_hotkey_test_mode, settings_written, startup_plan, SaveEffect,
};
use flow::effect::Effect;
use flow::settings::{AppSettings, LanguageMode, LocalSttServer};
use flow::state::AppState;
use flow::stt_test::{
    check_capture, failure_text, test_microphone, MicrophoneLevel, SttTest, SttTestEvent,
    SttTestPart, SttTestPhase, SttTestStep,
};

fn settings() -> AppSettings {
    AppSettings {
        hotkey_key: "f5".to_string(),
        activation_mode: "push_to_talk".to_string(),
        double_tap_ms: 300,
        mode_hotkeys: vec![],
        history_enabled: true,
        history_retention_days: 30,
        language_mode: LanguageMode::Japanese,
        primary_language: "fr".to_string(),
        min_recording_ms: 300,
        remove_fillers: true,
        auto_paste: true,
        replace_selection: false,
        stt_preset: "local_whisper".to_string(),
        local_stt_server: LocalSttServer {
            host: "127.0.0.1".to_string(),
            port: 8787,
            model: "small".to_string(),
            python_path: "/opt/py".to_string(),
        },
        ui_language: "en".to_string(),
        onboarding_completed: true,
        onboarding_step: 0,
    }
}

fn pair(mode: &str, key: &str) -> (String, String) {
    (mode.to_string(), key.to_string())
}

#[test]
fn turning_the_history_off_clears_it() {
    let on = settings();
    let mut off = settings();
    off.history_enabled = false;
    assert_eq!(
        save_settings(&on, &off),
        (
            vec![
                SaveEffect::ClearHistory,
                SaveEffect::HistoryUpdated,
                SaveEffect::WriteSettings
            ],
            false
        )
    );
    let pruned = vec![SaveEffect::PruneHistory(30), SaveEffect::WriteSettings];
    assert_eq!(save_settings(&off, &off), (vec![SaveEffect::WriteSettings], false));
    assert_eq!(save_settings(&off, &on), (pruned.clone(), false));
    assert_eq!(save_settings(&on, &on), (pruned, false));
    assert_eq!(get_history(&on), Some(30));
    assert_eq!(get_history(&off), None);
}

#[test]
fn hotkeys_are_reloaded_when_they_change() {
    let mut a = settings();
    a.mode_hotkeys = vec![pair("x", "f6"), pair("y", "f7")];
    let mut b = a.clone();
    b.mode_hotkeys = vec![pair("y", "f7"), pair("x", "f6")];
    assert!(!hotkeys_changed(&a, &b));
    b.mode_hotkeys[0].1 = "f8".to_string();
    assert!(hotkeys_changed(&a, &b));
    b.mode_hotkeys.remove(0);
    assert!(hotkeys_changed(&a, &b) && hotkeys_changed(&b, &a));
    let mut b = a.clone();
    b.hotkey_key = "f9".to_string();
    assert!(hotkeys_changed(&a, &b));
    let mut b = a.clone();
    b.activation_mode = "toggle".to_string();
    assert!(hotkeys_changed(&a, &b));
    let mut b = a.clone();
    b.double_tap_ms = 301;
    assert!(hotkeys_changed(&a, &b) && save_settings(&a, &b).1);
    let mut b = a.clone();
    b.ui_language = "ja".to_string();
    assert!(!hotkeys_changed(&a, &b));
}

#[test]
fn settings_are_replaced_only_once_written() {
    let mut state = AppState::new();
    let quiet = vec![
        SaveEffect::ReplaceSettings,
        SaveEffect::RebuildTray,
        SaveEffect::SettingsChanged,
    ];
    assert_eq!(settings_written(&state, true, Ok(())), (Ok(()), quiet.clone()));
    state.hotkeys_initialized = true;
    assert_eq!(settings_written(&state, false, Ok(())), (Ok(()), quiet));
    assert_eq!(
        settings_written(&state, true, Ok(())),
        (
            Ok(()),
            vec![
                SaveEffect::ReplaceSettings,
                SaveEffect::ReloadHotkeys,
                SaveEffect::RebuildTray,
                SaveEffect::SettingsChanged
            ]
        )
    );
    assert_eq!(
        settings_written(&state, true, Err("disk full".to_string())),
        (Err("disk full".to_string()), vec![])
    );
}

#[test]
fn small_commands() {
    let mut s = settings();
    save_onboarding_step(&mut s, 4);
    assert_eq!(s.onboarding_step, 4);
    let mut state = AppState::new();
    set_hotkey_test_mode(&mut state, true);
    assert!(state.hotkey_test_mode);
    set_hotkey_test_mode(&mut state, false);
    assert!(!state.hotkey_test_mode);
    assert_eq!(get_build_number(None), "0");
    assert_eq!(get_build_number(Some("300")), "300");
    assert_eq!(app_title_with_build("1.0.0", Some("300")), "Flow (1.0.0 · build 300)");
    assert_eq!(app_title_with_build("1.0.0", None), "Flow (1.0.0 · build 0)");
    let plan = startup_plan(&s);
    assert!(!plan.show_settings && plan.register_hotkeys && plan.ensure_server);
    s.onboarding_completed = false;
    s.stt_preset = "openai".to_string();
    let plan = startup_plan(&s);
    assert!(plan.show_settings && !plan.register_hotkeys && !plan.ensure_server);
}

#[test]
fn the_microphone_is_tried_out() {
    let heard = || MicrophoneLevel::Heard { peak: "0.5000".to_string(), rms: "0.0100".to_string() };
    assert_eq!(
        test_microphone(0, heard()),
        "No samples captured. Check microphone permission in System Settings > Privacy & Security > Microphone."
    );
    assert_eq!(
        test_microphone(96_000, heard()),
        "Microphone working! (96000 samples, peak=0.5000, rms=0.0100)"
    );
    assert_eq!(
        test_microphone(10, MicrophoneLevel::Silent { peak: "0.000000".to_string() }),
        "No audio detected. 10 samples captured but all silent (peak=0.000000). Check mic permission or input device."
    );
    assert_eq!(
        check_capture(0, true).unwrap().raw_text,
        "No samples captured. Check microphone permission."
    );
    assert_eq!(
        check_capture(1, true).unwrap().raw_text,
        "No audio detected. Speak louder or check mic settings."
    );
    assert!(check_capture(1, false).is_none());
    assert_eq!(failure_text(SttTestPart::Microphone, "x"), "Microphone error: x");
    assert_eq!(failure_text(SttTestPart::Encoding, "x"), "WAV encode error: x");
    assert_eq!(failure_text(SttTestPart::Transcription, "x"), "STT error: x");
}

fn asked(step: SttTestStep) -> String {
    match step {
        SttTestStep::Ask(effect) => format!("{effect:?}"),
        other => format!("{other:?}"),
    }
}

fn shown(step: SttTestStep) -> (String, Option<String>) {
    match step {
        SttTestStep::Done(result) => (result.raw_text, result.processed_text),
        other => panic!("not done: {other:?}"),
    }
}

#[test]
fn a_trial_follows_the_dictation() {
    let (mut t, first) = SttTest::begin(settings(), true);
    assert!(matches!(first, Effect::Transcribe(Some(code)) if code == "ja"));
    assert_eq!(
        asked(t.step(SttTestEvent::Transcribed("えーと明日".to_string()))),
        "StripFillers(\"えーと明日\")"
    );
    assert_eq!(
        asked(t.step(SttTestEvent::FillersStripped("明日".to_string()))),
        "PostProcess { text: \"明日\", language: \"ja\", remove_fillers: true }"
    );
    assert_eq!(
        asked(t.step(SttTestEvent::PostProcessed("明日。".to_string()))),
        "ApplyReplacements(\"明日。\")"
    );
    assert_eq!(
        shown(t.step(SttTestEvent::Replaced("あす。".to_string()))),
        ("えーと明日".to_string(), Some("あす。".to_string()))
    );
    assert!(matches!(t.phase, SttTestPhase::Finished));
    assert!(matches!(t.step(SttTestEvent::Replaced("x".to_string())), SttTestStep::Wait));
}

#[test]
fn a_trial_shows_what_there_is() {
    let (mut t, _) = SttTest::begin(settings(), false);
    assert_eq!(
        shown(t.step(SttTestEvent::Transcribed(" ".to_string()))),
        ("Audio captured but STT returned empty text.".to_string(), None)
    );

    let (mut t, _) = SttTest::begin(settings(), false);
    t.step(SttTestEvent::Transcribed("えーと".to_string()));
    assert_eq!(
        shown(t.step(SttTestEvent::FillersStripped("".to_string()))),
        ("えーと".to_string(), Some(String::new()))
    );

    // Without fillers, language model and replacements there is nothing more to show.
    let (mut t, _) = SttTest::begin(settings(), false);
    t.step(SttTestEvent::Transcribed("明日".to_string()));
    t.step(SttTestEvent::FillersStripped("明日".to_string()));
    assert_eq!(
        shown(t.step(SttTestEvent::Replaced("明日".to_string()))),
        ("明日".to_string(), None)
    );

    // What is left without the fillers is shown.
    let (mut t, _) = SttTest::begin(settings(), false);
    t.step(SttTestEvent::Transcribed("あの明日".to_string()));
    t.step(SttTestEvent::FillersStripped("明日".to_string()));
    assert_eq!(
        shown(t.step(SttTestEvent::Replaced("明日".to_string()))),
        ("あの明日".to_string(), Some("明日".to_string()))
    );

    // A language model that fails is shown as such.
    let mut s = settings();
    s.remove_fillers = false;
    let (mut t, _) = SttTest::begin(s, true);
    t.step(SttTestEvent::Transcribed("明日".to_string()));
    let error = "(LLM error: timeout)".to_string();
    assert_eq!(
        asked(t.step(SttTestEvent::PostProcessingFailed("timeout".to_string()))),
        format!("ApplyReplacements({error:?})")
    );
    assert_eq!(
        shown(t.step(SttTestEvent::Replaced(error.clone()))),
        ("明日".to_string(), Some(error))
    );
}
