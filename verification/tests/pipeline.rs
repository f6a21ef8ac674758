use flow::effect::Effect;
use flow::pipeline::{
    handle_recording_complete, recording_duration_ms, Pipeline, PipelineEvent, PipelinePhase,
};
use flow::settings::{language_code, AppSettings, LanguageMode, LocalSttServer};

fn settings() -> AppSettings {
    AppSettings {
        hotkey_key: "f5".to_string(),
        activation_mode: "push_to_talk".to_string(),
        double_tap_ms: 300,
        mode_hotkeys: vec![],
        history_enabled: true,
        history_retention_days: 30,
        language_mode: LanguageMode::Japanese,
        primary_language: "fr".to_string(),
        min_recording_ms: 300,
        remove_fillers: true,
        auto_paste: true,
        replace_selection: false,
        stt_preset: "local_whisper".to_string(),
        local_stt_server: LocalSttServer {
            host: "127.0.0.1".to_string(),
            port: 8787,
            model: "small".to_string(),
            python_path: "/opt/py".to_string(),
        },
        ui_language: "en".to_string(),
        onboarding_completed: true,
        onboarding_step: 0,
    }
}

fn names(effects: &[Effect]) -> Vec<String> {
    effects.iter().map(|e| format!("{e:?}")).collect()
}

const IDLE: &str = "RecordingState(RecordingStateEvent { state: \"idle\" })";
const PROCESSING: &str = "RecordingState(RecordingStateEvent { state: \"processing\" })";

fn torn_down(effects: &[Effect]) -> bool {
    names(effects) == vec!["RestoreClipboard", "HideOverlay", IDLE]
}

fn begun(settings: AppSettings, runs_llm: bool) -> Pipeline {
    let (pipeline, effects) = handle_recording_complete(48_000, 48_000, 1, settings, runs_llm);
    assert_eq!(names(&effects), vec!["MeasureLevel"]);
    pipeline
}

fn transcribing(settings: AppSettings, runs_llm: bool) -> Pipeline {
    let mut p = begun(settings, runs_llm);
    assert_eq!(
        names(&p.step(PipelineEvent::LevelMeasured { silent: false })),
        vec![PROCESSING, "EncodeAudio"]
    );
    assert_eq!(p.step(PipelineEvent::AudioEncoded).len(), 1);
    p
}

#[test]
fn duration_accounts_for_interleaved_channels() {
    // 48kHz stereo: 96000 samples is one second of audio, not two.
    assert_eq!(recording_duration_ms(96_000, 48_000, 2), Some(1000));
    assert_eq!(recording_duration_ms(48_000, 48_000, 1), Some(1000));
    assert_eq!(recording_duration_ms(12_000, 48_000, 2), Some(125));
    // A malformed config yields "unknown", not "0ms", so the minimum-length
    // guard skips instead of discarding every recording.
    assert_eq!(recording_duration_ms(1_000, 0, 2), None);
}

#[test]
fn duration_is_rounded_down() {
    assert_eq!(recording_duration_ms(0, 48_000, 1), Some(0));
    assert_eq!(recording_duration_ms(usize::MAX, 0, 0), None);
    assert_eq!(recording_duration_ms(47, 48_000, 1), Some(0));
    assert_eq!(recording_duration_ms(48, 48_000, 1), Some(1));
    assert_eq!(recording_duration_ms(44_100 * 7, 44_100, 0), Some(7000));
    assert_eq!(recording_duration_ms(usize::MAX / 1000, u32::MAX, u16::MAX), Some(65_537));
}

#[test]
fn empty_and_short_recordings_are_dropped() {
    let (p, effects) = handle_recording_complete(0, 48_000, 1, settings(), true);
    assert!(torn_down(&effects) && matches!(p.phase, PipelinePhase::Finished));
    let (p, effects) = handle_recording_complete(48 * 299, 48_000, 1, settings(), true);
    assert!(torn_down(&effects) && matches!(p.phase, PipelinePhase::Finished));
    let (p, effects) = handle_recording_complete(48 * 300, 48_000, 1, settings(), true);
    assert_eq!(names(&effects), vec!["MeasureLevel"]);
    assert!(matches!(p.phase, PipelinePhase::Measuring));
    // Of a recording whose length is unknown nothing is too short.
    let (_, effects) = handle_recording_complete(1, 0, 1, settings(), true);
    assert_eq!(names(&effects), vec!["MeasureLevel"]);
    // Nor where no length is asked for.
    let mut s = settings();
    s.min_recording_ms = 0;
    let (_, effects) = handle_recording_complete(1, 48_000, 1, s, true);
    assert_eq!(names(&effects), vec!["MeasureLevel"]);
}

#[test]
fn silence_is_dropped() {
    let mut p = begun(settings(), true);
    assert!(torn_down(&p.step(PipelineEvent::LevelMeasured { silent: true })));
    assert!(p.step(PipelineEvent::AudioEncoded).is_empty());
    assert!(p.step(PipelineEvent::Transcribed("hello".to_string())).is_empty());
}

#[test]
fn failures_are_told_and_cleaned_up() {
    let failure = |reason: &str| {
        vec![
            "RestoreClipboard".to_string(),
            format!("Error(ErrorEvent {{ message: \"{reason}\" }})"),
            IDLE.to_string(),
            "ConcealOverlay".to_string(),
        ]
    };
    let mut p = begun(settings(), true);
    p.step(PipelineEvent::LevelMeasured { silent: false });
    assert_eq!(names(&p.step(PipelineEvent::AudioFailed("a".to_string()))), failure("a"));

    let mut p = transcribing(settings(), true);
    let effects = p.step(PipelineEvent::TranscriptionFailed("b".to_string()));
    assert_eq!(names(&effects), failure("b"));

    let mut s = settings();
    s.remove_fillers = false;
    let mut p = transcribing(s, false);
    p.step(PipelineEvent::Transcribed("hello there".to_string()));
    p.step(PipelineEvent::Replaced("hello there".to_string()));
    assert_eq!(names(&p.step(PipelineEvent::PasteFailed("c".to_string()))), failure("c"));
    assert!(matches!(p.phase, PipelinePhase::Finished));
}

#[test]
fn made_up_and_empty_texts_are_dropped() {
    let mut p = transcribing(settings(), true);
    let effects = p.step(PipelineEvent::Transcribed("ご視聴ありがとうございました。".to_string()));
    assert!(torn_down(&effects));
    assert!(p.step(PipelineEvent::FillersStripped("x".to_string())).is_empty());

    let mut p = transcribing(settings(), true);
    let effects = p.step(PipelineEvent::Transcribed("えーと".to_string()));
    assert_eq!(names(&effects), vec!["StripFillers(\"えーと\")"]);
    assert!(torn_down(&p.step(PipelineEvent::FillersStripped(" \u{3000}".to_string()))));
}

#[test]
fn a_dictation_takes_every_step_in_order() {
    let mut p = begun(settings(), true);
    let mut all = Vec::new();
    for event in [
        PipelineEvent::LevelMeasured { silent: false },
        PipelineEvent::AudioEncoded,
        PipelineEvent::Transcribed("えーと明日です".to_string()),
        PipelineEvent::FillersStripped("明日です".to_string()),
        PipelineEvent::PostProcessed("明日です。".to_string()),
        PipelineEvent::Replaced("あすです。".to_string()),
        PipelineEvent::Pasted,
        PipelineEvent::HistorySaved,
    ] {
        all.extend(names(&p.step(event)));
    }
    let result = "{ text: \"あすです。\", raw_text: \"えーと明日です\", language: \"ja\"";
    assert_eq!(
        all,
        vec![
            PROCESSING.to_string(),
            "EncodeAudio".to_string(),
            "Transcribe(Some(\"ja\"))".to_string(),
            "StripFillers(\"えーと明日です\")".to_string(),
            "PostProcess { text: \"明日です\", language: \"ja\", remove_fillers: true }".to_string(),
            "ApplyReplacements(\"明日です。\")".to_string(),
            "Paste(\"あすです。\")".to_string(),
            "MarkPasteUndoable".to_string(),
            "RestoreClipboard".to_string(),
            "ResizeOverlay".to_string(),
            format!("TranscriptionResult(TranscriptionResultEvent {result} }})"),
            format!("SaveHistory(HistoryRecord {result}, retention_days: 30 }})"),
            "HistoryUpdated".to_string(),
            "RebuildTray".to_string(),
            IDLE.to_string(),
            "HideOverlayAfter(2000)".to_string(),
        ]
    );
    assert!(matches!(p.phase, PipelinePhase::Finished));
}

#[test]
fn a_dictation_does_without_what_is_switched_off() {
    let mut s = settings();
    s.remove_fillers = false;
    s.auto_paste = false;
    s.history_enabled = false;
    s.language_mode = LanguageMode::Auto;
    let mut p = begun(s.clone(), false);
    p.step(PipelineEvent::LevelMeasured { silent: false });
    assert_eq!(names(&p.step(PipelineEvent::AudioEncoded)), vec!["Transcribe(None)"]);
    let effects = p.step(PipelineEvent::Transcribed(" bonjour ".to_string()));
    assert_eq!(names(&effects), vec!["ApplyReplacements(\" bonjour \")"]);
    let effects = names(&p.step(PipelineEvent::Replaced("salut".to_string())));
    assert_eq!(effects.len(), 5);
    assert_eq!(effects[0], "RestoreClipboard");
    assert!(effects[2].contains("language: \"auto\"") && effects[2].contains("\" bonjour \""));
    assert_eq!(effects[3], IDLE);

    // Replacing the selection takes a paste, and the text goes to the language model in the
    // primary language.
    s.replace_selection = true;
    let mut p = transcribing(s, true);
    let effects = p.step(PipelineEvent::Transcribed("bonjour".to_string()));
    assert_eq!(
        names(&effects),
        vec!["PostProcess { text: \"bonjour\", language: \"fr\", remove_fillers: false }"]
    );
    let effects = p.step(PipelineEvent::PostProcessingFailed);
    assert_eq!(names(&effects), vec!["ApplyReplacements(\"bonjour\")"]);
    let effects = p.step(PipelineEvent::Replaced("bonjour".to_string()));
    assert_eq!(names(&effects), vec!["Paste(\"bonjour\")"]);
}

#[test]
fn an_unsaved_dictation_is_still_shown() {
    let mut p = transcribing(settings(), false);
    p.step(PipelineEvent::Transcribed("さて".to_string()));
    p.step(PipelineEvent::FillersStripped("さて".to_string()));
    p.step(PipelineEvent::Replaced("さて".to_string()));
    p.step(PipelineEvent::Pasted);
    assert_eq!(
        names(&p.step(PipelineEvent::HistoryFailed)),
        vec![IDLE, "HideOverlayAfter(2000)"]
    );
}

#[test]
fn languages_have_codes() {
    assert_eq!(language_code(LanguageMode::Japanese), Some("ja".to_string()));
    assert_eq!(language_code(LanguageMode::English), Some("en".to_string()));
    assert_eq!(language_code(LanguageMode::Auto), None);
}
