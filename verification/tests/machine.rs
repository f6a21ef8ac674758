use flow::models::{
    cancelled_event, check_downloaded_models, download_failure_text, download_script,
    model_directories, next_setup_step, parse_progress_line, progress_event, setup_local_whisper,
    DownloadFault, SetupEffect, SetupEvent, SetupPhase,
};
use flow::permissions::{
    check_hotkey_permissions, check_permissions, escape, notification_script,
    notify_permission_change, open_system_preferences, read_hotkey_permission_flags,
    PermissionChange,
};
use flow::search::{
    find_python, find_script, next_python_place, next_script_place, Probe, PythonPlace,
    PythonStep, ScriptPlace, ScriptStep,
};
use flow::server::{
    ensure_stt_server, free_port_command, health_url, stop_failure_text, ServerEvent, ServerStart,
    ServerStep,
};
use flow::settings::{AppSettings, LanguageMode, LocalSttServer};
use flow::state::AppState;

fn settings() -> AppSettings {
    AppSettings {
        hotkey_key: "f5".to_string(),
        activation_mode: "push_to_talk".to_string(),
        double_tap_ms: 300,
        mode_hotkeys: vec![],
        history_enabled: true,
        history_retention_days: 30,
        language_mode: LanguageMode::Japanese,
        primary_language: "fr".to_string(),
        min_recording_ms: 300,
        remove_fillers: true,
        auto_paste: true,
        replace_selection: false,
        stt_preset: "local_whisper".to_string(),
        local_stt_server: LocalSttServer {
            host: "127.0.0.1".to_string(),
            port: 8787,
            model: "small".to_string(),
            python_path: "/opt/py".to_string(),
        },
        ui_language: "en".to_string(),
        onboarding_completed: true,
        onboarding_step: 0,
    }
}

fn asked(step: &ServerStep) -> Vec<String> {
    match step {
        ServerStep::Ask(effects) => effects.iter().map(|e| format!("{e:?}")).collect(),
        other => vec![format!("{other:?}")],
    }
}

fn failed(step: ServerStep) -> String {
    match step {
        ServerStep::Failed(message) => message,
        other => panic!("not failed: {other:?}"),
    }
}

#[test]
fn server_texts() {
    assert_eq!(health_url("localhost", 8000), "http://localhost:8000/health");
    assert_eq!(health_url("", 0), "http://:0/health");
    assert_eq!(free_port_command(65535), "lsof -ti:65535 | xargs kill -9 2>/dev/null");
    assert_eq!(stop_failure_text("gone"), "Failed to stop server: gone");
}

#[test]
fn a_server_that_is_up_is_left_alone() {
    let (_, step) = ensure_stt_server(true, &settings());
    assert!(matches!(step, ServerStep::AlreadyUp));
    let (start, step) = ensure_stt_server(false, &settings());
    assert_eq!(asked(&step), vec!["Probe(\"http://127.0.0.1:8787/health\")"]);
    let (start, step) = start.step(ServerEvent::Health(true));
    assert!(matches!(step, ServerStep::AlreadyUp));
    let (_, step) = start.step(ServerEvent::Health(false));
    assert!(matches!(step, ServerStep::Wait));
}

fn server_down() -> ServerStart {
    let (start, _) = ensure_stt_server(false, &settings());
    let (start, step) = start.step(ServerEvent::Health(false));
    assert_eq!(
        asked(&step),
        vec![
            "RunShell(\"lsof -ti:8787 | xargs kill -9 2>/dev/null\")",
            "Pause(400)",
            "ReadSettings"
        ]
    );
    let mut server = settings().local_stt_server;
    server.port = 9000;
    let (start, step) = start.step(ServerEvent::Settings(server));
    assert_eq!(asked(&step), vec!["LocateScript(\"stt-server.py\")"]);
    start
}

fn server_spawned() -> ServerStart {
    let (start, step) = server_down().step(ServerEvent::ScriptFound);
    assert_eq!(
        asked(&step),
        vec![
            "Spawn { python_path: \"/opt/py\", args: [\"--model\", \"small\", \"--port\", \"9000\", \"--host\", \"127.0.0.1\"] }"
        ]
    );
    let (start, step) = start.step(ServerEvent::Spawned);
    assert_eq!(asked(&step), vec!["Pause(500)", "CheckProcess"]);
    start
}

#[test]
fn a_server_that_is_down_is_started() {
    let (_, step) = server_spawned().step(ServerEvent::Running);
    assert!(matches!(step, ServerStep::Started));
}

#[test]
fn a_server_can_fail_to_start() {
    let missing = ServerEvent::ScriptMissing("stt-server.py not found".to_string());
    assert_eq!(failed(server_down().step(missing).1), "stt-server.py not found");
    let (start, _) = server_down().step(ServerEvent::ScriptFound);
    let (_, step) = start.step(ServerEvent::SpawnFailed("denied".to_string()));
    assert_eq!(failed(step), "Failed to spawn server: denied");
    let (_, step) = server_spawned().step(ServerEvent::CheckFailed("lost".to_string()));
    assert_eq!(failed(step), "Failed to check server status: lost");
    let (_, step) = server_spawned().step(ServerEvent::Exited {
        status: "exit status: 1".to_string(),
        python: "\"python3\"".to_string(),
        script: "\"s.py\"".to_string(),
        stderr: "\n oops \n".to_string(),
    });
    assert_eq!(
        failed(step),
        "Server exited immediately (code: exit status: 1). Python: \"python3\", Script: \"s.py\"\noops"
    );
}

fn script_from(present: &[ScriptPlace]) -> Result<ScriptPlace, String> {
    let mut step = find_script();
    loop {
        match step {
            ScriptStep::Look(place) => {
                let probe = if present.contains(&place) { Probe::Present } else { Probe::Missing };
                step = next_script_place(place, probe, "x.py");
            }
            ScriptStep::Found(place) => return Ok(place),
            ScriptStep::NotFound(message) => return Err(message),
        }
    }
}

#[test]
fn a_script_is_found_in_the_first_place() {
    assert_eq!(script_from(&[ScriptPlace::WorkingDir, ScriptPlace::Resources]), Ok(ScriptPlace::Resources));
    assert_eq!(script_from(&[ScriptPlace::WorkingDir, ScriptPlace::Executable]), Ok(ScriptPlace::Executable));
    assert_eq!(script_from(&[ScriptPlace::WorkingDir]), Ok(ScriptPlace::WorkingDir));
    assert_eq!(script_from(&[]), Err("x.py not found".to_string()));
}

fn python_from(configured: &str, depth: usize, present: &[PythonPlace]) -> PythonPlace {
    let mut step = find_python(configured);
    loop {
        match step {
            PythonStep::Look(place) => {
                let probe = match place {
                    PythonPlace::Above(n) if n >= depth => Probe::NoPlace,
                    _ if present.contains(&place) => Probe::Present,
                    _ => Probe::Missing,
                };
                step = next_python_place(place, probe);
            }
            PythonStep::Found(place) => return place,
        }
    }
}

#[test]
fn python_is_found_in_the_first_place() {
    let all = [PythonPlace::WorkingDir, PythonPlace::Above(2), PythonPlace::AppSupport, PythonPlace::BesideScript, PythonPlace::Configured, PythonPlace::Above(1)];
    assert_eq!(python_from("/p", 3, &all), PythonPlace::Configured);
    assert_eq!(python_from("", 3, &all), PythonPlace::BesideScript);
    assert_eq!(python_from("/p", 3, &[PythonPlace::WorkingDir, PythonPlace::Above(2), PythonPlace::Above(1)]), PythonPlace::Above(1));
    assert_eq!(python_from("", 2, &[PythonPlace::WorkingDir, PythonPlace::Above(2)]), PythonPlace::WorkingDir);
    assert_eq!(python_from("", 0, &[PythonPlace::AppSupport]), PythonPlace::AppSupport);
    assert_eq!(python_from("", 4, &[]), PythonPlace::System);
    let last = next_python_place(PythonPlace::Above(usize::MAX), Probe::Missing);
    assert_eq!(last, PythonStep::Look(PythonPlace::WorkingDir));
}

#[test]
fn permissions_are_told_when_they_change() {
    let mut state = AppState::new();
    let mut told = Vec::new();
    for flags in [(true, false), (false, false), (true, true), (true, true), (false, true)] {
        let (event, change) =
            check_hotkey_permissions(&mut state, read_hotkey_permission_flags(flags.0, flags.1));
        assert_eq!((event.accessibility, event.input_monitoring), flags);
        assert_eq!(event.ok, flags.0 && flags.1);
        assert_eq!(state.last_hotkey_permission_ok, Some(event.ok));
        told.push(change);
    }
    assert_eq!(
        told,
        vec![
            PermissionChange::Lost,
            PermissionChange::Unchanged,
            PermissionChange::Recovered,
            PermissionChange::Unchanged,
            PermissionChange::Lost,
        ]
    );
    let mut state = AppState::new();
    assert_eq!(check_hotkey_permissions(&mut state, (true, true)).1, PermissionChange::Unchanged);
}

#[test]
fn notifications_are_quoted() {
    assert_eq!(escape("a\"b\\c"), "a\\\"b\\\\c");
    assert_eq!(
        notification_script("T\"", "b\\"),
        "display notification \"b\\\\\" with title \"T\\\"\""
    );
    assert_eq!(
        notify_permission_change(true, "en"),
        "display notification \"Permissions restored — hotkey re-registered.\" with title \"Flow\""
    );
    assert!(notify_permission_change(true, "ja").contains("権限が復旧しました。"));
    assert!(notify_permission_change(false, "en").contains("permission is missing."));
    assert!(notify_permission_change(false, "").contains("権限がありません。"));
}

#[test]
fn pages_and_permissions() {
    let page = "x-apple.systempreferences:com.apple.preference.security?Privacy_";
    for (pane, name) in [
        ("accessibility", "Accessibility"),
        ("input_monitoring", "ListenEvent"),
        ("microphone", "Microphone"),
    ] {
        assert_eq!(open_system_preferences(pane), Ok(format!("{page}{name}")));
    }
    assert_eq!(open_system_preferences("camera"), Err("Unknown pane: camera".to_string()));
    let granted = check_permissions(true, Some(" authorized\n".to_string()), false);
    assert!(granted.accessibility && granted.microphone && !granted.input_monitoring);
    assert!(!check_permissions(true, Some("not_authorized".to_string()), true).microphone);
    assert!(!check_permissions(true, None, true).microphone);
}

#[test]
fn models_are_listed() {
    assert_eq!(model_directories().len(), 5);
    assert_eq!(model_directories()[4], "models--Systran--faster-whisper-large-v3");
    let found = check_downloaded_models(&vec![true, false, false, true, true]);
    assert_eq!(found, vec!["tiny", "medium", "large-v3"]);
    assert_eq!(check_downloaded_models(&vec![false, true]), vec!["base"]);
    assert!(check_downloaded_models(&vec![]).is_empty());
}

#[test]
fn progress_lines_are_read() {
    let e = parse_progress_line(r#"{"status": "done", "progress": 100, "message": "ok あ"}"#);
    let e = e.unwrap();
    assert_eq!((e.status.as_str(), e.progress, e.message.as_str()), ("done", 100, "ok あ"));
    for line in ["{}", "[1, 2]", "null", r#"{"status": 1, "progress": -1, "message": null}"#] {
        let e = parse_progress_line(line).unwrap();
        assert_eq!((e.status.as_str(), e.progress, e.message.as_str()), ("downloading", 0, ""));
    }
    let e = parse_progress_line(r#"{"progress": 4294967298, "status": "a", "status": "b"}"#);
    let e = e.unwrap();
    assert_eq!((e.status.as_str(), e.progress), ("b", 2));
    for line in ["", "{", "downloading", "{} x"] {
        assert!(parse_progress_line(line).is_none(), "{line}");
    }
    let e = progress_event(None, Some(7), Some("m".to_string()));
    assert_eq!((e.status.as_str(), e.progress, e.message.as_str()), ("downloading", 7, "m"));
    let e = cancelled_event();
    assert_eq!(
        (e.status.as_str(), e.progress, e.message.as_str()),
        ("cancelled", 0, "Download cancelled")
    );
}

#[test]
fn downloads_can_fail() {
    assert_eq!(download_script(true), Err("A download is already in progress".to_string()));
    assert_eq!(download_script(false), Ok("download-model.py".to_string()));
    let start = DownloadFault::Start("x".to_string());
    assert_eq!(download_failure_text(start), "Failed to start download: x");
    let cancel = DownloadFault::Cancel("x".to_string());
    assert_eq!(download_failure_text(cancel), "Failed to cancel: x");
    assert_eq!(download_failure_text(DownloadFault::NoOutput), "No stdout");
}

fn setup_names(effects: &[SetupEffect]) -> Vec<String> {
    effects
        .iter()
        .map(|e| match e {
            SetupEffect::Progress(p) => format!("{}: {}", p.step, p.message),
            other => format!("{other:?}"),
        })
        .collect()
}

#[test]
fn the_set_up_goes_step_by_step() {
    let (phase, effects) = setup_local_whisper("/a/venv");
    assert_eq!(
        setup_names(&effects),
        vec![
            "venv: Creating Python virtual environment...",
            "MakeVenv([\"-m\", \"venv\", \"/a/venv\"])"
        ]
    );
    let (phase, step) = next_setup_step(phase, SetupEvent::Succeeded, "/a/py");
    assert_eq!(
        setup_names(&step.effects),
        vec![
            "pip: Installing dependencies (this may take a few minutes)...",
            "RunPip([\"install\", \"faster-whisper>=1.1,<2\", \"uvicorn\", \"fastapi\", \"python-multipart\", \"huggingface_hub\"])"
        ]
    );
    assert_eq!(step.result, None);
    let (phase, step) = next_setup_step(phase, SetupEvent::Succeeded, "/a/py");
    assert_eq!(
        setup_names(&step.effects),
        vec![
            "UseModel { python_path: \"/a/py\", model: \"base\" }",
            "done: Environment setup complete!"
        ]
    );
    assert_eq!(step.result, Some(Ok(())));
    let (_, step) = next_setup_step(phase, SetupEvent::Succeeded, "/a/py");
    assert!(step.effects.is_empty() && step.result.is_none());
}

#[test]
fn the_set_up_can_fail() {
    for (phase, event, effects, message) in [
        (SetupPhase::MakingVenv, SetupEvent::NotRun("x".to_string()), vec![], "Failed to run python3: x"),
        (
            SetupPhase::MakingVenv,
            SetupEvent::Failed("x".to_string()),
            vec!["error: venv creation failed: x"],
            "venv creation failed: x",
        ),
        (SetupPhase::Installing, SetupEvent::NotRun("x".to_string()), vec![], "Failed to run pip: x"),
        (
            SetupPhase::Installing,
            SetupEvent::Failed("x".to_string()),
            vec!["error: pip install failed: x"],
            "pip install failed: x",
        ),
    ] {
        let (phase, step) = next_setup_step(phase, event, "/a/py");
        assert_eq!(phase, SetupPhase::Finished);
        assert_eq!(setup_names(&step.effects), effects);
        assert_eq!(step.result, Some(Err(message.to_string())));
    }
}
