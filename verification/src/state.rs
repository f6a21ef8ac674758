//! What the parts of the app share while it runs.
use vstd::prelude::*;

verus! {

/// The state that the parts of the app share.
#[derive(Debug, Clone)]
pub struct AppState {
    /// The hotkeys are registered.
    pub hotkeys_initialized: bool,
    /// The hotkey is being tried out: it is reported and starts nothing.
    pub hotkey_test_mode: bool,
    /// Clipboard text to put back after the selection was replaced.
    pub clipboard_backup: Option<String>,
    /// A recording was started and neither stopped nor cancelled.
    pub recording_session: bool,
    /// The user cancelled; a start that is under way sees this and gives up.
    pub cancel_requested: bool,
    /// The number of the shortcut that records, unless an event tap does.
    pub record_shortcut: Option<u32>,
    /// The numbers of the shortcuts that switch the mode, each with its mode.
    pub mode_shortcuts: Vec<(u32, String)>,
    /// The last paste can be taken back.
    pub paste_undoable: bool,
    /// Whether the hotkey had its permissions when they were last looked at.
    pub last_hotkey_permission_ok: Option<bool>,
    /// The permissions are being watched.
    pub permission_monitor_started: bool,
}

impl AppState {
    /// The state of an app that has just been started.
    pub fn new() -> (r: AppState)
        ensures
            !r.hotkeys_initialized,
            !r.hotkey_test_mode,
            r.clipboard_backup is None,
            !r.recording_session,
            !r.cancel_requested,
            r.record_shortcut is None,
            r.mode_shortcuts@.len() == 0,
            !r.paste_undoable,
            r.last_hotkey_permission_ok is None,
            !r.permission_monitor_started,
    {
        AppState {
            hotkeys_initialized: false,
            hotkey_test_mode: false,
            clipboard_backup: None,
            recording_session: false,
            cancel_requested: false,
            record_shortcut: None,
            mode_shortcuts: Vec::new(),
            paste_undoable: false,
            last_hotkey_permission_ok: None,
            permission_monitor_started: false,
        }
    }
}

/// Takes the clipboard text that was set aside, to be put back; a second call finds none.
pub fn restore_clipboard_backup(state: &mut AppState) -> (r: Option<String>)
    ensures
        r == old(state).clipboard_backup,
        *final(state) == (AppState { clipboard_backup: None, ..*old(state) }),
{
    state.clipboard_backup.take()
}

} // verus!
