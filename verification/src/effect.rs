//! What a decision asks to be done.
use crate::events::{ErrorEvent, RecordingStateEvent, Transcription, TranscriptionResultEvent};
use vstd::prelude::*;

verus! {

/// A dictation to be kept in the history.
#[derive(Debug, Clone)]
pub struct HistoryRecord {
    pub text: String,
    pub raw_text: String,
    pub language: String,
    pub retention_days: u32,
}

/// One thing to do. A list of them is carried out in order.
#[derive(Debug, Clone)]
pub enum Effect {
    /// Tell the windows that the hotkey was seen.
    HotkeyDetected(String),
    /// Tell the windows the state of the recorder.
    RecordingState(RecordingStateEvent),
    /// Tell the windows the outcome of a dictation.
    TranscriptionResult(TranscriptionResultEvent),
    /// Tell the windows of an error.
    Error(ErrorEvent),
    /// Put back the clipboard text that was set aside, if there is any.
    RestoreClipboard,
    /// Show the overlay at the bottom of the screen.
    ShowOverlay,
    /// Hide the overlay.
    ConcealOverlay,
    /// Hide the overlay and give it back its usual size.
    HideOverlay,
    /// After so many milliseconds, hide the overlay and give it back its usual size.
    HideOverlayAfter(u64),
    /// Make the overlay wide enough for a result.
    ResizeOverlay,
    /// Wait for so many milliseconds.
    Pause(u64),
    /// Ask the local speech server at this address whether it is up.
    ProbeServer(String),
    /// Start the local speech server unless it is up.
    EnsureServer,
    /// Leave the hotkey and go on in a task of its own.
    EnterTask,
    /// Go on in the main thread, which alone can copy and paste.
    EnterMainThread,
    /// Copy the selected text, and report what the clipboard held before.
    CaptureSelection,
    /// Start the recorder.
    StartRecorder,
    /// Stop the recorder and take what it captured.
    StopRecorder,
    /// Stop the recorder and throw away what it captured.
    CancelRecorder,
    /// The same, if the recorder is running.
    CancelRecorderIfRunning,
    /// Tell the hotkey detector that the recording is over.
    CancelDetector,
    /// Report the level of the recording to the windows as long as it runs.
    StartLevelMeter,
    /// Tell whether the recording is silent.
    MeasureLevel,
    /// Encode the recording as a WAV file.
    EncodeAudio,
    /// Have the speech model transcribe the recording, expecting this language.
    Transcribe(Option<String>),
    /// Take the filler words out of this text.
    StripFillers(String),
    /// Have the language model work on the text, which is in this language. Its instructions
    /// depend on whether the fillers are removed.
    PostProcess { text: String, language: String, remove_fillers: bool },
    /// Apply the replacements of the settings to this text.
    ApplyReplacements(String),
    /// Copy this text and paste it.
    Paste(String),
    /// Let the user take back the paste.
    MarkPasteUndoable,
    /// Keep a dictation in the history.
    SaveHistory(HistoryRecord),
    /// Tell the windows that the history changed.
    HistoryUpdated,
    /// Build the menu in the tray anew.
    RebuildTray,
}

/// What an [`Effect`] says.
pub ghost enum Deed {
    HotkeyDetected(Seq<char>),
    RecordingState(Seq<char>),
    TranscriptionResult(Transcription),
    Error(Seq<char>),
    RestoreClipboard,
    ShowOverlay,
    ConcealOverlay,
    HideOverlay,
    HideOverlayAfter(u64),
    ResizeOverlay,
    Pause(u64),
    ProbeServer(Seq<char>),
    EnsureServer,
    EnterTask,
    EnterMainThread,
    CaptureSelection,
    StartRecorder,
    StopRecorder,
    CancelRecorder,
    CancelRecorderIfRunning,
    CancelDetector,
    StartLevelMeter,
    MeasureLevel,
    EncodeAudio,
    Transcribe(Option<Seq<char>>),
    StripFillers(Seq<char>),
    PostProcess { text: Seq<char>, language: Seq<char>, remove_fillers: bool },
    ApplyReplacements(Seq<char>),
    Paste(Seq<char>),
    MarkPasteUndoable,
    SaveHistory { what: Transcription, retention_days: u32 },
    HistoryUpdated,
    RebuildTray,
}

impl DeepView for Effect {
    type V = Deed;

    open spec fn deep_view(&self) -> Deed {
        match self {
            Effect::HotkeyDetected(s) => Deed::HotkeyDetected(s@),
            Effect::RecordingState(e) => Deed::RecordingState(e.deep_view()),
            Effect::TranscriptionResult(e) => Deed::TranscriptionResult(e.deep_view()),
            Effect::Error(e) => Deed::Error(e.deep_view()),
            Effect::RestoreClipboard => Deed::RestoreClipboard,
            Effect::ShowOverlay => Deed::ShowOverlay,
            Effect::ConcealOverlay => Deed::ConcealOverlay,
            Effect::HideOverlay => Deed::HideOverlay,
            Effect::HideOverlayAfter(ms) => Deed::HideOverlayAfter(*ms),
            Effect::ResizeOverlay => Deed::ResizeOverlay,
            Effect::Pause(ms) => Deed::Pause(*ms),
            Effect::ProbeServer(url) => Deed::ProbeServer(url@),
            Effect::EnsureServer => Deed::EnsureServer,
            Effect::EnterTask => Deed::EnterTask,
            Effect::EnterMainThread => Deed::EnterMainThread,
            Effect::CaptureSelection => Deed::CaptureSelection,
            Effect::StartRecorder => Deed::StartRecorder,
            Effect::StopRecorder => Deed::StopRecorder,
            Effect::CancelRecorder => Deed::CancelRecorder,
            Effect::CancelRecorderIfRunning => Deed::CancelRecorderIfRunning,
            Effect::CancelDetector => Deed::CancelDetector,
            Effect::StartLevelMeter => Deed::StartLevelMeter,
            Effect::MeasureLevel => Deed::MeasureLevel,
            Effect::EncodeAudio => Deed::EncodeAudio,
            Effect::Transcribe(language) => Deed::Transcribe(language.deep_view()),
            Effect::StripFillers(text) => Deed::StripFillers(text@),
            Effect::PostProcess { text, language, remove_fillers } => Deed::PostProcess {
                text: text@,
                language: language@,
                remove_fillers: *remove_fillers,
            },
            Effect::ApplyReplacements(text) => Deed::ApplyReplacements(text@),
            Effect::Paste(text) => Deed::Paste(text@),
            Effect::MarkPasteUndoable => Deed::MarkPasteUndoable,
            Effect::SaveHistory(h) => Deed::SaveHistory {
                what: Transcription { text: h.text@, raw_text: h.raw_text@, language: h.language@ },
                retention_days: h.retention_days,
            },
            Effect::HistoryUpdated => Deed::HistoryUpdated,
            Effect::RebuildTray => Deed::RebuildTray,
        }
    }
}

/// Tells the windows that the recorder is idle.
pub fn idle_effect() -> (r: Effect)
    ensures
        r.deep_view() == Deed::RecordingState("idle"@),
{
    recording_state_effect("idle")
}

/// Tells the windows the state of the recorder.
pub fn recording_state_effect(state: &str) -> (r: Effect)
    ensures
        r.deep_view() == Deed::RecordingState(state@),
{
    Effect::RecordingState(RecordingStateEvent { state: state.to_owned() })
}

/// Tells the windows of an error.
pub fn error_effect(message: String) -> (r: Effect)
    ensures
        r.deep_view() == Deed::Error(message@),
{
    Effect::Error(ErrorEvent { message })
}

/// Whether the overlay is left on the screen by `deeds`, given whether it was there before.
pub open spec fn overlay_after(deeds: Seq<Deed>, before: bool) -> bool
    decreases deeds.len(),
{
    if deeds.len() == 0 {
        before
    } else {
        match deeds.last() {
            Deed::ShowOverlay => true,
            Deed::ConcealOverlay => false,
            Deed::HideOverlay => false,
            Deed::HideOverlayAfter(_) => false,
            _ => overlay_after(deeds.drop_last(), before),
        }
    }
}

/// The state of the recorder that the windows know after `deeds`, given the one before.
pub open spec fn state_after(deeds: Seq<Deed>, before: Seq<char>) -> Seq<char>
    decreases deeds.len(),
{
    if deeds.len() == 0 {
        before
    } else {
        match deeds.last() {
            Deed::RecordingState(state) => state,
            _ => state_after(deeds.drop_last(), before),
        }
    }
}

/// What two lists of deeds leave behind is what the second leaves behind after the first.
pub proof fn lemma_after_concat(a: Seq<Deed>, b: Seq<Deed>, shown: bool, state: Seq<char>)
    ensures
        overlay_after(a + b, shown) == overlay_after(b, overlay_after(a, shown)),
        state_after(a + b, state) == state_after(b, state_after(a, state)),
    decreases b.len(),
{
    if b.len() == 0 {
        assert(a + b =~= a);
    } else {
        assert((a + b).drop_last() =~= a + b.drop_last());
        assert((a + b).last() == b.last());
        lemma_after_concat(a, b.drop_last(), shown, state);
    }
}

} // verus!
