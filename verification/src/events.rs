//! What the windows are told.
use vstd::prelude::*;

verus! {

/// The state of the recorder: "idle", "recording", "processing" or "error".
#[derive(Debug, Clone)]
pub struct RecordingStateEvent {
    pub state: String,
}

impl DeepView for RecordingStateEvent {
    type V = Seq<char>;

    open spec fn deep_view(&self) -> Seq<char> {
        self.state@
    }
}

/// The outcome of a dictation: the text that was produced, what the speech model heard, and in
/// which language.
#[derive(Debug, Clone)]
pub struct TranscriptionResultEvent {
    pub text: String,
    pub raw_text: String,
    pub language: String,
}

/// What a [`TranscriptionResultEvent`] says.
pub ghost struct Transcription {
    pub text: Seq<char>,
    pub raw_text: Seq<char>,
    pub language: Seq<char>,
}

impl DeepView for TranscriptionResultEvent {
    type V = Transcription;

    open spec fn deep_view(&self) -> Transcription {
        Transcription { text: self.text@, raw_text: self.raw_text@, language: self.language@ }
    }
}

/// An error to show.
#[derive(Debug, Clone)]
pub struct ErrorEvent {
    pub message: String,
}

impl DeepView for ErrorEvent {
    type V = Seq<char>;

    open spec fn deep_view(&self) -> Seq<char> {
        self.message@
    }
}

} // verus!
