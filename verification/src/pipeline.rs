//! What becomes of a recording once it is complete.
use crate::effect::{
    error_effect, idle_effect, lemma_after_concat, overlay_after, recording_state_effect,
    state_after, Deed, Effect, HistoryRecord,
};
use crate::events::{Transcription, TranscriptionResultEvent};
use crate::hallucination::{is_hallucination, made_up, normalized};
use crate::settings::{language_code, language_of, AppSettings, LanguageMode};
use crate::text::{blank, is_blank, law_blank_is_nothing_once_trimmed, trimmed};
use vstd::prelude::*;
use vstd::string::*;

verus! {

/// How many samples one second of a recording holds. The samples of the channels alternate; a
/// recording of no channels counts as one of one.
pub open spec fn samples_per_second(sample_rate: u32, channels: u16) -> int {
    if channels == 0 {
        sample_rate as int
    } else {
        sample_rate * channels
    }
}

/// The length of a recording, unless its sample rate makes it unknowable.
pub open spec fn duration_ms(sample_count: int, sample_rate: u32, channels: u16) -> Option<int> {
    if sample_rate == 0 {
        None
    } else {
        Some(sample_count * 1000 / samples_per_second(sample_rate, channels))
    }
}

/// The length of a recording in milliseconds, or `None` if its sample rate is 0.
pub fn recording_duration_ms(sample_count: usize, sample_rate: u32, channels: u16) -> (r: Option<
    u64,
>)
    requires
        sample_rate == 0 || sample_count * 1000 <= u64::MAX,
    ensures
        r is None <==> sample_rate == 0,
        r is Some == duration_ms(sample_count as int, sample_rate, channels) is Some,
        r is Some ==> r->0 == duration_ms(sample_count as int, sample_rate, channels)->0,
{
    let c: u64 = if channels == 0 {
        1
    } else {
        channels as u64
    };
    let rate: u64 = sample_rate as u64;
    assert(0 <= rate * c <= 0xffff_ffff * 0xffff) by (nonlinear_arith)
        requires
            rate <= 0xffff_ffff,
            c <= 0xffff,
    ;
    let per_second: u64 = rate * c;
    if per_second == 0 {
        assert(rate == 0) by (nonlinear_arith)
            requires
                rate * c == 0,
                c > 0,
        ;
        return None;
    }
    assert(rate != 0) by (nonlinear_arith)
        requires
            rate * c != 0,
    ;
    Some(sample_count as u64 * 1000 / per_second)
}

/// A recording of whole seconds is as long as its samples say, whatever the channels.
pub proof fn law_whole_seconds(seconds: int, sample_rate: u32, channels: u16)
    requires
        seconds >= 0,
        sample_rate > 0,
    ensures
        duration_ms(
            seconds * samples_per_second(sample_rate, channels),
            sample_rate,
            channels,
        ) == Some(seconds * 1000),
{
    let per_second = samples_per_second(sample_rate, channels);
    let c: int = if channels == 0 {
        1
    } else {
        channels as int
    };
    assert(per_second > 0) by (nonlinear_arith)
        requires
            per_second == sample_rate * c,
            sample_rate > 0,
            c > 0,
    ;
    assert(seconds * per_second * 1000 == (seconds * 1000) * per_second) by (nonlinear_arith);
    vstd::arithmetic::div_mod::lemma_div_by_multiple(seconds * 1000, per_second);
}

/// How far a recording has come, and what is known of it.
#[derive(Debug, Clone)]
pub enum PipelinePhase {
    /// It is found out whether the recording is silent.
    Measuring,
    /// The recording is being encoded.
    Encoding,
    /// The speech model is at work.
    Transcribing,
    /// The fillers are being taken out of what the speech model heard.
    Stripping { raw_text: String },
    /// The language model is at work.
    PostProcessing { raw_text: String, stripped: String },
    /// The replacements are being applied.
    Replacing { raw_text: String },
    /// The final text is being pasted.
    Pasting { raw_text: String, text: String },
    /// The dictation is being kept in the history.
    SavingHistory,
    /// Nothing is left to do.
    Finished,
}

/// What a [`PipelinePhase`] says.
pub ghost enum Stage {
    Measuring,
    Encoding,
    Transcribing,
    Stripping { raw: Seq<char> },
    PostProcessing { raw: Seq<char>, stripped: Seq<char> },
    Replacing { raw: Seq<char> },
    Pasting { raw: Seq<char>, text: Seq<char> },
    SavingHistory,
    Finished,
}

impl DeepView for PipelinePhase {
    type V = Stage;

    open spec fn deep_view(&self) -> Stage {
        match self {
            PipelinePhase::Measuring => Stage::Measuring,
            PipelinePhase::Encoding => Stage::Encoding,
            PipelinePhase::Transcribing => Stage::Transcribing,
            PipelinePhase::Stripping { raw_text } => Stage::Stripping { raw: raw_text@ },
            PipelinePhase::PostProcessing { raw_text, stripped } => Stage::PostProcessing {
                raw: raw_text@,
                stripped: stripped@,
            },
            PipelinePhase::Replacing { raw_text } => Stage::Replacing { raw: raw_text@ },
            PipelinePhase::Pasting { raw_text, text } => Stage::Pasting {
                raw: raw_text@,
                text: text@,
            },
            PipelinePhase::SavingHistory => Stage::SavingHistory,
            PipelinePhase::Finished => Stage::Finished,
        }
    }
}

/// What came of the effect that was last asked for.
#[derive(Debug, Clone)]
pub enum PipelineEvent {
    /// The recording is silent, or is not.
    LevelMeasured { silent: bool },
    AudioEncoded,
    /// The recording could not be encoded, for this reason.
    AudioFailed(String),
    /// The speech model heard this.
    Transcribed(String),
    /// The speech model failed, for this reason.
    TranscriptionFailed(String),
    /// The text without its fillers.
    FillersStripped(String),
    /// The text as the language model left it.
    PostProcessed(String),
    /// The language model failed.
    PostProcessingFailed,
    /// The text with the replacements applied.
    Replaced(String),
    Pasted,
    /// The text could not be pasted, for this reason.
    PasteFailed(String),
    /// The dictation is in the history.
    HistorySaved,
    /// The dictation could not be kept.
    HistoryFailed,
}

/// What a [`PipelineEvent`] says.
pub ghost enum Outcome {
    LevelMeasured { silent: bool },
    AudioEncoded,
    AudioFailed(Seq<char>),
    Transcribed(Seq<char>),
    TranscriptionFailed(Seq<char>),
    FillersStripped(Seq<char>),
    PostProcessed(Seq<char>),
    PostProcessingFailed,
    Replaced(Seq<char>),
    Pasted,
    PasteFailed(Seq<char>),
    HistorySaved,
    HistoryFailed,
}

impl DeepView for PipelineEvent {
    type V = Outcome;

    open spec fn deep_view(&self) -> Outcome {
        match self {
            PipelineEvent::LevelMeasured { silent } => Outcome::LevelMeasured { silent: *silent },
            PipelineEvent::AudioEncoded => Outcome::AudioEncoded,
            PipelineEvent::AudioFailed(reason) => Outcome::AudioFailed(reason@),
            PipelineEvent::Transcribed(text) => Outcome::Transcribed(text@),
            PipelineEvent::TranscriptionFailed(reason) => Outcome::TranscriptionFailed(reason@),
            PipelineEvent::FillersStripped(text) => Outcome::FillersStripped(text@),
            PipelineEvent::PostProcessed(text) => Outcome::PostProcessed(text@),
            PipelineEvent::PostProcessingFailed => Outcome::PostProcessingFailed,
            PipelineEvent::Replaced(text) => Outcome::Replaced(text@),
            PipelineEvent::Pasted => Outcome::Pasted,
            PipelineEvent::PasteFailed(reason) => Outcome::PasteFailed(reason@),
            PipelineEvent::HistorySaved => Outcome::HistorySaved,
            PipelineEvent::HistoryFailed => Outcome::HistoryFailed,
        }
    }
}

/// How long a result is left on the screen.
pub const RESULT_SHOWN_MS: u64 = 2000;

/// What is done with a recording that is dropped.
pub open spec fn teardown() -> Seq<Deed> {
    seq![Deed::RestoreClipboard, Deed::HideOverlay, Deed::RecordingState("idle"@)]
}

/// What is done with a recording that something failed on.
pub open spec fn failure(reason: Seq<char>) -> Seq<Deed> {
    seq![
        Deed::RestoreClipboard,
        Deed::Error(reason),
        Deed::RecordingState("idle"@),
        Deed::ConcealOverlay,
    ]
}

/// What is done last with a recording that gave a result.
pub open spec fn closing() -> Seq<Deed> {
    seq![Deed::RecordingState("idle"@), Deed::HideOverlayAfter(RESULT_SHOWN_MS)]
}

/// The recording is known to be shorter than the settings ask for.
pub open spec fn too_short(
    sample_count: int,
    sample_rate: u32,
    channels: u16,
    min_recording_ms: u32,
) -> bool {
    &&& min_recording_ms > 0
    &&& duration_ms(sample_count, sample_rate, channels) matches Some(ms)
    &&& ms < min_recording_ms
}

/// What is done first with a complete recording.
pub open spec fn first_stage(
    sample_count: int,
    sample_rate: u32,
    channels: u16,
    settings: AppSettings,
) -> (Stage, Seq<Deed>) {
    if sample_count == 0 || too_short(
        sample_count,
        sample_rate,
        channels,
        settings.min_recording_ms,
    ) {
        (Stage::Finished, teardown())
    } else {
        (Stage::Measuring, seq![Deed::MeasureLevel])
    }
}

/// The language that the language model is told the text is in.
pub open spec fn text_language(settings: AppSettings) -> Seq<char> {
    match language_of(settings.language_mode) {
        Some(code) => code,
        None => settings.primary_language@,
    }
}

/// The language that is shown and kept with a dictation.
pub open spec fn language_label(settings: AppSettings) -> Seq<char> {
    match language_of(settings.language_mode) {
        Some(code) => code,
        None => "auto"@,
    }
}

/// What is done with what the speech model heard.
pub open spec fn once_transcribed(raw: Seq<char>, settings: AppSettings, runs_llm: bool) -> (
    Stage,
    Seq<Deed>,
) {
    if made_up(normalized(raw)) {
        (Stage::Finished, teardown())
    } else if settings.remove_fillers {
        (Stage::Stripping { raw }, seq![Deed::StripFillers(raw)])
    } else {
        once_stripped(raw, raw, settings, runs_llm)
    }
}

/// What is done with the text that is left without the fillers.
pub open spec fn once_stripped(
    raw: Seq<char>,
    stripped: Seq<char>,
    settings: AppSettings,
    runs_llm: bool,
) -> (Stage, Seq<Deed>) {
    if blank(stripped) {
        (Stage::Finished, teardown())
    } else if runs_llm {
        (
            Stage::PostProcessing { raw, stripped },
            seq![
                Deed::PostProcess {
                    text: stripped,
                    language: text_language(settings),
                    remove_fillers: settings.remove_fillers,
                },
            ],
        )
    } else {
        (Stage::Replacing { raw }, seq![Deed::ApplyReplacements(stripped)])
    }
}

/// The final text is to be pasted. Replacing the selection takes a paste.
pub open spec fn pastes(settings: AppSettings) -> bool {
    settings.auto_paste || settings.replace_selection
}

/// What is done with the final text.
pub open spec fn once_final(raw: Seq<char>, text: Seq<char>, settings: AppSettings) -> (
    Stage,
    Seq<Deed>,
) {
    if pastes(settings) {
        (Stage::Pasting { raw, text }, seq![Deed::Paste(text)])
    } else {
        once_delivered(raw, text, settings)
    }
}

/// What is done with the final text once it is where it belongs: show it and keep it.
pub open spec fn once_delivered(raw: Seq<char>, text: Seq<char>, settings: AppSettings) -> (
    Stage,
    Seq<Deed>,
) {
    let what = Transcription { text, raw_text: raw, language: language_label(settings) };
    let shown = seq![
        Deed::RestoreClipboard,
        Deed::ResizeOverlay,
        Deed::TranscriptionResult(what),
    ];
    if settings.history_enabled {
        (
            Stage::SavingHistory,
            shown.push(
                Deed::SaveHistory { what, retention_days: settings.history_retention_days },
            ),
        )
    } else {
        (Stage::Finished, shown + closing())
    }
}

/// The next stage of a recording and what is to be done, from what has happened. An outcome
/// that the stage does not wait for changes nothing.
pub open spec fn pipeline_step(
    stage: Stage,
    outcome: Outcome,
    settings: AppSettings,
    runs_llm: bool,
) -> (Stage, Seq<Deed>) {
    match (stage, outcome) {
        (Stage::Measuring, Outcome::LevelMeasured { silent }) => if silent {
            (Stage::Finished, teardown())
        } else {
            (Stage::Encoding, seq![Deed::RecordingState("processing"@), Deed::EncodeAudio])
        },
        (Stage::Encoding, Outcome::AudioEncoded) => (
            Stage::Transcribing,
            seq![Deed::Transcribe(language_of(settings.language_mode))],
        ),
        (Stage::Encoding, Outcome::AudioFailed(reason)) => (Stage::Finished, failure(reason)),
        (Stage::Transcribing, Outcome::Transcribed(raw)) => once_transcribed(
            raw,
            settings,
            runs_llm,
        ),
        (Stage::Transcribing, Outcome::TranscriptionFailed(reason)) => (
            Stage::Finished,
            failure(reason),
        ),
        (Stage::Stripping { raw }, Outcome::FillersStripped(text)) => once_stripped(
            raw,
            text,
            settings,
            runs_llm,
        ),
        (Stage::PostProcessing { raw, stripped }, Outcome::PostProcessed(text)) => (
            Stage::Replacing { raw },
            seq![Deed::ApplyReplacements(text)],
        ),
        (Stage::PostProcessing { raw, stripped }, Outcome::PostProcessingFailed) => (
            Stage::Replacing { raw },
            seq![Deed::ApplyReplacements(stripped)],
        ),
        (Stage::Replacing { raw }, Outcome::Replaced(text)) => once_final(raw, text, settings),
        (Stage::Pasting { raw, text }, Outcome::Pasted) => {
            let next = once_delivered(raw, text, settings);
            (next.0, seq![Deed::MarkPasteUndoable] + next.1)
        },
        (Stage::Pasting { raw, text }, Outcome::PasteFailed(reason)) => (
            Stage::Finished,
            failure(reason),
        ),
        (Stage::SavingHistory, Outcome::HistorySaved) => (
            Stage::Finished,
            seq![Deed::HistoryUpdated, Deed::RebuildTray] + closing(),
        ),
        (Stage::SavingHistory, Outcome::HistoryFailed) => (Stage::Finished, closing()),
        _ => (stage, seq![]),
    }
}

/// A complete recording on its way to the user.
#[derive(Debug, Clone)]
pub struct Pipeline {
    pub phase: PipelinePhase,
    pub settings: AppSettings,
    /// The active mode has the language model work on the text.
    pub runs_llm: bool,
}

fn teardown_effects() -> (r: Vec<Effect>)
    ensures
        r.deep_view() == teardown(),
{
    let r = vec![Effect::RestoreClipboard, Effect::HideOverlay, idle_effect()];
    assert(r.deep_view() =~= teardown());
    r
}

fn failure_effects(reason: String) -> (r: Vec<Effect>)
    ensures
        r.deep_view() == failure(reason@),
{
    let r = vec![
        Effect::RestoreClipboard,
        error_effect(reason),
        idle_effect(),
        Effect::ConcealOverlay,
    ];
    assert(r.deep_view() =~= failure(reason@));
    r
}

fn single(effect: Effect) -> (r: Vec<Effect>)
    ensures
        r.deep_view() == seq![effect.deep_view()],
{
    let r = vec![effect];
    assert(r.deep_view() =~= seq![effect.deep_view()]);
    r
}

/// Takes in a complete recording of so many samples. `runs_llm` tells whether the active mode
/// has the language model work on the text.
pub fn handle_recording_complete(
    sample_count: usize,
    sample_rate: u32,
    channels: u16,
    settings: AppSettings,
    runs_llm: bool,
) -> (r: (Pipeline, Vec<Effect>))
    requires
        sample_rate == 0 || sample_count * 1000 <= u64::MAX,
    ensures
        (r.0.phase.deep_view(), r.1.deep_view()) == first_stage(
            sample_count as int,
            sample_rate,
            channels,
            settings,
        ),
        r.0.settings == settings,
        r.0.runs_llm == runs_llm,
{
    let short = match recording_duration_ms(sample_count, sample_rate, channels) {
        Some(ms) => settings.min_recording_ms > 0 && ms < settings.min_recording_ms as u64,
        None => false,
    };
    if sample_count == 0 || short {
        (Pipeline { phase: PipelinePhase::Finished, settings, runs_llm }, teardown_effects())
    } else {
        (
            Pipeline { phase: PipelinePhase::Measuring, settings, runs_llm },
            single(Effect::MeasureLevel),
        )
    }
}

impl Pipeline {
    /// The language that the language model is told the text is in.
    fn text_language(&self) -> (r: String)
        ensures
            r@ == text_language(self.settings),
    {
        match language_code(self.settings.language_mode) {
            Some(code) => code,
            None => self.settings.primary_language.clone(),
        }
    }

    /// The language that is shown and kept with a dictation.
    fn language_label(&self) -> (r: String)
        ensures
            r@ == language_label(self.settings),
    {
        match language_code(self.settings.language_mode) {
            Some(code) => code,
            None => "auto".to_owned(),
        }
    }

    fn transcribed(&self, raw: String) -> (r: (PipelinePhase, Vec<Effect>))
        ensures
            (r.0.deep_view(), r.1.deep_view()) == once_transcribed(
                raw@,
                self.settings,
                self.runs_llm,
            ),
    {
        if is_hallucination(raw.as_str()) {
            (PipelinePhase::Finished, teardown_effects())
        } else if self.settings.remove_fillers {
            let effects = single(Effect::StripFillers(raw.clone()));
            (PipelinePhase::Stripping { raw_text: raw }, effects)
        } else {
            let stripped = raw.clone();
            self.stripped(raw, stripped)
        }
    }

    fn stripped(&self, raw: String, stripped: String) -> (r: (PipelinePhase, Vec<Effect>))
        ensures
            (r.0.deep_view(), r.1.deep_view()) == once_stripped(
                raw@,
                stripped@,
                self.settings,
                self.runs_llm,
            ),
    {
        if is_blank(stripped.as_str()) {
            (PipelinePhase::Finished, teardown_effects())
        } else if self.runs_llm {
            let effects = single(
                Effect::PostProcess {
                    text: stripped.clone(),
                    language: self.text_language(),
                    remove_fillers: self.settings.remove_fillers,
                },
            );
            (PipelinePhase::PostProcessing { raw_text: raw, stripped }, effects)
        } else {
            (PipelinePhase::Replacing { raw_text: raw }, single(Effect::ApplyReplacements(stripped)))
        }
    }

    fn made_final(&self, raw: String, text: String) -> (r: (PipelinePhase, Vec<Effect>))
        ensures
            (r.0.deep_view(), r.1.deep_view()) == once_final(raw@, text@, self.settings),
    {
        if self.settings.auto_paste || self.settings.replace_selection {
            let effects = single(Effect::Paste(text.clone()));
            (PipelinePhase::Pasting { raw_text: raw, text }, effects)
        } else {
            self.delivered(raw, text, Vec::new())
        }
    }

    /// Shows and keeps the final text, after the effects in `effects`.
    fn delivered(&self, raw: String, text: String, effects: Vec<Effect>) -> (r: (
        PipelinePhase,
        Vec<Effect>,
    ))
        ensures
            ({
                let next = once_delivered(raw@, text@, self.settings);
                &&& r.0.deep_view() == next.0
                &&& r.1.deep_view() == effects.deep_view() + next.1
            }),
    {
        let mut r = effects;
        let language = self.language_label();
        r.push(Effect::RestoreClipboard);
        r.push(Effect::ResizeOverlay);
        r.push(
            Effect::TranscriptionResult(
                TranscriptionResultEvent {
                    text: text.clone(),
                    raw_text: raw.clone(),
                    language: language.clone(),
                },
            ),
        );
        if self.settings.history_enabled {
            r.push(
                Effect::SaveHistory(
                    HistoryRecord {
                        text,
                        raw_text: raw,
                        language,
                        retention_days: self.settings.history_retention_days,
                    },
                ),
            );
            assert(r.deep_view() =~= effects.deep_view() + once_delivered(
                raw@,
                text@,
                self.settings,
            ).1);
            (PipelinePhase::SavingHistory, r)
        } else {
            r.push(idle_effect());
            r.push(Effect::HideOverlayAfter(RESULT_SHOWN_MS));
            assert(r.deep_view() =~= effects.deep_view() + once_delivered(
                raw@,
                text@,
                self.settings,
            ).1);
            (PipelinePhase::Finished, r)
        }
    }

    /// The phase that follows and what is to be done, if the phase waits for `event`.
    fn next(&self, event: PipelineEvent) -> (r: Option<(PipelinePhase, Vec<Effect>)>)
        ensures
            ({
                let next = pipeline_step(
                    self.phase.deep_view(),
                    event.deep_view(),
                    self.settings,
                    self.runs_llm,
                );
                match r {
                    Some((phase, effects)) => (phase.deep_view(), effects.deep_view()) == next,
                    None => (self.phase.deep_view(), Seq::<Deed>::empty()) == next,
                }
            }),
    {
        let next = match (&self.phase, event) {
            (PipelinePhase::Measuring, PipelineEvent::LevelMeasured { silent }) => if silent {
                (PipelinePhase::Finished, teardown_effects())
            } else {
                let effects = vec![recording_state_effect("processing"), Effect::EncodeAudio];
                assert(effects.deep_view() =~= seq![
                    Deed::RecordingState("processing"@),
                    Deed::EncodeAudio,
                ]);
                (PipelinePhase::Encoding, effects)
            },
            (PipelinePhase::Encoding, PipelineEvent::AudioEncoded) => (
                PipelinePhase::Transcribing,
                single(Effect::Transcribe(language_code(self.settings.language_mode))),
            ),
            (PipelinePhase::Encoding, PipelineEvent::AudioFailed(reason)) => (
                PipelinePhase::Finished,
                failure_effects(reason),
            ),
            (PipelinePhase::Transcribing, PipelineEvent::Transcribed(raw)) => self.transcribed(raw),
            (PipelinePhase::Transcribing, PipelineEvent::TranscriptionFailed(reason)) => (
                PipelinePhase::Finished,
                failure_effects(reason),
            ),
            (PipelinePhase::Stripping { raw_text }, PipelineEvent::FillersStripped(text)) => {
                self.stripped(raw_text.clone(), text)
            },
            (
                PipelinePhase::PostProcessing { raw_text, stripped },
                PipelineEvent::PostProcessed(text),
            ) => (
                PipelinePhase::Replacing { raw_text: raw_text.clone() },
                single(Effect::ApplyReplacements(text)),
            ),
            (
                PipelinePhase::PostProcessing { raw_text, stripped },
                PipelineEvent::PostProcessingFailed,
            ) => (
                PipelinePhase::Replacing { raw_text: raw_text.clone() },
                single(Effect::ApplyReplacements(stripped.clone())),
            ),
            (PipelinePhase::Replacing { raw_text }, PipelineEvent::Replaced(text)) => {
                self.made_final(raw_text.clone(), text)
            },
            (PipelinePhase::Pasting { raw_text, text }, PipelineEvent::Pasted) => {
                self.delivered(raw_text.clone(), text.clone(), single(Effect::MarkPasteUndoable))
            },
            (PipelinePhase::Pasting { raw_text, text }, PipelineEvent::PasteFailed(reason)) => (
                PipelinePhase::Finished,
                failure_effects(reason),
            ),
            (PipelinePhase::SavingHistory, PipelineEvent::HistorySaved) => {
                let effects = vec![
                    Effect::HistoryUpdated,
                    Effect::RebuildTray,
                    idle_effect(),
                    Effect::HideOverlayAfter(RESULT_SHOWN_MS),
                ];
                assert(effects.deep_view() =~= seq![Deed::HistoryUpdated, Deed::RebuildTray]
                    + closing());
                (PipelinePhase::Finished, effects)
            },
            (PipelinePhase::SavingHistory, PipelineEvent::HistoryFailed) => {
                let effects = vec![idle_effect(), Effect::HideOverlayAfter(RESULT_SHOWN_MS)];
                assert(effects.deep_view() =~= closing());
                (PipelinePhase::Finished, effects)
            },
            _ => {
                return None;
            },
        };
        Some(next)
    }

    /// Goes on after `event`.
    pub fn step(&mut self, event: PipelineEvent) -> (r: Vec<Effect>)
        ensures
            (final(self).phase.deep_view(), r.deep_view()) == pipeline_step(
                old(self).phase.deep_view(),
                event.deep_view(),
                old(self).settings,
                old(self).runs_llm,
            ),
            final(self).settings == old(self).settings,
            final(self).runs_llm == old(self).runs_llm,
    {
        match self.next(event) {
            Some((phase, effects)) => {
                self.phase = phase;
                effects
            },
            None => {
                let effects: Vec<Effect> = Vec::new();
                assert(effects.deep_view() =~= Seq::<Deed>::empty());
                effects
            },
        }
    }
}

/// The stage that a recording comes to through `outcomes`, and everything that is done on the
/// way.
pub open spec fn pipeline_run(
    stage: Stage,
    outcomes: Seq<Outcome>,
    settings: AppSettings,
    runs_llm: bool,
) -> (Stage, Seq<Deed>)
    decreases outcomes.len(),
{
    if outcomes.len() == 0 {
        (stage, seq![])
    } else {
        let next = pipeline_step(stage, outcomes[0], settings, runs_llm);
        let rest = pipeline_run(next.0, outcomes.drop_first(), settings, runs_llm);
        (rest.0, next.1 + rest.1)
    }
}

/// The state of the recorder that the windows know in this stage.
pub open spec fn state_at(stage: Stage) -> Seq<char> {
    match stage {
        Stage::Measuring => "recording"@,
        Stage::Finished => "idle"@,
        _ => "processing"@,
    }
}

/// The clipboard has been put back in this stage.
pub open spec fn restored_at(stage: Stage) -> bool {
    stage is SavingHistory || stage is Finished
}

/// Whatever happens to a recording, the overlay and the state that the windows know fit the
/// stage, and the clipboard is put back by the end. So a recording that is done with, for
/// whatever reason, leaves no overlay on the screen, the windows idle and the clipboard as it was.
pub proof fn law_recording_ends_clean(
    stage: Stage,
    outcomes: Seq<Outcome>,
    settings: AppSettings,
    runs_llm: bool,
)
    ensures
        ({
            let run = pipeline_run(stage, outcomes, settings, runs_llm);
            &&& overlay_after(run.1, !(stage is Finished)) == !(run.0 is Finished)
            &&& state_after(run.1, state_at(stage)) == state_at(run.0)
            &&& !restored_at(stage) ==> run.1.contains(Deed::RestoreClipboard) == restored_at(
                run.0,
            )
        }),
    decreases outcomes.len(),
{
    if outcomes.len() > 0 {
        let next = pipeline_step(stage, outcomes[0], settings, runs_llm);
        let rest = pipeline_run(next.0, outcomes.drop_first(), settings, runs_llm);
        lemma_step_is_clean(stage, outcomes[0], settings, runs_llm);
        law_recording_ends_clean(next.0, outcomes.drop_first(), settings, runs_llm);
        lemma_after_concat(next.1, rest.1, !(stage is Finished), state_at(stage));
        if restored_at(next.0) {
            lemma_restored_stays(next.0, outcomes.drop_first(), settings, runs_llm);
        }
        lemma_contains_concat(next.1, rest.1);
    }
}

proof fn lemma_contains_concat(a: Seq<Deed>, b: Seq<Deed>)
    ensures
        (a + b).contains(Deed::RestoreClipboard) == (a.contains(Deed::RestoreClipboard)
            || b.contains(Deed::RestoreClipboard)),
{
    let all = a + b;
    if a.contains(Deed::RestoreClipboard) {
        let i = choose|i: int| 0 <= i < a.len() && a[i] == Deed::RestoreClipboard;
        assert(all[i] == Deed::RestoreClipboard);
    }
    if b.contains(Deed::RestoreClipboard) {
        let i = choose|i: int| 0 <= i < b.len() && b[i] == Deed::RestoreClipboard;
        assert(all[a.len() + i] == Deed::RestoreClipboard);
    }
}

proof fn lemma_restored_stays(
    stage: Stage,
    outcomes: Seq<Outcome>,
    settings: AppSettings,
    runs_llm: bool,
)
    requires
        restored_at(stage),
    ensures
        restored_at(pipeline_run(stage, outcomes, settings, runs_llm).0),
    decreases outcomes.len(),
{
    if outcomes.len() > 0 {
        let next = pipeline_step(stage, outcomes[0], settings, runs_llm);
        lemma_restored_stays(next.0, outcomes.drop_first(), settings, runs_llm);
    }
}

proof fn lemma_step_is_clean(
    stage: Stage,
    outcome: Outcome,
    settings: AppSettings,
    runs_llm: bool,
)
    ensures
        ({
            let next = pipeline_step(stage, outcome, settings, runs_llm);
            &&& overlay_after(next.1, !(stage is Finished)) == !(next.0 is Finished)
            &&& state_after(next.1, state_at(stage)) == state_at(next.0)
            &&& !restored_at(stage) ==> next.1.contains(Deed::RestoreClipboard) == restored_at(
                next.0,
            )
        }),
{
    reveal_with_fuel(overlay_after, 8);
    reveal_with_fuel(state_after, 8);
    let deeds = pipeline_step(stage, outcome, settings, runs_llm).1;
    if !restored_at(stage) && restored_at(pipeline_step(stage, outcome, settings, runs_llm).0) {
        assert(deeds[0] == Deed::RestoreClipboard || deeds[1] == Deed::RestoreClipboard);
    }
}

/// The first look at a recording leaves it clean too, if it drops it.
pub proof fn law_dropped_recording_ends_clean(
    sample_count: int,
    sample_rate: u32,
    channels: u16,
    settings: AppSettings,
)
    ensures
        ({
            let first = first_stage(sample_count, sample_rate, channels, settings);
            &&& overlay_after(first.1, true) == !(first.0 is Finished)
            &&& state_after(first.1, "recording"@) == state_at(first.0)
            &&& first.1.contains(Deed::RestoreClipboard) == (first.0 is Finished)
        }),
{
    reveal_with_fuel(overlay_after, 4);
    reveal_with_fuel(state_after, 4);
    let first = first_stage(sample_count, sample_rate, channels, settings);
    if first.0 is Finished {
        assert(first.1[0] == Deed::RestoreClipboard);
    }
}

/// A recording that is done with stays so, and nothing more is done for it.
pub proof fn law_finished_is_final(
    outcomes: Seq<Outcome>,
    settings: AppSettings,
    runs_llm: bool,
)
    ensures
        pipeline_run(Stage::Finished, outcomes, settings, runs_llm) == (
            Stage::Finished,
            Seq::<Deed>::empty(),
        ),
    decreases outcomes.len(),
{
    if outcomes.len() > 0 {
        law_finished_is_final(outcomes.drop_first(), settings, runs_llm);
        assert(pipeline_run(Stage::Finished, outcomes, settings, runs_llm).1 =~= Seq::<
            Deed,
        >::empty());
    }
}

/// What the outside makes of a dictation when nothing fails that ends it.
pub ghost struct Answers {
    /// What the speech model heard.
    pub raw: Seq<char>,
    /// The same without the fillers.
    pub stripped: Seq<char>,
    /// What the language model made of it, unless it failed.
    pub processed: Option<Seq<char>>,
    /// The text with the replacements applied.
    pub replaced: Seq<char>,
    /// The dictation could be kept.
    pub saved: bool,
}

/// `items` if they are wanted, else none.
pub open spec fn only_if<A>(wanted: bool, items: Seq<A>) -> Seq<A> {
    if wanted {
        items
    } else {
        seq![]
    }
}

/// The text that is left without the fillers, if they are to be removed.
pub open spec fn text_kept(settings: AppSettings, a: Answers) -> Seq<char> {
    if settings.remove_fillers {
        a.stripped
    } else {
        a.raw
    }
}

/// The text that the replacements are applied to.
pub open spec fn text_worked_on(settings: AppSettings, runs_llm: bool, a: Answers) -> Seq<char> {
    if runs_llm && a.processed is Some {
        a.processed->0
    } else {
        text_kept(settings, a)
    }
}

proof fn lemma_run_cons(
    stage: Stage,
    outcome: Outcome,
    rest: Seq<Outcome>,
    settings: AppSettings,
    runs_llm: bool,
)
    ensures
        ({
            let next = pipeline_step(stage, outcome, settings, runs_llm);
            let tail = pipeline_run(next.0, rest, settings, runs_llm);
            pipeline_run(stage, seq![outcome] + rest, settings, runs_llm) == (
                tail.0,
                next.1 + tail.1,
            )
        }),
{
    assert((seq![outcome] + rest).drop_first() =~= rest);
}

/// The outcomes of a dictation from the point where it is shown.
pub open spec fn outcomes_shown(settings: AppSettings, a: Answers) -> Seq<Outcome> {
    only_if(
        settings.history_enabled,
        seq![
            if a.saved {
                Outcome::HistorySaved
            } else {
                Outcome::HistoryFailed
            },
        ],
    )
}

/// What is done for a dictation from the point where it is shown.
pub open spec fn deeds_shown(settings: AppSettings, a: Answers) -> Seq<Deed> {
    let what = Transcription {
        text: a.replaced,
        raw_text: a.raw,
        language: language_label(settings),
    };
    seq![
        Deed::RestoreClipboard,
        Deed::ResizeOverlay,
        Deed::TranscriptionResult(what),
    ] + only_if(
        settings.history_enabled,
        seq![Deed::SaveHistory { what, retention_days: settings.history_retention_days }],
    ) + only_if(
        settings.history_enabled && a.saved,
        seq![Deed::HistoryUpdated, Deed::RebuildTray],
    ) + closing()
}

proof fn lemma_run_shown(settings: AppSettings, runs_llm: bool, a: Answers)
    ensures
        ({
            let shown = once_delivered(a.raw, a.replaced, settings);
            let rest = pipeline_run(shown.0, outcomes_shown(settings, a), settings, runs_llm);
            &&& rest.0 is Finished
            &&& shown.1 + rest.1 == deeds_shown(settings, a)
        }),
{
    let shown = once_delivered(a.raw, a.replaced, settings);
    let o = if a.saved {
        Outcome::HistorySaved
    } else {
        Outcome::HistoryFailed
    };
    if settings.history_enabled {
        lemma_run_cons(Stage::SavingHistory, o, seq![], settings, runs_llm);
        assert(outcomes_shown(settings, a) =~= seq![o] + Seq::<Outcome>::empty());
    }
    let rest = pipeline_run(shown.0, outcomes_shown(settings, a), settings, runs_llm);
    assert(shown.1 + rest.1 =~= deeds_shown(settings, a));
}

/// The outcomes of a dictation from the point where its text is final.
pub open spec fn outcomes_final(settings: AppSettings, a: Answers) -> Seq<Outcome> {
    only_if(pastes(settings), seq![Outcome::Pasted]) + outcomes_shown(settings, a)
}

/// What is done for a dictation from the point where its text is final.
pub open spec fn deeds_final(settings: AppSettings, a: Answers) -> Seq<Deed> {
    only_if(pastes(settings), seq![Deed::Paste(a.replaced), Deed::MarkPasteUndoable])
        + deeds_shown(settings, a)
}

proof fn lemma_run_final(settings: AppSettings, runs_llm: bool, a: Answers)
    ensures
        ({
            let fin = once_final(a.raw, a.replaced, settings);
            let rest = pipeline_run(fin.0, outcomes_final(settings, a), settings, runs_llm);
            &&& rest.0 is Finished
            &&& fin.1 + rest.1 == deeds_final(settings, a)
        }),
{
    let fin = once_final(a.raw, a.replaced, settings);
    let shown = outcomes_shown(settings, a);
    lemma_run_shown(settings, runs_llm, a);
    if pastes(settings) {
        lemma_run_cons(fin.0, Outcome::Pasted, shown, settings, runs_llm);
        assert(outcomes_final(settings, a) =~= seq![Outcome::Pasted] + shown);
    } else {
        assert(outcomes_final(settings, a) =~= shown);
    }
    let rest = pipeline_run(fin.0, outcomes_final(settings, a), settings, runs_llm);
    assert(fin.1 + rest.1 =~= deeds_final(settings, a));
}

/// The outcomes of a dictation from the point where its fillers are gone.
pub open spec fn outcomes_stripped(settings: AppSettings, runs_llm: bool, a: Answers) -> Seq<Outcome> {
    only_if(
        runs_llm,
        seq![
            match a.processed {
                Some(text) => Outcome::PostProcessed(text),
                None => Outcome::PostProcessingFailed,
            },
        ],
    ) + (seq![Outcome::Replaced(a.replaced)] + outcomes_final(settings, a))
}

/// What is done for a dictation from the point where its fillers are gone.
pub open spec fn deeds_stripped(settings: AppSettings, runs_llm: bool, a: Answers) -> Seq<Deed> {
    only_if(
        runs_llm,
        seq![
            Deed::PostProcess {
                text: text_kept(settings, a),
                language: text_language(settings),
                remove_fillers: settings.remove_fillers,
            },
        ],
    ) + (seq![Deed::ApplyReplacements(text_worked_on(settings, runs_llm, a))] + deeds_final(
        settings,
        a,
    ))
}

proof fn lemma_run_stripped(settings: AppSettings, runs_llm: bool, a: Answers)
    requires
        !blank(text_kept(settings, a)),
    ensures
        ({
            let begun = once_stripped(a.raw, text_kept(settings, a), settings, runs_llm);
            let rest = pipeline_run(
                begun.0,
                outcomes_stripped(settings, runs_llm, a),
                settings,
                runs_llm,
            );
            &&& rest.0 is Finished
            &&& begun.1 + rest.1 == deeds_stripped(settings, runs_llm, a)
        }),
{
    let begun = once_stripped(a.raw, text_kept(settings, a), settings, runs_llm);
    let fin = outcomes_final(settings, a);
    let replaced = seq![Outcome::Replaced(a.replaced)] + fin;
    let replacing = Stage::Replacing { raw: a.raw };
    lemma_run_final(settings, runs_llm, a);
    lemma_run_cons(replacing, Outcome::Replaced(a.replaced), fin, settings, runs_llm);
    let from_replacing = pipeline_run(replacing, replaced, settings, runs_llm);
    assert(from_replacing.1 == deeds_final(settings, a));
    if runs_llm {
        let o = match a.processed {
            Some(text) => Outcome::PostProcessed(text),
            None => Outcome::PostProcessingFailed,
        };
        lemma_run_cons(begun.0, o, replaced, settings, runs_llm);
        assert(outcomes_stripped(settings, runs_llm, a) =~= seq![o] + replaced);
    } else {
        assert(outcomes_stripped(settings, runs_llm, a) =~= replaced);
    }
    let rest = pipeline_run(
        begun.0,
        outcomes_stripped(settings, runs_llm, a),
        settings,
        runs_llm,
    );
    assert(begun.1 + rest.1 =~= deeds_stripped(settings, runs_llm, a));
}

/// The outcomes that answer the effects of a dictation one by one.
pub open spec fn outcomes_of(settings: AppSettings, runs_llm: bool, a: Answers) -> Seq<Outcome> {
    seq![
        Outcome::LevelMeasured { silent: false },
        Outcome::AudioEncoded,
        Outcome::Transcribed(a.raw),
    ] + (only_if(settings.remove_fillers, seq![Outcome::FillersStripped(a.stripped)])
        + outcomes_stripped(settings, runs_llm, a))
}

/// Everything that is done for a dictation that gives a result, in order.
pub open spec fn deeds_of(settings: AppSettings, runs_llm: bool, a: Answers) -> Seq<Deed> {
    seq![
        Deed::RecordingState("processing"@),
        Deed::EncodeAudio,
        Deed::Transcribe(language_of(settings.language_mode)),
    ] + (only_if(settings.remove_fillers, seq![Deed::StripFillers(a.raw)]) + deeds_stripped(
        settings,
        runs_llm,
        a,
    ))
}

proof fn lemma_run_heard(settings: AppSettings, runs_llm: bool, a: Answers)
    requires
        !made_up(normalized(a.raw)),
        !blank(text_kept(settings, a)),
    ensures
        ({
            let begun = once_transcribed(a.raw, settings, runs_llm);
            let rest = pipeline_run(
                begun.0,
                only_if(settings.remove_fillers, seq![Outcome::FillersStripped(a.stripped)])
                    + outcomes_stripped(settings, runs_llm, a),
                settings,
                runs_llm,
            );
            &&& rest.0 is Finished
            &&& begun.1 + rest.1 == only_if(
                settings.remove_fillers,
                seq![Deed::StripFillers(a.raw)],
            ) + deeds_stripped(settings, runs_llm, a)
        }),
{
    let o = Outcome::FillersStripped(a.stripped);
    let stripped = outcomes_stripped(settings, runs_llm, a);
    let tail = deeds_stripped(settings, runs_llm, a);
    lemma_run_stripped(settings, runs_llm, a);
    if settings.remove_fillers {
        lemma_run_cons(Stage::Stripping { raw: a.raw }, o, stripped, settings, runs_llm);
    } else {
        assert(Seq::<Outcome>::empty() + stripped =~= stripped);
        assert(Seq::<Deed>::empty() + tail =~= tail);
    }
}

/// A dictation that is neither made up nor empty reaches the user: all that is done for it is
/// done in this order. It is pasted before the overlay is touched, which could take the focus
/// from where it is to go. What the speech model heard is shown and kept as it was heard. It is
/// kept only where a history is wanted.
pub proof fn law_dictation_reaches_the_user(settings: AppSettings, runs_llm: bool, a: Answers)
    requires
        !made_up(normalized(a.raw)),
        !blank(text_kept(settings, a)),
    ensures
        pipeline_run(Stage::Measuring, outcomes_of(settings, runs_llm, a), settings, runs_llm) == (
            Stage::Finished,
            deeds_of(settings, runs_llm, a),
        ),
{
    let heard = Outcome::Transcribed(a.raw);
    let loud = Outcome::LevelMeasured { silent: false };
    let rest = only_if(settings.remove_fillers, seq![Outcome::FillersStripped(a.stripped)])
        + outcomes_stripped(settings, runs_llm, a);
    let deeds = only_if(settings.remove_fillers, seq![Deed::StripFillers(a.raw)]) + deeds_stripped(
        settings,
        runs_llm,
        a,
    );
    lemma_run_heard(settings, runs_llm, a);
    lemma_run_cons(Stage::Transcribing, heard, rest, settings, runs_llm);
    assert(pipeline_run(Stage::Transcribing, seq![heard] + rest, settings, runs_llm) == (
        Stage::Finished,
        deeds,
    ));
    lemma_run_cons(
        Stage::Encoding,
        Outcome::AudioEncoded,
        seq![heard] + rest,
        settings,
        runs_llm,
    );
    let encoded = seq![Outcome::AudioEncoded] + (seq![heard] + rest);
    lemma_run_cons(Stage::Measuring, loud, encoded, settings, runs_llm);
    assert(seq![loud] + encoded =~= seq![loud, Outcome::AudioEncoded, heard] + rest);
    let transcribe = seq![Deed::Transcribe(language_of(settings.language_mode))];
    let encode = seq![Deed::RecordingState("processing"@), Deed::EncodeAudio];
    assert(encode + (transcribe + deeds) =~= seq![
        Deed::RecordingState("processing"@),
        Deed::EncodeAudio,
        Deed::Transcribe(language_of(settings.language_mode)),
    ] + deeds);
}

/// What the speech model made up goes nowhere: it is dropped, whatever else happens.
pub proof fn law_made_up_text_is_dropped(
    raw: Seq<char>,
    later: Seq<Outcome>,
    settings: AppSettings,
    runs_llm: bool,
)
    requires
        made_up(normalized(raw)),
    ensures
        pipeline_run(
            Stage::Transcribing,
            seq![Outcome::Transcribed(raw)] + later,
            settings,
            runs_llm,
        ) == (Stage::Finished, teardown()),
{
    lemma_run_cons(Stage::Transcribing, Outcome::Transcribed(raw), later, settings, runs_llm);
    law_finished_is_final(later, settings, runs_llm);
    assert(teardown() + Seq::<Deed>::empty() =~= teardown());
}

/// The settings and the active mode ask for this.
pub open spec fn wanted(deed: Deed, settings: AppSettings, runs_llm: bool) -> bool {
    match deed {
        Deed::SaveHistory { what, retention_days } => settings.history_enabled && retention_days
            == settings.history_retention_days,
        Deed::Paste(_) => pastes(settings),
        Deed::StripFillers(_) => settings.remove_fillers,
        Deed::PostProcess { text, language, remove_fillers } => runs_llm && remove_fillers
            == settings.remove_fillers,
        _ => true,
    }
}

proof fn lemma_step_does_what_is_wanted(
    stage: Stage,
    outcome: Outcome,
    settings: AppSettings,
    runs_llm: bool,
)
    ensures
        ({
            let deeds = pipeline_step(stage, outcome, settings, runs_llm).1;
            forall|i: int| 0 <= i < deeds.len() ==> wanted(#[trigger] deeds[i], settings, runs_llm)
        }),
{
}

/// Whatever happens to a recording, nothing is kept, pasted, stripped of its fillers or given to
/// the language model that is not to be.
pub proof fn law_only_what_is_wanted_is_done(
    stage: Stage,
    outcomes: Seq<Outcome>,
    settings: AppSettings,
    runs_llm: bool,
)
    ensures
        ({
            let deeds = pipeline_run(stage, outcomes, settings, runs_llm).1;
            forall|i: int| 0 <= i < deeds.len() ==> wanted(#[trigger] deeds[i], settings, runs_llm)
        }),
    decreases outcomes.len(),
{
    if outcomes.len() > 0 {
        let next = pipeline_step(stage, outcomes[0], settings, runs_llm);
        let rest = pipeline_run(next.0, outcomes.drop_first(), settings, runs_llm);
        lemma_step_does_what_is_wanted(stage, outcomes[0], settings, runs_llm);
        law_only_what_is_wanted_is_done(next.0, outcomes.drop_first(), settings, runs_llm);
        let deeds = next.1 + rest.1;
        assert forall|i: int| 0 <= i < deeds.len() implies wanted(
            #[trigger] deeds[i],
            settings,
            runs_llm,
        ) by {
            if i < next.1.len() {
                assert(deeds[i] == next.1[i]);
            } else {
                assert(deeds[i] == rest.1[i - next.1.len()]);
            }
        }
    }
}

proof fn lemma_below(x: int, d: int, m: int)
    requires
        d > 0,
    ensures
        x / d < m <==> x < m * d,
        d * (x / d) <= x,
        x < d * (x / d) + d,
{
    vstd::arithmetic::div_mod::lemma_fundamental_div_mod(x, d);
    vstd::arithmetic::div_mod::lemma_mod_bound(x, d);
    let q = x / d;
    if q < m {
        assert(d * q + d <= d * m) by (nonlinear_arith)
            requires
                q < m,
                d > 0,
        ;
        assert(d * m == m * d) by (nonlinear_arith);
    } else {
        assert(m * d <= d * q) by (nonlinear_arith)
            requires
                q >= m,
                d > 0,
        ;
    }
}

/// How many samples make up a second: those of each channel, one after the other. A recording
/// without channels counts as one of one.
proof fn lemma_samples_per_second(sample_rate: u32, channels: u16)
    requires
        sample_rate > 0,
    ensures
        samples_per_second(sample_rate, channels) > 0,
        channels > 0 ==> samples_per_second(sample_rate, channels) == sample_rate * channels,
        channels == 0 ==> samples_per_second(sample_rate, channels) == sample_rate,
{
    assert(channels > 0 ==> sample_rate * channels > 0) by (nonlinear_arith)
        requires
            sample_rate > 0,
    ;
}

/// The length of a recording is its true length in whole milliseconds: with the samples of so
/// many channels to the second, it is neither too long for the samples nor a millisecond too
/// short.
pub proof fn law_duration_is_the_true_length(sample_count: int, sample_rate: u32, channels: u16)
    requires
        sample_count >= 0,
    ensures
        sample_rate == 0 ==> duration_ms(sample_count, sample_rate, channels) is None,
        sample_rate > 0 ==> {
            let per_second = sample_rate * if channels == 0 {
                1
            } else {
                channels as int
            };
            &&& duration_ms(sample_count, sample_rate, channels) matches Some(ms)
            &&& per_second * ms <= sample_count * 1000 < per_second * ms + per_second
        },
{
    if sample_rate > 0 {
        lemma_samples_per_second(sample_rate, channels);
        lemma_below(sample_count * 1000, samples_per_second(sample_rate, channels), 0);
        assert(sample_rate * 1 == sample_rate) by (nonlinear_arith);
    }
}

/// A recording is dropped at once exactly when it is empty, or is known to be shorter than the
/// settings ask for: when its samples, spread over all its channels, do not fill the minimum. It
/// is then cleaned up after; otherwise its level is measured next.
pub proof fn law_short_recordings_are_dropped(
    sample_count: int,
    sample_rate: u32,
    channels: u16,
    settings: AppSettings,
)
    requires
        sample_count >= 0,
    ensures
        ({
            let first = first_stage(sample_count, sample_rate, channels, settings);
            let per_second = sample_rate * if channels == 0 {
                1
            } else {
                channels as int
            };
            let drop = sample_count == 0 || (sample_rate > 0 && sample_count * 1000
                < settings.min_recording_ms * per_second);
            &&& drop ==> first == (
                Stage::Finished,
                seq![Deed::RestoreClipboard, Deed::HideOverlay, Deed::RecordingState("idle"@)],
            )
            &&& !drop ==> first == (Stage::Measuring, seq![Deed::MeasureLevel])
        }),
{
    if sample_rate > 0 {
        let d = samples_per_second(sample_rate, channels);
        lemma_samples_per_second(sample_rate, channels);
        lemma_below(sample_count * 1000, d, settings.min_recording_ms as int);
        assert(sample_rate * 1 == sample_rate) by (nonlinear_arith);
        if settings.min_recording_ms == 0 {
            assert(0 * d == 0) by (nonlinear_arith);
        }
    }
}

/// The number of channels makes no difference to how long a recording is: so many samples of each
/// of several channels are treated as that many samples of one.
pub proof fn law_channels_make_a_recording_no_longer(
    samples: int,
    sample_rate: u32,
    channels: u16,
    settings: AppSettings,
)
    requires
        samples >= 0,
        channels >= 1,
    ensures
        first_stage(samples * channels, sample_rate, channels, settings) == first_stage(
            samples,
            sample_rate,
            1,
            settings,
        ),
        duration_ms(samples * channels, sample_rate, channels) == duration_ms(
            samples,
            sample_rate,
            1,
        ),
        first_stage(samples, sample_rate, 0, settings) == first_stage(
            samples,
            sample_rate,
            1,
            settings,
        ),
{
    if sample_rate > 0 {
        let (c, r) = (channels as int, sample_rate as int);
        assert(r * 1 == r) by (nonlinear_arith);
        assert(samples * c * 1000 == c * (samples * 1000)) by (nonlinear_arith);
        assert(r * c == c * r) by (nonlinear_arith);
        lemma_scaled(samples * 1000, c, r);
    }
    assert(samples * channels == 0 <==> samples == 0) by (nonlinear_arith)
        requires
            channels >= 1,
    ;
}

proof fn lemma_scaled(x: int, c: int, d: int)
    requires
        x >= 0,
        c > 0,
        d > 0,
    ensures
        (c * x) / (c * d) == x / d,
{
    assert(c * d > 0) by (nonlinear_arith)
        requires
            c > 0,
            d > 0,
    ;
    assert(c * x >= 0) by (nonlinear_arith)
        requires
            c > 0,
            x >= 0,
    ;
    vstd::arithmetic::div_mod::lemma_div_denominator(c * x, c, d);
    assert(c * x == x * c) by (nonlinear_arith);
    vstd::arithmetic::div_mod::lemma_div_by_multiple(x, c);
}

/// A recording in which nothing is to be heard is dropped; any other is encoded, and the windows
/// learn that it is being worked on.
pub proof fn law_silence_is_dropped(silent: bool, settings: AppSettings, runs_llm: bool)
    ensures
        pipeline_step(
            Stage::Measuring,
            Outcome::LevelMeasured { silent },
            settings,
            runs_llm,
        ) == if silent {
            (
                Stage::Finished,
                seq![Deed::RestoreClipboard, Deed::HideOverlay, Deed::RecordingState("idle"@)],
            )
        } else {
            (Stage::Encoding, seq![Deed::RecordingState("processing"@), Deed::EncodeAudio])
        },
{
}

/// The speech model is told the language of the settings, where these fix one, and so are the
/// language model, the windows and the history. Where none is fixed, the speech model is told
/// none, the language model the primary language, and the windows and the history `auto`.
pub proof fn law_language_is_told_throughout(
    raw: Seq<char>,
    text: Seq<char>,
    settings: AppSettings,
)
    requires
        !blank(text),
    ensures
        ({
            let heard = pipeline_step(
                Stage::Encoding,
                Outcome::AudioEncoded,
                settings,
                true,
            );
            let stripped = pipeline_step(
                Stage::Stripping { raw },
                Outcome::FillersStripped(text),
                settings,
                true,
            );
            let pasted = pipeline_step(
                Stage::Pasting { raw, text },
                Outcome::Pasted,
                settings,
                true,
            );
            let expected = match settings.language_mode {
                LanguageMode::Japanese => (Some("ja"@), "ja"@, "ja"@),
                LanguageMode::English => (Some("en"@), "en"@, "en"@),
                LanguageMode::Auto => (None, settings.primary_language@, "auto"@),
            };
            &&& heard == (Stage::Transcribing, seq![Deed::Transcribe(expected.0)])
            &&& stripped == (
                Stage::PostProcessing { raw, stripped: text },
                seq![
                    Deed::PostProcess {
                        text,
                        language: expected.1,
                        remove_fillers: settings.remove_fillers,
                    },
                ],
            )
            &&& pasted.1[3] == Deed::TranscriptionResult(
                Transcription { text, raw_text: raw, language: expected.2 },
            )
            &&& settings.history_enabled ==> pasted.1[4] == (Deed::SaveHistory {
                what: Transcription { text, raw_text: raw, language: expected.2 },
                retention_days: settings.history_retention_days,
            })
        }),
{
}

/// What the speech model heard goes on unless it was made up; without its fillers, where these
/// are to go, it goes on unless nothing is left of it. What does not go on is dropped.
pub proof fn law_what_was_said_goes_on(
    raw: Seq<char>,
    text: Seq<char>,
    settings: AppSettings,
    runs_llm: bool,
)
    ensures
        ({
            let dropped = (
                Stage::Finished,
                seq![Deed::RestoreClipboard, Deed::HideOverlay, Deed::RecordingState("idle"@)],
            );
            let heard = pipeline_step(
                Stage::Transcribing,
                Outcome::Transcribed(raw),
                settings,
                runs_llm,
            );
            let stripped = pipeline_step(
                Stage::Stripping { raw },
                Outcome::FillersStripped(text),
                settings,
                runs_llm,
            );
            &&& made_up(normalized(raw)) ==> heard == dropped
            &&& !made_up(normalized(raw)) && settings.remove_fillers ==> heard == (
                Stage::Stripping { raw },
                seq![Deed::StripFillers(raw)],
            )
            &&& !made_up(normalized(raw)) && !settings.remove_fillers ==> heard == pipeline_step(
                Stage::Stripping { raw },
                Outcome::FillersStripped(raw),
                settings,
                runs_llm,
            )
            &&& trimmed(text).len() == 0 ==> stripped == dropped
            &&& trimmed(text).len() > 0 && !runs_llm ==> stripped == (
                Stage::Replacing { raw },
                seq![Deed::ApplyReplacements(text)],
            )
            &&& trimmed(text).len() > 0 && runs_llm ==> stripped.0 == (Stage::PostProcessing {
                raw,
                stripped: text,
            })
        }),
{
    law_blank_is_nothing_once_trimmed(text);
}

/// The replacements are applied to what the language model made of the text, or to the text
/// itself if the model failed.
pub proof fn law_failed_language_model_leaves_the_text(
    raw: Seq<char>,
    stripped: Seq<char>,
    text: Seq<char>,
    settings: AppSettings,
    runs_llm: bool,
)
    ensures
        pipeline_step(
            Stage::PostProcessing { raw, stripped },
            Outcome::PostProcessed(text),
            settings,
            runs_llm,
        ) == (Stage::Replacing { raw }, seq![Deed::ApplyReplacements(text)]),
        pipeline_step(
            Stage::PostProcessing { raw, stripped },
            Outcome::PostProcessingFailed,
            settings,
            runs_llm,
        ) == (Stage::Replacing { raw }, seq![Deed::ApplyReplacements(stripped)]),
{
}

/// The final text is pasted where the settings ask for a paste or for the selection to be
/// replaced, and then can be taken back. Pasted or not, it is shown with what was heard, after
/// the clipboard has been put back, and kept where a history is wanted.
pub proof fn law_final_text_is_delivered(
    raw: Seq<char>,
    text: Seq<char>,
    settings: AppSettings,
    runs_llm: bool,
)
    ensures
        ({
            let replaced = pipeline_step(
                Stage::Replacing { raw },
                Outcome::Replaced(text),
                settings,
                runs_llm,
            );
            let pasted = pipeline_step(
                Stage::Pasting { raw, text },
                Outcome::Pasted,
                settings,
                runs_llm,
            );
            let delivered = pasted.1.skip(1);
            &&& settings.auto_paste || settings.replace_selection ==> replaced == (
                Stage::Pasting { raw, text },
                seq![Deed::Paste(text)],
            )
            &&& !settings.auto_paste && !settings.replace_selection ==> replaced == (
                pasted.0,
                delivered,
            )
            &&& pasted.1[0] is MarkPasteUndoable
            &&& delivered.len() == if settings.history_enabled {
                4int
            } else {
                5int
            }
            &&& delivered[0] is RestoreClipboard && delivered[1] is ResizeOverlay
            &&& delivered[2] matches Deed::TranscriptionResult(what) && what.text == text
                && what.raw_text == raw
            &&& settings.history_enabled ==> pasted.0 is SavingHistory && (delivered[3] matches
                Deed::SaveHistory { what, retention_days } && Deed::TranscriptionResult(what)
                == delivered[2] && retention_days == settings.history_retention_days)
            &&& !settings.history_enabled ==> pasted.0 is Finished && delivered[3]
                == Deed::RecordingState("idle"@) && delivered[4] == Deed::HideOverlayAfter(2000)
        }),
{
    let next = once_delivered(raw, text, settings);
    let pasted = pipeline_step(Stage::Pasting { raw, text }, Outcome::Pasted, settings, runs_llm);
    assert(pasted.1.skip(1) =~= next.1);
}

/// Once the history has been seen to, the windows learn of a new entry if there is one, and the
/// result is taken off the screen after two seconds.
pub proof fn law_result_is_shown_for_two_seconds(settings: AppSettings, runs_llm: bool)
    ensures
        pipeline_step(Stage::SavingHistory, Outcome::HistorySaved, settings, runs_llm) == (
            Stage::Finished,
            seq![
                Deed::HistoryUpdated,
                Deed::RebuildTray,
                Deed::RecordingState("idle"@),
                Deed::HideOverlayAfter(2000),
            ],
        ),
        pipeline_step(Stage::SavingHistory, Outcome::HistoryFailed, settings, runs_llm) == (
            Stage::Finished,
            seq![Deed::RecordingState("idle"@), Deed::HideOverlayAfter(2000)],
        ),
{
    assert(seq![Deed::HistoryUpdated, Deed::RebuildTray] + closing() =~= seq![
        Deed::HistoryUpdated,
        Deed::RebuildTray,
        Deed::RecordingState("idle"@),
        Deed::HideOverlayAfter(2000),
    ]);
}

/// What goes wrong with the encoding, the speech model or the paste ends the recording: the
/// clipboard is put back, the user is told the reason, and the overlay goes.
pub proof fn law_failures_are_told(
    raw: Seq<char>,
    text: Seq<char>,
    reason: Seq<char>,
    settings: AppSettings,
    runs_llm: bool,
)
    ensures
        ({
            let failed = (
                Stage::Finished,
                seq![
                    Deed::RestoreClipboard,
                    Deed::Error(reason),
                    Deed::RecordingState("idle"@),
                    Deed::ConcealOverlay,
                ],
            );
            &&& pipeline_step(Stage::Encoding, Outcome::AudioFailed(reason), settings, runs_llm)
                == failed
            &&& pipeline_step(
                Stage::Transcribing,
                Outcome::TranscriptionFailed(reason),
                settings,
                runs_llm,
            ) == failed
            &&& pipeline_step(
                Stage::Pasting { raw, text },
                Outcome::PasteFailed(reason),
                settings,
                runs_llm,
            ) == failed
        }),
{
}

/// A recording waits for one thing at a time: an outcome of something else changes nothing.
pub proof fn law_recording_takes_only_what_it_waits_for(
    stage: Stage,
    outcome: Outcome,
    settings: AppSettings,
    runs_llm: bool,
)
    ensures
        ({
            let awaited = match stage {
                Stage::Measuring => outcome is LevelMeasured,
                Stage::Encoding => outcome is AudioEncoded || outcome is AudioFailed,
                Stage::Transcribing => outcome is Transcribed || outcome is TranscriptionFailed,
                Stage::Stripping { raw } => outcome is FillersStripped,
                Stage::PostProcessing { raw, stripped } => outcome is PostProcessed || outcome
                    is PostProcessingFailed,
                Stage::Replacing { raw } => outcome is Replaced,
                Stage::Pasting { raw, text } => outcome is Pasted || outcome is PasteFailed,
                Stage::SavingHistory => outcome is HistorySaved || outcome is HistoryFailed,
                Stage::Finished => false,
            };
            let next = pipeline_step(stage, outcome, settings, runs_llm);
            &&& !awaited ==> next == (stage, Seq::<Deed>::empty())
            &&& awaited ==> next.1.len() > 0
        }),
{
}

} // verus!
