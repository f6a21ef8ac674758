//! Trying out the microphone, the speech model and the language model from the settings.
use crate::effect::{Deed, Effect};
use crate::hallucination::{made_up, normalized};
use crate::pipeline::{
    only_if, pipeline_step, text_kept, text_language, text_worked_on, Answers, Outcome, Stage,
};
use crate::settings::{language_code, language_of, AppSettings, LanguageMode};
use crate::text::{
    blank, decimal, decimal_text, is_blank, law_blank_is_nothing_once_trimmed, same_text, trimmed,
};
use vstd::prelude::*;
use vstd::string::*;

verus! {

/// What a trial shows: what the speech model heard, and what was made of it, if anything.
#[derive(Debug, Clone)]
pub struct SttTestResult {
    pub raw_text: String,
    pub processed_text: Option<String>,
}

/// What a [`SttTestResult`] says.
pub ghost struct Shown {
    pub raw: Seq<char>,
    pub processed: Option<Seq<char>>,
}

impl DeepView for SttTestResult {
    type V = Shown;

    open spec fn deep_view(&self) -> Shown {
        Shown { raw: self.raw_text@, processed: self.processed_text.deep_view() }
    }
}

/// The part of a trial that can fail.
#[derive(Debug, Clone, Copy, PartialEq, Eq, Structural)]
pub enum SttTestPart {
    Microphone,
    Encoding,
    Transcription,
}

/// The error for a part that failed.
pub open spec fn failure_of(part: SttTestPart, reason: Seq<char>) -> Seq<char> {
    match part {
        SttTestPart::Microphone => "Microphone error: "@ + reason,
        SttTestPart::Encoding => "WAV encode error: "@ + reason,
        SttTestPart::Transcription => "STT error: "@ + reason,
    }
}

/// The error for a part of a trial that failed for this reason.
pub fn failure_text(part: SttTestPart, reason: &str) -> (r: String)
    ensures
        r@ == failure_of(part, reason@),
{
    let mut r = match part {
        SttTestPart::Microphone => "Microphone error: ".to_owned(),
        SttTestPart::Encoding => "WAV encode error: ".to_owned(),
        SttTestPart::Transcription => "STT error: ".to_owned(),
    };
    r.append(reason);
    r
}

/// What a trial shows when there is nothing to transcribe, if so.
pub open spec fn capture_verdict(sample_count: int, silent: bool) -> Option<Shown> {
    if sample_count == 0 {
        Some(
            Shown {
                raw: "No samples captured. Check microphone permission."@,
                processed: None,
            },
        )
    } else if silent {
        Some(
            Shown {
                raw: "No audio detected. Speak louder or check mic settings."@,
                processed: None,
            },
        )
    } else {
        None
    }
}

/// What a trial shows when there is nothing to transcribe, if so.
pub fn check_capture(sample_count: usize, silent: bool) -> (r: Option<SttTestResult>)
    ensures
        r.deep_view() == capture_verdict(sample_count as int, silent),
{
    if sample_count == 0 {
        Some(
            SttTestResult {
                raw_text: "No samples captured. Check microphone permission.".to_owned(),
                processed_text: None,
            },
        )
    } else if silent {
        Some(
            SttTestResult {
                raw_text: "No audio detected. Speak louder or check mic settings.".to_owned(),
                processed_text: None,
            },
        )
    } else {
        None
    }
}

/// How loud a recording of the microphone is, with its peak and its mean as they are written.
#[derive(Debug)]
pub enum MicrophoneLevel {
    Heard { peak: String, rms: String },
    Silent { peak: String },
}

/// What a trial of the microphone alone shows.
pub open spec fn microphone_verdict(sample_count: nat, level: MicrophoneLevel) -> Seq<char> {
    if sample_count == 0 {
        "No samples captured. Check microphone permission in System Settings > Privacy & Security > Microphone."@
    } else {
        match level {
            MicrophoneLevel::Heard { peak, rms } => "Microphone working! ("@ + decimal(sample_count)
                + " samples, peak="@ + peak@ + ", rms="@ + rms@ + ")"@,
            MicrophoneLevel::Silent { peak } => "No audio detected. "@ + decimal(sample_count)
                + " samples captured but all silent (peak="@ + peak@
                + "). Check mic permission or input device."@,
        }
    }
}

/// What a trial of the microphone alone shows.
pub fn test_microphone(sample_count: usize, level: MicrophoneLevel) -> (r: String)
    ensures
        r@ == microphone_verdict(sample_count as nat, level),
{
    if sample_count == 0 {
        return "No samples captured. Check microphone permission in System Settings > Privacy & Security > Microphone.".to_owned();
    }
    match level {
        MicrophoneLevel::Heard { peak, rms } => {
            let mut r = "Microphone working! (".to_owned();
            r.append(decimal_text(sample_count as u64).as_str());
            r.append(" samples, peak=");
            r.append(peak.as_str());
            r.append(", rms=");
            r.append(rms.as_str());
            r.append(")");
            r
        },
        MicrophoneLevel::Silent { peak } => {
            let mut r = "No audio detected. ".to_owned();
            r.append(decimal_text(sample_count as u64).as_str());
            r.append(" samples captured but all silent (peak=");
            r.append(peak.as_str());
            r.append("). Check mic permission or input device.");
            r
        },
    }
}

/// How far a trial has come, and what is known.
#[derive(Debug)]
pub enum SttTestPhase {
    /// The speech model is at work.
    Transcribing,
    /// The fillers are being taken out.
    Stripping { raw_text: String },
    /// The language model is at work.
    PostProcessing { raw_text: String, stripped: String },
    /// The replacements are being applied to what was made of the text, or to the text itself.
    Replacing { raw_text: String, stripped: String, processed: Option<String> },
    /// The trial is over.
    Finished,
}

/// What a [`SttTestPhase`] says.
pub ghost enum Trial {
    Transcribing,
    Stripping { raw: Seq<char> },
    PostProcessing { raw: Seq<char>, stripped: Seq<char> },
    Replacing { raw: Seq<char>, stripped: Seq<char>, processed: Option<Seq<char>> },
    Finished,
}

impl DeepView for SttTestPhase {
    type V = Trial;

    open spec fn deep_view(&self) -> Trial {
        match self {
            SttTestPhase::Transcribing => Trial::Transcribing,
            SttTestPhase::Stripping { raw_text } => Trial::Stripping { raw: raw_text@ },
            SttTestPhase::PostProcessing { raw_text, stripped } => Trial::PostProcessing {
                raw: raw_text@,
                stripped: stripped@,
            },
            SttTestPhase::Replacing { raw_text, stripped, processed } => Trial::Replacing {
                raw: raw_text@,
                stripped: stripped@,
                processed: processed.deep_view(),
            },
            SttTestPhase::Finished => Trial::Finished,
        }
    }
}

/// What came of the effect that the trial last asked for.
#[derive(Debug)]
pub enum SttTestEvent {
    Transcribed(String),
    FillersStripped(String),
    PostProcessed(String),
    /// The language model failed, for this reason.
    PostProcessingFailed(String),
    Replaced(String),
}

/// What a [`SttTestEvent`] says.
pub ghost enum Reply {
    Transcribed(Seq<char>),
    FillersStripped(Seq<char>),
    PostProcessed(Seq<char>),
    PostProcessingFailed(Seq<char>),
    Replaced(Seq<char>),
}

impl DeepView for SttTestEvent {
    type V = Reply;

    open spec fn deep_view(&self) -> Reply {
        match self {
            SttTestEvent::Transcribed(text) => Reply::Transcribed(text@),
            SttTestEvent::FillersStripped(text) => Reply::FillersStripped(text@),
            SttTestEvent::PostProcessed(text) => Reply::PostProcessed(text@),
            SttTestEvent::PostProcessingFailed(reason) => Reply::PostProcessingFailed(reason@),
            SttTestEvent::Replaced(text) => Reply::Replaced(text@),
        }
    }
}

/// What a trial does next.
#[derive(Debug)]
pub enum SttTestStep {
    /// It asks for an effect.
    Ask(Effect),
    /// It is over and shows this.
    Done(SttTestResult),
    /// It goes on waiting.
    Wait,
}

/// What a [`SttTestStep`] says.
pub ghost enum Turn {
    Ask(Deed),
    Done(Shown),
    Wait,
}

impl DeepView for SttTestStep {
    type V = Turn;

    open spec fn deep_view(&self) -> Turn {
        match self {
            SttTestStep::Ask(effect) => Turn::Ask(effect.deep_view()),
            SttTestStep::Done(result) => Turn::Done(result.deep_view()),
            SttTestStep::Wait => Turn::Wait,
        }
    }
}

/// What a trial does with the text that is left without the fillers. Where the language model
/// has no part, the text is shown if the fillers made a difference.
pub open spec fn trial_stripped(
    raw: Seq<char>,
    stripped: Seq<char>,
    settings: AppSettings,
    runs_llm: bool,
) -> (Trial, Turn) {
    if blank(stripped) {
        (Trial::Finished, Turn::Done(Shown { raw, processed: Some(Seq::empty()) }))
    } else if runs_llm {
        (
            Trial::PostProcessing { raw, stripped },
            Turn::Ask(
                Deed::PostProcess {
                    text: stripped,
                    language: text_language(settings),
                    remove_fillers: settings.remove_fillers,
                },
            ),
        )
    } else {
        (
            Trial::Replacing {
                raw,
                stripped,
                processed: if stripped != raw {
                    Some(stripped)
                } else {
                    None
                },
            },
            Turn::Ask(Deed::ApplyReplacements(stripped)),
        )
    }
}

/// What was made of a text so far.
pub open spec fn made_of(stripped: Seq<char>, processed: Option<Seq<char>>) -> Seq<char> {
    match processed {
        Some(text) => text,
        None => stripped,
    }
}

/// The next phase of a trial and what it does. A reply that it does not wait for changes
/// nothing.
pub open spec fn trial_step(
    trial: Trial,
    reply: Reply,
    settings: AppSettings,
    runs_llm: bool,
) -> (Trial, Turn) {
    match (trial, reply) {
        (Trial::Transcribing, Reply::Transcribed(raw)) => if blank(raw) {
            (
                Trial::Finished,
                Turn::Done(
                    Shown {
                        raw: "Audio captured but STT returned empty text."@,
                        processed: None,
                    },
                ),
            )
        } else if settings.remove_fillers {
            (Trial::Stripping { raw }, Turn::Ask(Deed::StripFillers(raw)))
        } else {
            trial_stripped(raw, raw, settings, runs_llm)
        },
        (Trial::Stripping { raw }, Reply::FillersStripped(text)) => trial_stripped(
            raw,
            text,
            settings,
            runs_llm,
        ),
        (Trial::PostProcessing { raw, stripped }, Reply::PostProcessed(text)) => (
            Trial::Replacing { raw, stripped, processed: Some(text) },
            Turn::Ask(Deed::ApplyReplacements(text)),
        ),
        (Trial::PostProcessing { raw, stripped }, Reply::PostProcessingFailed(reason)) => {
            let text = "(LLM error: "@ + reason + ")"@;
            (
                Trial::Replacing { raw, stripped, processed: Some(text) },
                Turn::Ask(Deed::ApplyReplacements(text)),
            )
        },
        (Trial::Replacing { raw, stripped, processed }, Reply::Replaced(text)) => (
            Trial::Finished,
            Turn::Done(
                Shown {
                    raw,
                    processed: if text != made_of(stripped, processed) {
                        Some(text)
                    } else {
                        processed
                    },
                },
            ),
        ),
        _ => (trial, Turn::Wait),
    }
}

/// A trial that has something to transcribe.
#[derive(Debug)]
pub struct SttTest {
    pub phase: SttTestPhase,
    pub settings: AppSettings,
    /// The active mode has the language model work on the text.
    pub runs_llm: bool,
}

impl SttTest {
    /// Starts with a recording that has been encoded.
    pub fn begin(settings: AppSettings, runs_llm: bool) -> (r: (SttTest, Effect))
        ensures
            r.0.phase.deep_view() == Trial::Transcribing,
            r.0.settings == settings,
            r.0.runs_llm == runs_llm,
            r.1.deep_view() == Deed::Transcribe(language_of(settings.language_mode)),
    {
        let effect = Effect::Transcribe(language_code(settings.language_mode));
        (SttTest { phase: SttTestPhase::Transcribing, settings, runs_llm }, effect)
    }

    fn stripped(&self, raw_text: String, stripped: String) -> (r: (SttTestPhase, SttTestStep))
        ensures
            (r.0.deep_view(), r.1.deep_view()) == trial_stripped(
                raw_text@,
                stripped@,
                self.settings,
                self.runs_llm,
            ),
    {
        if is_blank(stripped.as_str()) {
            let result = SttTestResult { raw_text, processed_text: Some(String::new()) };
            (SttTestPhase::Finished, SttTestStep::Done(result))
        } else if self.runs_llm {
            let language = match language_code(self.settings.language_mode) {
                Some(code) => code,
                None => self.settings.primary_language.clone(),
            };
            let effect = Effect::PostProcess {
                text: stripped.clone(),
                language,
                remove_fillers: self.settings.remove_fillers,
            };
            (SttTestPhase::PostProcessing { raw_text, stripped }, SttTestStep::Ask(effect))
        } else {
            let processed = if same_text(stripped.as_str(), raw_text.as_str()) {
                None
            } else {
                Some(stripped.clone())
            };
            let effect = Effect::ApplyReplacements(stripped.clone());
            (SttTestPhase::Replacing { raw_text, stripped, processed }, SttTestStep::Ask(effect))
        }
    }

    /// The phase that follows and what is done, if the phase waits for `event`.
    fn next(&self, event: SttTestEvent) -> (r: Option<(SttTestPhase, SttTestStep)>)
        ensures
            ({
                let next = trial_step(
                    self.phase.deep_view(),
                    event.deep_view(),
                    self.settings,
                    self.runs_llm,
                );
                match r {
                    Some((phase, step)) => (phase.deep_view(), step.deep_view()) == next,
                    None => (self.phase.deep_view(), Turn::Wait) == next,
                }
            }),
    {
        let next = match (&self.phase, event) {
            (SttTestPhase::Transcribing, SttTestEvent::Transcribed(raw_text)) => {
                if is_blank(raw_text.as_str()) {
                    let result = SttTestResult {
                        raw_text: "Audio captured but STT returned empty text.".to_owned(),
                        processed_text: None,
                    };
                    (SttTestPhase::Finished, SttTestStep::Done(result))
                } else if self.settings.remove_fillers {
                    let effect = Effect::StripFillers(raw_text.clone());
                    (SttTestPhase::Stripping { raw_text }, SttTestStep::Ask(effect))
                } else {
                    let stripped = raw_text.clone();
                    self.stripped(raw_text, stripped)
                }
            },
            (SttTestPhase::Stripping { raw_text }, SttTestEvent::FillersStripped(text)) => {
                self.stripped(raw_text.clone(), text)
            },
            (
                SttTestPhase::PostProcessing { raw_text, stripped },
                SttTestEvent::PostProcessed(text),
            ) => {
                let effect = Effect::ApplyReplacements(text.clone());
                let phase = SttTestPhase::Replacing {
                    raw_text: raw_text.clone(),
                    stripped: stripped.clone(),
                    processed: Some(text),
                };
                (phase, SttTestStep::Ask(effect))
            },
            (
                SttTestPhase::PostProcessing { raw_text, stripped },
                SttTestEvent::PostProcessingFailed(reason),
            ) => {
                let mut text = "(LLM error: ".to_owned();
                text.append(reason.as_str());
                text.append(")");
                let effect = Effect::ApplyReplacements(text.clone());
                let phase = SttTestPhase::Replacing {
                    raw_text: raw_text.clone(),
                    stripped: stripped.clone(),
                    processed: Some(text),
                };
                (phase, SttTestStep::Ask(effect))
            },
            (
                SttTestPhase::Replacing { raw_text, stripped, processed },
                SttTestEvent::Replaced(text),
            ) => {
                let unchanged = match processed {
                    Some(before) => same_text(text.as_str(), before.as_str()),
                    None => same_text(text.as_str(), stripped.as_str()),
                };
                let processed_text = if unchanged {
                    processed.clone()
                } else {
                    Some(text)
                };
                let result = SttTestResult { raw_text: raw_text.clone(), processed_text };
                (SttTestPhase::Finished, SttTestStep::Done(result))
            },
            _ => {
                return None;
            },
        };
        Some(next)
    }

    /// Goes on after `event`.
    pub fn step(&mut self, event: SttTestEvent) -> (r: SttTestStep)
        ensures
            (final(self).phase.deep_view(), r.deep_view()) == trial_step(
                old(self).phase.deep_view(),
                event.deep_view(),
                old(self).settings,
                old(self).runs_llm,
            ),
            final(self).settings == old(self).settings,
            final(self).runs_llm == old(self).runs_llm,
    {
        match self.next(event) {
            Some((phase, step)) => {
                self.phase = phase;
                step
            },
            None => SttTestStep::Wait,
        }
    }
}

/// What a trial does in the end, when it is given `replies`.
pub open spec fn trial_run(
    trial: Trial,
    replies: Seq<Reply>,
    settings: AppSettings,
    runs_llm: bool,
) -> (Trial, Turn)
    decreases replies.len(),
{
    if replies.len() == 0 {
        (trial, Turn::Wait)
    } else {
        let before = trial_run(trial, replies.drop_last(), settings, runs_llm);
        trial_step(before.0, replies.last(), settings, runs_llm)
    }
}

/// The replies that answer a trial one by one, when nothing fails.
pub open spec fn replies_of(settings: AppSettings, runs_llm: bool, a: Answers) -> Seq<Reply> {
    seq![Reply::Transcribed(a.raw)] + only_if(
        settings.remove_fillers,
        seq![Reply::FillersStripped(a.stripped)],
    ) + only_if(runs_llm, seq![Reply::PostProcessed(a.processed->0)]) + seq![
        Reply::Replaced(a.replaced),
    ]
}

/// A trial shows what a dictation would give: with the same answers from outside, what it shows
/// as made of the text, or else the text itself, is the text that a dictation delivers.
pub proof fn law_trial_shows_what_dictation_gives(
    settings: AppSettings,
    runs_llm: bool,
    a: Answers,
)
    requires
        !blank(a.raw),
        !blank(text_kept(settings, a)),
        runs_llm ==> a.processed is Some,
    ensures
        ({
            let end = trial_run(
                Trial::Transcribing,
                replies_of(settings, runs_llm, a),
                settings,
                runs_llm,
            );
            &&& end.0 is Finished
            &&& end.1 matches Turn::Done(shown)
            &&& shown.raw == a.raw
            &&& made_of(a.raw, shown.processed) == a.replaced
        }),
{
    let r1 = seq![Reply::Transcribed(a.raw)];
    let r2 = r1 + only_if(settings.remove_fillers, seq![Reply::FillersStripped(a.stripped)]);
    let r3 = r2 + only_if(runs_llm, seq![Reply::PostProcessed(a.processed->0)]);
    let r4 = r3 + seq![Reply::Replaced(a.replaced)];
    let start = Trial::Transcribing;
    let kept = text_kept(settings, a);
    assert(r1.drop_last() =~= Seq::<Reply>::empty());
    assert(trial_run(start, Seq::<Reply>::empty(), settings, runs_llm).0 == start);
    assert(trial_run(start, r1, settings, runs_llm) == trial_step(
        start,
        Reply::Transcribed(a.raw),
        settings,
        runs_llm,
    ));
    if settings.remove_fillers {
        assert(r2.drop_last() =~= r1);
    } else {
        assert(r2 =~= r1);
    }
    assert(trial_run(start, r2, settings, runs_llm) == trial_stripped(
        a.raw,
        kept,
        settings,
        runs_llm,
    ));
    if runs_llm {
        assert(r3.drop_last() =~= r2);
    } else {
        assert(r3 =~= r2);
    }
    let third = trial_run(start, r3, settings, runs_llm).0;
    assert(third matches Trial::Replacing { raw, stripped, processed } && raw == a.raw && stripped
        == kept && made_of(stripped, processed) == text_worked_on(settings, runs_llm, a));
    assert(r4.drop_last() =~= r3);
    assert(r4 =~= replies_of(settings, runs_llm, a));
}

/// A trial asks for what a dictation asks for. Of the same text, with the same settings, it asks
/// the language model for the same thing, in the same language; it has the same fillers taken
/// out, and the same replacements applied.
pub proof fn law_trial_asks_what_a_dictation_asks(
    raw: Seq<char>,
    stripped: Seq<char>,
    text: Seq<char>,
    settings: AppSettings,
    runs_llm: bool,
)
    ensures
        !made_up(normalized(raw)) && !blank(raw) ==> {
            let dictation = pipeline_step(
                Stage::Transcribing,
                Outcome::Transcribed(raw),
                settings,
                runs_llm,
            );
            &&& trial_step(
                Trial::Transcribing,
                Reply::Transcribed(raw),
                settings,
                runs_llm,
            ).1 matches Turn::Ask(deed)
            &&& dictation.1 == seq![deed]
        },
        !blank(text) ==> {
            let dictation = pipeline_step(
                Stage::Stripping { raw },
                Outcome::FillersStripped(text),
                settings,
                runs_llm,
            );
            &&& trial_step(
                Trial::Stripping { raw },
                Reply::FillersStripped(text),
                settings,
                runs_llm,
            ).1 matches Turn::Ask(deed)
            &&& dictation.1 == seq![deed]
        },
        ({
            let dictation = pipeline_step(
                Stage::PostProcessing { raw, stripped },
                Outcome::PostProcessed(text),
                settings,
                runs_llm,
            );
            &&& trial_step(
                Trial::PostProcessing { raw, stripped },
                Reply::PostProcessed(text),
                settings,
                runs_llm,
            ).1 matches Turn::Ask(deed)
            &&& dictation.1 == seq![deed]
        }),
{
}

/// What a trial asks of the language model: to work on the text that is left without the fillers,
/// in the language that the settings fix or else in the primary language.
pub proof fn law_trial_names_the_language(raw: Seq<char>, text: Seq<char>, settings: AppSettings)
    requires
        !blank(text),
    ensures
        trial_step(Trial::Stripping { raw }, Reply::FillersStripped(text), settings, true) == (
            Trial::PostProcessing { raw, stripped: text },
            Turn::Ask(
                Deed::PostProcess {
                    text,
                    language: match settings.language_mode {
                        LanguageMode::Japanese => "ja"@,
                        LanguageMode::English => "en"@,
                        LanguageMode::Auto => settings.primary_language@,
                    },
                    remove_fillers: settings.remove_fillers,
                },
            ),
        ),
{
}

/// A trial goes on with what was heard unless that is blank, and takes out the fillers only where
/// they are to go.
pub proof fn law_trial_goes_on_with_what_was_heard(
    raw: Seq<char>,
    text: Seq<char>,
    settings: AppSettings,
    runs_llm: bool,
)
    ensures
        ({
            let heard = trial_step(
                Trial::Transcribing,
                Reply::Transcribed(raw),
                settings,
                runs_llm,
            );
            let stripped = trial_step(
                Trial::Stripping { raw },
                Reply::FillersStripped(text),
                settings,
                runs_llm,
            );
            &&& trimmed(raw).len() == 0 ==> heard == (
                Trial::Finished,
                Turn::Done(
                    Shown {
                        raw: "Audio captured but STT returned empty text."@,
                        processed: None,
                    },
                ),
            )
            &&& trimmed(raw).len() > 0 && settings.remove_fillers ==> heard == (
                Trial::Stripping { raw },
                Turn::Ask(Deed::StripFillers(raw)),
            )
            &&& trimmed(raw).len() > 0 && !settings.remove_fillers ==> heard == trial_step(
                Trial::Stripping { raw },
                Reply::FillersStripped(raw),
                settings,
                runs_llm,
            )
            &&& trimmed(text).len() == 0 ==> stripped == (
                Trial::Finished,
                Turn::Done(Shown { raw, processed: Some(Seq::empty()) }),
            )
        }),
{
    law_blank_is_nothing_once_trimmed(raw);
    law_blank_is_nothing_once_trimmed(text);
}

/// A language model that fails in a trial is shown to have failed, with the reason; that note goes
/// on in place of its answer.
pub proof fn law_trial_shows_a_failed_language_model(
    raw: Seq<char>,
    stripped: Seq<char>,
    reason: Seq<char>,
    settings: AppSettings,
    runs_llm: bool,
)
    ensures
        trial_step(
            Trial::PostProcessing { raw, stripped },
            Reply::PostProcessingFailed(reason),
            settings,
            runs_llm,
        ) == trial_step(
            Trial::PostProcessing { raw, stripped },
            Reply::PostProcessed("(LLM error: "@ + reason + ")"@),
            settings,
            runs_llm,
        ),
        trial_step(
            Trial::PostProcessing { raw, stripped },
            Reply::PostProcessingFailed(reason),
            settings,
            runs_llm,
        ).1 == Turn::Ask(Deed::ApplyReplacements("(LLM error: "@ + reason + ")"@)),
{
}

/// Beside what was heard, a trial shows what was made of it exactly when the language model was
/// asked, or the text is no longer what was heard.
pub proof fn law_trial_shows_only_what_is_new(
    settings: AppSettings,
    runs_llm: bool,
    a: Answers,
)
    requires
        !blank(a.raw),
        !blank(text_kept(settings, a)),
        runs_llm ==> a.processed is Some,
    ensures
        ({
            let end = trial_run(
                Trial::Transcribing,
                replies_of(settings, runs_llm, a),
                settings,
                runs_llm,
            );
            let kept = if settings.remove_fillers {
                a.stripped
            } else {
                a.raw
            };
            &&& end.1 matches Turn::Done(shown)
            &&& shown.processed == if runs_llm || kept != a.raw || a.replaced != kept {
                Some(a.replaced)
            } else {
                None
            }
        }),
{
    law_trial_shows_what_dictation_gives(settings, runs_llm, a);
    let start = Trial::Transcribing;
    let replies = replies_of(settings, runs_llm, a);
    let r1 = seq![Reply::Transcribed(a.raw)];
    let r2 = r1 + only_if(settings.remove_fillers, seq![Reply::FillersStripped(a.stripped)]);
    let r3 = r2 + only_if(runs_llm, seq![Reply::PostProcessed(a.processed->0)]);
    assert(replies.drop_last() =~= r3);
    assert(r1.drop_last() =~= Seq::<Reply>::empty());
    assert(trial_run(start, Seq::<Reply>::empty(), settings, runs_llm).0 == start);
    assert(trial_run(start, r1, settings, runs_llm) == trial_step(
        start,
        Reply::Transcribed(a.raw),
        settings,
        runs_llm,
    ));
    if settings.remove_fillers {
        assert(r2.drop_last() =~= r1);
    } else {
        assert(r2 =~= r1);
    }
    let kept = text_kept(settings, a);
    assert(trial_run(start, r2, settings, runs_llm) == trial_stripped(
        a.raw,
        kept,
        settings,
        runs_llm,
    ));
    if runs_llm {
        assert(r3.drop_last() =~= r2);
    } else {
        assert(r3 =~= r2);
    }
    assert(trial_run(start, r3, settings, runs_llm).0 == (Trial::Replacing {
        raw: a.raw,
        stripped: kept,
        processed: if runs_llm {
            a.processed
        } else if kept != a.raw {
            Some(kept)
        } else {
            None
        },
    }));
    assert(replies.last() == Reply::Replaced(a.replaced));
    assert(trial_run(start, replies, settings, runs_llm) == trial_step(
        trial_run(start, r3, settings, runs_llm).0,
        Reply::Replaced(a.replaced),
        settings,
        runs_llm,
    ));
}

/// A trial waits for one thing at a time: a reply to something else changes nothing.
pub proof fn law_trial_takes_only_what_it_waits_for(
    trial: Trial,
    reply: Reply,
    settings: AppSettings,
    runs_llm: bool,
)
    ensures
        ({
            let awaited = match trial {
                Trial::Transcribing => reply is Transcribed,
                Trial::Stripping { raw } => reply is FillersStripped,
                Trial::PostProcessing { raw, stripped } => reply is PostProcessed || reply
                    is PostProcessingFailed,
                Trial::Replacing { raw, stripped, processed } => reply is Replaced,
                Trial::Finished => false,
            };
            let next = trial_step(trial, reply, settings, runs_llm);
            &&& !awaited ==> next == (trial, Turn::Wait)
            &&& awaited ==> !(next.1 is Wait)
        }),
{
}

/// A recording without samples is reported as such, however loud, and one that is silent as
/// silent; only one with something to hear goes on.
pub proof fn law_empty_and_silent_trials_are_told_apart(
    sample_count: nat,
    silent: bool,
    level: MicrophoneLevel,
)
    ensures
        sample_count == 0 ==> (capture_verdict(sample_count as int, silent) matches Some(shown)
            && shown.raw == "No samples captured. Check microphone permission."@
            && shown.processed is None),
        sample_count > 0 && silent ==> (capture_verdict(sample_count as int, silent) matches Some(
            shown,
        ) && shown.raw == "No audio detected. Speak louder or check mic settings."@
            && shown.processed is None),
        sample_count > 0 && !silent ==> capture_verdict(sample_count as int, silent) is None,
        sample_count == 0 ==> microphone_verdict(sample_count, level)
            == "No samples captured. Check microphone permission in System Settings > Privacy & Security > Microphone."@,
{
}

/// A trial of the microphone reports how many samples there were and how loud they are, and a part
/// that fails is named with the reason.
pub proof fn law_trials_report_what_they_found(
    sample_count: nat,
    peak: String,
    rms: String,
    reason: Seq<char>,
)
    requires
        sample_count > 0,
    ensures
        microphone_verdict(sample_count, MicrophoneLevel::Heard { peak, rms })
            == "Microphone working! ("@ + decimal(sample_count) + " samples, peak="@ + peak@
            + ", rms="@ + rms@ + ")"@,
        microphone_verdict(sample_count, MicrophoneLevel::Silent { peak }) == "No audio detected. "@
            + decimal(sample_count) + " samples captured but all silent (peak="@ + peak@
            + "). Check mic permission or input device."@,
        failure_of(SttTestPart::Microphone, reason) == "Microphone error: "@ + reason,
        failure_of(SttTestPart::Encoding, reason) == "WAV encode error: "@ + reason,
        failure_of(SttTestPart::Transcription, reason) == "STT error: "@ + reason,
{
}

} // verus!
