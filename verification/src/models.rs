//! The speech models on this machine: which are there, getting one, and setting up what runs
//! them.
use vstd::prelude::*;
use vstd::string::*;

verus! {

/// The models that can be had.
pub open spec fn model_names() -> Seq<Seq<char>> {
    seq!["tiny"@, "base"@, "small"@, "medium"@, "large-v3"@]
}

/// The directory in the model cache that holds a model.
pub open spec fn model_directory(model: Seq<char>) -> Seq<char> {
    "models--Systran--faster-whisper-"@ + model
}

/// The models that can be had.
fn model_name_list() -> (r: Vec<&'static str>)
    ensures
        r@.len() == model_names().len(),
        forall|i: int| 0 <= i < r@.len() ==> (#[trigger] r@[i])@ == model_names()[i],
{
    vec!["tiny", "base", "small", "medium", "large-v3"]
}

/// The directories in the model cache where the models would be, in the order of the models.
pub fn model_directories() -> (r: Vec<String>)
    ensures
        r.deep_view() == model_names().map_values(|m: Seq<char>| model_directory(m)),
{
    let names = model_name_list();
    let mut r: Vec<String> = Vec::new();
    for i in 0..names.len()
        invariant
            names@.len() == model_names().len(),
            forall|k: int| 0 <= k < names@.len() ==> (#[trigger] names@[k])@ == model_names()[k],
            r@.len() == i,
            forall|k: int| 0 <= k < i ==> (#[trigger] r@[k])@ == model_directory(model_names()[k]),
    {
        let mut directory = "models--Systran--faster-whisper-".to_owned();
        directory.append(names[i]);
        r.push(directory);
    }
    assert(r.deep_view() =~= model_names().map_values(|m: Seq<char>| model_directory(m)));
    r
}

/// The models among the first `n` that are there, in order.
pub open spec fn models_present(present: Seq<bool>, n: int) -> Seq<Seq<char>>
    decreases n,
{
    if n <= 0 {
        seq![]
    } else if present[n - 1] {
        models_present(present, n - 1).push(model_names()[n - 1])
    } else {
        models_present(present, n - 1)
    }
}

/// The models that are there, given for each of their directories whether it has content. A
/// directory that nothing is said of has none.
pub fn check_downloaded_models(present: &Vec<bool>) -> (r: Vec<String>)
    ensures
        r.deep_view() == models_present(
            present@,
            if present@.len() < model_names().len() {
                present@.len() as int
            } else {
                model_names().len() as int
            },
        ),
{
    let names = model_name_list();
    let mut r: Vec<String> = Vec::new();
    let count: usize = if present.len() < names.len() {
        present.len()
    } else {
        names.len()
    };
    assert(r.deep_view() =~= models_present(present@, 0));
    for i in 0..count
        invariant
            count <= present@.len(),
            count <= names@.len(),
            names@.len() == model_names().len(),
            forall|k: int| 0 <= k < names@.len() ==> (#[trigger] names@[k])@ == model_names()[k],
            r.deep_view() == models_present(present@, i as int),
    {
        if present[i] {
            let ghost before = r.deep_view();
            r.push(names[i].to_owned());
            assert(r.deep_view() =~= before.push(model_names()[i as int]));
        }
    }
    r
}

/// How far a download is.
#[derive(Debug, Clone)]
pub struct DownloadProgressEvent {
    /// "downloading", "done", "error" or "cancelled".
    pub status: String,
    /// In percent.
    pub progress: u32,
    pub message: String,
}

/// What a [`DownloadProgressEvent`] says.
pub ghost struct Progress {
    pub status: Seq<char>,
    pub progress: u32,
    pub message: Seq<char>,
}

impl DeepView for DownloadProgressEvent {
    type V = Progress;

    open spec fn deep_view(&self) -> Progress {
        Progress { status: self.status@, progress: self.progress, message: self.message@ }
    }
}

/// A JSON value.
#[verifier::external_type_specification]
#[verifier::external_body]
pub struct ExValue(serde_json::Value);

/// Why a text is no JSON.
#[verifier::external_type_specification]
#[verifier::external_body]
pub struct ExError(serde_json::Error);

/// The members of a JSON object that are strings, and those that are unsigned 64-bit integers,
/// each under its key. Any other JSON value has neither.
pub uninterp spec fn members(value: serde_json::Value) -> (
    Map<Seq<char>, Seq<char>>,
    Map<Seq<char>, u64>,
);

/// The members of the value that `serde_json::from_str` reads from a text, or `None` where it
/// reads none.
pub uninterp spec fn parsed_members(text: Seq<char>) -> Option<
    (Map<Seq<char>, Seq<char>>, Map<Seq<char>, u64>),
>;

/// `serde_json::from_str`, which reads a JSON value from a text and fails on anything that is
/// no JSON. What it reads depends on the text alone.
#[verifier::external_body]
fn parse_json(text: &str) -> (r: Result<serde_json::Value, serde_json::Error>)
    ensures
        match r {
            Ok(value) => parsed_members(text@) == Some(members(value)),
            Err(_) => parsed_members(text@) is None,
        },
{
    serde_json::from_str::<serde_json::Value>(text)
}

/// `serde_json::Value::as_str` on the member of `value` under `key`: the member, if there is one
/// and it is a string. Indexing a value that is no object, or has no such key, gives null.
#[verifier::external_body]
fn string_member(value: &serde_json::Value, key: &str) -> (r: Option<String>)
    ensures
        match r {
            Some(s) => members(*value).0.contains_key(key@) && s@ == members(*value).0[key@],
            None => !members(*value).0.contains_key(key@),
        },
{
    value[key].as_str().map(str::to_owned)
}

/// `serde_json::Value::as_u64` on the member of `value` under `key`: the member, if there is one
/// and it is an unsigned 64-bit integer.
#[verifier::external_body]
fn number_member(value: &serde_json::Value, key: &str) -> (r: Option<u64>)
    ensures
        match r {
            Some(n) => members(*value).1.contains_key(key@) && n == members(*value).1[key@],
            None => !members(*value).1.contains_key(key@),
        },
{
    value[key].as_u64()
}

/// What a line of the download script reports, from the members that it has.
pub open spec fn progress_of(
    status: Option<Seq<char>>,
    progress: Option<u64>,
    message: Option<Seq<char>>,
) -> Progress {
    Progress {
        status: match status {
            Some(s) => s,
            None => "downloading"@,
        },
        progress: match progress {
            Some(n) => (n % 0x1_0000_0000) as u32,
            None => 0,
        },
        message: match message {
            Some(s) => s,
            None => ""@,
        },
    }
}

/// What a line of the download script reports, from the members that it has: without a status
/// the download goes on, and of the progress the lower 32 bits count.
pub fn progress_event(
    status: Option<String>,
    progress: Option<u64>,
    message: Option<String>,
) -> (r: DownloadProgressEvent)
    ensures
        r.deep_view() == progress_of(status.deep_view(), progress, message.deep_view()),
{
    let percent: u32 = match progress {
        Some(n) => {
            assert(n as u32 == n % 0x1_0000_0000) by (bit_vector);
            #[verifier::truncate]
            (n as u32)
        },
        None => 0,
    };
    DownloadProgressEvent {
        status: match status {
            Some(s) => s,
            None => "downloading".to_owned(),
        },
        progress: percent,
        message: match message {
            Some(s) => s,
            None => "".to_owned(),
        },
    }
}

/// The value under `key`, if there is one.
pub open spec fn entry<V>(map: Map<Seq<char>, V>, key: Seq<char>) -> Option<V> {
    if map.contains_key(key) {
        Some(map[key])
    } else {
        None
    }
}

/// What a line of the download script reports; nothing if it is no JSON.
pub fn parse_progress_line(line: &str) -> (r: Option<DownloadProgressEvent>)
    ensures
        r is Some == parsed_members(line@) is Some,
        r matches Some(event) ==> parsed_members(line@) matches Some((strings, numbers))
            && event.deep_view() == progress_of(
            entry(strings, "status"@),
            entry(numbers, "progress"@),
            entry(strings, "message"@),
        ),
{
    match parse_json(line) {
        Ok(value) => {
            let status = string_member(&value, "status");
            let progress = number_member(&value, "progress");
            let message = string_member(&value, "message");
            assert(status.deep_view() == entry(members(value).0, "status"@));
            assert(message.deep_view() == entry(members(value).0, "message"@));
            Some(progress_event(status, progress, message))
        },
        Err(_) => None,
    }
}

/// What is reported when a download was cancelled.
pub fn cancelled_event() -> (r: DownloadProgressEvent)
    ensures
        r.deep_view() == (Progress {
            status: "cancelled"@,
            progress: 0,
            message: "Download cancelled"@,
        }),
{
    DownloadProgressEvent {
        status: "cancelled".to_owned(),
        progress: 0,
        message: "Download cancelled".to_owned(),
    }
}

/// The script that downloads a model, unless a download is running, which is an error.
pub fn download_script(running: bool) -> (r: Result<String, String>)
    ensures
        if running {
            r matches Err(message) && message@ == "A download is already in progress"@
        } else {
            r matches Ok(name) && name@ == "download-model.py"@
        },
{
    if running {
        Err("A download is already in progress".to_owned())
    } else {
        Ok("download-model.py".to_owned())
    }
}

/// What can go wrong with a download.
#[derive(Debug)]
pub enum DownloadFault {
    /// The script could not be started, for this reason.
    Start(String),
    /// Nothing can be read of what the script writes.
    NoOutput,
    /// The script could not be ended, for this reason.
    Cancel(String),
}

/// The error for a download.
pub fn download_failure_text(fault: DownloadFault) -> (r: String)
    ensures
        r@ == match fault {
            DownloadFault::Start(reason) => "Failed to start download: "@ + reason@,
            DownloadFault::NoOutput => "No stdout"@,
            DownloadFault::Cancel(reason) => "Failed to cancel: "@ + reason@,
        },
{
    match fault {
        DownloadFault::Start(reason) => joined_text("Failed to start download: ", reason.as_str()),
        DownloadFault::NoOutput => "No stdout".to_owned(),
        DownloadFault::Cancel(reason) => joined_text("Failed to cancel: ", reason.as_str()),
    }
}

/// How far the set-up is.
#[derive(Debug, Clone)]
pub struct SetupProgressEvent {
    /// "venv", "pip", "done" or "error".
    pub step: String,
    pub message: String,
}

/// How far the set-up of what runs the models has come.
#[derive(Debug, Clone, Copy, PartialEq, Eq, Structural)]
pub enum SetupPhase {
    /// The virtual environment is being made.
    MakingVenv,
    /// The packages are being installed.
    Installing,
    /// Nothing is left to do.
    Finished,
}

/// One thing to do for the set-up.
#[derive(Debug)]
pub enum SetupEffect {
    /// Tell the windows how far the set-up is.
    Progress(SetupProgressEvent),
    /// Run the Python of the system with these arguments, to make the virtual environment.
    MakeVenv(Vec<String>),
    /// Run the installer of the virtual environment with these arguments.
    RunPip(Vec<String>),
    /// Put this Python and this model into the settings and save them.
    UseModel { python_path: String, model: String },
}

/// What a [`SetupEffect`] says.
pub ghost enum SetupDeed {
    Progress { step: Seq<char>, message: Seq<char> },
    MakeVenv(Seq<Seq<char>>),
    RunPip(Seq<Seq<char>>),
    UseModel { python_path: Seq<char>, model: Seq<char> },
}

impl DeepView for SetupEffect {
    type V = SetupDeed;

    open spec fn deep_view(&self) -> SetupDeed {
        match self {
            SetupEffect::Progress(event) => SetupDeed::Progress {
                step: event.step@,
                message: event.message@,
            },
            SetupEffect::MakeVenv(args) => SetupDeed::MakeVenv(args.deep_view()),
            SetupEffect::RunPip(args) => SetupDeed::RunPip(args.deep_view()),
            SetupEffect::UseModel { python_path, model } => SetupDeed::UseModel {
                python_path: python_path@,
                model: model@,
            },
        }
    }
}

/// What came of the program that was last run.
#[derive(Debug)]
pub enum SetupEvent {
    /// It could not be run, for this reason.
    NotRun(String),
    /// It failed and wrote this.
    Failed(String),
    Succeeded,
}

/// What is done next for the set-up, and how it ended, if it has.
#[derive(Debug)]
pub struct SetupStep {
    pub effects: Vec<SetupEffect>,
    pub result: Option<Result<(), String>>,
}

/// How a set-up ended, if it has.
pub ghost enum SetupEnd {
    Running,
    Done,
    Failed(Seq<char>),
}

impl SetupStep {
    /// How the set-up ended, if it has.
    pub open spec fn end(self) -> SetupEnd {
        match self.result {
            None => SetupEnd::Running,
            Some(Ok(_)) => SetupEnd::Done,
            Some(Err(message)) => SetupEnd::Failed(message@),
        }
    }
}

/// The arguments that install the packages.
pub open spec fn pip_arguments() -> Seq<Seq<char>> {
    seq![
        "install"@,
        "faster-whisper>=1.1,<2"@,
        "uvicorn"@,
        "fastapi"@,
        "python-multipart"@,
        "huggingface_hub"@,
    ]
}

/// The arguments that make the virtual environment at `venv`.
pub open spec fn venv_arguments(venv: Seq<char>) -> Seq<Seq<char>> {
    seq!["-m"@, "venv"@, venv]
}

/// The first things to do for a set-up with the virtual environment at `venv`.
pub open spec fn first_setup_deeds(venv: Seq<char>) -> Seq<SetupDeed> {
    seq![
        SetupDeed::Progress {
            step: "venv"@,
            message: "Creating Python virtual environment..."@,
        },
        SetupDeed::MakeVenv(venv_arguments(venv)),
    ]
}

/// The set-up has failed and tells why.
pub open spec fn setup_failed(message: Seq<char>) -> (SetupPhase, Seq<SetupDeed>, SetupEnd) {
    (
        SetupPhase::Finished,
        seq![SetupDeed::Progress { step: "error"@, message }],
        SetupEnd::Failed(message),
    )
}

/// The next phase of the set-up, what is done, and how it ended, if it has; `python` is the
/// interpreter of the virtual environment. Once it has ended nothing more is done.
pub open spec fn setup_step(phase: SetupPhase, event: SetupEvent, python: Seq<char>) -> (
    SetupPhase,
    Seq<SetupDeed>,
    SetupEnd,
) {
    match (phase, event) {
        (SetupPhase::MakingVenv, SetupEvent::NotRun(reason)) => (
            SetupPhase::Finished,
            seq![],
            SetupEnd::Failed("Failed to run python3: "@ + reason@),
        ),
        (SetupPhase::MakingVenv, SetupEvent::Failed(stderr)) => setup_failed(
            "venv creation failed: "@ + stderr@,
        ),
        (SetupPhase::MakingVenv, SetupEvent::Succeeded) => (
            SetupPhase::Installing,
            seq![
                SetupDeed::Progress {
                    step: "pip"@,
                    message: "Installing dependencies (this may take a few minutes)..."@,
                },
                SetupDeed::RunPip(pip_arguments()),
            ],
            SetupEnd::Running,
        ),
        (SetupPhase::Installing, SetupEvent::NotRun(reason)) => (
            SetupPhase::Finished,
            seq![],
            SetupEnd::Failed("Failed to run pip: "@ + reason@),
        ),
        (SetupPhase::Installing, SetupEvent::Failed(stderr)) => setup_failed(
            "pip install failed: "@ + stderr@,
        ),
        (SetupPhase::Installing, SetupEvent::Succeeded) => (
            SetupPhase::Finished,
            seq![
                SetupDeed::UseModel { python_path: python, model: "base"@ },
                SetupDeed::Progress { step: "done"@, message: "Environment setup complete!"@ },
            ],
            SetupEnd::Done,
        ),
        (SetupPhase::Finished, _) => (phase, seq![], SetupEnd::Running),
    }
}

fn setup_progress(step: &str, message: String) -> (r: SetupEffect)
    ensures
        r.deep_view() == (SetupDeed::Progress { step: step@, message: message@ }),
{
    SetupEffect::Progress(SetupProgressEvent { step: step.to_owned(), message })
}

fn joined_text(a: &str, b: &str) -> (r: String)
    ensures
        r@ == a@ + b@,
{
    let mut r = a.to_owned();
    r.append(b);
    r
}

fn setup_failed_step(message: String) -> (r: SetupStep)
    ensures
        (SetupPhase::Finished, r.effects.deep_view(), r.end()) == setup_failed(message@),
{
    let effects = vec![setup_progress("error", message.clone())];
    assert(effects.deep_view() =~= setup_failed(message@).1);
    SetupStep { effects, result: Some(Err(message)) }
}

fn setup_broken(message: String) -> (r: SetupStep)
    ensures
        r.effects.deep_view() == Seq::<SetupDeed>::empty(),
        r.end() == SetupEnd::Failed(message@),
{
    let effects: Vec<SetupEffect> = Vec::new();
    assert(effects.deep_view() =~= Seq::<SetupDeed>::empty());
    SetupStep { effects, result: Some(Err(message)) }
}

/// The arguments that install the packages.
fn pip_argument_list() -> (r: Vec<String>)
    ensures
        r.deep_view() == pip_arguments(),
{
    let r = vec![
        "install".to_owned(),
        "faster-whisper>=1.1,<2".to_owned(),
        "uvicorn".to_owned(),
        "fastapi".to_owned(),
        "python-multipart".to_owned(),
        "huggingface_hub".to_owned(),
    ];
    assert(r.deep_view() =~= pip_arguments());
    r
}

/// Starts to set up what runs the models on this machine, in a virtual environment at `venv`.
pub fn setup_local_whisper(venv: &str) -> (r: (SetupPhase, Vec<SetupEffect>))
    ensures
        r.0 is MakingVenv,
        r.1.deep_view() == first_setup_deeds(venv@),
{
    let args = vec!["-m".to_owned(), "venv".to_owned(), venv.to_owned()];
    assert(args.deep_view() =~= venv_arguments(venv@));
    let effects = vec![
        setup_progress("venv", "Creating Python virtual environment...".to_owned()),
        SetupEffect::MakeVenv(args),
    ];
    assert(effects.deep_view() =~= first_setup_deeds(venv@));
    (SetupPhase::MakingVenv, effects)
}

/// Goes on with the set-up after `event`; `python` is the interpreter of the virtual environment.
pub fn next_setup_step(phase: SetupPhase, event: SetupEvent, python: &str) -> (r: (
    SetupPhase,
    SetupStep,
))
    ensures
        (r.0, r.1.effects.deep_view(), r.1.end()) == setup_step(phase, event, python@),
{
    match (phase, event) {
        (SetupPhase::MakingVenv, SetupEvent::NotRun(reason)) => (
            SetupPhase::Finished,
            setup_broken(joined_text("Failed to run python3: ", reason.as_str())),
        ),
        (SetupPhase::MakingVenv, SetupEvent::Failed(stderr)) => (
            SetupPhase::Finished,
            setup_failed_step(joined_text("venv creation failed: ", stderr.as_str())),
        ),
        (SetupPhase::MakingVenv, SetupEvent::Succeeded) => {
            let effects = vec![
                setup_progress(
                    "pip",
                    "Installing dependencies (this may take a few minutes)...".to_owned(),
                ),
                SetupEffect::RunPip(pip_argument_list()),
            ];
            assert(effects.deep_view() =~= setup_step(phase, event, python@).1);
            (SetupPhase::Installing, SetupStep { effects, result: None })
        },
        (SetupPhase::Installing, SetupEvent::NotRun(reason)) => (
            SetupPhase::Finished,
            setup_broken(joined_text("Failed to run pip: ", reason.as_str())),
        ),
        (SetupPhase::Installing, SetupEvent::Failed(stderr)) => (
            SetupPhase::Finished,
            setup_failed_step(joined_text("pip install failed: ", stderr.as_str())),
        ),
        (SetupPhase::Installing, SetupEvent::Succeeded) => {
            let effects = vec![
                SetupEffect::UseModel { python_path: python.to_owned(), model: "base".to_owned() },
                setup_progress("done", "Environment setup complete!".to_owned()),
            ];
            assert(effects.deep_view() =~= setup_step(phase, event, python@).1);
            (SetupPhase::Finished, SetupStep { effects, result: Some(Ok(())) })
        },
        (SetupPhase::Finished, _) => {
            let effects: Vec<SetupEffect> = Vec::new();
            assert(effects.deep_view() =~= Seq::<SetupDeed>::empty());
            (SetupPhase::Finished, SetupStep { effects, result: None })
        },
    }
}

/// The settings are changed only by a set-up that succeeds, and then to the interpreter that was
/// set up.
pub proof fn law_settings_change_only_on_success(
    phase: SetupPhase,
    event: SetupEvent,
    python: Seq<char>,
    python_path: Seq<char>,
    model: Seq<char>,
)
    requires
        setup_step(phase, event, python).1.contains(SetupDeed::UseModel { python_path, model }),
    ensures
        setup_step(phase, event, python).2 is Done,
        python_path == python,
{
}

proof fn lemma_models_present(present: Seq<bool>, n: int, i: int)
    requires
        0 <= i < n <= 5,
        n <= present.len(),
    ensures
        models_present(present, n).contains(model_names()[i]) <==> present[i],
    decreases n,
{
    let names = model_names();
    lemma_model_names_differ();
    let before = models_present(present, n - 1);
    let all = models_present(present, n);
    if i < n - 1 {
        lemma_models_present(present, n - 1, i);
        if before.contains(names[i]) {
            let k = choose|k: int| 0 <= k < before.len() && before[k] == names[i];
            assert(all[k] == names[i]);
        }
        if all.contains(names[i]) {
            let k = choose|k: int| 0 <= k < all.len() && all[k] == names[i];
            assert(before[k] == names[i]);
        }
    } else {
        if present[i] {
            assert(all[all.len() - 1] == names[i]);
        } else if before.contains(names[i]) {
            lemma_models_among_the_first(present, n - 1);
            let k = choose|k: int| 0 <= k < before.len() && before[k] == names[i];
            let j = choose|j: int| 0 <= j < n - 1 && before[k] == #[trigger] names[j];
            assert(names[i] != names[j]);
        }
    }
}

proof fn lemma_models_among_the_first(present: Seq<bool>, n: int)
    requires
        0 <= n <= 5,
    ensures
        forall|k: int|
            0 <= k < models_present(present, n).len() ==> exists|j: int|
                0 <= j < n && #[trigger] models_present(present, n)[k] == #[trigger] model_names()[j],
    decreases n,
{
    if n > 0 {
        lemma_models_among_the_first(present, n - 1);
        let before = models_present(present, n - 1);
        let all = models_present(present, n);
        assert forall|k: int| 0 <= k < all.len() implies exists|j: int|
            0 <= j < n && #[trigger] all[k] == #[trigger] model_names()[j] by {
            if k < before.len() {
                assert(all[k] == before[k]);
            } else {
                assert(all[k] == model_names()[n - 1]);
            }
        }
    }
}

proof fn lemma_model_names_differ()
    ensures
        forall|i: int, j: int|
            0 <= i < j < 5 ==> #[trigger] model_names()[i] != #[trigger] model_names()[j],
{
    reveal_strlit("tiny");
    reveal_strlit("base");
    reveal_strlit("small");
    reveal_strlit("medium");
    reveal_strlit("large-v3");
    let names = model_names();
    assert(names[0].len() == 4 && names[0][0] == 't');
    assert(names[1].len() == 4 && names[1][0] == 'b');
    assert(names[2].len() == 5);
    assert(names[3].len() == 6);
    assert(names[4].len() == 8);
}

/// Of the five models exactly those are listed whose directory has content; where all have, all
/// are, from the smallest to the largest.
pub proof fn law_models_with_content_are_listed(present: Seq<bool>, i: int)
    requires
        present.len() == 5,
        0 <= i < 5,
    ensures
        model_names() == seq!["tiny"@, "base"@, "small"@, "medium"@, "large-v3"@],
        models_present(present, 5).contains(model_names()[i]) <==> present[i],
        (forall|k: int| 0 <= k < 5 ==> #[trigger] present[k]) ==> models_present(present, 5)
            == model_names(),
{
    lemma_models_present(present, 5, i);
    if forall|k: int| 0 <= k < 5 ==> #[trigger] present[k] {
        assert(present[0] && present[1] && present[2] && present[3] && present[4]);
        reveal_with_fuel(models_present, 6);
        assert(models_present(present, 5) =~= model_names());
    }
}

/// Each model has a directory of its own, named after it.
pub proof fn law_model_directories_name_the_model(model: Seq<char>)
    ensures
        model_directory(model) == "models--Systran--faster-whisper-"@ + model,
{
}

/// A report says what the line says, member by member: a status or message that is there is
/// reported as it is, and one that is not there is not made up. The progress is reported exactly
/// as long as it fits.
pub proof fn law_report_says_what_the_line_says(
    status: Option<Seq<char>>,
    progress: Option<u64>,
    message: Option<Seq<char>>,
)
    ensures
        ({
            let report = progress_of(status, progress, message);
            &&& status matches Some(s) ==> report.status == s
            &&& status is None ==> report.status == "downloading"@
            &&& message matches Some(m) ==> report.message == m
            &&& message is None ==> report.message.len() == 0
            &&& progress matches Some(n) ==> n <= u32::MAX ==> report.progress == n
            &&& progress matches Some(n) ==> exists|k: int| n == #[trigger] (k * 0x1_0000_0000)
                + report.progress
            &&& progress is None ==> report.progress == 0
        }),
{
    reveal_strlit("");
    if let Some(n) = progress {
        let k = n as int / 0x1_0000_0000;
        assert(n == k * 0x1_0000_0000 + n % 0x1_0000_0000);
    }
}

/// A set-up that goes well makes the environment, installs the packages into it, and then uses it
/// with the base model; the windows are told of each part as it begins, and of the end.
pub proof fn law_set_up_goes_part_by_part(venv: Seq<char>, python: Seq<char>)
    ensures
        ({
            let first = first_setup_deeds(venv);
            let made = setup_step(SetupPhase::MakingVenv, SetupEvent::Succeeded, python);
            let done = setup_step(made.0, SetupEvent::Succeeded, python);
            &&& first == seq![
                SetupDeed::Progress {
                    step: "venv"@,
                    message: "Creating Python virtual environment..."@,
                },
                SetupDeed::MakeVenv(seq!["-m"@, "venv"@, venv]),
            ]
            &&& made == (
                SetupPhase::Installing,
                seq![
                    SetupDeed::Progress {
                        step: "pip"@,
                        message: "Installing dependencies (this may take a few minutes)..."@,
                    },
                    SetupDeed::RunPip(
                        seq![
                            "install"@,
                            "faster-whisper>=1.1,<2"@,
                            "uvicorn"@,
                            "fastapi"@,
                            "python-multipart"@,
                            "huggingface_hub"@,
                        ],
                    ),
                ],
                SetupEnd::Running,
            )
            &&& done == (
                SetupPhase::Finished,
                seq![
                    SetupDeed::UseModel { python_path: python, model: "base"@ },
                    SetupDeed::Progress { step: "done"@, message: "Environment setup complete!"@ },
                ],
                SetupEnd::Done,
            )
        }),
{
}

/// A set-up that goes wrong ends with the reason. Where a program has failed, as opposed to not
/// having run, the windows are told the same.
pub proof fn law_failed_set_up_is_told(phase: SetupPhase, event: SetupEvent, python: Seq<char>)
    requires
        !(phase is Finished),
        !(event is Succeeded),
    ensures
        ({
            let next = setup_step(phase, event, python);
            let making = phase is MakingVenv;
            &&& next.0 is Finished
            &&& event matches SetupEvent::NotRun(reason) ==> next.1.len() == 0 && next.2
                == SetupEnd::Failed(
                if making {
                    "Failed to run python3: "@
                } else {
                    "Failed to run pip: "@
                } + reason@,
            )
            &&& event matches SetupEvent::Failed(written) ==> {
                let message = if making {
                    "venv creation failed: "@
                } else {
                    "pip install failed: "@
                } + written@;
                next.1 == seq![SetupDeed::Progress { step: "error"@, message }] && next.2
                    == SetupEnd::Failed(message)
            }
        }),
{
}

/// A set-up that has ended does nothing more.
pub proof fn law_ended_set_up_stays_ended(event: SetupEvent, python: Seq<char>)
    ensures
        setup_step(SetupPhase::Finished, event, python) == (
            SetupPhase::Finished,
            Seq::<SetupDeed>::empty(),
            SetupEnd::Running,
        ),
{
}

/// What is found under a key is what was put there, and nothing is found where nothing was put.
pub proof fn law_entries_are_found_under_their_key<V>(
    map: Map<Seq<char>, V>,
    key: Seq<char>,
    other: Seq<char>,
    value: V,
)
    ensures
        entry(map.insert(key, value), key) == Some(value),
        entry(map.remove(key), key) is None,
        other != key ==> entry(map.insert(key, value), other) == entry(map, other),
{
}

/// How a set-up ended is what its result says.
pub proof fn law_set_up_ends_as_its_result_says(step: SetupStep)
    ensures
        step.result is None <==> step.end() is Running,
        step.result matches Some(Ok(_)) ==> step.end() is Done,
        step.result matches Some(Err(message)) ==> step.end() == SetupEnd::Failed(message@),
{
}

} // verus!
