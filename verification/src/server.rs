//! The local speech server: its address, and how it is brought up.
use crate::settings::{AppSettings, LocalSttServer};
use crate::text::{
    decimal, decimal_text, law_decimal_is_read_back, place_value, trim, trimmed,
};
use vstd::prelude::*;
use vstd::string::*;

verus! {

/// The address at which a server on `host` and `port` says whether it is up.
pub open spec fn health_address(host: Seq<char>, port: u16) -> Seq<char> {
    "http://"@ + host + ":"@ + decimal(port as nat) + "/health"@
}

/// The address at which the local server of the settings says whether it is up.
pub open spec fn server_health_url(settings: AppSettings) -> Seq<char> {
    health_address(settings.local_stt_server.host@, settings.local_stt_server.port)
}

/// The address at which a server on `host` and `port` says whether it is up.
pub fn health_url(host: &str, port: u16) -> (r: String)
    ensures
        r@ == health_address(host@, port),
{
    let mut r = "http://".to_owned();
    r.append(host);
    r.append(":");
    r.append(decimal_text(port as u64).as_str());
    r.append("/health");
    r
}

/// The shell command that ends every process on `port`.
pub open spec fn kill_command(port: u16) -> Seq<char> {
    "lsof -ti:"@ + decimal(port as nat) + " | xargs kill -9 2>/dev/null"@
}

/// The shell command that ends every process on `port`.
pub fn free_port_command(port: u16) -> (r: String)
    ensures
        r@ == kill_command(port),
{
    let mut r = "lsof -ti:".to_owned();
    r.append(decimal_text(port as u64).as_str());
    r.append(" | xargs kill -9 2>/dev/null");
    r
}

/// The error when the server cannot be stopped.
pub fn stop_failure_text(reason: &str) -> (r: String)
    ensures
        r@ == "Failed to stop server: "@ + reason@,
{
    let mut r = "Failed to stop server: ".to_owned();
    r.append(reason);
    r
}

/// How far the server has been brought up.
#[derive(Debug)]
pub enum ServerPhase {
    /// It is asked whether it is up; this is its port.
    Probing { port: u16 },
    /// Its port is being freed.
    FreeingPort,
    /// Its script is being looked for; this is how it is to run.
    Locating { server: LocalSttServer },
    /// Its process is being started.
    Spawning,
    /// Its process is being looked at.
    Checking,
    /// Nothing is left to do.
    Finished,
}

/// One thing to do for the server.
#[derive(Debug)]
pub enum ServerEffect {
    /// Ask at this address whether the server is up.
    Probe(String),
    /// Run this shell command.
    RunShell(String),
    /// Wait for so many milliseconds.
    Pause(u64),
    /// Read the settings of the server.
    ReadSettings,
    /// Look for the script of this name.
    LocateScript(String),
    /// Start the script with these arguments, in the Python that is found from this path.
    Spawn { python_path: String, args: Vec<String> },
    /// See whether the process still runs.
    CheckProcess,
}

/// What a [`ServerEffect`] says.
pub ghost enum ServerDeed {
    Probe(Seq<char>),
    RunShell(Seq<char>),
    Pause(u64),
    ReadSettings,
    LocateScript(Seq<char>),
    Spawn { python_path: Seq<char>, args: Seq<Seq<char>> },
    CheckProcess,
}

impl DeepView for ServerEffect {
    type V = ServerDeed;

    open spec fn deep_view(&self) -> ServerDeed {
        match self {
            ServerEffect::Probe(url) => ServerDeed::Probe(url@),
            ServerEffect::RunShell(command) => ServerDeed::RunShell(command@),
            ServerEffect::Pause(ms) => ServerDeed::Pause(*ms),
            ServerEffect::ReadSettings => ServerDeed::ReadSettings,
            ServerEffect::LocateScript(name) => ServerDeed::LocateScript(name@),
            ServerEffect::Spawn { python_path, args } => ServerDeed::Spawn {
                python_path: python_path@,
                args: args.deep_view(),
            },
            ServerEffect::CheckProcess => ServerDeed::CheckProcess,
        }
    }
}

/// What came of what was last asked for.
#[derive(Debug)]
pub enum ServerEvent {
    /// The server is up, or is not.
    Health(bool),
    /// The settings of the server, read once its port was free.
    Settings(LocalSttServer),
    ScriptFound,
    /// The script is missing; this is the error.
    ScriptMissing(String),
    Spawned,
    /// The process could not be started, for this reason.
    SpawnFailed(String),
    /// The process runs.
    Running,
    /// The process has ended; with its status, what was run, and what it wrote.
    Exited { status: String, python: String, script: String, stderr: String },
    /// The process could not be looked at, for this reason.
    CheckFailed(String),
}

/// What is done next for the server.
#[derive(Debug)]
pub enum ServerStep {
    /// These things, in order; the last one is answered.
    Ask(Vec<ServerEffect>),
    /// Nothing: the server is up.
    AlreadyUp,
    /// Remember the process: the server is being started.
    Started,
    /// Nothing: the server could not be started, and this is why.
    Failed(String),
    /// Nothing yet.
    Wait,
}

/// What a [`ServerStep`] says.
pub ghost enum ServerTurn {
    Ask(Seq<ServerDeed>),
    AlreadyUp,
    Started,
    Failed(Seq<char>),
    Wait,
}

impl DeepView for ServerStep {
    type V = ServerTurn;

    open spec fn deep_view(&self) -> ServerTurn {
        match self {
            ServerStep::Ask(effects) => ServerTurn::Ask(effects.deep_view()),
            ServerStep::AlreadyUp => ServerTurn::AlreadyUp,
            ServerStep::Started => ServerTurn::Started,
            ServerStep::Failed(message) => ServerTurn::Failed(message@),
            ServerStep::Wait => ServerTurn::Wait,
        }
    }
}

/// The arguments that the server is started with.
pub open spec fn server_arguments(model: Seq<char>, port: u16, host: Seq<char>) -> Seq<Seq<char>> {
    seq!["--model"@, model, "--port"@, decimal(port as nat), "--host"@, host]
}

/// The error for a server that ended as soon as it was started.
pub open spec fn exit_message(
    status: Seq<char>,
    python: Seq<char>,
    script: Seq<char>,
    stderr: Seq<char>,
) -> Seq<char> {
    "Server exited immediately (code: "@ + status + "). Python: "@ + python + ", Script: "@ + script
        + "\n"@ + trimmed(stderr)
}

/// How bringing up the server begins. A process that is known to run is left alone.
pub open spec fn first_server_step(tracked_runs: bool, settings: AppSettings) -> (
    ServerPhase,
    ServerTurn,
) {
    if tracked_runs {
        (ServerPhase::Finished, ServerTurn::AlreadyUp)
    } else {
        (
            ServerPhase::Probing { port: settings.local_stt_server.port },
            ServerTurn::Ask(seq![ServerDeed::Probe(server_health_url(settings))]),
        )
    }
}

/// The next phase and what is done, from what has happened. An event that the phase does not
/// wait for changes nothing.
pub open spec fn server_step(phase: ServerPhase, event: ServerEvent) -> (ServerPhase, ServerTurn) {
    match (phase, event) {
        (ServerPhase::Probing { port }, ServerEvent::Health(up)) => if up {
            (ServerPhase::Finished, ServerTurn::AlreadyUp)
        } else {
            (
                ServerPhase::FreeingPort,
                ServerTurn::Ask(
                    seq![
                        ServerDeed::RunShell(kill_command(port)),
                        ServerDeed::Pause(400),
                        ServerDeed::ReadSettings,
                    ],
                ),
            )
        },
        (ServerPhase::FreeingPort, ServerEvent::Settings(server)) => (
            ServerPhase::Locating { server },
            ServerTurn::Ask(seq![ServerDeed::LocateScript("stt-server.py"@)]),
        ),
        (ServerPhase::Locating { server }, ServerEvent::ScriptMissing(message)) => (
            ServerPhase::Finished,
            ServerTurn::Failed(message@),
        ),
        (ServerPhase::Locating { server }, ServerEvent::ScriptFound) => (
            ServerPhase::Spawning,
            ServerTurn::Ask(
                seq![
                    ServerDeed::Spawn {
                        python_path: server.python_path@,
                        args: server_arguments(server.model@, server.port, server.host@),
                    },
                ],
            ),
        ),
        (ServerPhase::Spawning, ServerEvent::SpawnFailed(reason)) => (
            ServerPhase::Finished,
            ServerTurn::Failed("Failed to spawn server: "@ + reason@),
        ),
        (ServerPhase::Spawning, ServerEvent::Spawned) => (
            ServerPhase::Checking,
            ServerTurn::Ask(seq![ServerDeed::Pause(500), ServerDeed::CheckProcess]),
        ),
        (ServerPhase::Checking, ServerEvent::Exited { status, python, script, stderr }) => (
            ServerPhase::Finished,
            ServerTurn::Failed(exit_message(status@, python@, script@, stderr@)),
        ),
        (ServerPhase::Checking, ServerEvent::CheckFailed(reason)) => (
            ServerPhase::Finished,
            ServerTurn::Failed("Failed to check server status: "@ + reason@),
        ),
        (ServerPhase::Checking, ServerEvent::Running) => (
            ServerPhase::Finished,
            ServerTurn::Started,
        ),
        _ => (phase, ServerTurn::Wait),
    }
}

/// The bringing up of the server.
#[derive(Debug)]
pub struct ServerStart {
    pub phase: ServerPhase,
}

fn ask(effect: ServerEffect) -> (r: ServerStep)
    ensures
        r.deep_view() == ServerTurn::Ask(seq![effect.deep_view()]),
{
    let effects = vec![effect];
    assert(effects.deep_view() =~= seq![effect.deep_view()]);
    ServerStep::Ask(effects)
}

fn failed(what: &str, reason: &str) -> (r: ServerStep)
    ensures
        r.deep_view() == ServerTurn::Failed(what@ + reason@),
{
    let mut message = what.to_owned();
    message.append(reason);
    ServerStep::Failed(message)
}

/// The arguments that the server is started with.
fn spawn_arguments(server: &LocalSttServer) -> (r: Vec<String>)
    ensures
        r.deep_view() == server_arguments(server.model@, server.port, server.host@),
{
    let r = vec![
        "--model".to_owned(),
        server.model.clone(),
        "--port".to_owned(),
        decimal_text(server.port as u64),
        "--host".to_owned(),
        server.host.clone(),
    ];
    assert(r.deep_view() =~= server_arguments(server.model@, server.port, server.host@));
    r
}

/// Starts to bring up the local server, given whether a process that was started earlier still
/// runs.
pub fn ensure_stt_server(tracked_runs: bool, settings: &AppSettings) -> (r: (
    ServerStart,
    ServerStep,
))
    ensures
        (r.0.phase, r.1.deep_view()) == first_server_step(tracked_runs, *settings),
{
    if tracked_runs {
        (ServerStart { phase: ServerPhase::Finished }, ServerStep::AlreadyUp)
    } else {
        let server = &settings.local_stt_server;
        let url = health_url(server.host.as_str(), server.port);
        (
            ServerStart { phase: ServerPhase::Probing { port: server.port } },
            ask(ServerEffect::Probe(url)),
        )
    }
}

impl ServerStart {
    /// Goes on after `event`.
    pub fn step(self, event: ServerEvent) -> (r: (ServerStart, ServerStep))
        ensures
            (r.0.phase, r.1.deep_view()) == server_step(self.phase, event),
    {
        let (phase, step) = match (self.phase, event) {
            (ServerPhase::Probing { port }, ServerEvent::Health(up)) => if up {
                (ServerPhase::Finished, ServerStep::AlreadyUp)
            } else {
                let effects = vec![
                    ServerEffect::RunShell(free_port_command(port)),
                    ServerEffect::Pause(400),
                    ServerEffect::ReadSettings,
                ];
                assert(effects.deep_view() =~= seq![
                    ServerDeed::RunShell(kill_command(port)),
                    ServerDeed::Pause(400),
                    ServerDeed::ReadSettings,
                ]);
                (ServerPhase::FreeingPort, ServerStep::Ask(effects))
            },
            (ServerPhase::FreeingPort, ServerEvent::Settings(server)) => (
                ServerPhase::Locating { server },
                ask(ServerEffect::LocateScript("stt-server.py".to_owned())),
            ),
            (ServerPhase::Locating { server: _ }, ServerEvent::ScriptMissing(message)) => (
                ServerPhase::Finished,
                ServerStep::Failed(message),
            ),
            (ServerPhase::Locating { server }, ServerEvent::ScriptFound) => {
                let args = spawn_arguments(&server);
                let effect = ServerEffect::Spawn { python_path: server.python_path, args };
                (ServerPhase::Spawning, ask(effect))
            },
            (ServerPhase::Spawning, ServerEvent::SpawnFailed(reason)) => (
                ServerPhase::Finished,
                failed("Failed to spawn server: ", reason.as_str()),
            ),
            (ServerPhase::Spawning, ServerEvent::Spawned) => {
                let effects = vec![ServerEffect::Pause(500), ServerEffect::CheckProcess];
                assert(effects.deep_view() =~= seq![
                    ServerDeed::Pause(500),
                    ServerDeed::CheckProcess,
                ]);
                (ServerPhase::Checking, ServerStep::Ask(effects))
            },
            (ServerPhase::Checking, ServerEvent::Exited { status, python, script, stderr }) => {
                let mut message = "Server exited immediately (code: ".to_owned();
                message.append(status.as_str());
                message.append("). Python: ");
                message.append(python.as_str());
                message.append(", Script: ");
                message.append(script.as_str());
                message.append("\n");
                message.append(trim(stderr.as_str()).as_str());
                (ServerPhase::Finished, ServerStep::Failed(message))
            },
            (ServerPhase::Checking, ServerEvent::CheckFailed(reason)) => (
                ServerPhase::Finished,
                failed("Failed to check server status: ", reason.as_str()),
            ),
            (ServerPhase::Checking, ServerEvent::Running) => (
                ServerPhase::Finished,
                ServerStep::Started,
            ),
            (phase, _) => (phase, ServerStep::Wait),
        };
        (ServerStart { phase }, step)
    }
}

/// Bringing up a server again does no harm: one whose process is known to run, or that says that
/// it is up, is left alone.
pub proof fn law_ensuring_again_is_harmless(settings: AppSettings)
    ensures
        first_server_step(true, settings).1 is AlreadyUp,
        server_step(first_server_step(false, settings).0, ServerEvent::Health(true)) == (
            ServerPhase::Finished,
            ServerTurn::AlreadyUp,
        ),
{
}

/// Processes on the port are ended only when the server has just said that it is not up.
pub proof fn law_port_is_freed_only_when_the_server_is_down(
    phase: ServerPhase,
    event: ServerEvent,
    command: Seq<char>,
)
    requires
        server_step(phase, event).1 matches ServerTurn::Ask(deeds) && deeds.contains(
            ServerDeed::RunShell(command),
        ),
    ensures
        phase is Probing,
        event == ServerEvent::Health(false),
        command == kill_command(phase->port),
{
}

/// The server is asked at the host and port that it is to have, and processes are ended on that
/// same port: the address and the command differ from those of another port.
pub proof fn law_addresses_name_the_port(host: Seq<char>, port: u16)
    ensures
        health_address(host, port) == "http://"@ + host + ":"@ + decimal(port as nat) + "/health"@,
        kill_command(port) == "lsof -ti:"@ + decimal(port as nat) + " | xargs kill -9 2>/dev/null"@,
        place_value(decimal(port as nat)) == port,
{
    law_decimal_is_read_back(port as nat);
}

/// A server that is down and can be brought up is brought up in this order: it is asked at its
/// address, its port is freed, the settings are read again, and the script is found and started,
/// with the model, port and host that these settings name and with the Python found from their
/// path. It counts as started only when its process still runs half a second later.
pub proof fn law_server_is_brought_up(settings: AppSettings, server: LocalSttServer)
    ensures
        ({
            let asked = first_server_step(false, settings);
            let down = server_step(asked.0, ServerEvent::Health(false));
            let read = server_step(down.0, ServerEvent::Settings(server));
            let found = server_step(read.0, ServerEvent::ScriptFound);
            let spawned = server_step(found.0, ServerEvent::Spawned);
            let runs = server_step(spawned.0, ServerEvent::Running);
            let now = settings.local_stt_server;
            &&& asked.1 == ServerTurn::Ask(
                seq![
                    ServerDeed::Probe(
                        "http://"@ + now.host@ + ":"@ + decimal(now.port as nat) + "/health"@,
                    ),
                ],
            )
            &&& down.1 == ServerTurn::Ask(
                seq![
                    ServerDeed::RunShell(
                        "lsof -ti:"@ + decimal(now.port as nat) + " | xargs kill -9 2>/dev/null"@,
                    ),
                    ServerDeed::Pause(400),
                    ServerDeed::ReadSettings,
                ],
            )
            &&& read.1 == ServerTurn::Ask(seq![ServerDeed::LocateScript("stt-server.py"@)])
            &&& found.1 == ServerTurn::Ask(
                seq![
                    ServerDeed::Spawn {
                        python_path: server.python_path@,
                        args: seq![
                            "--model"@,
                            server.model@,
                            "--port"@,
                            decimal(server.port as nat),
                            "--host"@,
                            server.host@,
                        ],
                    },
                ],
            )
            &&& spawned.1 == ServerTurn::Ask(
                seq![ServerDeed::Pause(500), ServerDeed::CheckProcess],
            )
            &&& runs == (ServerPhase::Finished, ServerTurn::Started)
        }),
{
}

/// A server that cannot be brought up is reported with the reason, and that is the end of it.
pub proof fn law_server_failure_is_told(server: LocalSttServer, event: ServerEvent)
    ensures
        ({
            let located = server_step(ServerPhase::Locating { server }, event);
            let spawned = server_step(ServerPhase::Spawning, event);
            let checked = server_step(ServerPhase::Checking, event);
            &&& event matches ServerEvent::ScriptMissing(message) ==> located == (
                ServerPhase::Finished,
                ServerTurn::Failed(message@),
            )
            &&& event matches ServerEvent::SpawnFailed(reason) ==> spawned == (
                ServerPhase::Finished,
                ServerTurn::Failed("Failed to spawn server: "@ + reason@),
            )
            &&& event matches ServerEvent::CheckFailed(reason) ==> checked == (
                ServerPhase::Finished,
                ServerTurn::Failed("Failed to check server status: "@ + reason@),
            )
            &&& event matches ServerEvent::Exited { status, python, script, stderr } ==> checked
                == (
                ServerPhase::Finished,
                ServerTurn::Failed(
                    "Server exited immediately (code: "@ + status@ + "). Python: "@ + python@
                        + ", Script: "@ + script@ + "\n"@ + trimmed(stderr@),
                ),
            )
        }),
{
}

/// Bringing up the server waits for one thing at a time: any other event changes nothing. Only a
/// server that says that it is up, or a process that still runs, is taken for one.
pub proof fn law_server_start_takes_only_what_it_waits_for(phase: ServerPhase, event: ServerEvent)
    ensures
        ({
            let awaited = match phase {
                ServerPhase::Probing { port } => event is Health,
                ServerPhase::FreeingPort => event is Settings,
                ServerPhase::Locating { server } => event is ScriptFound || event is ScriptMissing,
                ServerPhase::Spawning => event is Spawned || event is SpawnFailed,
                ServerPhase::Checking => event is Running || event is Exited || event
                    is CheckFailed,
                ServerPhase::Finished => false,
            };
            let next = server_step(phase, event);
            &&& !awaited ==> next == (phase, ServerTurn::Wait)
            &&& awaited ==> !(next.1 is Wait)
            &&& next.1 is AlreadyUp <==> phase is Probing && event == ServerEvent::Health(true)
            &&& next.1 is Started <==> phase is Checking && event is Running
        }),
{
}

} // verus!
