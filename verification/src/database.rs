use crate::text::{decimal, decimal_text, join, joined, owned, same_text, texts};
use vstd::prelude::*;

verus! {

/// The operating system whose shell starts and stops the database.
#[derive(Clone, Copy, Debug, PartialEq, Eq, Structural)]
pub enum Platform {
    Windows,
    MacOs,
    Linux,
}

/// The words of the shell that runs a command line on a platform.
pub open spec fn shell_of(platform: Platform) -> Seq<Seq<char>> {
    match platform {
        Platform::Windows => seq!["cmd"@, "/c"@],
        Platform::MacOs => seq!["zsh"@, "-l"@, "-c"@],
        Platform::Linux => seq!["bash"@, "-l"@, "-c"@],
    }
}

/// The command that starts a process through the platform's shell: the
/// shell's words, then the arguments as one command line, joined by spaces.
pub open spec fn start_command(platform: Platform, args: Seq<Seq<char>>) -> Seq<Seq<char>> {
    shell_of(platform).push(joined(args, " "@))
}

/// Builds the command that starts the server through the platform's shell.
pub fn build_start_command(platform: Platform, args: &Vec<String>) -> (command: Vec<String>)
    ensures
        texts(command@) == start_command(platform, texts(args@)),
{
    let mut command: Vec<String> = Vec::new();
    match platform {
        Platform::Windows => {
            command.push(owned("cmd"));
            command.push(owned("/c"));
        },
        Platform::MacOs => {
            command.push(owned("zsh"));
            command.push(owned("-l"));
            command.push(owned("-c"));
        },
        Platform::Linux => {
            command.push(owned("bash"));
            command.push(owned("-l"));
            command.push(owned("-c"));
        },
    }
    command.push(join(args, " "));
    assert(texts(command@) =~= start_command(platform, texts(args@)));
    command
}

/// The command that kills the process with an identifier, and on Windows
/// its children with it.
pub open spec fn kill_command(platform: Platform, id: u32) -> Seq<Seq<char>> {
    match platform {
        Platform::Windows => seq!["taskkill"@, "/pid"@, decimal(id as nat), "/f"@, "/t"@],
        _ => seq!["kill"@, "-9"@, decimal(id as nat)],
    }
}

/// Builds the command that kills a process.
pub fn build_kill_command(platform: Platform, id: &u32) -> (command: Vec<String>)
    ensures
        texts(command@) == kill_command(platform, *id),
{
    let mut command: Vec<String> = Vec::new();
    match platform {
        Platform::Windows => {
            command.push(owned("taskkill"));
            command.push(owned("/pid"));
            command.push(decimal_text(*id as u64));
            command.push(owned("/f"));
            command.push(owned("/t"));
        },
        _ => {
            command.push(owned("kill"));
            command.push(owned("-9"));
            command.push(decimal_text(*id as u64));
        },
    }
    assert(texts(command@) =~= kill_command(platform, *id));
    command
}

/// How the database is to be served.
pub struct ServeOptions {
    pub username: String,
    pub password: String,
    pub port: u32,
    pub driver: String,
    pub storage: String,
    pub executable: String,
    pub log_level: String,
    pub legacy_compat: bool,
}

/// The storage argument of a driver: `memory` as it is, the three drivers
/// that keep files as their scheme and the place of the storage; `None` for
/// any other driver.
pub open spec fn storage_argument(driver: Seq<char>, storage: Seq<char>) -> Option<Seq<char>> {
    if driver == "memory"@ {
        Some("memory"@)
    } else if driver == "file"@ {
        Some("rocksdb://"@ + storage)
    } else if driver == "surrealkv"@ {
        Some("surrealkv://"@ + storage)
    } else if driver == "tikv"@ {
        Some("tikv://"@ + storage)
    } else {
        None
    }
}

/// The arguments up to the storage: the executable, `surreal` where none is
/// named, and the options of the server.
pub open spec fn serve_arguments(options: ServeOptions) -> Seq<Seq<char>> {
    let head = seq![
        if options.executable@.len() == 0 {
            "surreal"@
        } else {
            options.executable@
        },
        "start"@,
        "--bind"@,
        "0.0.0.0:"@ + decimal(options.port as nat),
        "--user"@,
        options.username@,
        "--pass"@,
        options.password@,
        "--log"@,
        options.log_level@,
    ];
    if options.legacy_compat {
        head.push("--auth"@)
    } else {
        head
    }
}

/// The whole argument list of the server, or `None` for a driver that is not
/// known.
pub open spec fn start_arguments_of(options: ServeOptions) -> Option<Seq<Seq<char>>> {
    match storage_argument(options.driver@, options.storage@) {
        Some(storage) => Some(serve_arguments(options).push(storage).push("--allow-all"@)),
        None => None,
    }
}

/// The storage argument of the driver, if the driver is known.
fn storage_for(driver: &str, storage: &str) -> (argument: Option<String>)
    ensures
        crate::text::text_of(argument) == storage_argument(driver@, storage@),
{
    let scheme = if same_text(driver, "memory") {
        return Some(owned("memory"));
    } else if same_text(driver, "file") {
        "rocksdb://"
    } else if same_text(driver, "surrealkv") {
        "surrealkv://"
    } else if same_text(driver, "tikv") {
        "tikv://"
    } else {
        return None;
    };
    let mut argument = owned(scheme);
    argument.append(storage);
    Some(argument)
}

/// Works out the arguments with which the server is started; the error
/// where the driver is not one of the four known.
pub fn start_arguments(options: &ServeOptions) -> (args: Result<Vec<String>, String>)
    ensures
        match args {
            Ok(list) => start_arguments_of(*options) == Some(texts(list@)),
            Err(message) => start_arguments_of(*options) is None && message@
                == "Invalid database driver"@,
        },
{
    let mut args: Vec<String> = Vec::new();
    if options.executable.as_str().unicode_len() == 0 {
        args.push(owned("surreal"));
    } else {
        args.push(owned(options.executable.as_str()));
    }
    args.push(owned("start"));
    args.push(owned("--bind"));
    let mut bind = owned("0.0.0.0:");
    bind.append(decimal_text(options.port as u64).as_str());
    args.push(bind);
    args.push(owned("--user"));
    args.push(owned(options.username.as_str()));
    args.push(owned("--pass"));
    args.push(owned(options.password.as_str()));
    args.push(owned("--log"));
    args.push(owned(options.log_level.as_str()));
    if options.legacy_compat {
        args.push(owned("--auth"));
    }
    assert(texts(args@) =~= serve_arguments(*options));
    match storage_for(options.driver.as_str(), options.storage.as_str()) {
        Some(storage) => {
            let ghost before = texts(args@);
            args.push(storage);
            args.push(owned("--allow-all"));
            assert(texts(args@) =~= before.push(storage@).push("--allow-all"@));
            Ok(args)
        },
        None => Err(owned("Invalid database driver")),
    }
}

/// What the window is told about the server: under a name, and with a
/// message where there is one to show.
pub enum DatabaseEvent {
    /// The server serves.
    Start,
    /// The server printed a line.
    Output(String),
    /// The server could not be started, or did not start correctly.
    Error(String),
    /// The server has stopped.
    Stop,
}

impl View for DatabaseEvent {
    type V = (Seq<char>, Option<Seq<char>>);

    /// The name of the event and its message.
    open spec fn view(&self) -> (Seq<char>, Option<Seq<char>>) {
        match self {
            DatabaseEvent::Start => ("database:start"@, None),
            DatabaseEvent::Output(line) => ("database:output"@, Some(line@)),
            DatabaseEvent::Error(reason) => ("database:error"@, Some(reason@)),
            DatabaseEvent::Stop => ("database:stop"@, None),
        }
    }
}

impl DatabaseEvent {
    /// The name under which the event is sent.
    pub fn name(&self) -> (name: String)
        ensures
            name@ == self@.0,
    {
        match self {
            DatabaseEvent::Start => owned("database:start"),
            DatabaseEvent::Output(_) => owned("database:output"),
            DatabaseEvent::Error(_) => owned("database:error"),
            DatabaseEvent::Stop => owned("database:stop"),
        }
    }
}

/// The events that a list holds, in order.
pub open spec fn event_views(events: Seq<DatabaseEvent>) -> Seq<(Seq<char>, Option<Seq<char>>)> {
    events.map_values(|e: DatabaseEvent| e@)
}

/// What to tell the window about a server process that has ended.
#[derive(Clone, Copy, Debug, PartialEq, Eq, Structural)]
pub enum ExitReport {
    /// It ended within half a second without a line of output: most likely
    /// the executable was not found.
    NeverStarted,
    /// It ended within half a second after some output.
    FailedEarly,
    /// It ran and was stopped.
    Stopped,
}

/// How the end of a server process is judged, by how long it ran in
/// milliseconds and whether it printed anything.
pub open spec fn exit_report(elapsed_millis: u64, printed: bool) -> ExitReport {
    if elapsed_millis > 500 {
        ExitReport::Stopped
    } else if printed {
        ExitReport::FailedEarly
    } else {
        ExitReport::NeverStarted
    }
}

/// Judges the end of a server process by how long it ran, in milliseconds,
/// and whether it printed anything.
pub fn classify_exit(elapsed_millis: u64, printed: bool) -> (report: ExitReport)
    ensures
        report == exit_report(elapsed_millis, printed),
{
    if elapsed_millis > 500 {
        ExitReport::Stopped
    } else if printed {
        ExitReport::FailedEarly
    } else {
        ExitReport::NeverStarted
    }
}

/// The events that go with the end of a server process: a stop where it
/// ran; the error where it ended early, after a line that says what most
/// likely went wrong where it printed nothing itself.
pub open spec fn exit_events_of(report: ExitReport) -> Seq<(Seq<char>, Option<Seq<char>>)> {
    let failed = (
        "database:error"@,
        Some("SurrealDB did not start correctly, check the console for more information"@),
    );
    match report {
        ExitReport::Stopped => seq![("database:stop"@, None)],
        ExitReport::FailedEarly => seq![failed],
        ExitReport::NeverStarted => seq![
            (
                "database:output"@,
                Some(
                    "SurrealDB did not start. Are you sure the Surreal executable is available?"@,
                ),
            ),
            failed,
        ],
    }
}

/// Makes the events that go with the end of a server process.
pub fn exit_events(elapsed_millis: u64, printed: bool) -> (events: Vec<DatabaseEvent>)
    ensures
        event_views(events@) == exit_events_of(exit_report(elapsed_millis, printed)),
{
    let mut events: Vec<DatabaseEvent> = Vec::new();
    match classify_exit(elapsed_millis, printed) {
        ExitReport::Stopped => {
            events.push(DatabaseEvent::Stop);
        },
        ExitReport::FailedEarly => {
            events.push(
                DatabaseEvent::Error(
                    owned(
                        "SurrealDB did not start correctly, check the console for more information",
                    ),
                ),
            );
        },
        ExitReport::NeverStarted => {
            events.push(
                DatabaseEvent::Output(
                    owned(
                        "SurrealDB did not start. Are you sure the Surreal executable is available?",
                    ),
                ),
            );
            events.push(
                DatabaseEvent::Error(
                    owned(
                        "SurrealDB did not start correctly, check the console for more information",
                    ),
                ),
            );
        },
    }
    assert(event_views(events@) =~= exit_events_of(exit_report(elapsed_millis, printed)));
    events
}

/// What a request to start the server comes to.
pub enum StartDecision {
    /// A server is running already: report it as started and leave it.
    AlreadyServing,
    /// None is running: launch one with this command, then report it as
    /// started.
    Launch(Vec<String>),
    /// None is running and none can be launched, for this reason.
    Refuse(String),
}

/// What a decision stands for.
pub enum StartModel {
    AlreadyServing,
    Launch(Seq<Seq<char>>),
    Refuse(Seq<char>),
}

impl View for StartDecision {
    type V = StartModel;

    open spec fn view(&self) -> StartModel {
        match self {
            StartDecision::AlreadyServing => StartModel::AlreadyServing,
            StartDecision::Launch(command) => StartModel::Launch(texts(command@)),
            StartDecision::Refuse(reason) => StartModel::Refuse(reason@),
        }
    }
}

/// How a request to start the server is decided: a server that is held is
/// left as it is; else one is launched through the platform's shell with
/// the arguments of the options, or refused where the options name no known
/// driver.
pub open spec fn start_decision(serving: bool, platform: Platform, options: ServeOptions) -> StartModel {
    if serving {
        StartModel::AlreadyServing
    } else {
        match start_arguments_of(options) {
            Some(args) => StartModel::Launch(start_command(platform, args)),
            None => StartModel::Refuse("Invalid database driver"@),
        }
    }
}

/// Decides a request to start the server.
pub fn start_database(serving: bool, platform: Platform, options: &ServeOptions) -> (decision:
    StartDecision)
    ensures
        decision@ == start_decision(serving, platform, *options),
{
    if serving {
        return StartDecision::AlreadyServing;
    }
    match start_arguments(options) {
        Ok(args) => StartDecision::Launch(build_start_command(platform, &args)),
        Err(reason) => StartDecision::Refuse(reason),
    }
}

/// What the window and the caller are told of a decided start, once a
/// launch that was asked for has been made: that the server serves, or, of
/// a refusal, the reason as an error event and to the caller that the
/// database failed to start.
pub open spec fn start_report_of(decision: StartModel) -> (
    (Seq<char>, Option<Seq<char>>),
    Option<Seq<char>>,
) {
    match decision {
        StartModel::Refuse(reason) => (
            ("database:error"@, Some(reason)),
            Some("Failed to start database"@),
        ),
        _ => (("database:start"@, None), None),
    }
}

/// Makes the event for the window and the result for the caller of a
/// decided start.
pub fn start_report(decision: &StartDecision) -> (report: (DatabaseEvent, Result<(), String>))
    ensures
        report.0@ == start_report_of(decision@).0,
        match report.1 {
            Ok(_) => start_report_of(decision@).1 is None,
            Err(e) => start_report_of(decision@).1 == Some(e@),
        },
{
    match decision {
        StartDecision::Refuse(reason) => (
            DatabaseEvent::Error(owned(reason.as_str())),
            Err(owned("Failed to start database")),
        ),
        _ => (DatabaseEvent::Start, Ok(())),
    }
}

/// Takes the process that is held, if any, out of the state for it to be
/// killed. The flag says whether there was one.
pub fn stop_database(process: &mut Option<u32>) -> (stopped: (bool, Option<u32>))
    ensures
        *final(process) is None,
        stopped.1 == *old(process),
        stopped.0 == (*old(process) is Some),
{
    let held = process.take();
    (held.is_some(), held)
}

} // verus!
