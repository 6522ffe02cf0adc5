//! The supervisor of the one companion process. Like the registry's
//! operations, `start` and `stop` are step functions: they answer with the
//! next thing to do to the system, and take what came of it as their next
//! event.

use vstd::prelude::*;
use vstd::string::StringExecFns;
use crate::error::{ServerError, ServerErrorView};
use crate::text::{concat, decimal, decimal_string};

verus! {

/// How the application was built.
#[derive(Debug, Clone, Copy, PartialEq, Eq)]
pub enum Profile {
    /// Run from the project's source tree.
    Development,
    /// Run from the bundled resources.
    Production,
}

/// The family of the host's operating system, as far as launching and
/// terminating a process differ.
#[derive(Debug, Clone, Copy, PartialEq, Eq)]
pub enum Platform {
    /// A kill reaches only the process itself: the tree below it is
    /// terminated with a utility.
    Windows,
    /// A direct kill is enough.
    Other,
}

/// A program and its arguments.
#[derive(Debug, PartialEq, Eq)]
pub struct LaunchCommand {
    pub program: String,
    pub args: Vec<String>,
}

/// A [`LaunchCommand`] with its texts as character sequences.
pub struct LaunchCommandView {
    pub program: Seq<char>,
    pub args: Seq<Seq<char>>,
}

impl View for LaunchCommand {
    type V = LaunchCommandView;

    open spec fn view(&self) -> LaunchCommandView {
        LaunchCommandView { program: self.program@, args: self.args.deep_view() }
    }
}

/// The supervised process while it runs: its system identifier and its
/// handle. `C` is whatever the caller launches processes as.
#[derive(Debug, PartialEq, Eq)]
pub struct ProcessRecord<C> {
    pub pid: u32,
    pub child: C,
}

/// The supervisor's state: the slot of the one process, empty while it is
/// stopped, and the profile and platform chosen when the application
/// started.
#[derive(Debug, PartialEq, Eq)]
pub struct ServerState<C> {
    pub process: Option<ProcessRecord<C>>,
    pub profile: Profile,
    pub platform: Platform,
}

/// How a process is terminated.
#[derive(Debug, PartialEq, Eq)]
pub enum KillMethod {
    /// Launch this utility, which kills the process and all below it, and do
    /// not wait for it: whether it succeeds is not looked at.
    Tree(LaunchCommand),
    /// Kill the process through its handle.
    Direct,
}

/// A [`KillMethod`] with its texts as character sequences.
pub enum KillMethodView {
    Tree(LaunchCommandView),
    Direct,
}

impl View for KillMethod {
    type V = KillMethodView;

    open spec fn view(&self) -> KillMethodView {
        match self {
            KillMethod::Tree(command) => KillMethodView::Tree(command@),
            KillMethod::Direct => KillMethodView::Direct,
        }
    }
}

/// A process that has left the supervisor's slot and is to be terminated.
#[derive(Debug, PartialEq, Eq)]
pub struct Termination<C> {
    pub process: ProcessRecord<C>,
    pub method: KillMethod,
}

/// What has happened so far in a `start`.
#[derive(Debug, PartialEq, Eq)]
pub enum StartEvent<C> {
    /// The caller asks for the process to be started.
    Requested,
    /// The working directory could not be worked out; holds the resolver's
    /// message.
    PathUnresolved(String),
    /// The working directory is known; holds it as shown to the user, and
    /// whether it exists.
    PathResolved { location: String, exists: bool },
    /// The process could not be launched; holds the system's message.
    SpawnFailed(String),
    /// The process was launched from `location`.
    Spawned { pid: u32, child: C, location: String },
}

/// What a `start` does next.
#[derive(Debug, PartialEq, Eq)]
pub enum StartAction {
    /// Work out the working directory and see whether it exists.
    ResolvePath,
    /// Launch this command in the working directory.
    Spawn(LaunchCommand),
    /// The operation is over: the confirmation, or the failure.
    Finish(Result<String, ServerError>),
}

/// A [`StartAction`] with its texts as character sequences.
pub enum StartActionView {
    ResolvePath,
    Spawn(LaunchCommandView),
    Finish(Result<Seq<char>, ServerErrorView>),
}

impl View for StartAction {
    type V = StartActionView;

    open spec fn view(&self) -> StartActionView {
        match self {
            StartAction::ResolvePath => StartActionView::ResolvePath,
            StartAction::Spawn(command) => StartActionView::Spawn(command@),
            StartAction::Finish(Ok(text)) => StartActionView::Finish(Ok(text@)),
            StartAction::Finish(Err(error)) => StartActionView::Finish(Err(error@)),
        }
    }
}

/// What has happened so far in a `stop`.
#[derive(Debug, PartialEq, Eq)]
pub enum StopEvent {
    /// The caller asks for the process to be stopped.
    Requested,
    /// The termination was carried out; holds the system's message where it
    /// failed.
    Terminated(Result<(), String>),
}

/// What a `stop` does next.
#[derive(Debug, PartialEq, Eq)]
pub enum StopAction<C> {
    /// Terminate this process.
    Terminate(Termination<C>),
    /// The operation is over: the confirmation, or the failure.
    Finish(Result<String, ServerError>),
}

/// A [`StopAction`] with its texts as character sequences.
pub enum StopActionView<C> {
    Terminate { process: ProcessRecord<C>, method: KillMethodView },
    Finish(Result<Seq<char>, ServerErrorView>),
}

impl<C> View for StopAction<C> {
    type V = StopActionView<C>;

    open spec fn view(&self) -> StopActionView<C> {
        match self {
            StopAction::Terminate(termination) => StopActionView::Terminate {
                process: termination.process,
                method: termination.method@,
            },
            StopAction::Finish(Ok(text)) => StopActionView::Finish(Ok(text@)),
            StopAction::Finish(Err(error)) => StopActionView::Finish(Err(error@)),
        }
    }
}

/// How long the application waits after its launch before it first starts
/// the process by itself, in milliseconds.
pub const AUTO_START_DELAY_MS: u64 = 1000;

/// The command that launches the process: in development the package
/// script, through the launcher that the platform knows it by; in production
/// the compiled entry point.
pub open spec fn launch_command_of(profile: Profile, platform: Platform) -> LaunchCommandView {
    match profile {
        Profile::Development => LaunchCommandView {
            program: match platform {
                Platform::Windows => "npm.cmd"@,
                Platform::Other => "npm"@,
            },
            args: seq!["run"@, "dev"@],
        },
        Profile::Production => LaunchCommandView {
            program: "node"@,
            args: seq!["dist/server.js"@],
        },
    }
}

/// The utility that kills the process `pid` and all below it, by force.
pub open spec fn tree_kill_command_of(pid: u32) -> LaunchCommandView {
    LaunchCommandView {
        program: "taskkill"@,
        args: seq!["/F"@, "/T"@, "/PID"@, decimal(pid as nat)],
    }
}

/// How the process `pid` is terminated on a platform.
pub open spec fn kill_method_of(platform: Platform, pid: u32) -> KillMethodView {
    match platform {
        Platform::Windows => KillMethodView::Tree(tree_kill_command_of(pid)),
        Platform::Other => KillMethodView::Direct,
    }
}

/// The confirmation of a `start` that launched the process from `location`.
pub open spec fn started_text(location: Seq<char>) -> Seq<char> {
    "Server started successfully from "@ + location
}

/// One step of a `start`: the state afterwards and the next action.
///
/// While the process runs, a `start` ends at once and changes nothing.
/// Otherwise a request asks for the working directory; a directory that
/// exists is followed by the launch, one that does not ends the operation; a
/// launched process fills the slot.
pub open spec fn start_step<C>(
    state: ServerState<C>,
    event: StartEvent<C>,
) -> (ServerState<C>, StartActionView) {
    if state.process is Some {
        (state, StartActionView::Finish(Ok("Server is already running"@)))
    } else {
        match event {
            StartEvent::Requested => (state, StartActionView::ResolvePath),
            StartEvent::PathUnresolved(reason) => (
                state,
                StartActionView::Finish(Err(ServerErrorView::PathUnresolved(reason@))),
            ),
            StartEvent::PathResolved { location, exists } => if exists {
                (state, StartActionView::Spawn(launch_command_of(state.profile, state.platform)))
            } else {
                (state, StartActionView::Finish(Err(ServerErrorView::PathNotFound(location@))))
            },
            StartEvent::SpawnFailed(reason) => (
                state,
                StartActionView::Finish(Err(ServerErrorView::SpawnError(reason@))),
            ),
            StartEvent::Spawned { pid, child, location } => (
                ServerState { process: Some(ProcessRecord { pid, child }), ..state },
                StartActionView::Finish(Ok(started_text(location@))),
            ),
        }
    }
}

/// One step of a `stop`: the state afterwards and the next action.
///
/// A request empties the slot, whatever comes of the termination: with no
/// process it ends at once, with one it asks for the process to be
/// terminated as the platform needs. Once the termination was carried out,
/// its failure is reported only where the kill was direct.
pub open spec fn stop_step<C>(
    state: ServerState<C>,
    event: StopEvent,
) -> (ServerState<C>, StopActionView<C>) {
    match event {
        StopEvent::Requested => match state.process {
            Some(process) => (
                ServerState { process: None, ..state },
                StopActionView::Terminate {
                    process,
                    method: kill_method_of(state.platform, process.pid),
                },
            ),
            None => (state, StopActionView::Finish(Ok("Server was not running"@))),
        },
        StopEvent::Terminated(outcome) => match (state.platform, outcome) {
            (Platform::Other, Err(reason)) => (
                state,
                StopActionView::Finish(Err(ServerErrorView::StopError(reason@))),
            ),
            _ => (state, StopActionView::Finish(Ok("Server stopped successfully"@))),
        },
    }
}

/// What the supervisor answers when asked for its status.
pub open spec fn status_text<C>(state: ServerState<C>) -> Seq<char> {
    if state.process is Some {
        "running"@
    } else {
        "stopped"@
    }
}

/// The command that launches the process.
pub fn launch_command(profile: Profile, platform: Platform) -> (command: LaunchCommand)
    ensures
        command@ == launch_command_of(profile, platform),
{
    let command = match profile {
        Profile::Development => {
            let program = match platform {
                Platform::Windows => String::from_str("npm.cmd"),
                Platform::Other => String::from_str("npm"),
            };
            let mut args: Vec<String> = Vec::new();
            args.push(String::from_str("run"));
            args.push(String::from_str("dev"));
            LaunchCommand { program, args }
        },
        Profile::Production => {
            let mut args: Vec<String> = Vec::new();
            args.push(String::from_str("dist/server.js"));
            LaunchCommand { program: String::from_str("node"), args }
        },
    };
    assert(command.args.deep_view() =~= launch_command_of(profile, platform).args);
    command
}

/// The utility that kills the process `pid` and all below it, by force.
pub fn tree_kill_command(pid: u32) -> (command: LaunchCommand)
    ensures
        command@ == tree_kill_command_of(pid),
{
    let mut args: Vec<String> = Vec::new();
    args.push(String::from_str("/F"));
    args.push(String::from_str("/T"));
    args.push(String::from_str("/PID"));
    args.push(decimal_string(pid));
    let command = LaunchCommand { program: String::from_str("taskkill"), args };
    assert(command.args.deep_view() =~= tree_kill_command_of(pid).args);
    command
}

/// How the process `pid` is terminated on a platform.
pub fn kill_method(platform: Platform, pid: u32) -> (method: KillMethod)
    ensures
        method@ == kill_method_of(platform, pid),
{
    match platform {
        Platform::Windows => KillMethod::Tree(tree_kill_command(pid)),
        Platform::Other => KillMethod::Direct,
    }
}

impl<C> ServerState<C> {
    /// A supervisor whose process is stopped.
    pub fn new(profile: Profile, platform: Platform) -> (state: Self)
        ensures
            state == (ServerState::<C> { process: None, profile, platform }),
    {
        ServerState { process: None, profile, platform }
    }

    /// Empties the slot when the application shuts down, and hands out the
    /// process that was in it, to be terminated as `stop` would. Nothing is
    /// left to report a failure to.
    pub fn teardown(&mut self) -> (termination: Option<Termination<C>>)
        ensures
            *final(self) == (ServerState { process: None, ..*old(self) }),
            match termination {
                Some(termination) => old(self).process == Some(termination.process)
                    && termination.method@ == kill_method_of(
                    old(self).platform,
                    termination.process.pid,
                ),
                None => old(self).process is None,
            },
    {
        match self.process.take() {
            Some(process) => {
                let method = kill_method(self.platform, process.pid);
                Some(Termination { process, method })
            },
            None => None,
        }
    }
}

/// Takes a `start` one step further.
pub fn start_backend_server_internal<C>(
    state: &mut ServerState<C>,
    event: StartEvent<C>,
) -> (action: StartAction)
    ensures
        (*final(state), action@) == start_step(*old(state), event),
{
    if state.process.is_some() {
        return StartAction::Finish(Ok(String::from_str("Server is already running")));
    }
    match event {
        StartEvent::Requested => StartAction::ResolvePath,
        StartEvent::PathUnresolved(reason) => StartAction::Finish(
            Err(ServerError::PathUnresolved(reason)),
        ),
        StartEvent::PathResolved { location, exists } => {
            if exists {
                StartAction::Spawn(launch_command(state.profile, state.platform))
            } else {
                StartAction::Finish(Err(ServerError::PathNotFound(location)))
            }
        },
        StartEvent::SpawnFailed(reason) => StartAction::Finish(Err(ServerError::SpawnError(reason))),
        StartEvent::Spawned { pid, child, location } => {
            state.process = Some(ProcessRecord { pid, child });
            StartAction::Finish(Ok(concat("Server started successfully from ", location.as_str())))
        },
    }
}

/// Takes a `start` that the user asked for one step further: the same steps
/// as the start that the application makes by itself.
pub fn start_backend_server<C>(
    state: &mut ServerState<C>,
    event: StartEvent<C>,
) -> (action: StartAction)
    ensures
        (*final(state), action@) == start_step(*old(state), event),
{
    start_backend_server_internal(state, event)
}

/// Takes a `stop` one step further.
pub fn stop_backend_server<C>(
    state: &mut ServerState<C>,
    event: StopEvent,
) -> (action: StopAction<C>)
    ensures
        (*final(state), action@) == stop_step(*old(state), event),
{
    match event {
        StopEvent::Requested => match state.process.take() {
            Some(process) => {
                let method = kill_method(state.platform, process.pid);
                StopAction::Terminate(Termination { process, method })
            },
            None => StopAction::Finish(Ok(String::from_str("Server was not running"))),
        },
        StopEvent::Terminated(outcome) => match (state.platform, outcome) {
            (Platform::Other, Err(reason)) => StopAction::Finish(
                Err(ServerError::StopError(reason)),
            ),
            _ => StopAction::Finish(Ok(String::from_str("Server stopped successfully"))),
        },
    }
}

/// Whether the process runs: `running` or `stopped`. Never fails.
pub fn get_server_status<C>(state: &ServerState<C>) -> (status: Result<String, ServerError>)
    ensures
        status matches Ok(text) && text@ == status_text(*state),
{
    if state.process.is_some() {
        Ok(String::from_str("running"))
    } else {
        Ok(String::from_str("stopped"))
    }
}

/// While the process runs, a `start` launches nothing: every step of it ends
/// with success and leaves the state, and with it the one process, as it is.
pub proof fn lemma_start_while_running<C>(state: ServerState<C>, event: StartEvent<C>)
    requires
        state.process is Some,
    ensures
        start_step(state, event) == (
            state,
            StartActionView::Finish(Ok("Server is already running"@)),
        ),
{
}

/// Two starts in a row give one process: the first, once its process was
/// launched, ends with success and fills the slot; every step of the second
/// ends with success, asks for no launch and leaves the slot with the first
/// start's process.
pub proof fn lemma_start_twice<C>(
    state: ServerState<C>,
    pid: u32,
    child: C,
    location: String,
    event: StartEvent<C>,
)
    requires
        state.process is None,
    ensures
        ({
            let first = start_step(state, StartEvent::Spawned { pid, child, location });
            let second = start_step(first.0, event);
            &&& first.1 == StartActionView::Finish(Ok(started_text(location@)))
            &&& first.0.process == Some(ProcessRecord { pid, child })
            &&& second.1 == StartActionView::Finish(Ok("Server is already running"@))
            &&& second.0 == first.0
        }),
{
}

/// A `start` of a stopped process asks for a launch only once the working
/// directory is known to exist, and the launch is the one that the profile
/// and the platform select; no step but a launched process fills the slot.
pub proof fn lemma_start_launches_after_path<C>(state: ServerState<C>, event: StartEvent<C>)
    requires
        state.process is None,
    ensures
        start_step(state, event).1 is Spawn <==> (event matches StartEvent::PathResolved {
            exists,
            ..
        } && exists),
        start_step(state, event).1 is Spawn ==> start_step(state, event).1
            == StartActionView::Spawn(launch_command_of(state.profile, state.platform)),
        start_step(state, event).0.process is Some <==> event is Spawned,
        !(event is Spawned) ==> start_step(state, event).0 == state,
{
}

/// While the process is stopped, a `stop` ends at once with success and
/// changes nothing.
pub proof fn lemma_stop_while_stopped<C>(state: ServerState<C>)
    requires
        state.process is None,
    ensures
        stop_step(state, StopEvent::Requested) == (
            state,
            StopActionView::<C>::Finish(Ok("Server was not running"@)),
        ),
{
}

/// A `stop` leaves the slot empty, whether or not the termination succeeds
/// afterwards: the request empties it and hands the process out, and the
/// step that takes the termination's outcome does not fill it again. So a
/// stop and a start after it do not hit a process that is taken to run.
pub proof fn lemma_stop_empties_slot<C>(state: ServerState<C>, outcome: Result<(), String>)
    ensures
        ({
            let requested = stop_step(state, StopEvent::Requested);
            let terminated = stop_step(requested.0, StopEvent::Terminated(outcome));
            &&& requested.0.process is None
            &&& requested.0.profile == state.profile
            &&& requested.0.platform == state.platform
            &&& terminated.0 == requested.0
            &&& state.process matches Some(process) ==> requested.1 == (StopActionView::Terminate {
                process,
                method: kill_method_of(state.platform, process.pid),
            })
        }),
{
}

/// A failed termination is reported only where the kill was direct: where
/// the tree is killed with a utility, whose outcome is not looked at, the
/// `stop` ends with success.
pub proof fn lemma_stop_reports_direct_kill_only<C>(
    state: ServerState<C>,
    outcome: Result<(), String>,
)
    ensures
        stop_step(state, StopEvent::Terminated(outcome)).1 == (match (state.platform, outcome) {
            (Platform::Other, Err(reason)) => StopActionView::<C>::Finish(
                Err(ServerErrorView::StopError(reason@)),
            ),
            _ => StopActionView::<C>::Finish(Ok("Server stopped successfully"@)),
        }),
        state.platform == Platform::Windows ==> stop_step(state, StopEvent::Terminated(outcome)).1
            == StopActionView::<C>::Finish(Ok("Server stopped successfully"@)),
{
}

/// The status is `running` from the launch of the process until the next
/// `stop`, and `stopped` otherwise.
pub proof fn lemma_status_follows_slot<C>(
    state: ServerState<C>,
    pid: u32,
    child: C,
    location: String,
)
    requires
        state.process is None,
    ensures
        status_text(state) == "stopped"@,
        status_text(start_step(state, StartEvent::Spawned { pid, child, location }).0)
            == "running"@,
        status_text(
            stop_step(
                start_step(state, StartEvent::Spawned { pid, child, location }).0,
                StopEvent::Requested,
            ).0,
        ) == "stopped"@,
{
}

} // verus!
