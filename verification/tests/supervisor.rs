use serial_console::{
    decimal_string, get_server_status, kill_method, launch_command, start_backend_server,
    start_backend_server_internal, stop_backend_server, tree_kill_command, KillMethod,
    LaunchCommand, Platform, Profile, ServerError, ServerState, StartAction, StartEvent,
    StopAction, StopEvent, AUTO_START_DELAY_MS,
};

/// A stand-in for a process handle.
#[derive(Debug, PartialEq, Eq)]
struct Child(u32);

/// A system that counts the processes it launched and killed.
#[derive(Default)]
struct System {
    launched: Vec<LaunchCommand>,
    killed: Vec<u32>,
    utilities: Vec<LaunchCommand>,
    directory_exists: bool,
    spawn_fails: Option<String>,
    kill_fails: Option<String>,
}

impl System {
    fn with_directory() -> System {
        System { directory_exists: true, ..System::default() }
    }

    fn live(&self) -> usize {
        self.launched.len() - self.killed.len() - self.utilities.len()
    }
}

fn command(program: &str, args: &[&str]) -> LaunchCommand {
    LaunchCommand { program: program.to_string(), args: args.iter().map(|arg| arg.to_string()).collect() }
}

fn start(state: &mut ServerState<Child>, system: &mut System) -> Result<String, ServerError> {
    let mut event = StartEvent::Requested;
    loop {
        match start_backend_server(state, event) {
            StartAction::ResolvePath => {
                event = StartEvent::PathResolved {
                    location: "\"/srv/app/server\"".to_string(),
                    exists: system.directory_exists,
                };
            },
            StartAction::Spawn(command) => {
                event = match &system.spawn_fails {
                    Some(reason) => StartEvent::SpawnFailed(reason.clone()),
                    None => {
                        system.launched.push(command);
                        let pid = 4000 + system.launched.len() as u32;
                        StartEvent::Spawned { pid, child: Child(pid), location: "\"/srv/app/server\"".to_string() }
                    },
                };
            },
            StartAction::Finish(result) => return result,
        }
    }
}

fn stop(state: &mut ServerState<Child>, system: &mut System) -> Result<String, ServerError> {
    let mut event = StopEvent::Requested;
    loop {
        match stop_backend_server(state, event) {
            StopAction::Terminate(termination) => {
                assert_eq!(termination.process.child.0, termination.process.pid);
                event = match termination.method {
                    KillMethod::Tree(utility) => {
                        system.utilities.push(utility);
                        StopEvent::Terminated(Ok(()))
                    },
                    KillMethod::Direct => match &system.kill_fails {
                        Some(reason) => StopEvent::Terminated(Err(reason.clone())),
                        None => {
                            system.killed.push(termination.process.pid);
                            StopEvent::Terminated(Ok(()))
                        },
                    },
                };
            },
            StopAction::Finish(result) => return result,
        }
    }
}

fn status(state: &ServerState<Child>) -> String {
    get_server_status(state).unwrap()
}

#[test]
fn new_supervisor_is_stopped() {
    let state: ServerState<Child> = ServerState::new(Profile::Production, Platform::Windows);
    assert!(state.process.is_none());
    assert_eq!(state.profile, Profile::Production);
    assert_eq!(state.platform, Platform::Windows);
    assert_eq!(get_server_status(&state), Ok("stopped".to_string()));
}

#[test]
fn start_twice_gives_one_process() {
    let mut state = ServerState::new(Profile::Development, Platform::Other);
    let mut system = System::with_directory();
    assert_eq!(start(&mut state, &mut system), Ok("Server started successfully from \"/srv/app/server\"".to_string()));
    assert_eq!(start(&mut state, &mut system), Ok("Server is already running".to_string()));
    assert_eq!(system.launched.len(), 1);
    assert_eq!(system.live(), 1);
    assert_eq!(state.process.as_ref().map(|process| process.pid), Some(4001));
}

#[test]
fn start_while_running_ignores_every_event() {
    let mut state = ServerState::new(Profile::Development, Platform::Other);
    let mut system = System::with_directory();
    assert!(start(&mut state, &mut system).is_ok());
    let already = StartAction::Finish(Ok("Server is already running".to_string()));
    assert_eq!(start_backend_server_internal(&mut state, StartEvent::Requested), already);
    assert_eq!(
        start_backend_server_internal(&mut state, StartEvent::PathResolved { location: "x".to_string(), exists: true }),
        already
    );
    assert_eq!(start_backend_server_internal(&mut state, StartEvent::SpawnFailed("no".to_string())), already);
    assert_eq!(
        start_backend_server_internal(&mut state, StartEvent::Spawned { pid: 9, child: Child(9), location: "x".to_string() }),
        already
    );
    assert_eq!(state.process.as_ref().map(|process| process.pid), Some(4001));
}

#[test]
fn stop_when_stopped_is_success() {
    let mut state: ServerState<Child> = ServerState::new(Profile::Development, Platform::Other);
    let mut system = System::default();
    assert_eq!(stop(&mut state, &mut system), Ok("Server was not running".to_string()));
    assert_eq!(stop(&mut state, &mut system), Ok("Server was not running".to_string()));
    assert!(system.killed.is_empty());
    assert!(system.utilities.is_empty());
}

#[test]
fn end_to_end_start_status_stop() {
    let mut state = ServerState::new(Profile::Development, Platform::Other);
    let mut system = System::with_directory();
    assert_eq!(status(&state), "stopped");
    assert!(start(&mut state, &mut system).is_ok());
    assert_eq!(status(&state), "running");
    assert!(start(&mut state, &mut system).is_ok());
    assert_eq!(status(&state), "running");
    assert_eq!(system.live(), 1);
    assert_eq!(stop(&mut state, &mut system), Ok("Server stopped successfully".to_string()));
    assert_eq!(status(&state), "stopped");
    assert_eq!(system.live(), 0);
    assert_eq!(system.killed, vec![4001]);
}

#[test]
fn start_after_stop_launches_again() {
    let mut state = ServerState::new(Profile::Production, Platform::Other);
    let mut system = System::with_directory();
    assert!(start(&mut state, &mut system).is_ok());
    assert!(stop(&mut state, &mut system).is_ok());
    assert!(start(&mut state, &mut system).is_ok());
    assert_eq!(system.launched.len(), 2);
    assert_eq!(system.live(), 1);
    assert_eq!(state.process.as_ref().map(|process| process.pid), Some(4002));
}

#[test]
fn start_asks_for_the_path_first() {
    let mut state: ServerState<Child> = ServerState::new(Profile::Development, Platform::Other);
    assert_eq!(start_backend_server_internal(&mut state, StartEvent::Requested), StartAction::ResolvePath);
    assert!(state.process.is_none());
}

#[test]
fn missing_directory_is_path_not_found() {
    let mut state = ServerState::new(Profile::Production, Platform::Other);
    let mut system = System::default();
    let error = start(&mut state, &mut system).unwrap_err();
    assert_eq!(error, ServerError::PathNotFound("\"/srv/app/server\"".to_string()));
    assert_eq!(error.message(), "Server directory not found at: \"/srv/app/server\"");
    assert!(system.launched.is_empty());
    assert_eq!(status(&state), "stopped");
}

#[test]
fn unresolved_path_keeps_the_resolver_message() {
    let mut state: ServerState<Child> = ServerState::new(Profile::Development, Platform::Other);
    let action = start_backend_server_internal(
        &mut state,
        StartEvent::PathUnresolved("Failed to get current directory: gone".to_string()),
    );
    let error = ServerError::PathUnresolved("Failed to get current directory: gone".to_string());
    assert_eq!(error.message(), "Failed to get current directory: gone");
    assert_eq!(action, StartAction::Finish(Err(error)));
    assert!(state.process.is_none());
}

#[test]
fn failed_launch_is_a_spawn_error() {
    let mut state = ServerState::new(Profile::Development, Platform::Other);
    let mut system = System { spawn_fails: Some("program not found".to_string()), ..System::with_directory() };
    let error = start(&mut state, &mut system).unwrap_err();
    assert_eq!(error, ServerError::SpawnError("program not found".to_string()));
    assert_eq!(error.message(), "Failed to start server: program not found. Make sure Node.js is installed.");
    assert_eq!(status(&state), "stopped");
}

#[test]
fn launch_command_follows_profile_and_platform() {
    assert_eq!(launch_command(Profile::Development, Platform::Windows), command("npm.cmd", &["run", "dev"]));
    assert_eq!(launch_command(Profile::Development, Platform::Other), command("npm", &["run", "dev"]));
    assert_eq!(launch_command(Profile::Production, Platform::Windows), command("node", &["dist/server.js"]));
    assert_eq!(launch_command(Profile::Production, Platform::Other), command("node", &["dist/server.js"]));
}

#[test]
fn start_launches_the_selected_command() {
    let mut state = ServerState::new(Profile::Development, Platform::Windows);
    let mut system = System::with_directory();
    assert!(start(&mut state, &mut system).is_ok());
    assert_eq!(system.launched, vec![command("npm.cmd", &["run", "dev"])]);
}

#[test]
fn windows_stop_kills_the_tree_and_ignores_the_outcome() {
    let mut state = ServerState::new(Profile::Development, Platform::Windows);
    let mut system = System { kill_fails: Some("never looked at".to_string()), ..System::with_directory() };
    assert!(start(&mut state, &mut system).is_ok());
    assert_eq!(stop(&mut state, &mut system), Ok("Server stopped successfully".to_string()));
    assert_eq!(system.utilities, vec![command("taskkill", &["/F", "/T", "/PID", "4001"])]);
    assert_eq!(status(&state), "stopped");
    assert_eq!(
        stop_backend_server(&mut state, StopEvent::Terminated(Err("utility missing".to_string()))),
        StopAction::Finish(Ok("Server stopped successfully".to_string()))
    );
}

#[test]
fn failed_direct_kill_is_a_stop_error_and_still_clears_the_slot() {
    let mut state = ServerState::new(Profile::Development, Platform::Other);
    let mut system = System { kill_fails: Some("No such process".to_string()), ..System::with_directory() };
    assert!(start(&mut state, &mut system).is_ok());
    let error = stop(&mut state, &mut system).unwrap_err();
    assert_eq!(error, ServerError::StopError("No such process".to_string()));
    assert_eq!(error.message(), "Failed to stop server: No such process");
    assert_eq!(status(&state), "stopped");
    assert_eq!(stop(&mut state, &mut system), Ok("Server was not running".to_string()));
}

#[test]
fn tree_kill_names_the_process() {
    assert_eq!(tree_kill_command(1), command("taskkill", &["/F", "/T", "/PID", "1"]));
    assert_eq!(tree_kill_command(4294967295), command("taskkill", &["/F", "/T", "/PID", "4294967295"]));
    assert_eq!(kill_method(Platform::Windows, 77), KillMethod::Tree(command("taskkill", &["/F", "/T", "/PID", "77"])));
    assert_eq!(kill_method(Platform::Other, 77), KillMethod::Direct);
}

#[test]
fn decimal_string_matches_the_standard_rendering() {
    for n in [0u32, 1, 9, 10, 11, 99, 100, 101, 1000, 65535, 65536, 1_000_000, 4294967294, u32::MAX] {
        assert_eq!(decimal_string(n), n.to_string());
    }
    assert_eq!(decimal_string(0), "0");
    assert_eq!(decimal_string(1024), "1024");
}

#[test]
fn teardown_hands_out_the_running_process() {
    let mut state = ServerState::new(Profile::Production, Platform::Windows);
    let mut system = System::with_directory();
    assert!(start(&mut state, &mut system).is_ok());
    let termination = state.teardown().unwrap();
    assert_eq!(termination.process.pid, 4001);
    assert_eq!(termination.process.child, Child(4001));
    assert_eq!(termination.method, KillMethod::Tree(command("taskkill", &["/F", "/T", "/PID", "4001"])));
    assert!(state.process.is_none());
    assert_eq!(state.platform, Platform::Windows);
    assert!(state.teardown().is_none());
}

#[test]
fn teardown_of_a_stopped_supervisor_does_nothing() {
    let mut state: ServerState<Child> = ServerState::new(Profile::Development, Platform::Other);
    assert!(state.teardown().is_none());
    assert_eq!(status(&state), "stopped");
}

#[test]
fn teardown_kills_directly_where_that_is_enough() {
    let mut state = ServerState::new(Profile::Development, Platform::Other);
    let mut system = System::with_directory();
    assert!(start(&mut state, &mut system).is_ok());
    let termination = state.teardown().unwrap();
    assert_eq!(termination.method, KillMethod::Direct);
    assert_eq!(status(&state), "stopped");
}

#[test]
fn automatic_start_waits_a_second() {
    assert_eq!(AUTO_START_DELAY_MS, 1000);
}
