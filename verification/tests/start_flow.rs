use service_supervisor::health::{HealthResponse, ProbeOutcome};
use service_supervisor::process::{
    spawn_command, spawn_error_message, terminate_command, CommandLine, Platform,
};
use service_supervisor::service::{
    get_server_port, start_server, ServerState, StartAction, StartError, StartEvent,
};

fn answer(ok: bool) -> ProbeOutcome {
    ProbeOutcome::Response { status: 200, body: Some(HealthResponse { ok }) }
}

/// What a host did for one call of `start`.
struct Report {
    result: Result<u16, String>,
    spawns: Vec<u16>,
    probes: u32,
    slept_ms: u64,
}

/// Runs one call of `start` as a host would: every port asked for is `port`,
/// every launch gives `pid` (or fails, where `pid` is `None`), and every
/// probe answers with `ok`.
fn run_start(
    state: &mut ServerState,
    max_attempts: u32,
    port: u16,
    pid: Option<u32>,
    ok: bool,
) -> Report {
    let mut report = Report { result: Err(String::new()), spawns: Vec::new(), probes: 0, slept_ms: 0 };
    let mut action = start_server(state, max_attempts);
    loop {
        action = match action {
            StartAction::Started { port } => {
                report.result = Ok(port);
                return report;
            }
            StartAction::Failed(error) => {
                report.result = Err(error.message());
                return report;
            }
            StartAction::AllocatePort => state.advance(StartEvent::PortAllocated(port)),
            StartAction::Spawn { port } => {
                report.spawns.push(port);
                match pid {
                    Some(pid) => state.advance(StartEvent::Spawned(pid)),
                    None => state.advance(StartEvent::SpawnFailed("No such file or directory (os error 2)".to_string())),
                }
            }
            StartAction::Probe { port: probed } => {
                assert_eq!(probed, port);
                report.probes += 1;
                state.advance(StartEvent::ProbeCompleted(answer(ok)))
            }
            StartAction::Sleep { millis } => {
                report.slept_ms += millis;
                state.advance(StartEvent::DelayElapsed)
            }
            StartAction::InProgress | StartAction::Ignored => {
                panic!("the host was turned away: {:?}", action)
            }
        };
    }
}

#[test]
fn fresh_state_knows_nothing() {
    let state = ServerState::new();
    assert_eq!(state.get_server_port(), None);
    assert_eq!(get_server_port(&state), None);
    assert_eq!(state.server_pid(), None);
    assert_eq!(state.shutdown_command(Platform::Posix), None);
    assert_eq!(state.shutdown_command(Platform::Windows), None);
}

#[test]
fn start_walks_through_port_spawn_and_health() {
    let mut state = ServerState::new();
    assert_eq!(start_server(&mut state, 20), StartAction::AllocatePort);
    assert_eq!(state.advance(StartEvent::PortAllocated(51234)), StartAction::Spawn { port: 51234 });
    assert_eq!(state.server_pid(), None);
    assert_eq!(state.advance(StartEvent::Spawned(4242)), StartAction::Probe { port: 51234 });
    assert_eq!(state.server_pid(), Some(4242));
    assert_eq!(state.get_server_port(), None);
    assert_eq!(
        state.advance(StartEvent::ProbeCompleted(ProbeOutcome::Unreachable)),
        StartAction::Sleep { millis: 200 }
    );
    assert_eq!(state.advance(StartEvent::DelayElapsed), StartAction::Probe { port: 51234 });
    assert_eq!(
        state.advance(StartEvent::ProbeCompleted(answer(false))),
        StartAction::Sleep { millis: 400 }
    );
    assert_eq!(state.get_server_port(), None);
    assert_eq!(state.advance(StartEvent::DelayElapsed), StartAction::Probe { port: 51234 });
    assert_eq!(
        state.advance(StartEvent::ProbeCompleted(answer(true))),
        StartAction::Started { port: 51234 }
    );
    assert_eq!(state.get_server_port(), Some(51234));
    assert_eq!(get_server_port(&state), Some(51234));
    assert_eq!(state.server_pid(), Some(4242));
}

#[test]
fn second_start_returns_the_same_port_without_a_spawn() {
    let mut state = ServerState::new();
    let first = run_start(&mut state, 20, 51234, Some(4242), true);
    assert_eq!(first.result, Ok(51234));
    assert_eq!(first.spawns, vec![51234]);
    assert_eq!(first.probes, 1);

    let second = run_start(&mut state, 20, 60000, Some(9999), true);
    assert_eq!(second.result, Ok(51234));
    assert!(second.spawns.is_empty());
    assert_eq!(second.probes, 0);
    assert_eq!(state.get_server_port(), Some(51234));
    assert_eq!(state.server_pid(), Some(4242));
}

#[test]
fn started_state_ignores_every_other_event() {
    let mut state = ServerState::new();
    assert_eq!(run_start(&mut state, 20, 51234, Some(4242), true).result, Ok(51234));
    assert_eq!(state.advance(StartEvent::PortAllocated(1)), StartAction::Ignored);
    assert_eq!(state.advance(StartEvent::Spawned(1)), StartAction::Ignored);
    assert_eq!(state.advance(StartEvent::SpawnFailed("x".to_string())), StartAction::Ignored);
    assert_eq!(state.advance(StartEvent::ProbeCompleted(answer(true))), StartAction::Ignored);
    assert_eq!(state.advance(StartEvent::DelayElapsed), StartAction::Ignored);
    assert_eq!(state.get_server_port(), Some(51234));
    assert_eq!(state.server_pid(), Some(4242));
}

#[test]
fn start_with_an_unhealthy_service_times_out_after_three_attempts() {
    let mut state = ServerState::new();
    let report = run_start(&mut state, 3, 51234, Some(4242), false);
    assert_eq!(report.result, Err("Server did not become healthy after 3 attempts".to_string()));
    assert_eq!(report.probes, 3);
    assert_eq!(report.slept_ms, 600);
    assert_eq!(report.spawns, vec![51234]);
    assert_eq!(state.get_server_port(), None);
    assert_eq!(state.server_pid(), Some(4242));
}

#[test]
fn start_after_a_timeout_begins_again() {
    let mut state = ServerState::new();
    assert!(run_start(&mut state, 2, 51234, Some(4242), false).result.is_err());
    let retry = run_start(&mut state, 2, 51300, Some(4300), true);
    assert_eq!(retry.result, Ok(51300));
    assert_eq!(retry.spawns, vec![51300]);
    assert_eq!(state.get_server_port(), Some(51300));
    assert_eq!(state.server_pid(), Some(4300));
}

#[test]
fn start_without_attempts_fails_once_the_process_runs() {
    let mut state = ServerState::new();
    let report = run_start(&mut state, 0, 51234, Some(4242), true);
    assert_eq!(report.result, Err("Server did not become healthy after 0 attempts".to_string()));
    assert_eq!(report.probes, 0);
    assert_eq!(report.spawns, vec![51234]);
    assert_eq!(state.server_pid(), Some(4242));
    assert_eq!(state.get_server_port(), None);
}

#[test]
fn failed_spawn_is_reported_and_records_nothing() {
    let mut state = ServerState::new();
    let report = run_start(&mut state, 20, 51234, None, true);
    assert_eq!(
        report.result,
        Err("Failed to spawn server: No such file or directory (os error 2)".to_string())
    );
    assert_eq!(report.spawns, vec![51234]);
    assert_eq!(report.probes, 0);
    assert_eq!(state.server_pid(), None);
    assert_eq!(state.get_server_port(), None);
    assert_eq!(start_server(&mut state, 20), StartAction::AllocatePort);
}

#[test]
fn start_request_during_a_start_is_turned_away() {
    let mut state = ServerState::new();
    assert_eq!(start_server(&mut state, 20), StartAction::AllocatePort);
    assert_eq!(start_server(&mut state, 20), StartAction::InProgress);
    assert_eq!(state.advance(StartEvent::PortAllocated(51234)), StartAction::Spawn { port: 51234 });
    assert_eq!(start_server(&mut state, 20), StartAction::InProgress);
    assert_eq!(state.advance(StartEvent::Spawned(4242)), StartAction::Probe { port: 51234 });
    assert_eq!(start_server(&mut state, 5), StartAction::InProgress);
    assert_eq!(
        state.advance(StartEvent::ProbeCompleted(answer(true))),
        StartAction::Started { port: 51234 }
    );
    assert_eq!(start_server(&mut state, 20), StartAction::Started { port: 51234 });
}

#[test]
fn events_out_of_turn_are_ignored() {
    let mut state = ServerState::new();
    assert_eq!(state.advance(StartEvent::PortAllocated(1)), StartAction::Ignored);
    assert_eq!(state.advance(StartEvent::Spawned(1)), StartAction::Ignored);
    assert_eq!(state.advance(StartEvent::DelayElapsed), StartAction::Ignored);
    assert_eq!(start_server(&mut state, 20), StartAction::AllocatePort);
    assert_eq!(state.advance(StartEvent::Spawned(1)), StartAction::Ignored);
    assert_eq!(state.advance(StartEvent::ProbeCompleted(answer(true))), StartAction::Ignored);
    assert_eq!(state.server_pid(), None);
    assert_eq!(state.advance(StartEvent::PortAllocated(51234)), StartAction::Spawn { port: 51234 });
    assert_eq!(state.advance(StartEvent::PortAllocated(51235)), StartAction::Ignored);
    assert_eq!(state.advance(StartEvent::Spawned(4242)), StartAction::Probe { port: 51234 });
    assert_eq!(state.advance(StartEvent::Spawned(4243)), StartAction::Ignored);
    assert_eq!(state.advance(StartEvent::SpawnFailed("late".to_string())), StartAction::Ignored);
    assert_eq!(state.advance(StartEvent::DelayElapsed), StartAction::Ignored);
    assert_eq!(state.server_pid(), Some(4242));
}

#[test]
fn shutdown_after_a_start_ends_the_recorded_process() {
    let mut state = ServerState::new();
    assert_eq!(run_start(&mut state, 20, 51234, Some(4242), true).result, Ok(51234));
    let expected = CommandLine {
        program: "kill".to_string(),
        args: vec!["-TERM".to_string(), "4242".to_string()],
        env: vec![],
    };
    assert_eq!(state.shutdown_command(Platform::Posix), Some(expected));
    let forced = CommandLine {
        program: "taskkill".to_string(),
        args: vec!["/PID".to_string(), "4242".to_string(), "/F".to_string()],
        env: vec![],
    };
    assert_eq!(state.shutdown_command(Platform::Windows), Some(forced));
    assert_eq!(state.server_pid(), Some(4242));
}

#[test]
fn shutdown_after_a_timeout_still_ends_the_process() {
    let mut state = ServerState::new();
    assert!(run_start(&mut state, 1, 51234, Some(77), false).result.is_err());
    let command = state.shutdown_command(Platform::Posix).expect("a process was spawned");
    assert_eq!(command.program, "kill");
    assert_eq!(command.args, vec!["-TERM".to_string(), "77".to_string()]);
}

#[test]
fn spawn_command_passes_port_and_host() {
    let command = spawn_command(51234);
    assert_eq!(command.program, "node");
    assert_eq!(
        command.args,
        vec!["--import".to_string(), "tsx".to_string(), "../server/src/main.ts".to_string()]
    );
    assert_eq!(
        command.env,
        vec![
            ("PORT".to_string(), "51234".to_string()),
            ("HOST".to_string(), "127.0.0.1".to_string()),
        ]
    );
    assert_eq!(spawn_command(80).env[0], ("PORT".to_string(), "80".to_string()));
}

#[test]
fn terminate_command_depends_on_the_platform() {
    let posix = terminate_command(Platform::Posix, 1);
    assert_eq!(posix.program, "kill");
    assert_eq!(posix.args, vec!["-TERM".to_string(), "1".to_string()]);
    assert!(posix.env.is_empty());
    let windows = terminate_command(Platform::Windows, u32::MAX);
    assert_eq!(windows.program, "taskkill");
    assert_eq!(
        windows.args,
        vec!["/PID".to_string(), "4294967295".to_string(), "/F".to_string()]
    );
    assert!(windows.env.is_empty());
}

#[test]
fn start_errors_have_readable_messages() {
    assert_eq!(
        StartError::Spawn("permission denied".to_string()).message(),
        "Failed to spawn server: permission denied"
    );
    assert_eq!(
        StartError::HealthTimeout { attempts: 20 }.message(),
        "Server did not become healthy after 20 attempts"
    );
    assert_eq!(spawn_error_message(""), "Failed to spawn server: ");
}
