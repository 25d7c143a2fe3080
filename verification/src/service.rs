//! The state of the service over the life of the application, and the start
//! operation: from the request to the port that the service answers on.
//!
//! The start is a machine. The host allocates the port, spawns the process,
//! probes and sleeps; the machine is told what happened, keeps the state, and
//! says what to do next.

use crate::health::{
    probe_is_healthy, timeout_message, timeout_message_of, wait_for_server, HealthAction,
    HealthCheck, HealthCheckView, HealthEvent, ProbeOutcome,
};
use crate::process::{
    spawn_error_message, spawn_error_message_of, terminate_command, terminate_command_of,
    CommandLine, CommandLineView, Platform,
};
use vstd::prelude::*;

verus! {

/// The number of probes that a start allows where the host has no reason to
/// choose another.
pub const DEFAULT_MAX_ATTEMPTS: u32 = 20;

/// Why a start failed.
#[derive(Clone, Debug, PartialEq, Eq)]
pub enum StartError {
    /// The process could not be launched, for the reason that the operating
    /// system gave.
    Spawn(String),
    /// The service did not become healthy within this many probes.
    HealthTimeout { attempts: u32 },
}

/// What a [`StartError`] holds, as plain text.
pub enum StartErrorView {
    Spawn(Seq<char>),
    HealthTimeout { attempts: u32 },
}

impl StartErrorView {
    /// The error as a message for the caller.
    pub open spec fn message(self) -> Seq<char> {
        match self {
            StartErrorView::Spawn(reason) => spawn_error_message_of(reason),
            StartErrorView::HealthTimeout { attempts } => timeout_message_of(attempts),
        }
    }
}

impl View for StartError {
    type V = StartErrorView;

    open spec fn view(&self) -> StartErrorView {
        match self {
            StartError::Spawn(reason) => StartErrorView::Spawn(reason@),
            StartError::HealthTimeout { attempts } => StartErrorView::HealthTimeout {
                attempts: *attempts,
            },
        }
    }
}

impl StartError {
    /// The error as a message for the caller.
    pub fn message(&self) -> (message: String)
        ensures
            message@ == self@.message(),
    {
        match self {
            StartError::Spawn(reason) => spawn_error_message(reason.as_str()),
            StartError::HealthTimeout { attempts } => timeout_message(*attempts),
        }
    }
}

/// What the host tells the state.
#[derive(Clone, Debug, PartialEq, Eq)]
pub enum StartEvent {
    /// A caller asks for the service, and allows this many probes.
    StartRequested { max_attempts: u32 },
    /// The port that was asked for has been allocated.
    PortAllocated(u16),
    /// The process that was asked for runs, under this identifier.
    Spawned(u32),
    /// The process could not be launched, for this reason.
    SpawnFailed(String),
    /// The probe that was due has been made, with this outcome.
    ProbeCompleted(ProbeOutcome),
    /// The delay that was due has passed.
    DelayElapsed,
}

/// What a [`StartEvent`] holds, as plain text.
pub enum StartEventView {
    StartRequested { max_attempts: u32 },
    PortAllocated(u16),
    Spawned(u32),
    SpawnFailed(Seq<char>),
    ProbeCompleted(ProbeOutcome),
    DelayElapsed,
}

impl View for StartEvent {
    type V = StartEventView;

    open spec fn view(&self) -> StartEventView {
        match self {
            StartEvent::StartRequested { max_attempts } => StartEventView::StartRequested {
                max_attempts: *max_attempts,
            },
            StartEvent::PortAllocated(port) => StartEventView::PortAllocated(*port),
            StartEvent::Spawned(pid) => StartEventView::Spawned(*pid),
            StartEvent::SpawnFailed(reason) => StartEventView::SpawnFailed(reason@),
            StartEvent::ProbeCompleted(outcome) => StartEventView::ProbeCompleted(*outcome),
            StartEvent::DelayElapsed => StartEventView::DelayElapsed,
        }
    }
}

/// What the state asks of the host.
#[derive(Clone, Debug, PartialEq, Eq)]
pub enum StartAction {
    /// Answer the caller: the service runs on this port.
    Started { port: u16 },
    /// Allocate a free port.
    AllocatePort,
    /// Launch the service on this port.
    Spawn { port: u16 },
    /// Probe the health endpoint on this port now.
    Probe { port: u16 },
    /// Let this many milliseconds pass.
    Sleep { millis: u64 },
    /// Answer the caller: the start failed.
    Failed(StartError),
    /// Answer the caller: a start is under way already, and no second one
    /// begins.
    InProgress,
    /// Nothing: the event does not belong to the phase, and changed nothing.
    Ignored,
}

/// What a [`StartAction`] holds, as plain text.
pub enum StartActionView {
    Started { port: u16 },
    AllocatePort,
    Spawn { port: u16 },
    Probe { port: u16 },
    Sleep { millis: u64 },
    Failed(StartErrorView),
    InProgress,
    Ignored,
}

impl View for StartAction {
    type V = StartActionView;

    open spec fn view(&self) -> StartActionView {
        match self {
            StartAction::Started { port } => StartActionView::Started { port: *port },
            StartAction::AllocatePort => StartActionView::AllocatePort,
            StartAction::Spawn { port } => StartActionView::Spawn { port: *port },
            StartAction::Probe { port } => StartActionView::Probe { port: *port },
            StartAction::Sleep { millis } => StartActionView::Sleep { millis: *millis },
            StartAction::Failed(error) => StartActionView::Failed(error@),
            StartAction::InProgress => StartActionView::InProgress,
            StartAction::Ignored => StartActionView::Ignored,
        }
    }
}

/// Where a start stands.
pub enum StartPhaseView {
    /// No start is under way.
    Idle,
    /// A port has been asked for.
    AwaitingPort { max_attempts: u32 },
    /// The launch of the service on `port` has been asked for.
    AwaitingSpawn { port: u16, max_attempts: u32 },
    /// The process runs, and the wait for its health goes on.
    AwaitingHealth { check: HealthCheckView },
}

/// The state of the service, as a plain value: the port it answers on once
/// it has started, the identifier of the process once it has been spawned,
/// and where a start stands.
pub struct ServerStateView {
    pub port: Option<u16>,
    pub server_pid: Option<u32>,
    pub phase: StartPhaseView,
}

/// A state after a step, and what the step asks of the host.
pub struct StartStep {
    pub state: ServerStateView,
    pub action: StartActionView,
}

impl ServerStateView {
    /// The state that the application begins with.
    pub open spec fn fresh() -> ServerStateView {
        ServerStateView { port: None, server_pid: None, phase: StartPhaseView::Idle }
    }

    /// The states that the service can be in. The port is known only of a
    /// process that has been spawned, and only while no start is under way;
    /// a wait for health goes on only for a process that has been spawned.
    pub open spec fn wf(self) -> bool {
        &&& self.port is Some ==> self.server_pid is Some && self.phase is Idle
        &&& self.phase matches StartPhaseView::AwaitingHealth { check } ==> {
            &&& self.server_pid is Some
            &&& check.wf()
            &&& !check.finished()
        }
    }

    /// The step that `event` makes from this state.
    ///
    /// A request is answered at once where the port is known; it begins a
    /// start where none is under way, and is turned away where one is. The
    /// port that was allocated is the one to spawn on. The identifier of the
    /// process is recorded as soon as it is spawned, before its health is
    /// known. The port is recorded when a probe finds the service healthy,
    /// and not before. A start that fails leaves the port unknown. An event
    /// that the phase does not wait for changes nothing.
    pub open spec fn step(self, event: StartEventView) -> StartStep {
        match (self.phase, event) {
            (StartPhaseView::Idle, StartEventView::StartRequested { max_attempts }) => {
                match self.port {
                    Some(port) => StartStep {
                        state: self,
                        action: StartActionView::Started { port },
                    },
                    None => StartStep {
                        state: ServerStateView {
                            phase: StartPhaseView::AwaitingPort { max_attempts },
                            ..self
                        },
                        action: StartActionView::AllocatePort,
                    },
                }
            },
            (_, StartEventView::StartRequested { .. }) => StartStep {
                state: self,
                action: StartActionView::InProgress,
            },
            (StartPhaseView::AwaitingPort { max_attempts }, StartEventView::PortAllocated(port)) => {
                StartStep {
                    state: ServerStateView {
                        phase: StartPhaseView::AwaitingSpawn { port, max_attempts },
                        ..self
                    },
                    action: StartActionView::Spawn { port },
                }
            },
            (StartPhaseView::AwaitingSpawn { port, max_attempts }, StartEventView::Spawned(pid)) => {
                let check = HealthCheckView::initial(port, max_attempts);
                match check.pending() {
                    HealthAction::GiveUp { attempts } => StartStep {
                        state: ServerStateView {
                            server_pid: Some(pid),
                            phase: StartPhaseView::Idle,
                            ..self
                        },
                        action: StartActionView::Failed(StartErrorView::HealthTimeout { attempts }),
                    },
                    _ => StartStep {
                        state: ServerStateView {
                            server_pid: Some(pid),
                            phase: StartPhaseView::AwaitingHealth { check },
                            ..self
                        },
                        action: StartActionView::Probe { port },
                    },
                }
            },
            (StartPhaseView::AwaitingSpawn { .. }, StartEventView::SpawnFailed(reason)) => {
                StartStep {
                    state: ServerStateView { phase: StartPhaseView::Idle, ..self },
                    action: StartActionView::Failed(StartErrorView::Spawn(reason)),
                }
            },
            (
                StartPhaseView::AwaitingHealth { check },
                StartEventView::ProbeCompleted(outcome),
            ) => self.health_step(check, HealthEvent::ProbeCompleted(outcome)),
            (StartPhaseView::AwaitingHealth { check }, StartEventView::DelayElapsed) => {
                self.health_step(check, HealthEvent::DelayElapsed)
            },
            _ => StartStep { state: self, action: StartActionView::Ignored },
        }
    }

    /// The step of a state that waits for health with `check`, on an event
    /// of the wait.
    pub open spec fn health_step(self, check: HealthCheckView, event: HealthEvent) -> StartStep {
        let waiting = ServerStateView {
            phase: StartPhaseView::AwaitingHealth { check: check.next(event) },
            ..self
        };
        match check.react(event) {
            HealthAction::Probe => StartStep {
                state: waiting,
                action: StartActionView::Probe { port: check.port },
            },
            HealthAction::Sleep { millis } => StartStep {
                state: waiting,
                action: StartActionView::Sleep { millis },
            },
            HealthAction::Ready => StartStep {
                state: ServerStateView {
                    port: Some(check.port),
                    phase: StartPhaseView::Idle,
                    ..self
                },
                action: StartActionView::Started { port: check.port },
            },
            HealthAction::GiveUp { attempts } => StartStep {
                state: ServerStateView { phase: StartPhaseView::Idle, ..self },
                action: StartActionView::Failed(StartErrorView::HealthTimeout { attempts }),
            },
            HealthAction::Ignored => StartStep { state: self, action: StartActionView::Ignored },
        }
    }

    /// The launches that the state stands for: one where the service runs
    /// or a start has asked for its launch and has not ended, else none.
    pub open spec fn live_launches(self) -> nat {
        if self.port is Some || self.phase is AwaitingSpawn || self.phase is AwaitingHealth {
            1
        } else {
            0
        }
    }

    /// The command that ends the recorded process, if one is recorded.
    pub open spec fn shutdown_command(self, platform: Platform) -> Option<CommandLineView> {
        match self.server_pid {
            Some(pid) => Some(terminate_command_of(platform, pid)),
            None => None,
        }
    }
}

/// Where a start stands.
#[derive(Clone, Copy, Debug)]
enum StartPhase {
    Idle,
    AwaitingPort { max_attempts: u32 },
    AwaitingSpawn { port: u16, max_attempts: u32 },
    AwaitingHealth { check: HealthCheck },
}

impl View for StartPhase {
    type V = StartPhaseView;

    closed spec fn view(&self) -> StartPhaseView {
        match self {
            StartPhase::Idle => StartPhaseView::Idle,
            StartPhase::AwaitingPort { max_attempts } => StartPhaseView::AwaitingPort {
                max_attempts: *max_attempts,
            },
            StartPhase::AwaitingSpawn { port, max_attempts } => StartPhaseView::AwaitingSpawn {
                port: *port,
                max_attempts: *max_attempts,
            },
            StartPhase::AwaitingHealth { check } => StartPhaseView::AwaitingHealth { check: check@ },
        }
    }
}

/// The state of the service: one value for the life of the application,
/// owned by the host and handed to the operations that need it.
#[derive(Debug)]
pub struct ServerState {
    port: Option<u16>,
    server_pid: Option<u32>,
    phase: StartPhase,
}

impl View for ServerState {
    type V = ServerStateView;

    closed spec fn view(&self) -> ServerStateView {
        ServerStateView { port: self.port, server_pid: self.server_pid, phase: self.phase@ }
    }
}

impl ServerState {
    #[verifier::type_invariant]
    spec fn well_formed(self) -> bool {
        self@.wf()
    }

    /// The state that the application begins with: nothing spawned, no port
    /// known, no start under way.
    pub fn new() -> (state: ServerState)
        ensures
            state@ == ServerStateView::fresh(),
    {
        ServerState { port: None, server_pid: None, phase: StartPhase::Idle }
    }

    /// The port that the service answers on, once it has started.
    pub fn get_server_port(&self) -> (port: Option<u16>)
        ensures
            port == self@.port,
            self@.wf(),
    {
        proof {
            use_type_invariant(self);
        }
        self.port
    }

    /// The identifier of the process, once it has been spawned.
    pub fn server_pid(&self) -> (pid: Option<u32>)
        ensures
            pid == self@.server_pid,
            self@.wf(),
    {
        proof {
            use_type_invariant(self);
        }
        self.server_pid
    }

    /// Takes in what the host reports, and answers with what it is to do
    /// next.
    pub fn advance(&mut self, event: StartEvent) -> (action: StartAction)
        ensures
            old(self)@.wf(),
            final(self)@ == old(self)@.step(event@).state,
            final(self)@.wf(),
            action@ == old(self)@.step(event@).action,
    {
        proof {
            use_type_invariant(&*self);
        }
        match event {
            StartEvent::StartRequested { max_attempts } => {
                match self.phase {
                    StartPhase::Idle => {
                        match self.port {
                            Some(port) => StartAction::Started { port },
                            None => {
                                self.phase = StartPhase::AwaitingPort { max_attempts };
                                StartAction::AllocatePort
                            },
                        }
                    },
                    _ => StartAction::InProgress,
                }
            },
            StartEvent::PortAllocated(port) => {
                match self.phase {
                    StartPhase::AwaitingPort { max_attempts } => {
                        self.phase = StartPhase::AwaitingSpawn { port, max_attempts };
                        StartAction::Spawn { port }
                    },
                    _ => StartAction::Ignored,
                }
            },
            StartEvent::Spawned(pid) => {
                match self.phase {
                    StartPhase::AwaitingSpawn { port, max_attempts } => {
                        let (check, first): (HealthCheck, HealthAction) = wait_for_server(
                            port,
                            max_attempts,
                        );
                        match first {
                            HealthAction::GiveUp { attempts } => {
                                *self = ServerState {
                                    port: self.port,
                                    server_pid: Some(pid),
                                    phase: StartPhase::Idle,
                                };
                                StartAction::Failed(StartError::HealthTimeout { attempts })
                            },
                            _ => {
                                *self = ServerState {
                                    port: self.port,
                                    server_pid: Some(pid),
                                    phase: StartPhase::AwaitingHealth { check },
                                };
                                StartAction::Probe { port }
                            },
                        }
                    },
                    _ => StartAction::Ignored,
                }
            },
            StartEvent::SpawnFailed(reason) => {
                match self.phase {
                    StartPhase::AwaitingSpawn { .. } => {
                        self.phase = StartPhase::Idle;
                        StartAction::Failed(StartError::Spawn(reason))
                    },
                    _ => StartAction::Ignored,
                }
            },
            StartEvent::ProbeCompleted(outcome) => {
                match self.phase {
                    StartPhase::AwaitingHealth { check } => self.health_advance(
                        check,
                        HealthEvent::ProbeCompleted(outcome),
                    ),
                    _ => StartAction::Ignored,
                }
            },
            StartEvent::DelayElapsed => {
                match self.phase {
                    StartPhase::AwaitingHealth { check } => self.health_advance(
                        check,
                        HealthEvent::DelayElapsed,
                    ),
                    _ => StartAction::Ignored,
                }
            },
        }
    }

    fn health_advance(&mut self, check: HealthCheck, event: HealthEvent) -> (action: StartAction)
        requires
            old(self)@.phase == (StartPhaseView::AwaitingHealth { check: check@ }),
        ensures
            final(self)@ == old(self)@.health_step(check@, event).state,
            action@ == old(self)@.health_step(check@, event).action,
    {
        proof {
            use_type_invariant(&*self);
        }
        let mut check: HealthCheck = check;
        let port: u16 = check.port();
        match check.advance(event) {
            HealthAction::Probe => {
                self.phase = StartPhase::AwaitingHealth { check };
                StartAction::Probe { port }
            },
            HealthAction::Sleep { millis } => {
                self.phase = StartPhase::AwaitingHealth { check };
                StartAction::Sleep { millis }
            },
            HealthAction::Ready => {
                *self = ServerState {
                    port: Some(port),
                    server_pid: self.server_pid,
                    phase: StartPhase::Idle,
                };
                StartAction::Started { port }
            },
            HealthAction::GiveUp { attempts } => {
                self.phase = StartPhase::Idle;
                StartAction::Failed(StartError::HealthTimeout { attempts })
            },
            HealthAction::Ignored => StartAction::Ignored,
        }
    }

    /// The command that ends the recorded process on `platform`, for the
    /// host to run when the application shuts down; `None` where no process
    /// was ever spawned. After a start that succeeded there is a process to
    /// end.
    pub fn shutdown_command(&self, platform: Platform) -> (command: Option<CommandLine>)
        ensures
            match command {
                Some(c) => self@.shutdown_command(platform) == Some(c@),
                None => self@.shutdown_command(platform) is None,
            },
            self@.port is Some ==> command is Some,
    {
        proof {
            use_type_invariant(self);
        }
        match self.server_pid {
            Some(pid) => Some(terminate_command(platform, pid)),
            None => None,
        }
    }
}

/// Asks for the service: answers with its port where it has started, begins a
/// start that allows `max_attempts` probes where none is under way, and turns
/// the request away where one is.
pub fn start_server(state: &mut ServerState, max_attempts: u32) -> (action: StartAction)
    ensures
        final(state)@ == old(state)@.step(StartEventView::StartRequested { max_attempts }).state,
        action@ == old(state)@.step(StartEventView::StartRequested { max_attempts }).action,
{
    state.advance(StartEvent::StartRequested { max_attempts })
}

/// The port that the service answers on, once it has started.
pub fn get_server_port(state: &ServerState) -> (port: Option<u16>)
    ensures
        port == state@.port,
{
    state.get_server_port()
}

/// What a sequence of events came to: the state it led to, and what each
/// event asked of the host, in order.
pub struct StartRun {
    pub state: ServerStateView,
    pub actions: Seq<StartActionView>,
}

/// The steps that `events` make from `state`, one after the other.
pub open spec fn run(state: ServerStateView, events: Seq<StartEventView>) -> StartRun
    decreases events.len(),
{
    if events.len() == 0 {
        StartRun { state, actions: Seq::empty() }
    } else {
        let before = run(state, events.drop_last());
        let last = before.state.step(events.last());
        StartRun { state: last.state, actions: before.actions.push(last.action) }
    }
}

/// The ports of the launches that `actions` ask for, in order.
pub open spec fn spawned_ports(actions: Seq<StartActionView>) -> Seq<u16>
    decreases actions.len(),
{
    if actions.len() == 0 {
        Seq::empty()
    } else {
        let before = spawned_ports(actions.drop_last());
        match actions.last() {
            StartActionView::Spawn { port } => before.push(port),
            _ => before,
        }
    }
}

/// The number of starts that `actions` report as failed.
pub open spec fn failed_starts(actions: Seq<StartActionView>) -> nat
    decreases actions.len(),
{
    if actions.len() == 0 {
        0
    } else {
        let before = failed_starts(actions.drop_last());
        if actions.last() is Failed {
            before + 1
        } else {
            before
        }
    }
}

/// Every step keeps the state among those the service can be in. What has
/// been recorded is never taken back: a known port stays as it is, and a
/// recorded process stays recorded.
pub proof fn lemma_step_keeps_wf(state: ServerStateView, event: StartEventView)
    requires
        state.wf(),
    ensures
        state.step(event).state.wf(),
        state.port is Some ==> state.step(event).state == state,
        state.server_pid is Some ==> state.step(event).state.server_pid is Some,
{
}

/// The port is recorded by one step only: the one that takes in a healthy
/// probe while a wait goes on, and that step answers the caller with the
/// port. The process identifier is recorded by one step only: the one that
/// takes in the spawned process. A step that reports a failure leaves the
/// port unknown.
pub proof fn lemma_port_recorded_only_when_healthy(state: ServerStateView, event: StartEventView)
    requires
        state.wf(),
    ensures
        state.step(event).state.port != state.port ==> {
            &&& state.phase matches StartPhaseView::AwaitingHealth { check }
            &&& event matches StartEventView::ProbeCompleted(outcome)
            &&& probe_is_healthy(outcome)
            &&& state.step(event).state.port == Some(check.port)
            &&& state.step(event).action == (StartActionView::Started { port: check.port })
        },
        state.step(event).state.server_pid != state.server_pid ==> {
            &&& state.phase is AwaitingSpawn
            &&& event matches StartEventView::Spawned(pid)
            &&& state.step(event).state.server_pid == Some(pid)
        },
        state.step(event).action is Failed ==> state.step(event).state.port is None,
{
}

/// Once the service has started, nothing changes the state any more: a
/// request is answered with the same port, every other event is ignored, and
/// no launch is ever asked for again.
pub proof fn lemma_started_service_is_not_spawned_again(
    state: ServerStateView,
    port: u16,
    events: Seq<StartEventView>,
)
    requires
        state.wf(),
        state.port == Some(port),
    ensures
        run(state, events).state == state,
        run(state, events).actions.len() == events.len(),
        forall|i: int|
            0 <= i < events.len() ==> #[trigger] run(state, events).actions[i] == if events[i] is StartRequested {
                StartActionView::Started { port }
            } else {
                StartActionView::Ignored
            },
        spawned_ports(run(state, events).actions) == Seq::<u16>::empty(),
    decreases events.len(),
{
    if events.len() > 0 {
        lemma_started_service_is_not_spawned_again(state, port, events.drop_last());
        let before = run(state, events.drop_last());
        assert(run(state, events).actions.drop_last() =~= before.actions);
    }
}

/// What holds in the course of one start, of the launches asked for so far:
/// none before the port is allocated, then one, on the port that the start
/// goes on with.
pub open spec fn one_start(state: ServerStateView, ports: Seq<u16>) -> bool {
    match state.phase {
        StartPhaseView::Idle => ports.len() <= 1 && (state.port matches Some(port) ==> ports
            == seq![port]),
        StartPhaseView::AwaitingPort { .. } => ports.len() == 0 && state.port is None,
        StartPhaseView::AwaitingSpawn { port, .. } => ports == seq![port] && state.port is None,
        StartPhaseView::AwaitingHealth { check } => ports == seq![check.port] && state.port
            is None,
    }
}

/// One start asks for one launch at most. Where it ends with the port
/// recorded, it has asked for exactly one launch, on that very port, and the
/// process is recorded too.
pub proof fn lemma_start_spawns_once(
    state: ServerStateView,
    max_attempts: u32,
    events: Seq<StartEventView>,
)
    requires
        state.wf(),
        state.phase is Idle,
        state.port is None,
        events.len() >= 1,
        events[0] == (StartEventView::StartRequested { max_attempts }),
        forall|i: int| 1 <= i < events.len() ==> !(#[trigger] events[i] is StartRequested),
    ensures
        run(state, events).state.wf(),
        spawned_ports(run(state, events).actions).len() <= 1,
        run(state, events).state.port matches Some(port) ==> {
            &&& spawned_ports(run(state, events).actions) == seq![port]
            &&& run(state, events).state.server_pid is Some
        },
        one_start(run(state, events).state, spawned_ports(run(state, events).actions)),
    decreases events.len(),
{
    let earlier = events.drop_last();
    let before = run(state, earlier);
    let last = before.state.step(events.last());
    let after = run(state, events);
    let ports_before = spawned_ports(before.actions);
    let ports = spawned_ports(after.actions);
    assert(after.actions.drop_last() =~= before.actions);
    assert(after.actions.last() == last.action);
    assert(ports == match last.action {
        StartActionView::Spawn { port } => ports_before.push(port),
        _ => ports_before,
    });
    if events.len() == 1 {
        assert(before.state == state);
        assert(before.actions =~= Seq::<StartActionView>::empty());
        assert(events.last() == events[0]);
        assert(ports_before =~= Seq::<u16>::empty());
    } else {
        assert(earlier[0] == events[0]);
        assert forall|i: int| 1 <= i < earlier.len() implies !(#[trigger] earlier[i]
            is StartRequested) by {
            assert(earlier[i] == events[i]);
        }
        lemma_start_spawns_once(state, max_attempts, earlier);
        lemma_step_keeps_wf(before.state, events.last());
        assert(!(events[events.len() - 1] is StartRequested));
        match last.action {
            StartActionView::Spawn { port } => {
                assert(ports_before =~= Seq::<u16>::empty());
                assert(ports =~= seq![port]);
            },
            _ => {},
        }
    }
}

/// Every launch that was asked for is accounted for: it belongs to a start
/// that was reported as failed, to the start that goes on, or to the service
/// that runs. So a sequence of events without a failure asks for one launch
/// at most, however many requests it holds.
pub proof fn lemma_launches_are_accounted_for(state: ServerStateView, events: Seq<StartEventView>)
    requires
        state.wf(),
    ensures
        run(state, events).state.wf(),
        spawned_ports(run(state, events).actions).len() + state.live_launches() == failed_starts(
            run(state, events).actions,
        ) + run(state, events).state.live_launches(),
    decreases events.len(),
{
    if events.len() == 0 {
        assert(run(state, events).actions =~= Seq::<StartActionView>::empty());
    } else {
        let before = run(state, events.drop_last());
        let last = before.state.step(events.last());
        let after = run(state, events);
        lemma_launches_are_accounted_for(state, events.drop_last());
        lemma_step_keeps_wf(before.state, events.last());
        assert(after.actions.drop_last() =~= before.actions);
        assert(after.actions.last() == last.action);
    }
}

} // verus!
