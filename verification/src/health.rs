//! Waiting for the service to become healthy: what counts as a healthy
//! answer, how long to wait between probes, and when to give up.
//!
//! The wait is a small machine. The host issues the probes and sleeps; the
//! machine is told what happened and says what to do next.

use crate::text::{decimal_digits, decimal_string};
use vstd::arithmetic::power2::{lemma2_to64, pow2};
use vstd::bits::lemma_u64_shl_is_mul;
use vstd::prelude::*;

verus! {

/// The body that the health endpoint answers with.
#[derive(Clone, Copy, Debug, PartialEq, Eq)]
pub struct HealthResponse {
    pub ok: bool,
}

/// What one probe of the health endpoint came to.
#[derive(Clone, Copy, Debug, PartialEq, Eq)]
pub enum ProbeOutcome {
    /// The request failed before any response arrived.
    Unreachable,
    /// A response arrived, with this status code; `body` is the decoded
    /// body, or `None` where it has not the expected shape.
    Response { status: u16, body: Option<HealthResponse> },
}

/// Whether an HTTP status code reports success: the codes from 200 to 299.
pub open spec fn status_is_success(status: u16) -> bool {
    200 <= status < 300
}

/// Whether a probe found the service ready: a response with a success status
/// whose body says `ok`. Anything else means "not yet".
pub open spec fn probe_is_healthy(outcome: ProbeOutcome) -> bool {
    match outcome {
        ProbeOutcome::Unreachable => false,
        ProbeOutcome::Response { status, body } => status_is_success(status) && body == Some(
            HealthResponse { ok: true },
        ),
    }
}

/// The delay after the failed attempt with index `attempt`, in milliseconds:
/// 200 ms doubled with every attempt, and no longer doubled from the fifth on.
pub open spec fn backoff_ms(attempt: nat) -> nat {
    200 * pow2(if attempt < 4 { attempt } else { 4 })
}

/// The sum of the delays after the first `failures` failed attempts.
pub open spec fn backoff_sum(failures: nat) -> nat
    decreases failures,
{
    if failures == 0 {
        0
    } else {
        backoff_sum((failures - 1) as nat) + backoff_ms((failures - 1) as nat)
    }
}

/// The address of the health endpoint of the service on `port`.
pub open spec fn health_url_of(port: u16) -> Seq<char> {
    "http://127.0.0.1:"@ + decimal_digits(port as nat) + "/health"@
}

/// The message of a wait that gave up after `attempts` probes.
pub open spec fn timeout_message_of(attempts: u32) -> Seq<char> {
    "Server did not become healthy after "@ + decimal_digits(attempts as nat) + " attempts"@
}

/// The delays are 200, 400, 800, 1600 and 3200 ms, and 3200 ms for every
/// later attempt: each of the first four doubles the one before, and from the
/// fifth on the delay no longer grows.
pub proof fn lemma_backoff_sequence()
    ensures
        backoff_ms(0) == 200,
        backoff_ms(1) == 400,
        backoff_ms(2) == 800,
        backoff_ms(3) == 1600,
        forall|attempt: nat| attempt < 4 ==> #[trigger] backoff_ms(attempt + 1) == 2 * backoff_ms(
            attempt,
        ),
        forall|attempt: nat| attempt >= 4 ==> #[trigger] backoff_ms(attempt) == 3200,
{
    lemma2_to64();
}

/// Tells whether an HTTP status code reports success.
pub fn is_success_status(status: u16) -> (success: bool)
    ensures
        success == status_is_success(status),
{
    200 <= status && status < 300
}

/// Tells whether a probe found the service ready.
pub fn is_healthy(outcome: &ProbeOutcome) -> (healthy: bool)
    ensures
        healthy == probe_is_healthy(*outcome),
{
    match outcome {
        ProbeOutcome::Unreachable => false,
        ProbeOutcome::Response { status, body } => {
            if is_success_status(*status) {
                match body {
                    Some(response) => response.ok,
                    None => false,
                }
            } else {
                false
            }
        },
    }
}

/// The delay after the failed attempt with index `attempt`, in milliseconds.
pub fn backoff_delay_ms(attempt: u32) -> (millis: u64)
    ensures
        millis == backoff_ms(attempt as nat),
        200 <= millis <= 3200,
{
    let exponent: u64 = if attempt < 4 {
        attempt as u64
    } else {
        4
    };
    proof {
        lemma2_to64();
        lemma_u64_shl_is_mul(1, exponent);
    }
    200 * (1u64 << exponent)
}

/// Builds the address of the health endpoint of the service on `port`.
pub fn health_url(port: u16) -> (url: String)
    ensures
        url@ == health_url_of(port),
{
    let mut url: String = String::from_str("http://127.0.0.1:");
    let digits: String = decimal_string(port as u64);
    url.append(digits.as_str());
    url.append("/health");
    url
}

/// Builds the message of a wait that gave up after `attempts` probes.
pub fn timeout_message(attempts: u32) -> (message: String)
    ensures
        message@ == timeout_message_of(attempts),
{
    let mut message: String = String::from_str("Server did not become healthy after ");
    let digits: String = decimal_string(attempts as u64);
    message.append(digits.as_str());
    message.append(" attempts");
    message
}

/// Where a wait stands.
#[derive(Clone, Copy, Debug, PartialEq, Eq)]
pub enum HealthPhase {
    /// A probe is due, or under way.
    Probing,
    /// The last probe failed, and the delay before the next one runs.
    Sleeping,
    /// A probe found the service ready.
    Healthy,
    /// Every allowed probe failed.
    TimedOut,
}

/// What the host tells a wait.
#[derive(Clone, Copy, Debug, PartialEq, Eq)]
pub enum HealthEvent {
    /// The probe that was due has been made, with this outcome.
    ProbeCompleted(ProbeOutcome),
    /// The delay that was due has passed.
    DelayElapsed,
}

/// What a wait asks of the host.
#[derive(Clone, Copy, Debug, PartialEq, Eq)]
pub enum HealthAction {
    /// Probe the health endpoint now.
    Probe,
    /// Let this many milliseconds pass.
    Sleep { millis: u64 },
    /// Stop: the service is ready.
    Ready,
    /// Stop: the service did not become ready within this many probes.
    GiveUp { attempts: u32 },
    /// Nothing: the event does not belong to the phase, and changed nothing.
    Ignored,
}

/// A wait for the service on `port`, as a plain value: how many probes it
/// allows, how many have failed, and where it stands.
pub struct HealthCheckView {
    pub port: u16,
    pub max_attempts: u32,
    pub failures: u32,
    pub phase: HealthPhase,
}

impl HealthCheckView {
    /// A wait that has not probed yet. One that allows no probe has timed out
    /// before it began.
    pub open spec fn initial(port: u16, max_attempts: u32) -> HealthCheckView {
        HealthCheckView {
            port,
            max_attempts,
            failures: 0,
            phase: if max_attempts == 0 {
                HealthPhase::TimedOut
            } else {
                HealthPhase::Probing
            },
        }
    }

    /// The states that a wait can be in: it has used up its probes exactly
    /// when it has timed out, and it sleeps only between two probes.
    pub open spec fn wf(self) -> bool {
        match self.phase {
            HealthPhase::Probing => self.failures < self.max_attempts,
            HealthPhase::Sleeping => 1 <= self.failures < self.max_attempts,
            HealthPhase::Healthy => self.failures < self.max_attempts,
            HealthPhase::TimedOut => self.failures == self.max_attempts,
        }
    }

    /// Whether the wait has ended, either way.
    pub open spec fn finished(self) -> bool {
        self.phase is Healthy || self.phase is TimedOut
    }

    /// What the wait asks of the host in its present phase.
    pub open spec fn pending(self) -> HealthAction {
        match self.phase {
            HealthPhase::Probing => HealthAction::Probe,
            HealthPhase::Sleeping => HealthAction::Sleep {
                millis: backoff_ms((self.failures - 1) as nat) as u64,
            },
            HealthPhase::Healthy => HealthAction::Ready,
            HealthPhase::TimedOut => HealthAction::GiveUp { attempts: self.max_attempts },
        }
    }

    /// Whether `event` is the one that the present phase waits for.
    pub open spec fn accepts(self, event: HealthEvent) -> bool {
        match (self.phase, event) {
            (HealthPhase::Probing, HealthEvent::ProbeCompleted(_)) => true,
            (HealthPhase::Sleeping, HealthEvent::DelayElapsed) => true,
            _ => false,
        }
    }

    /// The state after `event`. A healthy probe ends the wait; a failed one
    /// is counted, and ends the wait if it was the last one allowed, else a
    /// delay follows; after the delay the next probe is due. An event that
    /// the phase does not wait for changes nothing.
    pub open spec fn next(self, event: HealthEvent) -> HealthCheckView {
        match (self.phase, event) {
            (HealthPhase::Probing, HealthEvent::ProbeCompleted(outcome)) => {
                if probe_is_healthy(outcome) {
                    HealthCheckView { phase: HealthPhase::Healthy, ..self }
                } else if self.failures + 1 >= self.max_attempts {
                    HealthCheckView {
                        phase: HealthPhase::TimedOut,
                        failures: self.max_attempts,
                        ..self
                    }
                } else {
                    HealthCheckView {
                        phase: HealthPhase::Sleeping,
                        failures: (self.failures + 1) as u32,
                        ..self
                    }
                }
            },
            (HealthPhase::Sleeping, HealthEvent::DelayElapsed) => HealthCheckView {
                phase: HealthPhase::Probing,
                ..self
            },
            _ => self,
        }
    }

    /// What the wait answers to `event`: the request of the phase that the
    /// event leads to, or `Ignored`.
    pub open spec fn react(self, event: HealthEvent) -> HealthAction {
        if self.accepts(event) {
            self.next(event).pending()
        } else {
            HealthAction::Ignored
        }
    }

    /// How the wait ended: `None` while it goes on, `Ok` where the service
    /// became ready, the timeout's message where it did not.
    pub open spec fn verdict(self) -> Option<Result<(), Seq<char>>> {
        match self.phase {
            HealthPhase::Healthy => Some(Ok(())),
            HealthPhase::TimedOut => Some(Err(timeout_message_of(self.max_attempts))),
            _ => None,
        }
    }
}

/// A wait for the service to become healthy.
#[derive(Clone, Copy, Debug)]
pub struct HealthCheck {
    port: u16,
    max_attempts: u32,
    failures: u32,
    phase: HealthPhase,
}

impl View for HealthCheck {
    type V = HealthCheckView;

    closed spec fn view(&self) -> HealthCheckView {
        HealthCheckView {
            port: self.port,
            max_attempts: self.max_attempts,
            failures: self.failures,
            phase: self.phase,
        }
    }
}

/// Begins a wait for the service on `port` that allows `max_retries` probes,
/// and says what the host is to do first.
pub fn wait_for_server(port: u16, max_retries: u32) -> (started: (HealthCheck, HealthAction))
    ensures
        started.0@ == HealthCheckView::initial(port, max_retries),
        started.0@.wf(),
        started.1 == started.0@.pending(),
{
    let phase: HealthPhase = if max_retries == 0 {
        HealthPhase::TimedOut
    } else {
        HealthPhase::Probing
    };
    let check: HealthCheck = HealthCheck { port, max_attempts: max_retries, failures: 0, phase };
    let action: HealthAction = check.pending();
    (check, action)
}

impl HealthCheck {
    #[verifier::type_invariant]
    spec fn well_formed(self) -> bool {
        self@.wf()
    }

    /// What the wait asks of the host in its present phase.
    pub fn pending(&self) -> (action: HealthAction)
        ensures
            action == self@.pending(),
            self@.wf(),
    {
        proof {
            use_type_invariant(self);
        }
        match self.phase {
            HealthPhase::Probing => HealthAction::Probe,
            HealthPhase::Sleeping => HealthAction::Sleep {
                millis: backoff_delay_ms(self.failures - 1),
            },
            HealthPhase::Healthy => HealthAction::Ready,
            HealthPhase::TimedOut => HealthAction::GiveUp { attempts: self.max_attempts },
        }
    }

    /// Takes in what the host reports, and answers with what it is to do
    /// next.
    pub fn advance(&mut self, event: HealthEvent) -> (action: HealthAction)
        ensures
            old(self)@.wf(),
            final(self)@ == old(self)@.next(event),
            final(self)@.wf(),
            action == old(self)@.react(event),
    {
        proof {
            use_type_invariant(&*self);
        }
        match event {
            HealthEvent::ProbeCompleted(outcome) => {
                match self.phase {
                    HealthPhase::Probing => {
                        let (failures, phase): (u32, HealthPhase) = if is_healthy(&outcome) {
                            (self.failures, HealthPhase::Healthy)
                        } else if self.failures + 1 >= self.max_attempts {
                            (self.max_attempts, HealthPhase::TimedOut)
                        } else {
                            (self.failures + 1, HealthPhase::Sleeping)
                        };
                        *self = HealthCheck {
                            port: self.port,
                            max_attempts: self.max_attempts,
                            failures,
                            phase,
                        };
                        self.pending()
                    },
                    _ => HealthAction::Ignored,
                }
            },
            HealthEvent::DelayElapsed => {
                match self.phase {
                    HealthPhase::Sleeping => {
                        self.phase = HealthPhase::Probing;
                        self.pending()
                    },
                    _ => HealthAction::Ignored,
                }
            },
        }
    }

    /// The port of the service that the wait is for.
    pub fn port(&self) -> (port: u16)
        ensures
            port == self@.port,
    {
        self.port
    }

    /// The address that the probes go to.
    pub fn url(&self) -> (url: String)
        ensures
            url@ == health_url_of(self@.port),
    {
        health_url(self.port)
    }

    /// How the wait ended: `None` while it goes on.
    pub fn verdict(&self) -> (verdict: Option<Result<(), String>>)
        ensures
            match verdict {
                None => self@.verdict() is None,
                Some(Ok(_)) => self@.verdict() == Some(Ok::<(), Seq<char>>(())),
                Some(Err(message)) => self@.verdict() == Some(Err::<(), Seq<char>>(message@)),
            },
    {
        match self.phase {
            HealthPhase::Healthy => Some(Ok(())),
            HealthPhase::TimedOut => Some(Err(timeout_message(self.max_attempts))),
            _ => None,
        }
    }
}

/// What a whole wait came to: the state it stopped in, how many probes were
/// made, and how long the host slept in all.
pub struct HealthTrace {
    pub last: HealthCheckView,
    pub probes: nat,
    pub slept_ms: nat,
}

/// A wait as a host runs it from `check` on: it probes when asked to, taking
/// the outcomes from `outcomes` in order, sleeps when asked to, and stops
/// when the wait has ended or no outcome is left.
pub open spec fn drive(check: HealthCheckView, outcomes: Seq<ProbeOutcome>) -> HealthTrace
    decreases outcomes.len(), (if check.phase is Sleeping { 1nat } else { 0nat }),
{
    match check.phase {
        HealthPhase::Probing => {
            if outcomes.len() == 0 {
                HealthTrace { last: check, probes: 0, slept_ms: 0 }
            } else {
                let rest = drive(
                    check.next(HealthEvent::ProbeCompleted(outcomes[0])),
                    outcomes.drop_first(),
                );
                HealthTrace { probes: rest.probes + 1, ..rest }
            }
        },
        HealthPhase::Sleeping => {
            let rest = drive(check.next(HealthEvent::DelayElapsed), outcomes);
            HealthTrace {
                slept_ms: rest.slept_ms + backoff_ms((check.failures - 1) as nat),
                ..rest
            }
        },
        _ => HealthTrace { last: check, probes: 0, slept_ms: 0 },
    }
}

/// Every step keeps a wait among the states it can be in, and never changes
/// the port or the number of probes allowed.
pub proof fn lemma_next_keeps_wf(check: HealthCheckView, event: HealthEvent)
    requires
        check.wf(),
    ensures
        check.next(event).wf(),
        check.next(event).port == check.port,
        check.next(event).max_attempts == check.max_attempts,
        check.finished() ==> check.next(event) == check,
{
}

proof fn lemma_drive_failures(check: HealthCheckView, outcomes: Seq<ProbeOutcome>)
    requires
        check.wf(),
        check.phase is Probing,
        outcomes.len() >= check.max_attempts - check.failures,
        forall|i: int|
            0 <= i < check.max_attempts - check.failures ==> !probe_is_healthy(
                #[trigger] outcomes[i],
            ),
    ensures
        drive(check, outcomes).last == (HealthCheckView {
            phase: HealthPhase::TimedOut,
            failures: check.max_attempts,
            ..check
        }),
        drive(check, outcomes).probes == check.max_attempts - check.failures,
        drive(check, outcomes).slept_ms + backoff_sum(check.failures as nat) == backoff_sum(
            (check.max_attempts - 1) as nat,
        ),
    decreases check.max_attempts - check.failures,
{
    let failed = check.next(HealthEvent::ProbeCompleted(outcomes[0]));
    let rest = outcomes.drop_first();
    assert(!probe_is_healthy(outcomes[0]));
    if check.failures + 1 >= check.max_attempts {
        assert(failed.phase is TimedOut);
    } else {
        assert(failed.phase is Sleeping);
        let retry = failed.next(HealthEvent::DelayElapsed);
        assert forall|i: int| 0 <= i < retry.max_attempts - retry.failures implies !probe_is_healthy(
            #[trigger] rest[i],
        ) by {
            assert(rest[i] == outcomes[i + 1]);
        }
        lemma_drive_failures(retry, rest);
        assert(drive(failed, rest).slept_ms == drive(retry, rest).slept_ms + backoff_ms(
            check.failures as nat,
        ));
        assert(backoff_sum(retry.failures as nat) == backoff_sum(check.failures as nat)
            + backoff_ms(check.failures as nat));
    }
}

/// A wait whose probes all fail gives up after exactly as many probes as it
/// allows, and has slept exactly the delays between them: none after the
/// last probe.
pub proof fn lemma_unhealthy_wait_times_out(
    port: u16,
    max_attempts: u32,
    outcomes: Seq<ProbeOutcome>,
)
    requires
        outcomes.len() >= max_attempts,
        forall|i: int| 0 <= i < max_attempts ==> !probe_is_healthy(#[trigger] outcomes[i]),
    ensures
        drive(HealthCheckView::initial(port, max_attempts), outcomes).last.phase is TimedOut,
        drive(HealthCheckView::initial(port, max_attempts), outcomes).last.verdict() == Some(
            Err::<(), Seq<char>>(timeout_message_of(max_attempts)),
        ),
        drive(HealthCheckView::initial(port, max_attempts), outcomes).probes == max_attempts,
        drive(HealthCheckView::initial(port, max_attempts), outcomes).slept_ms == if max_attempts
            == 0 {
            0
        } else {
            backoff_sum((max_attempts - 1) as nat)
        },
{
    if max_attempts > 0 {
        lemma_drive_failures(HealthCheckView::initial(port, max_attempts), outcomes);
    }
}

proof fn lemma_drive_until_healthy(check: HealthCheckView, outcomes: Seq<ProbeOutcome>, first: nat)
    requires
        check.wf(),
        check.phase is Probing,
        check.failures + first < check.max_attempts,
        first < outcomes.len(),
        forall|i: int| 0 <= i < first ==> !probe_is_healthy(#[trigger] outcomes[i]),
        probe_is_healthy(outcomes[first as int]),
    ensures
        drive(check, outcomes).last == (HealthCheckView {
            phase: HealthPhase::Healthy,
            failures: (check.failures + first) as u32,
            ..check
        }),
        drive(check, outcomes).probes == first + 1,
        drive(check, outcomes).slept_ms + backoff_sum(check.failures as nat) == backoff_sum(
            check.failures as nat + first,
        ),
    decreases first,
{
    let after = check.next(HealthEvent::ProbeCompleted(outcomes[0]));
    let rest = outcomes.drop_first();
    if first == 0 {
        assert(after.phase is Healthy);
    } else {
        assert(!probe_is_healthy(outcomes[0]));
        assert(after.phase is Sleeping);
        let retry = after.next(HealthEvent::DelayElapsed);
        assert forall|i: int| 0 <= i < first - 1 implies !probe_is_healthy(#[trigger] rest[i]) by {
            assert(rest[i] == outcomes[i + 1]);
        }
        assert(rest[first - 1] == outcomes[first as int]);
        lemma_drive_until_healthy(retry, rest, (first - 1) as nat);
        assert(drive(after, rest).slept_ms == drive(retry, rest).slept_ms + backoff_ms(
            check.failures as nat,
        ));
        assert(backoff_sum(retry.failures as nat) == backoff_sum(check.failures as nat)
            + backoff_ms(check.failures as nat));
    }
}

/// A wait ends with the first healthy probe, if that probe is among those it
/// allows: it has then made no probe more, and has slept the delays after
/// the failed ones.
pub proof fn lemma_healthy_probe_ends_wait(
    port: u16,
    max_attempts: u32,
    outcomes: Seq<ProbeOutcome>,
    first: nat,
)
    requires
        first < max_attempts,
        first < outcomes.len(),
        forall|i: int| 0 <= i < first ==> !probe_is_healthy(#[trigger] outcomes[i]),
        probe_is_healthy(outcomes[first as int]),
    ensures
        drive(HealthCheckView::initial(port, max_attempts), outcomes).last.phase is Healthy,
        drive(HealthCheckView::initial(port, max_attempts), outcomes).last.verdict() == Some(
            Ok::<(), Seq<char>>(()),
        ),
        drive(HealthCheckView::initial(port, max_attempts), outcomes).probes == first + 1,
        drive(HealthCheckView::initial(port, max_attempts), outcomes).slept_ms == backoff_sum(
            first,
        ),
{
    lemma_drive_until_healthy(HealthCheckView::initial(port, max_attempts), outcomes, first);
}

} // verus!
