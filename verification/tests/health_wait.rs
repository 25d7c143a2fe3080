use service_supervisor::health::{
    backoff_delay_ms, health_url, is_healthy, is_success_status, timeout_message, wait_for_server,
    HealthAction, HealthEvent, HealthResponse, ProbeOutcome,
};

fn answer(status: u16, ok: bool) -> ProbeOutcome {
    ProbeOutcome::Response { status, body: Some(HealthResponse { ok }) }
}

/// Runs a wait as a host would, with the given outcomes for the probes, and
/// returns how it ended, the number of probes made and the delays slept.
fn run_wait(max_attempts: u32, outcomes: &[ProbeOutcome]) -> (HealthAction, u32, Vec<u64>) {
    let (mut check, mut action) = wait_for_server(8080, max_attempts);
    let mut probes: u32 = 0;
    let mut delays: Vec<u64> = Vec::new();
    let mut next: usize = 0;
    loop {
        match action {
            HealthAction::Probe => {
                if next == outcomes.len() {
                    return (action, probes, delays);
                }
                probes += 1;
                action = check.advance(HealthEvent::ProbeCompleted(outcomes[next]));
                next += 1;
            }
            HealthAction::Sleep { millis } => {
                delays.push(millis);
                action = check.advance(HealthEvent::DelayElapsed);
            }
            _ => return (action, probes, delays),
        }
    }
}

#[test]
fn backoff_follows_the_doubling_sequence() {
    assert_eq!(backoff_delay_ms(0), 200);
    assert_eq!(backoff_delay_ms(1), 400);
    assert_eq!(backoff_delay_ms(2), 800);
    assert_eq!(backoff_delay_ms(3), 1600);
    assert_eq!(backoff_delay_ms(4), 3200);
}

#[test]
fn backoff_is_capped_from_the_fifth_attempt_on() {
    assert_eq!(backoff_delay_ms(5), 3200);
    assert_eq!(backoff_delay_ms(6), 3200);
    assert_eq!(backoff_delay_ms(19), 3200);
    assert_eq!(backoff_delay_ms(64), 3200);
    assert_eq!(backoff_delay_ms(u32::MAX), 3200);
}

#[test]
fn success_statuses_are_the_two_hundreds() {
    assert!(!is_success_status(0));
    assert!(!is_success_status(199));
    assert!(is_success_status(200));
    assert!(is_success_status(204));
    assert!(is_success_status(299));
    assert!(!is_success_status(300));
    assert!(!is_success_status(404));
    assert!(!is_success_status(500));
    assert!(!is_success_status(u16::MAX));
}

#[test]
fn only_a_successful_ok_answer_is_healthy() {
    assert!(is_healthy(&answer(200, true)));
    assert!(is_healthy(&answer(299, true)));
    assert!(!is_healthy(&answer(200, false)));
    assert!(!is_healthy(&answer(500, true)));
    assert!(!is_healthy(&answer(301, true)));
    assert!(!is_healthy(&ProbeOutcome::Response { status: 200, body: None }));
    assert!(!is_healthy(&ProbeOutcome::Unreachable));
}

#[test]
fn health_url_names_the_loopback_address_and_the_port() {
    assert_eq!(health_url(8080), "http://127.0.0.1:8080/health");
    assert_eq!(health_url(1), "http://127.0.0.1:1/health");
    assert_eq!(health_url(65535), "http://127.0.0.1:65535/health");
}

#[test]
fn timeout_message_names_the_attempt_count() {
    assert_eq!(timeout_message(20), "Server did not become healthy after 20 attempts");
    assert_eq!(timeout_message(3), "Server did not become healthy after 3 attempts");
    assert_eq!(timeout_message(0), "Server did not become healthy after 0 attempts");
}

#[test]
fn wait_begins_with_a_probe() {
    let (check, first) = wait_for_server(4100, 20);
    assert_eq!(first, HealthAction::Probe);
    assert_eq!(check.pending(), HealthAction::Probe);
    assert_eq!(check.port(), 4100);
    assert_eq!(check.url(), "http://127.0.0.1:4100/health");
    assert_eq!(check.verdict(), None);
}

#[test]
fn wait_without_attempts_gives_up_at_once() {
    let (check, first) = wait_for_server(4100, 0);
    assert_eq!(first, HealthAction::GiveUp { attempts: 0 });
    assert_eq!(
        check.verdict(),
        Some(Err("Server did not become healthy after 0 attempts".to_string()))
    );
    let (end, probes, delays) = run_wait(0, &[answer(200, true)]);
    assert_eq!(end, HealthAction::GiveUp { attempts: 0 });
    assert_eq!(probes, 0);
    assert!(delays.is_empty());
}

#[test]
fn wait_ends_with_the_first_healthy_probe() {
    let (end, probes, delays) = run_wait(20, &[answer(200, true), answer(200, true)]);
    assert_eq!(end, HealthAction::Ready);
    assert_eq!(probes, 1);
    assert!(delays.is_empty());
}

#[test]
fn wait_retries_after_failures_of_every_kind() {
    let outcomes = [
        ProbeOutcome::Unreachable,
        answer(503, true),
        ProbeOutcome::Response { status: 200, body: None },
        answer(200, false),
        answer(200, true),
    ];
    let (end, probes, delays) = run_wait(20, &outcomes);
    assert_eq!(end, HealthAction::Ready);
    assert_eq!(probes, 5);
    assert_eq!(delays, vec![200, 400, 800, 1600]);
}

#[test]
fn wait_with_three_attempts_times_out_after_three_probes() {
    let outcomes = [answer(200, false); 8];
    let (end, probes, delays) = run_wait(3, &outcomes);
    assert_eq!(end, HealthAction::GiveUp { attempts: 3 });
    assert_eq!(probes, 3);
    assert_eq!(delays, vec![200, 400]);
    assert_eq!(delays.iter().sum::<u64>(), 600);
}

#[test]
fn wait_with_one_attempt_never_sleeps() {
    let (end, probes, delays) = run_wait(1, &[ProbeOutcome::Unreachable; 4]);
    assert_eq!(end, HealthAction::GiveUp { attempts: 1 });
    assert_eq!(probes, 1);
    assert!(delays.is_empty());
}

#[test]
fn wait_with_twenty_attempts_sleeps_nineteen_times() {
    let outcomes = [ProbeOutcome::Unreachable; 32];
    let (end, probes, delays) = run_wait(20, &outcomes);
    assert_eq!(end, HealthAction::GiveUp { attempts: 20 });
    assert_eq!(probes, 20);
    assert_eq!(delays.len(), 19);
    assert_eq!(&delays[..5], &[200, 400, 800, 1600, 3200]);
    assert!(delays[5..].iter().all(|d| *d == 3200));
    assert_eq!(delays.iter().sum::<u64>(), 3000 + 3200 * 15);
}

#[test]
fn healthy_probe_on_the_last_attempt_still_counts() {
    let outcomes = [answer(200, false), answer(200, false), answer(200, true)];
    let (end, probes, delays) = run_wait(3, &outcomes);
    assert_eq!(end, HealthAction::Ready);
    assert_eq!(probes, 3);
    assert_eq!(delays, vec![200, 400]);
}

#[test]
fn wait_ignores_events_that_do_not_belong_to_its_phase() {
    let (mut check, _) = wait_for_server(4100, 3);
    assert_eq!(check.advance(HealthEvent::DelayElapsed), HealthAction::Ignored);
    assert_eq!(check.pending(), HealthAction::Probe);
    assert_eq!(
        check.advance(HealthEvent::ProbeCompleted(ProbeOutcome::Unreachable)),
        HealthAction::Sleep { millis: 200 }
    );
    assert_eq!(
        check.advance(HealthEvent::ProbeCompleted(answer(200, true))),
        HealthAction::Ignored
    );
    assert_eq!(check.pending(), HealthAction::Sleep { millis: 200 });
    assert_eq!(check.advance(HealthEvent::DelayElapsed), HealthAction::Probe);
}

#[test]
fn ended_wait_keeps_its_verdict() {
    let (mut check, _) = wait_for_server(4100, 1);
    assert_eq!(
        check.advance(HealthEvent::ProbeCompleted(ProbeOutcome::Unreachable)),
        HealthAction::GiveUp { attempts: 1 }
    );
    assert_eq!(check.advance(HealthEvent::DelayElapsed), HealthAction::Ignored);
    assert_eq!(
        check.advance(HealthEvent::ProbeCompleted(answer(200, true))),
        HealthAction::Ignored
    );
    assert_eq!(check.pending(), HealthAction::GiveUp { attempts: 1 });
    assert_eq!(
        check.verdict(),
        Some(Err("Server did not become healthy after 1 attempts".to_string()))
    );

    let (mut check, _) = wait_for_server(4100, 2);
    assert_eq!(
        check.advance(HealthEvent::ProbeCompleted(answer(200, true))),
        HealthAction::Ready
    );
    assert_eq!(
        check.advance(HealthEvent::ProbeCompleted(ProbeOutcome::Unreachable)),
        HealthAction::Ignored
    );
    assert_eq!(check.verdict(), Some(Ok(())));
}
