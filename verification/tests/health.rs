use sidecar_supervisor::health::{
    health_start, health_step, health_url, parse_status_code, probe_succeeded, HealthAction,
    HealthEvent, HealthState, DEFAULT_HEALTH_TIMEOUT_MS, POLL_INTERVAL_MS, PROBE_TIMEOUT_MS,
};

fn probed(status: Option<u16>, elapsed_ms: u64) -> HealthEvent {
    HealthEvent::Probed { status, elapsed_ms }
}

/// Drives a check against a sidecar that answers at `ready_at_ms`, with a
/// clock that advances by `probe_ms` per probe and by the requested time per
/// sleep. Returns the verdict, the number of probes and the time at the end.
fn drive(timeout_ms: u64, ready_at_ms: Option<u64>, probe_ms: u64) -> (bool, u32, u64) {
    let (mut state, mut action) = health_start();
    let mut now: u64 = 0;
    let mut probes: u32 = 0;
    loop {
        let event = match action {
            HealthAction::ReadClock => HealthEvent::Elapsed(now),
            HealthAction::Probe { timeout_ms: limit } => {
                assert_eq!(limit, 1000);
                probes += 1;
                let ok = match ready_at_ms {
                    Some(t) => now >= t,
                    None => false,
                };
                now += if ok { 1 } else { probe_ms };
                probed(if ok { Some(200) } else { None }, now)
            }
            HealthAction::Sleep { millis } => {
                now += millis;
                HealthEvent::Slept
            }
            HealthAction::Finish(healthy) => {
                assert_eq!(state, HealthState::Finished(healthy));
                return (healthy, probes, now);
            }
        };
        let (next, wanted) = health_step(timeout_ms, state, event);
        state = next;
        action = wanted.expect("the check waits for the event it asked for");
    }
}

#[test]
fn health_constants() {
    assert_eq!(DEFAULT_HEALTH_TIMEOUT_MS, 10_000);
    assert_eq!(PROBE_TIMEOUT_MS, 1_000);
    assert_eq!(POLL_INTERVAL_MS, 200);
}

#[test]
fn health_url_names_loopback_and_port() {
    assert_eq!(health_url(9700), "http://127.0.0.1:9700/health");
    assert_eq!(health_url(51234), "http://127.0.0.1:51234/health");
    assert_eq!(health_url(0), "http://127.0.0.1:0/health");
    assert_eq!(health_url(65535), "http://127.0.0.1:65535/health");
}

#[test]
fn health_check_starts_by_reading_the_clock() {
    assert_eq!(health_start(), (HealthState::AwaitingClock, HealthAction::ReadClock));
}

#[test]
fn health_clock_before_deadline_calls_for_probe() {
    assert_eq!(
        health_step(10_000, HealthState::AwaitingClock, HealthEvent::Elapsed(0)),
        (HealthState::AwaitingProbe, Some(HealthAction::Probe { timeout_ms: 1000 }))
    );
    assert_eq!(
        health_step(10_000, HealthState::AwaitingClock, HealthEvent::Elapsed(9_999)),
        (HealthState::AwaitingProbe, Some(HealthAction::Probe { timeout_ms: 1000 }))
    );
}

#[test]
fn health_clock_at_deadline_ends_check() {
    assert_eq!(
        health_step(10_000, HealthState::AwaitingClock, HealthEvent::Elapsed(10_000)),
        (HealthState::Finished(false), Some(HealthAction::Finish(false)))
    );
    assert_eq!(
        health_step(10_000, HealthState::AwaitingClock, HealthEvent::Elapsed(u64::MAX)),
        (HealthState::Finished(false), Some(HealthAction::Finish(false)))
    );
}

#[test]
fn health_zero_deadline_never_probes() {
    assert_eq!(
        health_step(0, HealthState::AwaitingClock, HealthEvent::Elapsed(0)),
        (HealthState::Finished(false), Some(HealthAction::Finish(false)))
    );
    assert_eq!(drive(0, Some(0), 10), (false, 0, 0));
}

#[test]
fn health_successful_probe_ends_check() {
    for status in [200, 201, 204, 299] {
        assert_eq!(
            health_step(10_000, HealthState::AwaitingProbe, probed(Some(status), 40)),
            (HealthState::Finished(true), Some(HealthAction::Finish(true)))
        );
    }
}

#[test]
fn health_success_counts_even_past_deadline() {
    assert_eq!(
        health_step(10_000, HealthState::AwaitingProbe, probed(Some(200), 10_500)),
        (HealthState::Finished(true), Some(HealthAction::Finish(true)))
    );
}

#[test]
fn health_only_success_statuses_count() {
    for status in [Some(0), Some(100), Some(199), Some(300), Some(301), Some(404), Some(500), None]
    {
        assert!(!probe_succeeded(status));
        assert_eq!(
            health_step(10_000, HealthState::AwaitingProbe, probed(status, 40)),
            (HealthState::AwaitingSleep, Some(HealthAction::Sleep { millis: 200 }))
        );
    }
    assert!(probe_succeeded(Some(200)));
    assert!(probe_succeeded(Some(299)));
}

#[test]
fn health_failed_probe_past_deadline_ends_check_without_pause() {
    assert_eq!(
        health_step(10_000, HealthState::AwaitingProbe, probed(None, 10_000)),
        (HealthState::Finished(false), Some(HealthAction::Finish(false)))
    );
    assert_eq!(
        health_step(10_000, HealthState::AwaitingProbe, probed(Some(503), 10_999)),
        (HealthState::Finished(false), Some(HealthAction::Finish(false)))
    );
    assert_eq!(
        health_step(10_000, HealthState::AwaitingProbe, probed(None, 9_999)),
        (HealthState::AwaitingSleep, Some(HealthAction::Sleep { millis: 200 }))
    );
}

#[test]
fn status_code_is_three_decimal_digits() {
    assert_eq!(parse_status_code("200"), Some(200));
    assert_eq!(parse_status_code("404"), Some(404));
    assert_eq!(parse_status_code("000"), Some(0));
    assert_eq!(parse_status_code("999"), Some(999));
    assert_eq!(parse_status_code("099"), Some(99));
}

#[test]
fn status_code_rejects_other_text() {
    assert_eq!(parse_status_code(""), None);
    assert_eq!(parse_status_code("20"), None);
    assert_eq!(parse_status_code("2000"), None);
    assert_eq!(parse_status_code("2x0"), None);
    assert_eq!(parse_status_code("-20"), None);
    assert_eq!(parse_status_code("200\n"), None);
    assert_eq!(parse_status_code(" 20"), None);
    assert_eq!(parse_status_code("\u{0662}00"), None);
}

#[test]
fn health_failed_probe_sleeps_then_reads_clock() {
    assert_eq!(
        health_step(10_000, HealthState::AwaitingProbe, probed(None, 40)),
        (HealthState::AwaitingSleep, Some(HealthAction::Sleep { millis: 200 }))
    );
    assert_eq!(
        health_step(10_000, HealthState::AwaitingSleep, HealthEvent::Slept),
        (HealthState::AwaitingClock, Some(HealthAction::ReadClock))
    );
}

#[test]
fn health_ignores_events_it_does_not_wait_for() {
    let states = [
        HealthState::AwaitingClock,
        HealthState::AwaitingProbe,
        HealthState::AwaitingSleep,
        HealthState::Finished(true),
        HealthState::Finished(false),
    ];
    let events = [
        HealthEvent::Elapsed(5),
        probed(Some(200), 5),
        probed(None, 5),
        HealthEvent::Slept,
    ];
    for state in states {
        for event in events {
            let expected = matches!(
                (state, event),
                (HealthState::AwaitingClock, HealthEvent::Elapsed(_))
                    | (HealthState::AwaitingProbe, HealthEvent::Probed { .. })
                    | (HealthState::AwaitingSleep, HealthEvent::Slept)
            );
            let (next, action) = health_step(10_000, state, event);
            if !expected {
                assert_eq!(next, state);
                assert_eq!(action, None);
            } else {
                assert!(action.is_some());
            }
        }
    }
}

#[test]
fn health_check_succeeds_at_first_probe() {
    assert_eq!(drive(10_000, Some(0), 50), (true, 1, 1));
}

#[test]
fn health_check_succeeds_in_a_later_round() {
    let (healthy, probes, _) = drive(10_000, Some(1_800), 100);
    assert!(healthy);
    assert_eq!(probes, 7);
}

#[test]
fn health_check_times_out_when_sidecar_never_answers() {
    let (healthy, probes, end) = drive(10_000, None, 1_000);
    assert!(!healthy);
    assert_eq!(probes, 9);
    assert_eq!(end, 10_600);
    assert!(end <= 10_000 + 1_000);
}

#[test]
fn health_check_never_outlasts_deadline_by_more_than_one_probe() {
    for timeout_ms in [1, 999, 1_000, 1_199, 1_200, 1_201, 2_399, 10_000, 10_001] {
        for probe_ms in [1, 199, 200, 800, 999, 1_000] {
            let (healthy, _, end) = drive(timeout_ms, None, probe_ms);
            assert!(!healthy);
            assert!(end < timeout_ms + 1_000, "timeout {timeout_ms}, probe {probe_ms}: {end}");
        }
    }
}

#[test]
fn health_check_issues_no_probe_after_deadline() {
    let (healthy, probes, end) = drive(1_000, Some(1_100), 300);
    assert!(!healthy);
    assert_eq!(probes, 2);
    assert_eq!(end, 1_000);
}
