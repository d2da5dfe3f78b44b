//! Health checking: polling the sidecar's health endpoint until it answers
//! or a deadline passes.
//!
//! The poll is a loop around three outside operations: reading the clock, an
//! HTTP GET with a short timeout, and a sleep. The caller performs them; the
//! decisions in between are `health_step`. A check starts with
//! `health_start`, and after each operation the caller reports what came of
//! it and is told what to do next.
//!
//! The deadline is tested whenever the time is known: before a probe is
//! issued, and again when a probe has failed, before the pause that would
//! follow it. A check therefore never outlasts its deadline by more than the
//! one probe that was in flight when the deadline passed.

use vstd::prelude::*;
use vstd::string::*;
use crate::decimal::{decimal, decimal_string, digit_value};

verus! {

/// How long startup waits for the sidecar to become healthy, in
/// milliseconds.
pub const DEFAULT_HEALTH_TIMEOUT_MS: u64 = 10_000;

/// The time allowed to a single probe of the health endpoint, in
/// milliseconds.
pub const PROBE_TIMEOUT_MS: u64 = 1_000;

/// The pause between two probes, in milliseconds.
pub const POLL_INTERVAL_MS: u64 = 200;

/// Where a health check stands: what it is waiting for.
#[derive(Clone, Copy, Debug, PartialEq, Eq, Structural)]
pub enum HealthState {
    /// Waiting to learn how much time has passed since the check began.
    AwaitingClock,
    /// Waiting for the outcome of a probe.
    AwaitingProbe,
    /// Waiting for the pause after a failed probe to end.
    AwaitingSleep,
    /// The check is over; the flag says whether the sidecar answered.
    Finished(bool),
}

/// What the caller observed.
#[derive(Clone, Copy, Debug, PartialEq, Eq, Structural)]
pub enum HealthEvent {
    /// The time since the check began, in milliseconds.
    Elapsed(u64),
    /// A probe ended, `elapsed_ms` milliseconds after the check began.
    /// `status` is the HTTP status of the answer, or `None` where there was
    /// no answer: the connection was refused, or the probe ran out of time.
    Probed { status: Option<u16>, elapsed_ms: u64 },
    /// The pause ended.
    Slept,
}

/// What the caller does next.
#[derive(Clone, Copy, Debug, PartialEq, Eq, Structural)]
pub enum HealthAction {
    /// Read the time since the check began and report it.
    ReadClock,
    /// Issue a GET to the health endpoint, giving up after `timeout_ms`, and
    /// report the status together with the time at which the probe ended.
    Probe { timeout_ms: u64 },
    /// Sleep for `millis`.
    Sleep { millis: u64 },
    /// Stop: the check ended with this verdict.
    Finish(bool),
}

/// The address of the health endpoint of a sidecar bound to `port`.
pub open spec fn health_endpoint(port: u16) -> Seq<char> {
    "http://127.0.0.1:"@ + decimal(port as nat) + "/health"@
}

/// Whether a probe found the sidecar healthy: it got an answer, and the
/// answer's status is an HTTP success status. No answer, a redirect and an
/// error status all count as not yet healthy.
pub open spec fn is_success(status: Option<u16>) -> bool {
    status matches Some(code) && 200 <= code < 300
}

/// Whether a character is a decimal digit.
pub open spec fn is_digit(c: char) -> bool {
    c == '0' || digit_value(c) > 0
}

/// The status that a text of exactly three decimal digits denotes; none for
/// any other text.
pub open spec fn status_code(text: Seq<char>) -> Option<u16> {
    if text.len() == 3 && is_digit(text[0]) && is_digit(text[1]) && is_digit(text[2]) {
        Some((100 * digit_value(text[0]) + 10 * digit_value(text[1]) + digit_value(text[2])) as u16)
    } else {
        None
    }
}

/// The transition of a health check with deadline `timeout_ms`: the state
/// after `event`, and the action it calls for. An event that the state does
/// not wait for changes nothing and calls for nothing.
pub open spec fn health_next(timeout_ms: u64, state: HealthState, event: HealthEvent) -> (
    HealthState,
    Option<HealthAction>,
) {
    match (state, event) {
        (HealthState::AwaitingClock, HealthEvent::Elapsed(elapsed_ms)) => if elapsed_ms
            < timeout_ms {
            (HealthState::AwaitingProbe, Some(HealthAction::Probe { timeout_ms: PROBE_TIMEOUT_MS }))
        } else {
            (HealthState::Finished(false), Some(HealthAction::Finish(false)))
        },
        (HealthState::AwaitingProbe, HealthEvent::Probed { status, elapsed_ms }) => if is_success(
            status,
        ) {
            (HealthState::Finished(true), Some(HealthAction::Finish(true)))
        } else if elapsed_ms < timeout_ms {
            (HealthState::AwaitingSleep, Some(HealthAction::Sleep { millis: POLL_INTERVAL_MS }))
        } else {
            (HealthState::Finished(false), Some(HealthAction::Finish(false)))
        },
        (HealthState::AwaitingSleep, HealthEvent::Slept) => (
            HealthState::AwaitingClock,
            Some(HealthAction::ReadClock),
        ),
        _ => (state, None),
    }
}

/// Builds the address of the health endpoint of a sidecar bound to `port`.
pub fn health_url(port: u16) -> (url: String)
    ensures
        url@ == health_endpoint(port),
{
    let mut url: String = String::from_str("http://127.0.0.1:");
    let digits: String = decimal_string(port);
    url.append(digits.as_str());
    url.append("/health");
    url
}

/// Tells whether a probe found the sidecar healthy.
pub fn probe_succeeded(status: Option<u16>) -> (ok: bool)
    ensures
        ok == is_success(status),
{
    match status {
        Some(code) => 200 <= code && code < 300,
        None => false,
    }
}

/// Reads one decimal digit.
fn digit_of(c: char) -> (digit: Option<u16>)
    ensures
        digit is Some <==> is_digit(c),
        digit matches Some(d) ==> d == digit_value(c),
{
    match c {
        '0' => Some(0),
        '1' => Some(1),
        '2' => Some(2),
        '3' => Some(3),
        '4' => Some(4),
        '5' => Some(5),
        '6' => Some(6),
        '7' => Some(7),
        '8' => Some(8),
        '9' => Some(9),
        _ => None,
    }
}

/// Reads an HTTP status as an HTTP client prints it: exactly three decimal
/// digits. Any other text, the empty one included, is no status.
pub fn parse_status_code(text: &str) -> (status: Option<u16>)
    ensures
        status == status_code(text@),
{
    if text.unicode_len() != 3 {
        return None;
    }
    let hundreds = digit_of(text.get_char(0));
    let tens = digit_of(text.get_char(1));
    let units = digit_of(text.get_char(2));
    match (hundreds, tens, units) {
        (Some(h), Some(t), Some(u)) => Some(100 * h + 10 * t + u),
        _ => None,
    }
}

/// Begins a health check: the clock is read before anything else, so a
/// deadline of zero ends the check without a probe.
pub fn health_start() -> (begin: (HealthState, HealthAction))
    ensures
        begin == (HealthState::AwaitingClock, HealthAction::ReadClock),
{
    (HealthState::AwaitingClock, HealthAction::ReadClock)
}

/// Advances a health check with deadline `timeout_ms` by one observation.
pub fn health_step(timeout_ms: u64, state: HealthState, event: HealthEvent) -> (next: (
    HealthState,
    Option<HealthAction>,
))
    ensures
        next == health_next(timeout_ms, state, event),
{
    match state {
        HealthState::AwaitingClock => match event {
            HealthEvent::Elapsed(elapsed_ms) => {
                if elapsed_ms < timeout_ms {
                    (
                        HealthState::AwaitingProbe,
                        Some(HealthAction::Probe { timeout_ms: PROBE_TIMEOUT_MS }),
                    )
                } else {
                    (HealthState::Finished(false), Some(HealthAction::Finish(false)))
                }
            },
            _ => (state, None),
        },
        HealthState::AwaitingProbe => match event {
            HealthEvent::Probed { status, elapsed_ms } => {
                if probe_succeeded(status) {
                    (HealthState::Finished(true), Some(HealthAction::Finish(true)))
                } else if elapsed_ms < timeout_ms {
                    (
                        HealthState::AwaitingSleep,
                        Some(HealthAction::Sleep { millis: POLL_INTERVAL_MS }),
                    )
                } else {
                    (HealthState::Finished(false), Some(HealthAction::Finish(false)))
                }
            },
            _ => (state, None),
        },
        HealthState::AwaitingSleep => match event {
            HealthEvent::Slept => (HealthState::AwaitingClock, Some(HealthAction::ReadClock)),
            _ => (state, None),
        },
        HealthState::Finished(_) => (state, None),
    }
}

/// Whether `event` is what `state` waits for.
pub open spec fn health_awaits(state: HealthState, event: HealthEvent) -> bool {
    match (state, event) {
        (HealthState::AwaitingClock, HealthEvent::Elapsed(_)) => true,
        (HealthState::AwaitingProbe, HealthEvent::Probed { .. }) => true,
        (HealthState::AwaitingSleep, HealthEvent::Slept) => true,
        _ => false,
    }
}

/// A check always answers the event it waits for with an action, and never
/// any other: a caller that reports the outcome of the action it was given
/// is always told what to do next, until it is told to finish.
pub proof fn lemma_health_answers_awaited(
    timeout_ms: u64,
    state: HealthState,
    event: HealthEvent,
)
    ensures
        health_next(timeout_ms, state, event).1 is Some <==> health_awaits(state, event),
        !health_awaits(state, event) ==> health_next(timeout_ms, state, event).0 == state,
        health_next(timeout_ms, state, event).1 matches Some(HealthAction::Finish(healthy))
            <==> health_awaits(state, event) && health_next(timeout_ms, state, event).0 is Finished,
{
}

/// The state that a health check reaches from `state` after `events`, taken
/// in order.
pub open spec fn health_run(timeout_ms: u64, state: HealthState, events: Seq<HealthEvent>)
    -> HealthState
    decreases events.len(),
{
    if events.len() == 0 {
        state
    } else {
        health_next(
            timeout_ms,
            health_run(timeout_ms, state, events.drop_last()),
            events.last(),
        ).0
    }
}

/// One round of a check: the clock was read at `began_ms`, and the probe
/// that followed ended at `probed_ms` with `status`.
pub struct Round {
    pub began_ms: u64,
    pub status: Option<u16>,
    pub probed_ms: u64,
}

/// The events of a round that ends in a probe.
pub open spec fn round_events(round: Round) -> Seq<HealthEvent> {
    seq![
        HealthEvent::Elapsed(round.began_ms),
        HealthEvent::Probed { status: round.status, elapsed_ms: round.probed_ms },
    ]
}

/// The events of a run of rounds, each followed by the pause after it.
pub open spec fn paused_rounds(rounds: Seq<Round>) -> Seq<HealthEvent>
    decreases rounds.len(),
{
    if rounds.len() == 0 {
        Seq::empty()
    } else {
        (paused_rounds(rounds.drop_last()) + round_events(rounds.last())).push(HealthEvent::Slept)
    }
}

/// Whether a round failed with time to spare: it began before the deadline,
/// its probe saw no success, and the probe ended before the deadline.
pub open spec fn failed_in_time(round: Round, deadline_ms: u64) -> bool {
    &&& round.began_ms < deadline_ms
    &&& !is_success(round.status)
    &&& round.probed_ms < deadline_ms
}

/// Whether every round failed with time to spare.
pub open spec fn all_failed_in_time(rounds: Seq<Round>, deadline_ms: u64) -> bool {
    forall|i: int| 0 <= i < rounds.len() ==> failed_in_time(#[trigger] rounds[i], deadline_ms)
}

/// Running over two stretches of events in a row is running over the first
/// and then, from where that ended, over the second.
pub proof fn lemma_health_run_concat(
    timeout_ms: u64,
    state: HealthState,
    first: Seq<HealthEvent>,
    second: Seq<HealthEvent>,
)
    ensures
        health_run(timeout_ms, state, first + second) == health_run(
            timeout_ms,
            health_run(timeout_ms, state, first),
            second,
        ),
    decreases second.len(),
{
    if second.len() == 0 {
        assert(first + second =~= first);
    } else {
        lemma_health_run_concat(timeout_ms, state, first, second.drop_last());
        assert((first + second).drop_last() =~= first + second.drop_last());
        assert((first + second).last() == second.last());
    }
}

/// What a round that began before the deadline leads to: a healthy verdict
/// where its probe succeeded, the pause where it failed with time to spare,
/// an unhealthy verdict where it failed at or past the deadline.
pub proof fn lemma_round(timeout_ms: u64, round: Round)
    requires
        round.began_ms < timeout_ms,
    ensures
        health_run(timeout_ms, HealthState::AwaitingClock, round_events(round)) == if is_success(
            round.status,
        ) {
            HealthState::Finished(true)
        } else if round.probed_ms < timeout_ms {
            HealthState::AwaitingSleep
        } else {
            HealthState::Finished(false)
        },
{
    reveal_with_fuel(health_run, 3);
    assert(round_events(round).drop_last() =~= seq![HealthEvent::Elapsed(round.began_ms)]);
}

/// Rounds that fail with time to spare leave the check where it began:
/// waiting for the clock.
pub proof fn lemma_failed_rounds_keep_polling(timeout_ms: u64, rounds: Seq<Round>)
    requires
        all_failed_in_time(rounds, timeout_ms),
    ensures
        health_run(timeout_ms, HealthState::AwaitingClock, paused_rounds(rounds))
            == HealthState::AwaitingClock,
    decreases rounds.len(),
{
    if rounds.len() > 0 {
        let before = paused_rounds(rounds.drop_last());
        let round = before + round_events(rounds.last());
        lemma_failed_rounds_keep_polling(timeout_ms, rounds.drop_last());
        lemma_health_run_concat(
            timeout_ms,
            HealthState::AwaitingClock,
            before,
            round_events(rounds.last()),
        );
        assert(failed_in_time(rounds[rounds.len() - 1], timeout_ms));
        lemma_round(timeout_ms, rounds.last());
        assert(round.push(HealthEvent::Slept).drop_last() =~= round);
    }
}

/// A probe that succeeds ends the check with a healthy verdict, in whichever
/// round it comes: any number of failed rounds may go before it, as long as
/// its own round began before the deadline.
pub proof fn lemma_success_in_any_round(timeout_ms: u64, rounds: Seq<Round>, last: Round)
    requires
        all_failed_in_time(rounds, timeout_ms),
        last.began_ms < timeout_ms,
        is_success(last.status),
    ensures
        health_run(
            timeout_ms,
            HealthState::AwaitingClock,
            paused_rounds(rounds) + round_events(last),
        ) == HealthState::Finished(true),
{
    lemma_failed_rounds_keep_polling(timeout_ms, rounds);
    lemma_health_run_concat(
        timeout_ms,
        HealthState::AwaitingClock,
        paused_rounds(rounds),
        round_events(last),
    );
    lemma_round(timeout_ms, last);
}

/// A sidecar that never answers is given up on at the first clock reading
/// at or past the deadline, without another probe.
pub proof fn lemma_deadline_ends_check(timeout_ms: u64, rounds: Seq<Round>, elapsed_ms: u64)
    requires
        all_failed_in_time(rounds, timeout_ms),
        elapsed_ms >= timeout_ms,
    ensures
        health_run(
            timeout_ms,
            HealthState::AwaitingClock,
            paused_rounds(rounds) + seq![HealthEvent::Elapsed(elapsed_ms)],
        ) == HealthState::Finished(false),
{
    let last = seq![HealthEvent::Elapsed(elapsed_ms)];
    lemma_failed_rounds_keep_polling(timeout_ms, rounds);
    lemma_health_run_concat(timeout_ms, HealthState::AwaitingClock, paused_rounds(rounds), last);
    assert(health_run(timeout_ms, HealthState::AwaitingClock, last) == HealthState::Finished(
        false,
    )) by {
        reveal_with_fuel(health_run, 2);
    }
}

/// A check that began its last probe before the deadline, and whose probe
/// kept to its time limit, is over less than one probe after the deadline:
/// where the probe fails at or past the deadline, the check ends there and
/// then, without the pause.
pub proof fn lemma_overrun_is_bounded(timeout_ms: u64, rounds: Seq<Round>, last: Round)
    requires
        all_failed_in_time(rounds, timeout_ms),
        last.began_ms < timeout_ms,
        !is_success(last.status),
        timeout_ms <= last.probed_ms <= last.began_ms + PROBE_TIMEOUT_MS,
    ensures
        health_run(
            timeout_ms,
            HealthState::AwaitingClock,
            paused_rounds(rounds) + round_events(last),
        ) == HealthState::Finished(false),
        last.probed_ms < timeout_ms + PROBE_TIMEOUT_MS,
{
    lemma_failed_rounds_keep_polling(timeout_ms, rounds);
    lemma_health_run_concat(
        timeout_ms,
        HealthState::AwaitingClock,
        paused_rounds(rounds),
        round_events(last),
    );
    lemma_round(timeout_ms, last);
}

/// A check whose last probe failed with time to spare, and whose pause kept
/// to its length, is over less than one pause after the deadline, and so
/// less than one probe after it.
pub proof fn lemma_overrun_after_pause_is_bounded(
    timeout_ms: u64,
    rounds: Seq<Round>,
    elapsed_ms: u64,
)
    requires
        rounds.len() > 0,
        all_failed_in_time(rounds, timeout_ms),
        timeout_ms <= elapsed_ms <= rounds.last().probed_ms + POLL_INTERVAL_MS,
    ensures
        health_run(
            timeout_ms,
            HealthState::AwaitingClock,
            paused_rounds(rounds) + seq![HealthEvent::Elapsed(elapsed_ms)],
        ) == HealthState::Finished(false),
        elapsed_ms < timeout_ms + POLL_INTERVAL_MS,
        elapsed_ms < timeout_ms + PROBE_TIMEOUT_MS,
{
    lemma_deadline_ends_check(timeout_ms, rounds, elapsed_ms);
    assert(failed_in_time(rounds[rounds.len() - 1], timeout_ms));
}

/// No probe is issued at or past the deadline, and no pause is begun at or
/// past it: a probe is only ever called for by a clock reading before the
/// deadline, and is itself limited to `PROBE_TIMEOUT_MS`; a pause is only
/// ever called for by a probe that failed before the deadline.
pub proof fn lemma_nothing_begins_after_deadline(
    timeout_ms: u64,
    state: HealthState,
    event: HealthEvent,
)
    ensures
        health_next(timeout_ms, state, event).1 matches Some(HealthAction::Probe { timeout_ms: limit })
            ==> {
            &&& state == HealthState::AwaitingClock
            &&& event matches HealthEvent::Elapsed(elapsed_ms) && elapsed_ms < timeout_ms
            &&& limit == PROBE_TIMEOUT_MS
        },
        health_next(timeout_ms, state, event).1 matches Some(HealthAction::Sleep { millis }) ==> {
            &&& state == HealthState::AwaitingProbe
            &&& event matches HealthEvent::Probed { status, elapsed_ms } && !is_success(status)
                && elapsed_ms < timeout_ms
            &&& millis == POLL_INTERVAL_MS
        },
{
}

/// A finished check stays finished, with the verdict it reached.
pub proof fn lemma_finished_is_final(
    timeout_ms: u64,
    healthy: bool,
    events: Seq<HealthEvent>,
)
    ensures
        health_run(timeout_ms, HealthState::Finished(healthy), events) == HealthState::Finished(
            healthy,
        ),
    decreases events.len(),
{
    if events.len() > 0 {
        lemma_finished_is_final(timeout_ms, healthy, events.drop_last());
    }
}

} // verus!
