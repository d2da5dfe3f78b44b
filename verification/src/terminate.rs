//! Termination: shutting the sidecar down, gracefully first and by force if
//! it does not comply.
//!
//! Shutdown is a loop around outside operations on the child process: a
//! graceful signal, polls for its exit, sleeps in between, a forced kill,
//! and a blocking wait that reaps it. The caller performs them; the
//! decisions in between are `terminate_step`. After each operation the
//! caller reports what came of it and is told what to do next.

use vstd::prelude::*;
use crate::platform::same_text;

verus! {

/// How long a signalled child is given to exit by itself, in milliseconds.
pub const GRACE_PERIOD_MS: u64 = 5_000;

/// The pause between two polls for the child's exit, in milliseconds.
pub const EXIT_POLL_INTERVAL_MS: u64 = 100;

/// What the host platform offers for stopping a process.
#[derive(Clone, Copy, Debug, PartialEq, Eq, Structural)]
pub enum TerminationStrategy {
    /// A graceful signal exists: send it, and kill only after the grace
    /// period.
    GracefulThenForced,
    /// No graceful signal exists: kill at once.
    ForcedOnly,
}

/// How a child came to a stop.
#[derive(Clone, Copy, Debug, PartialEq, Eq, Structural)]
pub enum StopKind {
    /// It exited by itself after the graceful signal.
    Clean,
    /// It was killed.
    Forced,
}

/// What a poll for the child's exit found.
#[derive(Clone, Copy, Debug, PartialEq, Eq, Structural)]
pub enum ExitPoll {
    /// The child has exited, and the poll collected its status.
    Exited,
    /// The child is still running.
    Alive,
    /// The poll itself failed.
    Failed,
}

/// Where a shutdown stands.
#[derive(Clone, Copy, Debug, PartialEq, Eq, Structural)]
pub enum TerminateState {
    /// Nothing has been done to the child yet.
    Running,
    /// Waiting for the graceful signal to be sent.
    AwaitingSignal,
    /// Waiting for the outcome of a poll.
    AwaitingPoll,
    /// Waiting for the pause between two polls to end.
    AwaitingSleep,
    /// Waiting for the forced kill to be issued.
    AwaitingKill,
    /// Waiting for the operating system to hand over the killed child.
    AwaitingReap,
    /// The child is gone and has been reaped.
    Stopped(StopKind),
}

/// What the caller did or observed.
#[derive(Clone, Copy, Debug, PartialEq, Eq, Structural)]
pub enum TerminateEvent {
    /// Shutdown is requested.
    Begin,
    /// The graceful signal was sent, and the clock started.
    Signalled,
    /// A poll ended, `elapsed_ms` milliseconds after the signal.
    Polled { status: ExitPoll, elapsed_ms: u64 },
    /// The pause ended.
    Slept,
    /// The forced kill was issued; whether it succeeded is not asked.
    Killed,
    /// The blocking wait returned; whether it succeeded is not asked.
    Reaped,
}

/// What the caller does next.
#[derive(Clone, Copy, Debug, PartialEq, Eq, Structural)]
pub enum TerminateAction {
    /// Send the graceful termination signal and start the clock.
    SendGracefulSignal,
    /// Poll, without blocking, whether the child has exited.
    PollExit,
    /// Sleep for `millis`.
    Sleep { millis: u64 },
    /// Kill the child unconditionally.
    ForceKill,
    /// Block until the operating system confirms that the child is gone.
    Reap,
    /// Stop: the child is gone.
    Finish(StopKind),
}

/// The strategy for a platform family, as the compiler names it: a graceful
/// signal exists on `unix` alone.
pub open spec fn strategy_of(family: Seq<char>) -> TerminationStrategy {
    if family == "unix"@ {
        TerminationStrategy::GracefulThenForced
    } else {
        TerminationStrategy::ForcedOnly
    }
}

/// The transition of a shutdown: the state after `event`, and the action it
/// calls for. An event that the state does not wait for changes nothing and
/// calls for nothing.
pub open spec fn terminate_next(
    strategy: TerminationStrategy,
    state: TerminateState,
    event: TerminateEvent,
) -> (TerminateState, Option<TerminateAction>) {
    match (state, event) {
        (TerminateState::Running, TerminateEvent::Begin) => match strategy {
            TerminationStrategy::GracefulThenForced => (
                TerminateState::AwaitingSignal,
                Some(TerminateAction::SendGracefulSignal),
            ),
            TerminationStrategy::ForcedOnly => (
                TerminateState::AwaitingKill,
                Some(TerminateAction::ForceKill),
            ),
        },
        (TerminateState::AwaitingSignal, TerminateEvent::Signalled) => (
            TerminateState::AwaitingPoll,
            Some(TerminateAction::PollExit),
        ),
        (TerminateState::AwaitingPoll, TerminateEvent::Polled { status, elapsed_ms }) => {
            if status == ExitPoll::Exited {
                (
                    TerminateState::Stopped(StopKind::Clean),
                    Some(TerminateAction::Finish(StopKind::Clean)),
                )
            } else if status == ExitPoll::Alive && elapsed_ms < GRACE_PERIOD_MS {
                (
                    TerminateState::AwaitingSleep,
                    Some(TerminateAction::Sleep { millis: EXIT_POLL_INTERVAL_MS }),
                )
            } else {
                (TerminateState::AwaitingKill, Some(TerminateAction::ForceKill))
            }
        },
        (TerminateState::AwaitingSleep, TerminateEvent::Slept) => (
            TerminateState::AwaitingPoll,
            Some(TerminateAction::PollExit),
        ),
        (TerminateState::AwaitingKill, TerminateEvent::Killed) => (
            TerminateState::AwaitingReap,
            Some(TerminateAction::Reap),
        ),
        (TerminateState::AwaitingReap, TerminateEvent::Reaped) => (
            TerminateState::Stopped(StopKind::Forced),
            Some(TerminateAction::Finish(StopKind::Forced)),
        ),
        _ => (state, None),
    }
}

/// Selects the termination strategy for a platform family.
pub fn termination_strategy(family: &str) -> (strategy: TerminationStrategy)
    ensures
        strategy == strategy_of(family@),
{
    if same_text(family, "unix") {
        TerminationStrategy::GracefulThenForced
    } else {
        TerminationStrategy::ForcedOnly
    }
}

/// Advances a shutdown by one event.
pub fn terminate_step(
    strategy: TerminationStrategy,
    state: TerminateState,
    event: TerminateEvent,
) -> (next: (TerminateState, Option<TerminateAction>))
    ensures
        next == terminate_next(strategy, state, event),
{
    match state {
        TerminateState::Running => match event {
            TerminateEvent::Begin => match strategy {
                TerminationStrategy::GracefulThenForced => (
                    TerminateState::AwaitingSignal,
                    Some(TerminateAction::SendGracefulSignal),
                ),
                TerminationStrategy::ForcedOnly => (
                    TerminateState::AwaitingKill,
                    Some(TerminateAction::ForceKill),
                ),
            },
            _ => (state, None),
        },
        TerminateState::AwaitingSignal => match event {
            TerminateEvent::Signalled => (
                TerminateState::AwaitingPoll,
                Some(TerminateAction::PollExit),
            ),
            _ => (state, None),
        },
        TerminateState::AwaitingPoll => match event {
            TerminateEvent::Polled { status: ExitPoll::Exited, elapsed_ms: _ } => (
                TerminateState::Stopped(StopKind::Clean),
                Some(TerminateAction::Finish(StopKind::Clean)),
            ),
            TerminateEvent::Polled { status: ExitPoll::Alive, elapsed_ms } => {
                if elapsed_ms < GRACE_PERIOD_MS {
                    (
                        TerminateState::AwaitingSleep,
                        Some(TerminateAction::Sleep { millis: EXIT_POLL_INTERVAL_MS }),
                    )
                } else {
                    (TerminateState::AwaitingKill, Some(TerminateAction::ForceKill))
                }
            },
            TerminateEvent::Polled { status: ExitPoll::Failed, elapsed_ms: _ } => (
                TerminateState::AwaitingKill,
                Some(TerminateAction::ForceKill),
            ),
            _ => (state, None),
        },
        TerminateState::AwaitingSleep => match event {
            TerminateEvent::Slept => (TerminateState::AwaitingPoll, Some(TerminateAction::PollExit)),
            _ => (state, None),
        },
        TerminateState::AwaitingKill => match event {
            TerminateEvent::Killed => (TerminateState::AwaitingReap, Some(TerminateAction::Reap)),
            _ => (state, None),
        },
        TerminateState::AwaitingReap => match event {
            TerminateEvent::Reaped => (
                TerminateState::Stopped(StopKind::Forced),
                Some(TerminateAction::Finish(StopKind::Forced)),
            ),
            _ => (state, None),
        },
        TerminateState::Stopped(_) => (state, None),
    }
}

/// Whether `event` is what `state` waits for.
pub open spec fn terminate_awaits(state: TerminateState, event: TerminateEvent) -> bool {
    match (state, event) {
        (TerminateState::Running, TerminateEvent::Begin) => true,
        (TerminateState::AwaitingSignal, TerminateEvent::Signalled) => true,
        (TerminateState::AwaitingPoll, TerminateEvent::Polled { .. }) => true,
        (TerminateState::AwaitingSleep, TerminateEvent::Slept) => true,
        (TerminateState::AwaitingKill, TerminateEvent::Killed) => true,
        (TerminateState::AwaitingReap, TerminateEvent::Reaped) => true,
        _ => false,
    }
}

/// A shutdown always answers the event it waits for with an action, and
/// never any other: a caller that reports the outcome of the action it was
/// given is always told what to do next, until it is told to finish.
pub proof fn lemma_terminate_answers_awaited(
    strategy: TerminationStrategy,
    state: TerminateState,
    event: TerminateEvent,
)
    ensures
        terminate_next(strategy, state, event).1 is Some <==> terminate_awaits(state, event),
        !terminate_awaits(state, event) ==> terminate_next(strategy, state, event).0 == state,
        terminate_next(strategy, state, event).1 matches Some(TerminateAction::Finish(kind))
            <==> terminate_awaits(state, event) && terminate_next(strategy, state, event).0
            is Stopped,
{
}

/// The state that a shutdown reaches from `state` after `events`, taken in
/// order.
pub open spec fn terminate_run(
    strategy: TerminationStrategy,
    state: TerminateState,
    events: Seq<TerminateEvent>,
) -> TerminateState
    decreases events.len(),
{
    if events.len() == 0 {
        state
    } else {
        terminate_next(
            strategy,
            terminate_run(strategy, state, events.drop_last()),
            events.last(),
        ).0
    }
}

/// The events of a run of polls that find the child alive: for each clock
/// reading, the poll and the pause after it.
pub open spec fn waiting_rounds(readings: Seq<u64>) -> Seq<TerminateEvent>
    decreases readings.len(),
{
    if readings.len() == 0 {
        Seq::empty()
    } else {
        waiting_rounds(readings.drop_last()).push(
            TerminateEvent::Polled { status: ExitPoll::Alive, elapsed_ms: readings.last() },
        ).push(TerminateEvent::Slept)
    }
}

/// Whether every clock reading lies within the grace period.
pub open spec fn all_within_grace(readings: Seq<u64>) -> bool {
    forall|i: int| 0 <= i < readings.len() ==> #[trigger] readings[i] < GRACE_PERIOD_MS
}

/// Whether a poll ends the wait for a graceful exit without the child having
/// exited: it found the child alive at or past the end of the grace period,
/// or it failed.
pub open spec fn calls_for_force(status: ExitPoll, elapsed_ms: u64) -> bool {
    status == ExitPoll::Failed || (status == ExitPoll::Alive && elapsed_ms >= GRACE_PERIOD_MS)
}

/// Running over two stretches of events in a row is running over the first
/// and then, from where that ended, over the second.
pub proof fn lemma_terminate_run_concat(
    strategy: TerminationStrategy,
    state: TerminateState,
    first: Seq<TerminateEvent>,
    second: Seq<TerminateEvent>,
)
    ensures
        terminate_run(strategy, state, first + second) == terminate_run(
            strategy,
            terminate_run(strategy, state, first),
            second,
        ),
    decreases second.len(),
{
    if second.len() == 0 {
        assert(first + second =~= first);
    } else {
        lemma_terminate_run_concat(strategy, state, first, second.drop_last());
        assert((first + second).drop_last() =~= first + second.drop_last());
        assert((first + second).last() == second.last());
    }
}

/// Polls that find the child alive within the grace period leave the
/// shutdown polling.
pub proof fn lemma_waiting_rounds_keep_polling(strategy: TerminationStrategy, readings: Seq<u64>)
    requires
        all_within_grace(readings),
    ensures
        terminate_run(strategy, TerminateState::AwaitingPoll, waiting_rounds(readings))
            == TerminateState::AwaitingPoll,
    decreases readings.len(),
{
    if readings.len() > 0 {
        let before = waiting_rounds(readings.drop_last());
        let poll = before.push(
            TerminateEvent::Polled { status: ExitPoll::Alive, elapsed_ms: readings.last() },
        );
        let sleep = poll.push(TerminateEvent::Slept);
        lemma_waiting_rounds_keep_polling(strategy, readings.drop_last());
        assert(poll.drop_last() =~= before);
        assert(sleep.drop_last() =~= poll);
        assert(readings.last() == readings[readings.len() - 1]);
        assert(terminate_run(strategy, TerminateState::AwaitingPoll, poll)
            == TerminateState::AwaitingSleep);
    }
}

/// A child that is found to have exited, after any number of polls that
/// found it alive within the grace period, is stopped cleanly: no kill is
/// issued.
pub proof fn lemma_exit_within_grace_is_clean(readings: Seq<u64>, elapsed_ms: u64)
    requires
        all_within_grace(readings),
    ensures
        terminate_run(
            TerminationStrategy::GracefulThenForced,
            TerminateState::Running,
            seq![TerminateEvent::Begin, TerminateEvent::Signalled] + waiting_rounds(readings)
                + seq![TerminateEvent::Polled { status: ExitPoll::Exited, elapsed_ms }],
        ) == TerminateState::Stopped(StopKind::Clean),
{
    let strategy = TerminationStrategy::GracefulThenForced;
    let head = seq![TerminateEvent::Begin, TerminateEvent::Signalled];
    let tail = seq![TerminateEvent::Polled { status: ExitPoll::Exited, elapsed_ms }];
    assert(terminate_run(strategy, TerminateState::Running, head)
        == TerminateState::AwaitingPoll) by {
        reveal_with_fuel(terminate_run, 3);
        assert(head.drop_last() =~= seq![TerminateEvent::Begin]);
    }
    lemma_waiting_rounds_keep_polling(strategy, readings);
    lemma_terminate_run_concat(strategy, TerminateState::Running, head, waiting_rounds(readings));
    lemma_terminate_run_concat(
        strategy,
        TerminateState::Running,
        head + waiting_rounds(readings),
        tail,
    );
    assert(terminate_run(strategy, TerminateState::AwaitingPoll, tail) == TerminateState::Stopped(
        StopKind::Clean,
    )) by {
        reveal_with_fuel(terminate_run, 2);
    }
}

/// A child that a poll finds alive at or past the end of the grace period,
/// or whose poll fails, is killed and reaped: the stop is forced, and it is
/// reached only once the blocking wait has returned.
pub proof fn lemma_deadline_forces_stop(readings: Seq<u64>, status: ExitPoll, elapsed_ms: u64)
    requires
        all_within_grace(readings),
        calls_for_force(status, elapsed_ms),
    ensures
        terminate_run(
            TerminationStrategy::GracefulThenForced,
            TerminateState::Running,
            seq![TerminateEvent::Begin, TerminateEvent::Signalled] + waiting_rounds(readings)
                + seq![TerminateEvent::Polled { status, elapsed_ms }],
        ) == TerminateState::AwaitingKill,
        terminate_run(
            TerminationStrategy::GracefulThenForced,
            TerminateState::Running,
            seq![TerminateEvent::Begin, TerminateEvent::Signalled] + waiting_rounds(readings)
                + seq![
                TerminateEvent::Polled { status, elapsed_ms },
                TerminateEvent::Killed,
                TerminateEvent::Reaped,
            ],
        ) == TerminateState::Stopped(StopKind::Forced),
{
    let strategy = TerminationStrategy::GracefulThenForced;
    let head = seq![TerminateEvent::Begin, TerminateEvent::Signalled];
    let poll = seq![TerminateEvent::Polled { status, elapsed_ms }];
    let tail = seq![
        TerminateEvent::Polled { status, elapsed_ms },
        TerminateEvent::Killed,
        TerminateEvent::Reaped,
    ];
    assert(terminate_run(strategy, TerminateState::Running, head)
        == TerminateState::AwaitingPoll) by {
        reveal_with_fuel(terminate_run, 3);
        assert(head.drop_last() =~= seq![TerminateEvent::Begin]);
    }
    lemma_waiting_rounds_keep_polling(strategy, readings);
    lemma_terminate_run_concat(strategy, TerminateState::Running, head, waiting_rounds(readings));
    lemma_terminate_run_concat(
        strategy,
        TerminateState::Running,
        head + waiting_rounds(readings),
        poll,
    );
    lemma_terminate_run_concat(
        strategy,
        TerminateState::Running,
        head + waiting_rounds(readings),
        tail,
    );
    assert(terminate_run(strategy, TerminateState::AwaitingPoll, poll)
        == TerminateState::AwaitingKill) by {
        reveal_with_fuel(terminate_run, 2);
    }
    assert(terminate_run(strategy, TerminateState::AwaitingPoll, tail) == TerminateState::Stopped(
        StopKind::Forced,
    )) by {
        reveal_with_fuel(terminate_run, 4);
        assert(tail.drop_last() =~= seq![
            TerminateEvent::Polled { status, elapsed_ms },
            TerminateEvent::Killed,
        ]);
        assert(tail.drop_last().drop_last() =~= poll);
    }
}

/// Where every pause keeps to its length, two polls in a row lie at most
/// one pause apart. A child that does not exit is then killed less than one
/// pause after the grace period has ended.
pub proof fn lemma_kill_follows_grace_period(readings: Seq<u64>, elapsed_ms: u64)
    requires
        readings.len() > 0,
        all_within_grace(readings),
        GRACE_PERIOD_MS <= elapsed_ms <= readings.last() + EXIT_POLL_INTERVAL_MS,
    ensures
        terminate_run(
            TerminationStrategy::GracefulThenForced,
            TerminateState::Running,
            seq![TerminateEvent::Begin, TerminateEvent::Signalled] + waiting_rounds(readings)
                + seq![TerminateEvent::Polled { status: ExitPoll::Alive, elapsed_ms }],
        ) == TerminateState::AwaitingKill,
        elapsed_ms < GRACE_PERIOD_MS + EXIT_POLL_INTERVAL_MS,
{
    lemma_deadline_forces_stop(readings, ExitPoll::Alive, elapsed_ms);
    assert(readings.last() == readings[readings.len() - 1]);
}

/// Where the platform has no graceful signal, shutdown goes straight to the
/// kill and the wait.
pub proof fn lemma_forced_only_skips_signal()
    ensures
        terminate_next(
            TerminationStrategy::ForcedOnly,
            TerminateState::Running,
            TerminateEvent::Begin,
        ) == (TerminateState::AwaitingKill, Some(TerminateAction::ForceKill)),
        terminate_run(
            TerminationStrategy::ForcedOnly,
            TerminateState::Running,
            seq![TerminateEvent::Begin, TerminateEvent::Killed, TerminateEvent::Reaped],
        ) == TerminateState::Stopped(StopKind::Forced),
{
    let events = seq![TerminateEvent::Begin, TerminateEvent::Killed, TerminateEvent::Reaped];
    reveal_with_fuel(terminate_run, 4);
    assert(events.drop_last() =~= seq![TerminateEvent::Begin, TerminateEvent::Killed]);
    assert(events.drop_last().drop_last() =~= seq![TerminateEvent::Begin]);
}

/// A shutdown reports the child stopped only once it has been reaped: the
/// stop is entered either by a poll that collected the exit status, and is
/// then clean, or by the return of the blocking wait after a kill, and is
/// then forced.
pub proof fn lemma_stopped_means_reaped(
    strategy: TerminationStrategy,
    state: TerminateState,
    event: TerminateEvent,
)
    requires
        !(state is Stopped),
        terminate_next(strategy, state, event).0 is Stopped,
    ensures
        terminate_next(strategy, state, event).0 == TerminateState::Stopped(StopKind::Clean)
            ==> state == TerminateState::AwaitingPoll && event matches TerminateEvent::Polled {
            status: ExitPoll::Exited,
            ..
        },
        terminate_next(strategy, state, event).0 == TerminateState::Stopped(StopKind::Forced)
            ==> state == TerminateState::AwaitingReap && event == TerminateEvent::Reaped,
{
}

/// The graceful signal is called for by the request to shut down a running
/// child and by nothing else, and no event leads back to the running state:
/// in no sequence of events is the signal called for twice.
pub proof fn lemma_signal_sent_once(
    strategy: TerminationStrategy,
    state: TerminateState,
    event: TerminateEvent,
)
    ensures
        terminate_next(strategy, state, event).1 == Some(TerminateAction::SendGracefulSignal)
            ==> state == TerminateState::Running && event == TerminateEvent::Begin,
        terminate_next(strategy, state, event).0 == TerminateState::Running ==> state
            == TerminateState::Running && event != TerminateEvent::Begin,
{
}

/// A stopped child stays stopped: further events, a second request to shut
/// down included, change nothing and call for nothing.
pub proof fn lemma_stopped_is_final(
    strategy: TerminationStrategy,
    kind: StopKind,
    event: TerminateEvent,
)
    ensures
        terminate_next(strategy, TerminateState::Stopped(kind), event) == (
            TerminateState::Stopped(kind),
            None::<TerminateAction>,
        ),
{
}

} // verus!
