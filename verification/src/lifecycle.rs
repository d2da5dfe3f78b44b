//! Lifecycle coordination: the order of startup, the record that startup
//! leaves behind, and teardown.
//!
//! Startup is a fixed sequence with early exits: a port is picked, a launch
//! command is resolved, the command is spawned, and the new process is
//! polled for health. No failure on the way is fatal. Each one ends startup
//! with the port on record and, as the case may be, without a child. The
//! caller performs the operations; `startup_step` decides what follows from
//! each outcome.

use vstd::prelude::*;
use crate::health::DEFAULT_HEALTH_TIMEOUT_MS;
use crate::locator::{launch_command, resolve_launch_command, PackagedProbes, PathProbe};
use crate::port::{pick_port, picked_port, DEFAULT_PORT};
use crate::spawn::{spawn_of, spawn_request, ChildHandle, SpawnRequest, SpawnRequestView};

verus! {

/// What the coordinator holds once startup is over.
#[derive(Debug, PartialEq, Eq)]
pub struct SidecarState {
    /// The running sidecar, until teardown.
    pub child: Option<ChildHandle>,
    /// The port that was picked for the sidecar, whether or not it runs.
    pub port: u16,
}

/// How startup ended.
#[derive(Clone, Copy, Debug, PartialEq, Eq, Structural)]
pub enum StartupReport {
    /// Neither a packaged binary nor a development script was found.
    NoSidecarFound,
    /// The operating system refused to start the command.
    SpawnFailed,
    /// The sidecar runs and answered its health endpoint.
    Healthy,
    /// The sidecar runs but did not answer in time.
    HealthCheckTimedOut,
}

/// Where startup stands: what it is waiting for.
#[derive(Debug, PartialEq, Eq)]
pub enum StartupPhase {
    /// Waiting to learn whether the default port is taken.
    AwaitingDefaultPort,
    /// Waiting for the operating system to assign an ephemeral port.
    AwaitingEphemeralPort,
    /// Waiting for the probes of the launch candidates.
    AwaitingLocation { port: u16 },
    /// Waiting for the outcome of the spawn.
    AwaitingSpawn { port: u16 },
    /// Waiting for the verdict of the health check.
    AwaitingHealth { port: u16, child: ChildHandle },
    /// Startup is over.
    Ready(SidecarState),
}

/// What the caller observed.
#[derive(Debug, PartialEq, Eq)]
pub enum StartupEvent {
    /// Whether binding the default port on loopback failed.
    DefaultPortProbed { in_use: bool },
    /// The port assigned to a bind of port 0 on loopback, if that succeeded.
    EphemeralPortProbed { assigned: Option<u16> },
    /// The probes of the packaged candidates, absent where the directory of
    /// the running executable is unknown, and of the development script in
    /// the working directory and its ancestors, nearest first.
    Located { probes: Option<PackagedProbes>, ancestors: Vec<PathProbe> },
    /// The spawned child, if the spawn succeeded.
    Spawned { child: Option<ChildHandle> },
    /// The verdict of the health check.
    HealthChecked { healthy: bool },
}

/// What the caller does next.
#[derive(Debug, PartialEq, Eq)]
pub enum StartupAction {
    /// Try to bind the default port on loopback.
    ProbeDefaultPort,
    /// Bind port 0 on loopback and read back the assigned port.
    ProbeEphemeralPort,
    /// Probe the launch candidates.
    Locate,
    /// Start the sidecar.
    Spawn(SpawnRequest),
    /// Poll the health endpoint on `port` for at most `timeout_ms`.
    WaitForHealthy { port: u16, timeout_ms: u64 },
    /// Stop: startup is over, with this to report.
    Finish(StartupReport),
}

/// A startup action as text.
pub enum StartupActionView {
    ProbeDefaultPort,
    ProbeEphemeralPort,
    Locate,
    Spawn(SpawnRequestView),
    WaitForHealthy { port: u16, timeout_ms: u64 },
    Finish(StartupReport),
}

impl View for StartupAction {
    type V = StartupActionView;

    open spec fn view(&self) -> StartupActionView {
        match self {
            StartupAction::ProbeDefaultPort => StartupActionView::ProbeDefaultPort,
            StartupAction::ProbeEphemeralPort => StartupActionView::ProbeEphemeralPort,
            StartupAction::Locate => StartupActionView::Locate,
            StartupAction::Spawn(request) => StartupActionView::Spawn(request@),
            StartupAction::WaitForHealthy { port, timeout_ms } => StartupActionView::WaitForHealthy {
                port: *port,
                timeout_ms: *timeout_ms,
            },
            StartupAction::Finish(report) => StartupActionView::Finish(*report),
        }
    }
}

impl DeepView for StartupAction {
    type V = StartupActionView;

    open spec fn deep_view(&self) -> StartupActionView {
        self@
    }
}

/// The end of startup: the record it leaves, and the report that goes with
/// it.
pub open spec fn finished(port: u16, child: Option<ChildHandle>, report: StartupReport) -> (
    StartupPhase,
    Option<StartupActionView>,
) {
    (
        StartupPhase::Ready(SidecarState { child, port }),
        Some(StartupActionView::Finish(report)),
    )
}

/// The transition of startup: the phase after `event`, and the action it
/// calls for. An event that the phase does not wait for changes nothing and
/// calls for nothing.
pub open spec fn startup_next(phase: StartupPhase, event: StartupEvent) -> (
    StartupPhase,
    Option<StartupActionView>,
) {
    match (phase, event) {
        (StartupPhase::AwaitingDefaultPort, StartupEvent::DefaultPortProbed { in_use }) => {
            if in_use {
                (
                    StartupPhase::AwaitingEphemeralPort,
                    Some(StartupActionView::ProbeEphemeralPort),
                )
            } else {
                (
                    StartupPhase::AwaitingLocation { port: picked_port(false, None) },
                    Some(StartupActionView::Locate),
                )
            }
        },
        (StartupPhase::AwaitingEphemeralPort, StartupEvent::EphemeralPortProbed { assigned }) => (
            StartupPhase::AwaitingLocation { port: picked_port(true, assigned) },
            Some(StartupActionView::Locate),
        ),
        (StartupPhase::AwaitingLocation { port }, StartupEvent::Located { probes, ancestors }) => {
            match launch_command(port, probes, ancestors@) {
                Some(command) => (
                    StartupPhase::AwaitingSpawn { port },
                    Some(StartupActionView::Spawn(spawn_of(command))),
                ),
                None => finished(port, None, StartupReport::NoSidecarFound),
            }
        },
        (StartupPhase::AwaitingSpawn { port }, StartupEvent::Spawned { child }) => match child {
            Some(handle) => (
                StartupPhase::AwaitingHealth { port, child: handle },
                Some(
                    StartupActionView::WaitForHealthy {
                        port,
                        timeout_ms: DEFAULT_HEALTH_TIMEOUT_MS,
                    },
                ),
            ),
            None => finished(port, None, StartupReport::SpawnFailed),
        },
        (
            StartupPhase::AwaitingHealth { port, child },
            StartupEvent::HealthChecked { healthy },
        ) => finished(
            port,
            Some(child),
            if healthy {
                StartupReport::Healthy
            } else {
                StartupReport::HealthCheckTimedOut
            },
        ),
        _ => (phase, None),
    }
}

/// Whether `event` is what `phase` waits for.
pub open spec fn startup_awaits(phase: StartupPhase, event: StartupEvent) -> bool {
    match (phase, event) {
        (StartupPhase::AwaitingDefaultPort, StartupEvent::DefaultPortProbed { .. }) => true,
        (StartupPhase::AwaitingEphemeralPort, StartupEvent::EphemeralPortProbed { .. }) => true,
        (StartupPhase::AwaitingLocation { .. }, StartupEvent::Located { .. }) => true,
        (StartupPhase::AwaitingSpawn { .. }, StartupEvent::Spawned { .. }) => true,
        (StartupPhase::AwaitingHealth { .. }, StartupEvent::HealthChecked { .. }) => true,
        _ => false,
    }
}

/// The port that a phase has on record, once one is picked.
pub open spec fn phase_port(phase: StartupPhase) -> Option<u16> {
    match phase {
        StartupPhase::AwaitingDefaultPort => None,
        StartupPhase::AwaitingEphemeralPort => None,
        StartupPhase::AwaitingLocation { port } => Some(port),
        StartupPhase::AwaitingSpawn { port } => Some(port),
        StartupPhase::AwaitingHealth { port, .. } => Some(port),
        StartupPhase::Ready(state) => Some(state.port),
    }
}

/// Begins startup: the first thing to learn is whether the default port is
/// free.
pub fn startup_begin() -> (begin: (StartupPhase, StartupAction))
    ensures
        begin.0 == StartupPhase::AwaitingDefaultPort,
        begin.1 == StartupAction::ProbeDefaultPort,
{
    (StartupPhase::AwaitingDefaultPort, StartupAction::ProbeDefaultPort)
}

/// Advances startup by one event.
pub fn startup_step(phase: StartupPhase, event: StartupEvent) -> (next: (
    StartupPhase,
    Option<StartupAction>,
))
    ensures
        next.0 == startup_next(phase, event).0,
        next.1.deep_view() == startup_next(phase, event).1,
{
    match phase {
        StartupPhase::AwaitingDefaultPort => match event {
            StartupEvent::DefaultPortProbed { in_use } => {
                if in_use {
                    (StartupPhase::AwaitingEphemeralPort, Some(StartupAction::ProbeEphemeralPort))
                } else {
                    let port: u16 = pick_port(false, None);
                    (StartupPhase::AwaitingLocation { port }, Some(StartupAction::Locate))
                }
            },
            _ => (StartupPhase::AwaitingDefaultPort, None),
        },
        StartupPhase::AwaitingEphemeralPort => match event {
            StartupEvent::EphemeralPortProbed { assigned } => {
                let port: u16 = pick_port(true, assigned);
                (StartupPhase::AwaitingLocation { port }, Some(StartupAction::Locate))
            },
            _ => (StartupPhase::AwaitingEphemeralPort, None),
        },
        StartupPhase::AwaitingLocation { port } => match event {
            StartupEvent::Located { probes, ancestors } => {
                match resolve_launch_command(port, &probes, &ancestors) {
                    Some(command) => (
                        StartupPhase::AwaitingSpawn { port },
                        Some(StartupAction::Spawn(spawn_request(command))),
                    ),
                    None => finish(port, None, StartupReport::NoSidecarFound),
                }
            },
            _ => (StartupPhase::AwaitingLocation { port }, None),
        },
        StartupPhase::AwaitingSpawn { port } => match event {
            StartupEvent::Spawned { child: Some(handle) } => (
                StartupPhase::AwaitingHealth { port, child: handle },
                Some(
                    StartupAction::WaitForHealthy { port, timeout_ms: DEFAULT_HEALTH_TIMEOUT_MS },
                ),
            ),
            StartupEvent::Spawned { child: None } => finish(
                port,
                None,
                StartupReport::SpawnFailed,
            ),
            _ => (StartupPhase::AwaitingSpawn { port }, None),
        },
        StartupPhase::AwaitingHealth { port, child } => match event {
            StartupEvent::HealthChecked { healthy: true } => finish(
                port,
                Some(child),
                StartupReport::Healthy,
            ),
            StartupEvent::HealthChecked { healthy: false } => finish(
                port,
                Some(child),
                StartupReport::HealthCheckTimedOut,
            ),
            _ => (StartupPhase::AwaitingHealth { port, child }, None),
        },
        StartupPhase::Ready(state) => (StartupPhase::Ready(state), None),
    }
}

fn finish(port: u16, child: Option<ChildHandle>, report: StartupReport) -> (end: (
    StartupPhase,
    Option<StartupAction>,
))
    ensures
        end.0 == finished(port, child, report).0,
        end.1.deep_view() == finished(port, child, report).1,
{
    (StartupPhase::Ready(SidecarState { child, port }), Some(StartupAction::Finish(report)))
}

impl SidecarState {
    /// The state after teardown: the child is gone, the port stays on
    /// record.
    pub open spec fn torn_down(self) -> SidecarState {
        SidecarState { child: None, port: self.port }
    }

    /// Tears the sidecar down: clears the child and hands it over for
    /// termination. Returns `None`, and changes nothing, where no child is
    /// on record.
    pub fn teardown(&mut self) -> (child: Option<ChildHandle>)
        ensures
            child == old(self).child,
            *final(self) == old(self).torn_down(),
    {
        let child = self.child;
        self.child = None;
        child
    }
}

/// The port to answer a query with: the one on record or, where the record
/// cannot be read, the default.
pub open spec fn reported_port(state: Option<&SidecarState>) -> u16 {
    match state {
        Some(s) => s.port,
        None => DEFAULT_PORT,
    }
}

/// Answers a query for the sidecar's port.
///
/// `state` is `None` where the lock that guards the state could not be
/// acquired: the query then falls back to the default port instead of
/// failing.
pub fn get_api_port(state: Option<&SidecarState>) -> (port: u16)
    ensures
        port == reported_port(state),
{
    match state {
        Some(s) => s.port,
        None => DEFAULT_PORT,
    }
}

/// Teardown is idempotent: after one teardown no child is on record, so a
/// second one hands nothing over for termination and leaves the state as it
/// found it.
pub proof fn lemma_teardown_idempotent(state: SidecarState)
    ensures
        state.torn_down().child is None,
        state.torn_down().torn_down() == state.torn_down(),
{
}

/// Teardown does not touch the port: a query after it is answered as
/// before.
pub proof fn lemma_port_survives_teardown(state: SidecarState)
    ensures
        reported_port(Some(&state.torn_down())) == reported_port(Some(&state)),
{
}

/// Startup always answers the event it waits for with an action, and never
/// any other; and it is told to finish exactly when it becomes ready. No
/// outcome of any operation stalls or aborts it.
pub proof fn lemma_startup_answers_awaited(phase: StartupPhase, event: StartupEvent)
    ensures
        startup_next(phase, event).1 is Some <==> startup_awaits(phase, event),
        !startup_awaits(phase, event) ==> startup_next(phase, event).0 == phase,
        startup_next(phase, event).1 matches Some(StartupActionView::Finish(_))
            <==> startup_awaits(phase, event) && startup_next(phase, event).0 is Ready,
{
}

/// A port on record stays on record: once startup has picked the port, no
/// event changes it, whether the spawn succeeds or not.
pub proof fn lemma_port_is_kept(phase: StartupPhase, event: StartupEvent)
    requires
        phase_port(phase) is Some,
    ensures
        phase_port(startup_next(phase, event).0) == phase_port(phase),
{
}

/// The port that startup records is the one the allocation policy picks
/// from the probes.
pub proof fn lemma_port_follows_policy(in_use: bool, assigned: Option<u16>)
    ensures
        !in_use ==> phase_port(
            startup_next(
                StartupPhase::AwaitingDefaultPort,
                StartupEvent::DefaultPortProbed { in_use },
            ).0,
        ) == Some(picked_port(in_use, assigned)),
        in_use ==> startup_next(
            StartupPhase::AwaitingDefaultPort,
            StartupEvent::DefaultPortProbed { in_use },
        ).0 == StartupPhase::AwaitingEphemeralPort,
        in_use ==> phase_port(
            startup_next(
                StartupPhase::AwaitingEphemeralPort,
                StartupEvent::EphemeralPortProbed { assigned },
            ).0,
        ) == Some(picked_port(in_use, assigned)),
{
}

/// A spawn is called for only by candidates among which a launch command
/// was resolved, and it is that command, bound to the port on record, that
/// is spawned. Where nothing was resolved, startup ends at once, without a
/// child.
pub proof fn lemma_spawn_needs_command(phase: StartupPhase, event: StartupEvent)
    ensures
        startup_next(phase, event).1 matches Some(StartupActionView::Spawn(request)) ==> {
            &&& phase matches StartupPhase::AwaitingLocation { port }
            &&& event matches StartupEvent::Located { probes, ancestors }
            &&& launch_command(port, probes, ancestors@) == Some(request.command)
        },
        phase matches StartupPhase::AwaitingLocation { port } ==> (event matches StartupEvent::Located {
            probes,
            ancestors,
        } ==> (launch_command(port, probes, ancestors@) is None ==> startup_next(phase, event)
            == finished(port, None, StartupReport::NoSidecarFound))),
{
}

/// The health check is called for only by a spawn that succeeded, on the
/// port on record and with the default deadline; its verdict, whichever it
/// is, ends startup with the child on record.
pub proof fn lemma_health_check_needs_child(phase: StartupPhase, event: StartupEvent)
    ensures
        startup_next(phase, event).1 matches Some(
            StartupActionView::WaitForHealthy { port, timeout_ms },
        ) ==> {
            &&& phase == (StartupPhase::AwaitingSpawn { port })
            &&& event matches StartupEvent::Spawned { child: Some(_) }
            &&& timeout_ms == DEFAULT_HEALTH_TIMEOUT_MS
        },
        phase matches StartupPhase::AwaitingHealth { port, child } ==> (event is HealthChecked
            ==> startup_next(phase, event).0 == StartupPhase::Ready(
            SidecarState { child: Some(child), port },
        )),
{
}

} // verus!
