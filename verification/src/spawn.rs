//! Spawning: how the sidecar process is started.

use vstd::prelude::*;
use crate::locator::{LaunchCommand, LaunchCommandView};

verus! {

/// What becomes of one of the child's standard streams.
#[derive(Clone, Copy, Debug, PartialEq, Eq, Structural)]
pub enum StdioMode {
    /// The stream is thrown away.
    Discard,
    /// The stream is piped to the parent.
    Capture,
}

/// The process that identifies a spawned sidecar.
#[derive(Clone, Copy, Debug, PartialEq, Eq, Structural)]
pub struct ChildHandle {
    pub pid: u32,
}

/// Everything needed to start the sidecar process.
#[derive(Debug, PartialEq, Eq)]
pub struct SpawnRequest {
    pub command: LaunchCommand,
    pub stdout: StdioMode,
    pub stderr: StdioMode,
}

/// A spawn request as text.
pub struct SpawnRequestView {
    pub command: LaunchCommandView,
    pub stdout: StdioMode,
    pub stderr: StdioMode,
}

impl View for SpawnRequest {
    type V = SpawnRequestView;

    open spec fn view(&self) -> SpawnRequestView {
        SpawnRequestView { command: self.command@, stdout: self.stdout, stderr: self.stderr }
    }
}

impl DeepView for SpawnRequest {
    type V = SpawnRequestView;

    open spec fn deep_view(&self) -> SpawnRequestView {
        self@
    }
}

/// The request that starts `command`: its output is of no interest, its
/// errors are kept for diagnosis.
pub open spec fn spawn_of(command: LaunchCommandView) -> SpawnRequestView {
    SpawnRequestView { command, stdout: StdioMode::Discard, stderr: StdioMode::Capture }
}

/// Wraps a launch command into the request to spawn it.
pub fn spawn_request(command: LaunchCommand) -> (request: SpawnRequest)
    ensures
        request@ == spawn_of(command@),
{
    SpawnRequest { command, stdout: StdioMode::Discard, stderr: StdioMode::Capture }
}

} // verus!
