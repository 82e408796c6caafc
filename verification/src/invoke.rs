//! What a bounded external-tool invocation can come back with, and the time
//! bounds the invoker enforces.

use vstd::prelude::*;

verus! {

/// Why a tool process could not be started.
pub enum SpawnFailure {
    /// The executable was not found on the search path.
    ExecutableNotFound,
    /// Any other spawn error, carrying its rendered description.
    Other(String),
}

/// The result of running an external tool under a wall-clock bound.
pub enum ToolOutcome {
    /// The bound elapsed before the process exited; it was terminated.
    TimedOut,
    /// The process could not be started at all.
    SpawnFailed(SpawnFailure),
    /// The process ran to completion with this exit state and stderr text.
    Exited { success: bool, stderr: String },
}

/// The wall-clock bound for a copy or pull invocation, in seconds.
pub fn pull_timeout_secs() -> (r: u64)
    ensures
        r == 300,
{
    300
}

/// The wall-clock bound for a readiness version probe, in seconds.
pub fn probe_timeout_secs() -> (r: u64)
    ensures
        r == 5,
{
    5
}

/// The wall-clock bound for the upstream index fetch, in seconds.
pub fn fetch_timeout_secs() -> (r: u64)
    ensures
        r == 30,
{
    30
}

} // verus!
