//! The vCPU lifecycle state machine: states and the allowed transitions.

use vstd::prelude::*;

verus! {

/// Lifecycle state of one vCPU.
#[derive(Copy, Clone, Debug, PartialEq, Eq, Structural)]
pub enum CpuLifecycleState {
    /// Only the bare structure exists; nothing is set.
    Nothing,
    /// The structure is set up with its configuration.
    Created,
    /// The vCPU is running.
    Running,
    /// The worker thread is sleeping on the lifecycle condvar.
    Paused,
    /// The vCPU is being torn down.
    Stopping,
    /// The worker thread has exited; the structure will be dropped soon.
    Stopped,
}

/// The transition diagram of the lifecycle:
///
/// ```text
/// Nothing -> Created -> Running <-> Paused
///                         |           |
///                         +--> Stopping -> Stopped -> Nothing
/// ```
///
/// The controller moves `Running <-> Paused` and `Running -> Stopping`; the
/// worker moves to `Stopped` on exit (from `Running`, `Paused` or
/// `Stopping`); destroy moves `Stopped -> Nothing`.  Staying in place is
/// always allowed; apart from the `Running <-> Paused` cycle no state can be
/// entered a second time.
pub open spec fn lifecycle_edge(from: CpuLifecycleState, to: CpuLifecycleState) -> bool {
    ||| from == to
    ||| (from == CpuLifecycleState::Nothing && to == CpuLifecycleState::Created)
    ||| (from == CpuLifecycleState::Created && (to == CpuLifecycleState::Running || to
        == CpuLifecycleState::Paused))
    ||| (from == CpuLifecycleState::Running && (to == CpuLifecycleState::Paused || to
        == CpuLifecycleState::Stopping || to == CpuLifecycleState::Stopped))
    ||| (from == CpuLifecycleState::Paused && (to == CpuLifecycleState::Running || to
        == CpuLifecycleState::Stopped))
    ||| (from == CpuLifecycleState::Stopping && to == CpuLifecycleState::Stopped)
    ||| (from == CpuLifecycleState::Stopped && to == CpuLifecycleState::Nothing)
}

} // verus!
