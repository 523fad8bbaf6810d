//! Error types of the vCPU engine and of the virtio-net device.

use vstd::prelude::*;

verus! {

use crate::lifecycle::CpuLifecycleState;

/// Errors of the vCPU engine.
#[derive(Copy, Clone, Debug, PartialEq, Eq, Structural)]
pub enum CpuError {
    /// The vCPU was asked to realize when it was not freshly created.
    RealizeVcpu { id: u8 },
    /// The vCPU was asked to start while already running.
    StartVcpu,
    /// Delivering the kick signal to the worker thread failed.
    KickVcpu,
    /// Delivering the pause signal to the worker thread failed.
    StopVcpu,
    /// The vCPU did not reach `Stopped` within the destroy wait;
    /// `state` is the lifecycle state that was observed instead.
    DestroyVcpu { state: CpuLifecycleState },
    /// The run call returned an exit reason this engine does not handle.
    VcpuExitReason { id: u8 },
    /// The run call failed with an errno that is neither EAGAIN nor EINTR.
    UnhandledKvmExit { id: u8 },
    /// A signal handler ran on a thread with no vCPU bound to it.
    VcpuLocalThreadNotPresent,
    /// The owning machine is already gone.
    NoMachineInterface,
}

/// Errors of the virtio-net device.
#[derive(Copy, Clone, Debug, PartialEq, Eq, Structural)]
pub enum NetError {
    /// A config-space access at `offset` fell outside the `len`-byte window
    /// that the access is checked against.
    DevConfigOverflow { offset: u64, len: u64 },
    /// A migration blob had the wrong length.
    InvalidStateLength { got: usize, expected: usize },
    /// Every address of the default MAC pool is taken.
    MacPoolExhausted,
    /// The device was activated with no virtqueues.
    NoQueues,
    /// The TAP device supports multi-queue but a single queue pair was
    /// configured.
    MqTapUnwanted { queue_pairs: u16 },
    /// Multiple queue pairs were configured but the TAP device does not
    /// support multi-queue.
    MqTapMissing { queue_pairs: u16 },
}

} // verus!
