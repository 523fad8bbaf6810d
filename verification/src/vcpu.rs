//! The vCPU engine: a sequential model of one vCPU as driven by the
//! controller (realize / start / pause / resume / destroy), by its worker
//! thread (ready check, guest entry, exit dispatch) and by the two realtime
//! signals.
//!
//! The model folds the cross-thread protocol into single-thread steps: an
//! operation that returns only after the signal handler has run on the
//! worker thread (such as `pause`, which spins on `pause_signal`) carries
//! the handler's effect in its own postcondition.  The opaque
//! architecture-specific register file is held as plain words that this
//! library never interprets; the run call, the signals and the machine
//! callbacks are performed outside the library, which hands back plain
//! events.

use vstd::prelude::*;

verus! {

use crate::errors::CpuError;
use crate::lifecycle::{lifecycle_edge, CpuLifecycleState};

/// What the run call reported, as handed in by the worker loop.
#[derive(Copy, Clone, Debug, PartialEq, Eq, Structural)]
pub enum SystemEventKind {
    /// The guest asked to shut down.
    Shutdown,
    /// The guest asked to reset.
    Reset,
    /// Any other system event.
    Other,
}

/// Why the run syscall failed.
#[derive(Copy, Clone, Debug, PartialEq, Eq, Structural)]
pub enum RunErrorKind {
    /// EAGAIN: nothing happened, run again.
    Again,
    /// EINTR: a signal interrupted the guest.
    Interrupted,
    /// Any other errno.
    Other,
}

/// One exit of the run call, reduced to what the dispatch decides on.
#[derive(Copy, Clone, Debug, PartialEq, Eq, Structural)]
pub enum VcpuExitEvent {
    /// The guest read from an MMIO address.
    MmioRead,
    /// The guest wrote to an MMIO address.
    MmioWrite,
    /// The guest raised a system event.
    SystemEvent { kind: SystemEventKind },
    /// The vCPU could not be entered.
    FailEntry,
    /// The hypervisor reported an internal error.
    InternalError,
    /// An exit reason this engine does not handle.
    Unknown,
    /// The run syscall itself failed.
    RunError { err: RunErrorKind },
}

/// What the worker loop must do after one dispatched exit.
#[derive(Copy, Clone, Debug, PartialEq, Eq, Structural)]
pub enum VcpuAction {
    /// Nothing beyond the returned verdict.
    NoAction,
    /// Forward the MMIO read to the machine and fill the guest's buffer.
    ForwardMmioRead,
    /// Forward the MMIO write to the machine.
    ForwardMmioWrite,
    /// Tear the machine down and emit the guest-shutdown event.
    DestroyMachine,
    /// Reset the machine and emit the guest-reset event.
    ResetMachine,
    /// Clear the immediate-exit flag on the vCPU descriptor.
    ClearImmediateExit,
}

/// Verdict of one dispatched exit: whether to keep looping, and the action
/// the worker must perform.
#[derive(Copy, Clone, Debug, PartialEq, Eq, Structural)]
pub struct ExecStep {
    /// `true` to run the vCPU again, `false` to leave the worker loop.
    pub cont: bool,
    /// What to do before continuing.
    pub action: VcpuAction,
}

/// What `ready_for_running` tells the worker loop.
#[derive(Copy, Clone, Debug, PartialEq, Eq, Structural)]
pub enum Readiness {
    /// Enter the guest.
    Run,
    /// Sleep on the lifecycle condvar and look again.
    WaitWhilePaused,
    /// Leave the worker loop.
    Exit,
}

/// One vCPU, as the controller and the worker see it.
pub struct Vcpu {
    /// ID of this vCPU; 0 is the primary one.
    pub id: u8,
    /// Lifecycle state.
    pub state: CpuLifecycleState,
    /// Set by the task-signal handler once the vCPU has left the guest;
    /// cleared by `resume`.
    pub pause_signal: bool,
    /// The immediate-exit flag of the vCPU descriptor: while set, the run
    /// call returns at once with EINTR instead of entering the guest.
    pub immediate_exit: bool,
    /// Whether the vCPU is currently inside the guest.  Signal handlers run
    /// on the worker thread only after the guest has been left.
    pub in_kvm: bool,
    /// Whether the worker thread has been spawned.
    pub worker: bool,
    /// OS thread id of the worker, once it has reported it.
    pub tid: Option<u64>,
    /// Architecture register words, opaque to this library.
    pub arch_regs: Vec<u64>,
    /// Snapshot of the register words right before boot.
    pub boot_regs: Vec<u64>,
}

/// Effect of the task signal: the handler sets the immediate-exit flag and
/// publishes `pause_signal`, and can only run once the guest is left.
pub open spec fn task_signal_post(v: Vcpu) -> Vcpu {
    Vcpu { pause_signal: true, immediate_exit: true, in_kvm: false, ..v }
}

/// Effect of `start`: spawn the worker and enter `Paused` or `Running`.
pub open spec fn start_post(v: Vcpu, paused: bool) -> Vcpu {
    if v.state == CpuLifecycleState::Running {
        v
    } else {
        Vcpu {
            state: if paused {
                CpuLifecycleState::Paused
            } else {
                CpuLifecycleState::Running
            },
            worker: true,
            ..v
        }
    }
}

/// Effect of `pause`: move `Running` to `Paused`, then (when a worker
/// exists) the folded-in task signal whose receipt `pause` spins on.
pub open spec fn pause_post(v: Vcpu) -> Vcpu {
    let v1 = Vcpu {
        state: if v.state == CpuLifecycleState::Running {
            CpuLifecycleState::Paused
        } else {
            v.state
        },
        ..v
    };
    if v.worker {
        task_signal_post(v1)
    } else {
        v1
    }
}

/// Effect of `resume`: a warned no-op when already running, else enter
/// `Running` and clear `pause_signal`.
pub open spec fn resume_post(v: Vcpu) -> Vcpu {
    if v.state == CpuLifecycleState::Running {
        v
    } else {
        Vcpu { state: CpuLifecycleState::Running, pause_signal: false, ..v }
    }
}

/// Effect of `kick`: the task signal, when a worker exists.
pub open spec fn kick_post(v: Vcpu) -> Vcpu {
    if v.worker {
        task_signal_post(v)
    } else {
        v
    }
}

/// Effect of the worker leaving its loop: the state becomes `Stopped`.
pub open spec fn worker_exit_post(v: Vcpu) -> Vcpu {
    Vcpu { state: CpuLifecycleState::Stopped, ..v }
}

/// Effect of `destroy`; `worker_stopped` says whether the worker reached
/// `Stopped` within the bounded wait.
pub open spec fn destroy_post(v: Vcpu, worker_stopped: bool) -> Vcpu {
    if v.state == CpuLifecycleState::Stopped {
        Vcpu { state: CpuLifecycleState::Nothing, ..v }
    } else {
        let v1 = Vcpu {
            state: if v.state == CpuLifecycleState::Running {
                CpuLifecycleState::Stopping
            } else {
                v.state
            },
            ..v
        };
        let v2 = kick_post(v1);
        if worker_stopped {
            Vcpu { state: CpuLifecycleState::Nothing, ..v2 }
        } else {
            v2
        }
    }
}

/// Effect of a guest-initiated shutdown: the worker marks the vCPU
/// `Stopped` before the machine is torn down.
pub open spec fn guest_shutdown_post(v: Vcpu) -> Vcpu {
    Vcpu { state: CpuLifecycleState::Stopped, ..v }
}

impl Vcpu {
    /// A freshly allocated vCPU: configured state, no worker, no flags.
    pub fn new(id: u8) -> (r: Self)
        ensures
            r.id == id,
            r.state == CpuLifecycleState::Created,
            !r.pause_signal,
            !r.immediate_exit,
            !r.in_kvm,
            !r.worker,
            r.tid is None,
            r.arch_regs@ == Seq::<u64>::empty(),
            r.boot_regs@ == Seq::<u64>::empty(),
    {
        Vcpu {
            id,
            state: CpuLifecycleState::Created,
            pause_signal: false,
            immediate_exit: false,
            in_kvm: false,
            worker: false,
            tid: None,
            arch_regs: Vec::new(),
            boot_regs: Vec::new(),
        }
    }

    /// This vCPU's ID.
    pub fn id(&self) -> (r: u8)
        ensures
            r == self.id,
    {
        self.id
    }

    /// The worker's thread id, or 0 before the worker reported one.
    pub fn tid(&self) -> (r: u64)
        ensures
            r == (if self.tid is Some {
                self.tid->0
            } else {
                0u64
            }),
    {
        match self.tid {
            Some(t) => t,
            None => 0,
        }
    }

    /// Records the worker's OS thread id.
    pub fn set_tid(&mut self, tid: u64)
        ensures
            *final(self) == (Vcpu { tid: Some(tid), ..*old(self) }),
    {
        self.tid = Some(tid);
    }

    /// Programs the boot register words and snapshots them, failing when
    /// the vCPU has left the `Created` state.
    pub fn realize(&mut self, boot_regs: Vec<u64>) -> (r: Result<(), CpuError>)
        ensures
            old(self).state == CpuLifecycleState::Created ==> {
                &&& r == Ok::<(), CpuError>(())
                &&& final(self).arch_regs@ == boot_regs@
                &&& final(self).boot_regs@ == boot_regs@
            },
            old(self).state != CpuLifecycleState::Created ==> {
                &&& r == Err::<(), CpuError>(CpuError::RealizeVcpu { id: old(self).id })
                &&& *final(self) == *old(self)
            },
            final(self).id == old(self).id,
            final(self).state == old(self).state,
            final(self).pause_signal == old(self).pause_signal,
            final(self).immediate_exit == old(self).immediate_exit,
            final(self).in_kvm == old(self).in_kvm,
            final(self).worker == old(self).worker,
            final(self).tid == old(self).tid,
    {
        if !(self.state == CpuLifecycleState::Created) {
            return Err(CpuError::RealizeVcpu { id: self.id });
        }
        self.arch_regs = copy_regs(&boot_regs);
        self.boot_regs = boot_regs;
        Ok(())
    }

    /// Restores the architecture registers from the boot snapshot.
    pub fn set_to_boot_state(&mut self)
        ensures
            final(self).arch_regs@ == old(self).boot_regs@,
            final(self).boot_regs@ == old(self).boot_regs@,
            final(self).id == old(self).id,
            final(self).state == old(self).state,
            final(self).pause_signal == old(self).pause_signal,
            final(self).immediate_exit == old(self).immediate_exit,
            final(self).in_kvm == old(self).in_kvm,
            final(self).worker == old(self).worker,
            final(self).tid == old(self).tid,
    {
        self.arch_regs = copy_regs(&self.boot_regs);
    }

    /// Spawns the worker; the initial state is `Paused` when requested,
    /// else `Running`.  Fails when the vCPU is already running.
    pub fn start(&mut self, paused: bool) -> (r: Result<(), CpuError>)
        ensures
            *final(self) == start_post(*old(self), paused),
            old(self).state == CpuLifecycleState::Running <==> r == Err::<(), CpuError>(
                CpuError::StartVcpu,
            ),
            old(self).state != CpuLifecycleState::Running <==> r == Ok::<(), CpuError>(()),
            old(self).state == CpuLifecycleState::Created ==> lifecycle_edge(
                old(self).state,
                final(self).state,
            ),
    {
        if self.state == CpuLifecycleState::Running {
            return Err(CpuError::StartVcpu);
        }
        self.state = if paused {
            CpuLifecycleState::Paused
        } else {
            CpuLifecycleState::Running
        };
        self.worker = true;
        Ok(())
    }

    /// The task-signal handler, as run on the worker thread: it sets the
    /// immediate-exit flag on the vCPU descriptor and publishes
    /// `pause_signal`; it can only run with the guest left.
    pub fn task_signal(&mut self)
        requires
            old(self).worker,
        ensures
            *final(self) == task_signal_post(*old(self)),
    {
        self.immediate_exit = true;
        self.pause_signal = true;
        self.in_kvm = false;
    }

    /// Sends the task signal to the worker, if any: it unblocks a running
    /// vCPU without pausing it.
    pub fn kick(&mut self) -> (r: Result<(), CpuError>)
        ensures
            *final(self) == kick_post(*old(self)),
            r == Ok::<(), CpuError>(()),
    {
        if self.worker {
            self.task_signal();
        }
        Ok(())
    }

    /// Moves a running vCPU to `Paused`, sends the task signal and returns
    /// only once the handler has published `pause_signal` — so on return
    /// (with a worker present) the vCPU is out of the guest for good until
    /// `resume`.
    pub fn pause(&mut self) -> (r: Result<(), CpuError>)
        ensures
            *final(self) == pause_post(*old(self)),
            r == Ok::<(), CpuError>(()),
            old(self).worker ==> final(self).pause_signal && !final(self).in_kvm && final(self).immediate_exit,
            lifecycle_edge(old(self).state, final(self).state),
    {
        if self.state == CpuLifecycleState::Running {
            self.state = CpuLifecycleState::Paused;
        }
        if self.worker {
            self.task_signal();
        }
        Ok(())
    }

    /// Moves the vCPU back to `Running` and clears `pause_signal`; a warned
    /// no-op when it is already running.
    pub fn resume(&mut self) -> (r: Result<(), CpuError>)
        ensures
            *final(self) == resume_post(*old(self)),
            r == Ok::<(), CpuError>(()),
            !final(self).pause_signal || old(self).state == CpuLifecycleState::Running,
            old(self).state == CpuLifecycleState::Paused || old(self).state
                == CpuLifecycleState::Created || old(self).state == CpuLifecycleState::Running
                ==> lifecycle_edge(old(self).state, final(self).state),
    {
        if self.state == CpuLifecycleState::Running {
            return Ok(());
        }
        self.state = CpuLifecycleState::Running;
        self.pause_signal = false;
        Ok(())
    }

    /// Tears the vCPU down: `Running` moves to `Stopping`, an already
    /// stopped vCPU moves straight to `Nothing`; otherwise the worker is
    /// kicked and given a bounded wait to reach `Stopped`
    /// (`worker_stopped` reports whether it did).
    pub fn destroy(&mut self, worker_stopped: bool) -> (r: Result<(), CpuError>)
        ensures
            *final(self) == destroy_post(*old(self), worker_stopped),
            (r == Ok::<(), CpuError>(())) <==> (old(self).state == CpuLifecycleState::Stopped
                || worker_stopped),
            r is Err ==> r == Err::<(), CpuError>(CpuError::DestroyVcpu { state: final(self).state }),
    {
        if self.state == CpuLifecycleState::Stopped {
            self.state = CpuLifecycleState::Nothing;
            return Ok(());
        }
        if self.state == CpuLifecycleState::Running {
            self.state = CpuLifecycleState::Stopping;
        }
        if self.worker {
            self.task_signal();
        }
        if worker_stopped {
            self.state = CpuLifecycleState::Nothing;
            Ok(())
        } else {
            Err(CpuError::DestroyVcpu { state: self.state })
        }
    }

    /// The worker enters the guest; with the immediate-exit flag set the
    /// run call returns at once without entering.
    pub fn enter_guest(&mut self)
        requires
            old(self).worker,
        ensures
            *final(self) == (Vcpu { in_kvm: !old(self).immediate_exit, ..*old(self) }),
    {
        self.in_kvm = !self.immediate_exit;
    }

    /// The worker marks the vCPU stopped on leaving its loop.
    pub fn worker_exit(&mut self)
        ensures
            *final(self) == worker_exit_post(*old(self)),
            old(self).state == CpuLifecycleState::Running || old(self).state
                == CpuLifecycleState::Paused || old(self).state == CpuLifecycleState::Stopping
                || old(self).state == CpuLifecycleState::Stopped ==> lifecycle_edge(
                old(self).state,
                final(self).state,
            ),
    {
        self.state = CpuLifecycleState::Stopped;
    }

    /// Guest-initiated shutdown: mark the vCPU stopped, then have the
    /// machine torn down and the shutdown event emitted.  Fails when the
    /// owning machine is already gone — the state still moves to
    /// `Stopped` first, as the worker is exiting either way.
    pub fn guest_shutdown(&mut self, machine_present: bool) -> (r: Result<(), CpuError>)
        ensures
            *final(self) == guest_shutdown_post(*old(self)),
            machine_present <==> r == Ok::<(), CpuError>(()),
            !machine_present <==> r == Err::<(), CpuError>(CpuError::NoMachineInterface),
            old(self).state == CpuLifecycleState::Running || old(self).state
                == CpuLifecycleState::Paused ==> lifecycle_edge(old(self).state, final(self).state),
    {
        self.state = CpuLifecycleState::Stopped;
        if machine_present {
            Ok(())
        } else {
            Err(CpuError::NoMachineInterface)
        }
    }

    /// Guest-initiated reset: the machine is reset and the reset event
    /// emitted; the vCPU itself does not change.
    pub fn guest_reset(&self, machine_present: bool) -> (r: Result<(), CpuError>)
        ensures
            machine_present <==> r == Ok::<(), CpuError>(()),
            !machine_present <==> r == Err::<(), CpuError>(CpuError::NoMachineInterface),
    {
        if machine_present {
            Ok(())
        } else {
            Err(CpuError::NoMachineInterface)
        }
    }

    /// Dispatches one exit of the run call: forwards MMIO, turns guest
    /// system events into machine teardown or reset, loops on EAGAIN,
    /// clears the immediate-exit flag on EINTR, and fails on exits this
    /// engine does not handle.  The verdict says whether the worker keeps
    /// looping.
    pub fn kvm_vcpu_exec(&mut self, exit: VcpuExitEvent, machine_present: bool) -> (r: Result<
        ExecStep,
        CpuError,
    >)
        ensures
            !machine_present ==> r == Err::<ExecStep, CpuError>(CpuError::NoMachineInterface)
                && *final(self) == (Vcpu { in_kvm: false, ..*old(self) }),
            machine_present ==> match exit {
                VcpuExitEvent::MmioRead => r == Ok::<ExecStep, CpuError>(
                    ExecStep { cont: true, action: VcpuAction::ForwardMmioRead },
                ) && *final(self) == (Vcpu { in_kvm: false, ..*old(self) }),
                VcpuExitEvent::MmioWrite => r == Ok::<ExecStep, CpuError>(
                    ExecStep { cont: true, action: VcpuAction::ForwardMmioWrite },
                ) && *final(self) == (Vcpu { in_kvm: false, ..*old(self) }),
                VcpuExitEvent::SystemEvent { kind } => match kind {
                    SystemEventKind::Shutdown => r == Ok::<ExecStep, CpuError>(
                        ExecStep { cont: false, action: VcpuAction::DestroyMachine },
                    ) && *final(self) == guest_shutdown_post(
                        Vcpu { in_kvm: false, ..*old(self) },
                    ),
                    SystemEventKind::Reset => r == Ok::<ExecStep, CpuError>(
                        ExecStep { cont: true, action: VcpuAction::ResetMachine },
                    ) && *final(self) == (Vcpu { in_kvm: false, ..*old(self) }),
                    SystemEventKind::Other => r == Ok::<ExecStep, CpuError>(
                        ExecStep { cont: false, action: VcpuAction::NoAction },
                    ) && *final(self) == (Vcpu { in_kvm: false, ..*old(self) }),
                },
                VcpuExitEvent::FailEntry => r == Ok::<ExecStep, CpuError>(
                    ExecStep { cont: false, action: VcpuAction::NoAction },
                ) && *final(self) == (Vcpu { in_kvm: false, ..*old(self) }),
                VcpuExitEvent::InternalError => r == Ok::<ExecStep, CpuError>(
                    ExecStep { cont: false, action: VcpuAction::NoAction },
                ) && *final(self) == (Vcpu { in_kvm: false, ..*old(self) }),
                VcpuExitEvent::Unknown => r == Err::<ExecStep, CpuError>(
                    CpuError::VcpuExitReason { id: old(self).id },
                ) && *final(self) == (Vcpu { in_kvm: false, ..*old(self) }),
                VcpuExitEvent::RunError { err } => match err {
                    RunErrorKind::Again => r == Ok::<ExecStep, CpuError>(
                        ExecStep { cont: true, action: VcpuAction::NoAction },
                    ) && *final(self) == (Vcpu { in_kvm: false, ..*old(self) }),
                    RunErrorKind::Interrupted => r == Ok::<ExecStep, CpuError>(
                        ExecStep { cont: true, action: VcpuAction::ClearImmediateExit },
                    ) && *final(self) == (Vcpu { in_kvm: false, immediate_exit: false, ..*old(self) }),
                    RunErrorKind::Other => r == Err::<ExecStep, CpuError>(
                        CpuError::UnhandledKvmExit { id: old(self).id },
                    ) && *final(self) == (Vcpu { in_kvm: false, ..*old(self) }),
                },
            },
    {
        self.in_kvm = false;
        if !machine_present {
            return Err(CpuError::NoMachineInterface);
        }
        match exit {
            VcpuExitEvent::MmioRead => Ok(ExecStep { cont: true, action: VcpuAction::ForwardMmioRead }),
            VcpuExitEvent::MmioWrite => Ok(
                ExecStep { cont: true, action: VcpuAction::ForwardMmioWrite },
            ),
            VcpuExitEvent::SystemEvent { kind } => match kind {
                SystemEventKind::Shutdown => {
                    self.state = CpuLifecycleState::Stopped;
                    Ok(ExecStep { cont: false, action: VcpuAction::DestroyMachine })
                },
                SystemEventKind::Reset => Ok(
                    ExecStep { cont: true, action: VcpuAction::ResetMachine },
                ),
                SystemEventKind::Other => Ok(ExecStep { cont: false, action: VcpuAction::NoAction }),
            },
            VcpuExitEvent::FailEntry => Ok(ExecStep { cont: false, action: VcpuAction::NoAction }),
            VcpuExitEvent::InternalError => Ok(
                ExecStep { cont: false, action: VcpuAction::NoAction },
            ),
            VcpuExitEvent::Unknown => Err(CpuError::VcpuExitReason { id: self.id }),
            VcpuExitEvent::RunError { err } => match err {
                RunErrorKind::Again => Ok(ExecStep { cont: true, action: VcpuAction::NoAction }),
                RunErrorKind::Interrupted => {
                    self.immediate_exit = false;
                    Ok(ExecStep { cont: true, action: VcpuAction::ClearImmediateExit })
                },
                RunErrorKind::Other => Err(CpuError::UnhandledKvmExit { id: self.id }),
            },
        }
    }
}

/// The worker's readiness check on one observed lifecycle state: wait while
/// `Paused`, run on `Running`, leave the loop on `Stopping` or `Stopped`,
/// and treat anything else as runnable for forward compatibility.
pub fn ready_for_running(state: CpuLifecycleState) -> (r: Readiness)
    ensures
        r == (match state {
            CpuLifecycleState::Paused => Readiness::WaitWhilePaused,
            CpuLifecycleState::Running => Readiness::Run,
            CpuLifecycleState::Stopping | CpuLifecycleState::Stopped => Readiness::Exit,
            _ => Readiness::Run,
        }),
{
    match state {
        CpuLifecycleState::Paused => Readiness::WaitWhilePaused,
        CpuLifecycleState::Running => Readiness::Run,
        CpuLifecycleState::Stopping | CpuLifecycleState::Stopped => Readiness::Exit,
        _ => Readiness::Run,
    }
}

/// The value a guest kernel writes to the magic address when it starts to
/// boot.
pub const BOOT_SIGNAL_START: u8 = 1;

/// The value a guest kernel writes to the magic address when its boot is
/// complete.
pub const BOOT_SIGNAL_COMPLETE: u8 = 2;

/// A boot milestone trapped from the guest kernel.
#[derive(Copy, Clone, Debug, PartialEq, Eq, Structural)]
pub enum BootStage {
    /// The kernel starts to boot.
    Start,
    /// The kernel finished booting.
    Complete,
}

/// Classifies an MMIO write as a guest boot milestone: a write of the
/// start or complete value to the well-known magic address
/// (`magic_addr`, chosen by the architecture layer).
pub fn capture_boot_signal(magic_addr: u64, addr: u64, data: &[u8]) -> (r: Option<BootStage>)
    requires
        addr == magic_addr ==> data@.len() >= 1,
    ensures
        r == (if addr == magic_addr && data@[0] == BOOT_SIGNAL_START {
            Some(BootStage::Start)
        } else if addr == magic_addr && data@[0] == BOOT_SIGNAL_COMPLETE {
            Some(BootStage::Complete)
        } else {
            None::<BootStage>
        }),
{
    if addr == magic_addr {
        if data[0] == BOOT_SIGNAL_START {
            return Some(BootStage::Start);
        } else if data[0] == BOOT_SIGNAL_COMPLETE {
            return Some(BootStage::Complete);
        }
    }
    None
}

/// Every lifecycle change the engine's operations make follows the
/// transition diagram, each from the states in which the system invokes
/// the operation; apart from `Running <-> Paused` no state is entered
/// twice, since the diagram is otherwise a straight line.
pub proof fn lemma_lifecycle_diagram(v: Vcpu, paused: bool, worker_stopped: bool)
    ensures
        v.state == CpuLifecycleState::Created ==> lifecycle_edge(v.state, start_post(v, paused).state),
        lifecycle_edge(v.state, pause_post(v).state),
        v.state == CpuLifecycleState::Created || v.state == CpuLifecycleState::Running || v.state
            == CpuLifecycleState::Paused ==> lifecycle_edge(v.state, resume_post(v).state),
        lifecycle_edge(v.state, kick_post(v).state),
        lifecycle_edge(v.state, task_signal_post(v).state),
        v.state != CpuLifecycleState::Nothing && v.state != CpuLifecycleState::Created
            ==> lifecycle_edge(v.state, worker_exit_post(v).state),
        v.state == CpuLifecycleState::Running || v.state == CpuLifecycleState::Paused
            ==> lifecycle_edge(v.state, guest_shutdown_post(v).state),
        v.state == CpuLifecycleState::Stopped ==> lifecycle_edge(
            v.state,
            destroy_post(v, worker_stopped).state,
        ),
        v.state == CpuLifecycleState::Running && !worker_stopped ==> lifecycle_edge(
            v.state,
            destroy_post(v, worker_stopped).state,
        ),
        v.state == CpuLifecycleState::Running && worker_stopped ==> {
            &&& lifecycle_edge(v.state, CpuLifecycleState::Stopping)
            &&& lifecycle_edge(CpuLifecycleState::Stopping, CpuLifecycleState::Stopped)
            &&& lifecycle_edge(CpuLifecycleState::Stopped, destroy_post(v, worker_stopped).state)
        },
{
}

/// Pausing and then resuming a running vCPU brings it back to `Running`
/// with `pause_signal` cleared and the register file — and everything else
/// the controller does not own — untouched.
pub proof fn lemma_pause_resume_roundtrip(v: Vcpu)
    requires
        v.state == CpuLifecycleState::Running,
    ensures
        ({
            let w = resume_post(pause_post(v));
            &&& w.state == CpuLifecycleState::Running
            &&& !w.pause_signal
            &&& w.arch_regs == v.arch_regs
            &&& w.boot_regs == v.boot_regs
            &&& w.id == v.id
            &&& w.tid == v.tid
            &&& w.worker == v.worker
        }),
{
}

/// A copy of a register-word vector.
fn copy_regs(src: &Vec<u64>) -> (r: Vec<u64>)
    ensures
        r@ == src@,
{
    let mut out: Vec<u64> = Vec::new();
    let mut i: usize = 0;
    while i < src.len()
        invariant
            i <= src@.len(),
            out@ == src@.subrange(0, i as int),
        decreases src@.len() - i as int,
    {
        out.push(src[i]);
        i += 1;
    }
    proof {
        assert(out@ == src@.subrange(0, src@.len() as int));
        assert(src@.subrange(0, src@.len() as int) =~= src@);
    }
    out
}

} // verus!
