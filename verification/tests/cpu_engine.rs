//! Tests of the vCPU engine: topology, lifecycle, signals and exit
//! dispatch.

use vmm_core::lifecycle::CpuLifecycleState;
use vmm_core::topology::{CpuInstanceProperties, CpuTopology};
use vmm_core::vcpu::{
    capture_boot_signal, ready_for_running, BootStage, ExecStep, Readiness, RunErrorKind,
    SystemEventKind, Vcpu, VcpuAction, VcpuExitEvent,
};
use vmm_core::CpuError;

#[test]
fn test_topology_new_and_mask() {
    let topo = CpuTopology::new(4, 1, 1, 1, 2, 2, 8);
    assert_eq!(topo.nrcpus, 4);
    assert_eq!(topo.max_cpus, 8);
    for i in 0..4 {
        assert_eq!(topo.get_mask(i), 1);
    }
    for i in 4..8 {
        assert_eq!(topo.get_mask(i), 0);
    }
}

#[test]
fn test_topology_decompose() {
    let topo = CpuTopology::new(8, 2, 1, 1, 2, 2, 8);
    assert_eq!(topo.get_topo_item(0), (0, 0, 0, 0, 0));
    assert_eq!(topo.get_topo_item(1), (0, 0, 0, 0, 1));
    assert_eq!(topo.get_topo_item(2), (0, 0, 0, 1, 0));
    assert_eq!(topo.get_topo_item(5), (1, 0, 0, 0, 1));
    assert_eq!(topo.get_topo_item(7), (1, 0, 0, 1, 1));
}

#[test]
fn test_topology_distinct_coordinates() {
    // The decomposition is injective: all 8 vcpus get distinct tuples.
    let topo = CpuTopology::new(8, 2, 1, 1, 2, 2, 8);
    let mut seen = Vec::new();
    for i in 0..8 {
        let t = topo.get_topo_item(i);
        assert!(!seen.contains(&t));
        seen.push(t);
    }
}

#[test]
fn test_vcpu_lifecycle_pause_resume() {
    let mut v = Vcpu::new(0);
    assert_eq!(v.state, CpuLifecycleState::Created);
    v.start(false).unwrap();
    assert_eq!(v.state, CpuLifecycleState::Running);
    assert!(v.worker);

    v.pause().unwrap();
    assert_eq!(v.state, CpuLifecycleState::Paused);
    assert!(v.pause_signal);
    assert!(v.immediate_exit);
    assert!(!v.in_kvm);

    // A kick while paused changes nothing the worker can observe.
    v.kick().unwrap();
    assert_eq!(v.state, CpuLifecycleState::Paused);
    assert_eq!(ready_for_running(v.state), Readiness::WaitWhilePaused);

    v.resume().unwrap();
    assert_eq!(v.state, CpuLifecycleState::Running);
    assert!(!v.pause_signal);
}

#[test]
fn test_vcpu_start_twice() {
    let mut v = Vcpu::new(1);
    v.start(false).unwrap();
    assert_eq!(v.start(false), Err(CpuError::StartVcpu));
}

#[test]
fn test_vcpu_start_paused() {
    let mut v = Vcpu::new(2);
    v.start(true).unwrap();
    assert_eq!(v.state, CpuLifecycleState::Paused);
}

#[test]
fn test_vcpu_realize() {
    let mut v = Vcpu::new(0);
    v.realize(vec![7, 8, 9]).unwrap();
    assert_eq!(v.arch_regs, vec![7, 8, 9]);
    assert_eq!(v.boot_regs, vec![7, 8, 9]);
    v.start(false).unwrap();
    assert_eq!(
        v.realize(vec![1]),
        Err(CpuError::RealizeVcpu { id: 0 })
    );
}

#[test]
fn test_vcpu_set_to_boot_state() {
    let mut v = Vcpu::new(0);
    v.realize(vec![5, 6]).unwrap();
    v.arch_regs = vec![9, 9];
    v.set_to_boot_state();
    assert_eq!(v.arch_regs, vec![5, 6]);
}

#[test]
fn test_pause_resume_keeps_registers() {
    let mut v = Vcpu::new(0);
    v.realize(vec![11, 22, 33]).unwrap();
    v.start(false).unwrap();
    v.pause().unwrap();
    v.resume().unwrap();
    assert_eq!(v.state, CpuLifecycleState::Running);
    assert!(!v.pause_signal);
    assert_eq!(v.arch_regs, vec![11, 22, 33]);
    assert_eq!(v.boot_regs, vec![11, 22, 33]);
}

#[test]
fn test_vcpu_destroy() {
    let mut v = Vcpu::new(0);
    v.start(false).unwrap();
    assert_eq!(v.state, CpuLifecycleState::Running);
    // Worker reaches Stopped within the wait.
    v.destroy(true).unwrap();
    assert_eq!(v.state, CpuLifecycleState::Nothing);

    let mut w = Vcpu::new(1);
    w.start(false).unwrap();
    // Worker never stops: destroy fails and reports the stuck state.
    assert_eq!(
        w.destroy(false),
        Err(CpuError::DestroyVcpu { state: CpuLifecycleState::Stopping })
    );
}

#[test]
fn test_vcpu_destroy_stopped() {
    let mut v = Vcpu::new(0);
    v.start(false).unwrap();
    v.worker_exit();
    assert_eq!(v.state, CpuLifecycleState::Stopped);
    v.destroy(false).unwrap();
    assert_eq!(v.state, CpuLifecycleState::Nothing);
}

#[test]
fn test_ready_for_running_cases() {
    assert_eq!(ready_for_running(CpuLifecycleState::Running), Readiness::Run);
    assert_eq!(
        ready_for_running(CpuLifecycleState::Paused),
        Readiness::WaitWhilePaused
    );
    assert_eq!(ready_for_running(CpuLifecycleState::Stopping), Readiness::Exit);
    assert_eq!(ready_for_running(CpuLifecycleState::Stopped), Readiness::Exit);
    assert_eq!(ready_for_running(CpuLifecycleState::Created), Readiness::Run);
    assert_eq!(ready_for_running(CpuLifecycleState::Nothing), Readiness::Run);
}

#[test]
fn test_kvm_exec_eintr_clears_immediate_exit() {
    let mut v = Vcpu::new(0);
    v.start(false).unwrap();
    v.task_signal();
    assert!(v.immediate_exit);
    let step = v
        .kvm_vcpu_exec(
            VcpuExitEvent::RunError { err: RunErrorKind::Interrupted },
            true,
        )
        .unwrap();
    assert_eq!(
        step,
        ExecStep { cont: true, action: VcpuAction::ClearImmediateExit }
    );
    assert!(!v.immediate_exit);
}

#[test]
fn test_kvm_exec_eagain_continues() {
    let mut v = Vcpu::new(0);
    v.start(false).unwrap();
    let step = v
        .kvm_vcpu_exec(VcpuExitEvent::RunError { err: RunErrorKind::Again }, true)
        .unwrap();
    assert_eq!(step, ExecStep { cont: true, action: VcpuAction::NoAction });
}

#[test]
fn test_kvm_exec_run_error_other() {
    let mut v = Vcpu::new(3);
    v.start(false).unwrap();
    assert_eq!(
        v.kvm_vcpu_exec(VcpuExitEvent::RunError { err: RunErrorKind::Other }, true),
        Err(CpuError::UnhandledKvmExit { id: 3 })
    );
}

#[test]
fn test_kvm_exec_guest_shutdown() {
    let mut v = Vcpu::new(0);
    v.start(false).unwrap();
    let step = v
        .kvm_vcpu_exec(
            VcpuExitEvent::SystemEvent { kind: SystemEventKind::Shutdown },
            true,
        )
        .unwrap();
    assert_eq!(step, ExecStep { cont: false, action: VcpuAction::DestroyMachine });
    assert_eq!(v.state, CpuLifecycleState::Stopped);
}

#[test]
fn test_kvm_exec_guest_reset() {
    let mut v = Vcpu::new(0);
    v.start(false).unwrap();
    let step = v
        .kvm_vcpu_exec(
            VcpuExitEvent::SystemEvent { kind: SystemEventKind::Reset },
            true,
        )
        .unwrap();
    assert_eq!(step, ExecStep { cont: true, action: VcpuAction::ResetMachine });
    assert_eq!(v.state, CpuLifecycleState::Running);
}

#[test]
fn test_kvm_exec_mmio_and_errors() {
    let mut v = Vcpu::new(4);
    v.start(false).unwrap();
    assert_eq!(
        v.kvm_vcpu_exec(VcpuExitEvent::MmioRead, true).unwrap(),
        ExecStep { cont: true, action: VcpuAction::ForwardMmioRead }
    );
    assert_eq!(
        v.kvm_vcpu_exec(VcpuExitEvent::MmioWrite, true).unwrap(),
        ExecStep { cont: true, action: VcpuAction::ForwardMmioWrite }
    );
    assert_eq!(
        v.kvm_vcpu_exec(VcpuExitEvent::FailEntry, true).unwrap(),
        ExecStep { cont: false, action: VcpuAction::NoAction }
    );
    assert_eq!(
        v.kvm_vcpu_exec(VcpuExitEvent::InternalError, true).unwrap(),
        ExecStep { cont: false, action: VcpuAction::NoAction }
    );
    assert_eq!(
        v.kvm_vcpu_exec(VcpuExitEvent::Unknown, true),
        Err(CpuError::VcpuExitReason { id: 4 })
    );
    assert_eq!(
        v.kvm_vcpu_exec(VcpuExitEvent::MmioRead, false),
        Err(CpuError::NoMachineInterface)
    );
}

#[test]
fn test_guest_shutdown_without_machine() {
    let mut v = Vcpu::new(0);
    v.start(false).unwrap();
    assert_eq!(v.guest_shutdown(false), Err(CpuError::NoMachineInterface));
    assert_eq!(v.state, CpuLifecycleState::Stopped);
    assert_eq!(v.guest_reset(false), Err(CpuError::NoMachineInterface));
    assert_eq!(v.guest_reset(true), Ok(()));
}

#[test]
fn test_capture_boot_signal_stages() {
    let magic = 0x9000_0000u64;
    assert_eq!(capture_boot_signal(magic, magic, &[1]), Some(BootStage::Start));
    assert_eq!(
        capture_boot_signal(magic, magic, &[2]),
        Some(BootStage::Complete)
    );
    assert_eq!(capture_boot_signal(magic, magic, &[3]), None);
    assert_eq!(capture_boot_signal(magic, 0x1234, &[]), None);
}

#[test]
fn test_vcpu_tid() {
    let mut v = Vcpu::new(0);
    assert_eq!(v.tid(), 0);
    v.set_tid(4242);
    assert_eq!(v.tid(), 4242);
    assert_eq!(v.id(), 0);
}

#[test]
fn test_enter_guest_and_task_signal() {
    let mut v = Vcpu::new(0);
    v.start(false).unwrap();
    v.enter_guest();
    assert!(v.in_kvm);
    v.task_signal();
    assert!(!v.in_kvm);
    assert!(v.pause_signal);
    assert!(v.immediate_exit);
    // With the immediate-exit flag set, the guest cannot be re-entered.
    v.enter_guest();
    assert!(!v.in_kvm);
}

#[test]
fn test_topology_qmp_instance() {
    let topo = CpuTopology::new(8, 2, 1, 1, 2, 2, 8);
    assert_eq!(
        topo.get_topo_instance_for_qmp(5),
        CpuInstanceProperties {
            node_id: None,
            socket_id: Some(1),
            core_id: Some(0),
            thread_id: Some(1),
        }
    );
}
