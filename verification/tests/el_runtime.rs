use novaos::boot_contract::BootstrapCapsuleSummary;
use novaos::el::{
    bootstrap_task_boundary_plan, bootstrap_task_target_boundary_plan, bootstrap_task_transfer_mode,
    log_bootstrap_task_boundary, log_bootstrap_task_target_boundary, BootstrapTaskBoundaryPlan, BootstrapTaskSyscallBoundary, BootstrapTaskTransferMode,
};
use novaos::exception_runtime::bootstrap_syscall_dispatch_state;
use novaos::init_capsule::{encode_init_capsule_service_name, NovaInitCapsuleCapabilityV1};
use novaos::kernel_syscall::{BootstrapTaskState, CurrentTaskState, SyscallDispatchState};

fn capsule(requested_capabilities: u64, endpoint_slots: u32, shared_memory_regions: u32) -> BootstrapCapsuleSummary {
    BootstrapCapsuleSummary {
        service_name: encode_init_capsule_service_name("initd").expect("service name"),
        requested_capabilities,
        endpoint_slots,
        shared_memory_regions,
        payload_body_present: false,
        payload_image_base: 0,
        payload_image_size: 0,
        payload_load_base: 0,
        payload_load_size: 0,
        payload_entry_point: 0,
        payload_descriptor_from_boot_info_v2: false,
    }
}

#[test]
fn bootstrap_syscall_state_marks_endpoint_lane_ready_from_capsule_bootstrap_state() {
    let caps = NovaInitCapsuleCapabilityV1::BootLog.as_raw() | NovaInitCapsuleCapabilityV1::EndpointBootstrap.as_raw();
    let state = bootstrap_syscall_dispatch_state(Some(capsule(caps, 2, 1)));
    assert_eq!(
        state,
        SyscallDispatchState::bootstrap(
            CurrentTaskState::new(
                encode_init_capsule_service_name("initd").expect("service name"),
                BootstrapTaskState::new(caps, 2, 1),
            ),
            true,
            false,
        )
    );
}

#[test]
fn bootstrap_syscall_state_marks_shared_memory_lane_ready_from_capsule_bootstrap_state() {
    let caps = NovaInitCapsuleCapabilityV1::BootLog.as_raw() | NovaInitCapsuleCapabilityV1::SharedMemoryBootstrap.as_raw();
    let state = bootstrap_syscall_dispatch_state(Some(capsule(caps, 0, 2)));
    assert_eq!(
        state,
        SyscallDispatchState::bootstrap(
            CurrentTaskState::new(
                encode_init_capsule_service_name("initd").expect("service name"),
                BootstrapTaskState::new(caps, 0, 2),
            ),
            false,
            true,
        )
    );
}

#[test]
fn bootstrap_syscall_state_keeps_lanes_closed_without_slots_or_grant() {
    let caps = NovaInitCapsuleCapabilityV1::EndpointBootstrap.as_raw();
    let state = bootstrap_syscall_dispatch_state(Some(capsule(caps, 0, 4)));
    assert!(!state.endpoints_ready);
    assert!(!state.shared_memory_ready);
    assert_eq!(bootstrap_syscall_dispatch_state(None), SyscallDispatchState::scaffold());
}

#[test]
fn bootstrap_task_transfer_mode_only_drops_from_el2() {
    assert_eq!(bootstrap_task_transfer_mode(1), BootstrapTaskTransferMode::SameEl);
    assert_eq!(bootstrap_task_transfer_mode(2), BootstrapTaskTransferMode::DropToEl1);
    assert_eq!(bootstrap_task_transfer_mode(3), BootstrapTaskTransferMode::SameEl);
}

#[test]
fn bootstrap_task_boundary_plan_marks_same_el_as_unisolated_current_el_svc() {
    assert_eq!(
        bootstrap_task_boundary_plan(1),
        BootstrapTaskBoundaryPlan {
            current_el: 1,
            target_el: 1,
            transfer_mode: BootstrapTaskTransferMode::SameEl,
            task_isolated: false,
            syscall_boundary: BootstrapTaskSyscallBoundary::CurrentElSvc,
        }
    );
    assert_eq!(BootstrapTaskTransferMode::SameEl.label(), "same-el");
    assert_eq!(BootstrapTaskSyscallBoundary::CurrentElSvc.label(), "current-el-svc");
    assert_eq!(BootstrapTaskSyscallBoundary::El0Svc.label(), "el0-svc");
}

#[test]
fn bootstrap_task_boundary_plan_tracks_el2_drop_without_claiming_el0() {
    assert_eq!(
        bootstrap_task_boundary_plan(2),
        BootstrapTaskBoundaryPlan {
            current_el: 2,
            target_el: 1,
            transfer_mode: BootstrapTaskTransferMode::DropToEl1,
            task_isolated: false,
            syscall_boundary: BootstrapTaskSyscallBoundary::CurrentElSvc,
        }
    );
    assert_eq!(BootstrapTaskTransferMode::DropToEl1.label(), "drop-to-el1");
}

#[test]
fn bootstrap_task_target_boundary_plan_tracks_isolated_el0_goal() {
    assert_eq!(
        bootstrap_task_target_boundary_plan(1),
        BootstrapTaskBoundaryPlan {
            current_el: 1,
            target_el: 0,
            transfer_mode: BootstrapTaskTransferMode::DropToEl0,
            task_isolated: true,
            syscall_boundary: BootstrapTaskSyscallBoundary::El0Svc,
        }
    );
    assert_eq!(BootstrapTaskTransferMode::DropToEl0.label(), "drop-to-el0");
}

#[test]
fn boundary_plans_log_levels_isolation_and_syscall_boundary() {
    let mut console = novaos::console::TextConsole::new();
    log_bootstrap_task_boundary(&mut console, bootstrap_task_boundary_plan(1));
    log_bootstrap_task_target_boundary(&mut console, bootstrap_task_target_boundary_plan(1));
    assert_eq!(
        console.as_str(),
        "[info] bootstrap task boundary same-el\n\
[info] bootstrap task boundary current_el 0x0000000000000001 target_el 0x0000000000000001 isolated false syscall current-el-svc\n\
[info] bootstrap task target boundary drop-to-el0\n\
[info] bootstrap task target boundary current_el 0x0000000000000001 target_el 0x0000000000000000 isolated true syscall el0-svc\n"
    );
}

#[test]
fn current_el_comes_from_bits_two_and_three() {
    assert_eq!(novaos::el::current_el_from_register(0x8), 2);
    assert_eq!(novaos::el::current_el_from_register(0x4), 1);
    assert_eq!(novaos::el::current_el_from_register(0x0), 0);
    assert_eq!(novaos::el::current_el_from_register(0xFFFF_FFFF_FFFF_FFF3), 0);
    assert_eq!(novaos::el::current_el_from_register(0xC), 3);
}
