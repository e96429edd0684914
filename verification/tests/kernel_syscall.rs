use novaos::console::TextConsole;
use novaos::exceptions::ExceptionClass;
use novaos::init_capsule::NovaInitCapsuleCapabilityV1;
use novaos::kernel_syscall::{
    dispatch_syscall, handle_bootstrap_syscall_exception, handle_lower_el_bootstrap_syscall_exception,
    handle_syscall_exception, Arm64SyscallFrame, BootstrapTaskState, CurrentTaskState, SyscallDispatchState,
};
use novaos::syscall::{NovaSyscallNumberV1, NovaSyscallRequestV1, NovaSyscallStatusV1, NOVA_BOOTSTRAP_TRAP_IMM16};

fn initd_task(capabilities: u64, endpoint_slots: u32, shared_memory_regions: u32) -> CurrentTaskState {
    CurrentTaskState::new(
        [b'i', b'n', b'i', b't', b'd', 0, 0, 0, 0, 0, 0, 0, 0, 0, 0, 0],
        BootstrapTaskState::new(capabilities, endpoint_slots, shared_memory_regions),
    )
}

fn class_bits(class: ExceptionClass) -> u32 {
    (class.as_raw() as u32) << 26
}

#[test]
fn dispatch_nop_returns_ok() {
    let mut console = TextConsole::new();
    let result = dispatch_syscall(
        &SyscallDispatchState::scaffold(),
        NovaSyscallRequestV1::new(NovaSyscallNumberV1::Nop, 0, [0; 6]),
        &mut console,
    );

    assert_eq!(result.status, NovaSyscallStatusV1::Success.as_raw());
    assert_eq!(result.value0, 0);
    assert_eq!(console.as_str(), "");
}

#[test]
fn dispatch_unknown_number_reports_unknown() {
    let mut console = TextConsole::new();
    let request = NovaSyscallRequestV1 { number: 99, flags: 0, args: [0; 6] };
    let result = dispatch_syscall(&SyscallDispatchState::scaffold(), request, &mut console);
    assert_eq!(result.status, NovaSyscallStatusV1::Unknown.as_raw());
}

#[test]
fn trace_requires_boot_log_capability() {
    let mut console = TextConsole::new();
    let result = dispatch_syscall(
        &SyscallDispatchState::scaffold(),
        NovaSyscallRequestV1::new(NovaSyscallNumberV1::Trace, 0, [0xAA, 0xBB, 0, 0, 0, 0]),
        &mut console,
    );

    assert_eq!(result.status, NovaSyscallStatusV1::Denied.as_raw());
    assert_eq!(console.as_str(), "");
}

#[test]
fn trace_allows_boot_log_capability() {
    let mut console = TextConsole::new();
    let result = dispatch_syscall(
        &SyscallDispatchState::bootstrap(initd_task(NovaInitCapsuleCapabilityV1::BootLog.as_raw(), 0, 0), false, false),
        NovaSyscallRequestV1::new(NovaSyscallNumberV1::Trace, 0, [0xAA, 0xBB, 0, 0, 0, 0]),
        &mut console,
    );

    assert_eq!(result.status, NovaSyscallStatusV1::Success.as_raw());
    assert_eq!(result.value0, 0xAA);
    assert_eq!(result.value1, 0xBB);
    assert!(console.as_str().contains("syscall trace request from initd"));
    assert_eq!(console.as_str(), "[info] syscall trace request from initd\n");
}

#[test]
fn handle_syscall_exception_round_trips_trace_request() {
    let request = NovaSyscallRequestV1::new(NovaSyscallNumberV1::Trace, 0, [0xAA, 0xBB, 0, 0, 0, 0]);
    let mut frame = Arm64SyscallFrame::from_request(request);
    let mut console = TextConsole::new();
    frame.elr = 0x4000;

    let handled = handle_syscall_exception(
        class_bits(ExceptionClass::Svc64),
        &mut frame,
        &SyscallDispatchState::bootstrap(initd_task(NovaInitCapsuleCapabilityV1::BootLog.as_raw(), 0, 0), false, false),
        &mut console,
    );

    assert!(handled);
    assert_eq!(frame.registers[Arm64SyscallFrame::STATUS_REGISTER], NovaSyscallStatusV1::Success.as_raw() as u64);
    assert_eq!(frame.registers[Arm64SyscallFrame::VALUE0_REGISTER], 0xAA);
    assert_eq!(frame.registers[Arm64SyscallFrame::VALUE1_REGISTER], 0xBB);
    assert_eq!(frame.elr, 0x4004);
    assert!(console.as_str().contains("syscall trace request from initd"));
}

#[test]
fn handle_syscall_exception_rejects_non_svc_sync() {
    let request = NovaSyscallRequestV1::new(NovaSyscallNumberV1::Nop, 0, [0; 6]);
    let mut frame = Arm64SyscallFrame::from_request(request);
    let before = frame;
    let mut console = TextConsole::new();

    let handled = handle_syscall_exception(
        class_bits(ExceptionClass::DataAbortLowerEl),
        &mut frame,
        &SyscallDispatchState::scaffold(),
        &mut console,
    );

    assert!(!handled);
    assert_eq!(frame, before);
}

#[test]
fn endpoint_call_requires_capabilities_and_endpoints() {
    let mut console = TextConsole::new();
    let result = dispatch_syscall(
        &SyscallDispatchState::scaffold(),
        NovaSyscallRequestV1::new(NovaSyscallNumberV1::EndpointCall, 0, [0; 6]),
        &mut console,
    );

    assert_eq!(result.status, NovaSyscallStatusV1::Denied.as_raw());
}

#[test]
fn yield_requires_bootstrap_capability() {
    let mut console = TextConsole::new();
    let denied = dispatch_syscall(
        &SyscallDispatchState::scaffold(),
        NovaSyscallRequestV1::new(NovaSyscallNumberV1::Yield, 0, [0; 6]),
        &mut console,
    );
    let unsupported = dispatch_syscall(
        &SyscallDispatchState::bootstrap(initd_task(NovaInitCapsuleCapabilityV1::Yield.as_raw(), 0, 0), false, false),
        NovaSyscallRequestV1::new(NovaSyscallNumberV1::Yield, 0, [0; 6]),
        &mut console,
    );

    assert_eq!(denied.status, NovaSyscallStatusV1::Denied.as_raw());
    assert_eq!(unsupported.status, NovaSyscallStatusV1::Unsupported.as_raw());
}

#[test]
fn endpoint_call_requires_ready_endpoint_lane_even_with_capability() {
    let mut console = TextConsole::new();
    let result = dispatch_syscall(
        &SyscallDispatchState::bootstrap(initd_task(NovaInitCapsuleCapabilityV1::EndpointBootstrap.as_raw(), 1, 0), false, false),
        NovaSyscallRequestV1::new(NovaSyscallNumberV1::EndpointCall, 0, [0; 6]),
        &mut console,
    );

    assert_eq!(result.status, NovaSyscallStatusV1::Unsupported.as_raw());
}

#[test]
fn endpoint_call_round_trips_reserved_slot_when_ready() {
    let mut console = TextConsole::new();
    let result = dispatch_syscall(
        &SyscallDispatchState::bootstrap(initd_task(NovaInitCapsuleCapabilityV1::EndpointBootstrap.as_raw(), 1, 0), true, false),
        NovaSyscallRequestV1::new(NovaSyscallNumberV1::EndpointCall, 0, [0, 0x454E_4450, 0, 0, 0, 0]),
        &mut console,
    );

    assert_eq!(result.status, NovaSyscallStatusV1::Success.as_raw());
    assert_eq!(result.value0, 0);
    assert_eq!(result.value1, 0x454E_4450);
    assert!(console.as_str().contains("bootstrap endpoint call from initd"));
}

#[test]
fn shared_memory_map_requires_ready_lane_even_with_capability() {
    let mut console = TextConsole::new();
    let result = dispatch_syscall(
        &SyscallDispatchState::bootstrap(initd_task(NovaInitCapsuleCapabilityV1::SharedMemoryBootstrap.as_raw(), 0, 1), false, false),
        NovaSyscallRequestV1::new(NovaSyscallNumberV1::SharedMemoryMap, 0, [0; 6]),
        &mut console,
    );

    assert_eq!(result.status, NovaSyscallStatusV1::Unsupported.as_raw());
}

#[test]
fn shared_memory_map_round_trips_reserved_region_when_ready() {
    let mut console = TextConsole::new();
    let result = dispatch_syscall(
        &SyscallDispatchState::bootstrap(initd_task(NovaInitCapsuleCapabilityV1::SharedMemoryBootstrap.as_raw(), 0, 1), false, true),
        NovaSyscallRequestV1::new(NovaSyscallNumberV1::SharedMemoryMap, 0, [0, 0x5348_4D45_4D30, 0, 0, 0, 0]),
        &mut console,
    );

    assert_eq!(result.status, NovaSyscallStatusV1::Success.as_raw());
    assert_eq!(result.value0, 0);
    assert_eq!(result.value1, 0x5348_4D45_4D30);
    assert!(console.as_str().contains("bootstrap shared memory map from initd"));
}

#[test]
fn endpoint_call_rejects_unreserved_slot() {
    let mut console = TextConsole::new();
    let result = dispatch_syscall(
        &SyscallDispatchState::bootstrap(initd_task(NovaInitCapsuleCapabilityV1::EndpointBootstrap.as_raw(), 1, 0), false, false),
        NovaSyscallRequestV1::new(NovaSyscallNumberV1::EndpointCall, 0, [1, 0, 0, 0, 0, 0]),
        &mut console,
    );

    assert_eq!(result.status, NovaSyscallStatusV1::InvalidArgs.as_raw());
}

#[test]
fn shared_memory_map_rejects_unreserved_region() {
    let mut console = TextConsole::new();
    let result = dispatch_syscall(
        &SyscallDispatchState::bootstrap(initd_task(NovaInitCapsuleCapabilityV1::SharedMemoryBootstrap.as_raw(), 0, 1), false, false),
        NovaSyscallRequestV1::new(NovaSyscallNumberV1::SharedMemoryMap, 0, [1, 0, 0, 0, 0, 0]),
        &mut console,
    );

    assert_eq!(result.status, NovaSyscallStatusV1::InvalidArgs.as_raw());
}

#[test]
fn dispatch_state_reports_current_task_identity() {
    let state = SyscallDispatchState::bootstrap(initd_task(NovaInitCapsuleCapabilityV1::BootLog.as_raw(), 0, 0), false, false);

    assert_eq!(state.current_task_service_name(), Some("initd"));
    assert_eq!(SyscallDispatchState::scaffold().current_task_service_name(), None);
}

#[test]
fn bootstrap_exception_handler_uses_installed_task_state() {
    let request = NovaSyscallRequestV1::new(NovaSyscallNumberV1::Trace, 0, [0xAA, 0xBB, 0, 0, 0, 0]);
    let mut frame = Arm64SyscallFrame::from_request(request);
    let mut console = TextConsole::new();
    frame.elr = 0x4000;
    let state = SyscallDispatchState::bootstrap(initd_task(NovaInitCapsuleCapabilityV1::BootLog.as_raw(), 0, 0), false, false);

    let handled = handle_bootstrap_syscall_exception(
        class_bits(ExceptionClass::Brk64) | NOVA_BOOTSTRAP_TRAP_IMM16 as u32,
        &mut frame,
        &state,
        &mut console,
    );

    assert!(handled);
    assert_eq!(state.current_task_service_name(), Some("initd"));
    assert_eq!(frame.registers[Arm64SyscallFrame::STATUS_REGISTER], NovaSyscallStatusV1::Success.as_raw() as u64);
    assert_eq!(frame.elr, 0x4004);
    assert!(console.as_str().contains("bootstrap live trap from initd"));
    assert!(console.as_str().contains("syscall trace request from initd"));
}

#[test]
fn bootstrap_svc_exception_keeps_current_el_return_address() {
    let request = NovaSyscallRequestV1::new(NovaSyscallNumberV1::Trace, 0, [0xAA, 0xBB, 0, 0, 0, 0]);
    let mut frame = Arm64SyscallFrame::from_request(request);
    let mut console = TextConsole::new();
    frame.elr = 0x4004;
    let state = SyscallDispatchState::bootstrap(initd_task(NovaInitCapsuleCapabilityV1::BootLog.as_raw(), 0, 0), false, false);

    let handled = handle_bootstrap_syscall_exception(class_bits(ExceptionClass::Svc64), &mut frame, &state, &mut console);

    assert!(handled);
    assert_eq!(frame.registers[Arm64SyscallFrame::STATUS_REGISTER], NovaSyscallStatusV1::Success.as_raw() as u64);
    assert_eq!(frame.registers[Arm64SyscallFrame::VALUE0_REGISTER], 0xAA);
    assert_eq!(frame.registers[Arm64SyscallFrame::VALUE1_REGISTER], 0xBB);
    assert_eq!(frame.elr, 0x4004);
    assert!(console.as_str().contains("bootstrap live svc from initd"));
}

#[test]
fn bootstrap_trap_with_wrong_immediate_is_refused() {
    let mut frame = Arm64SyscallFrame::empty();
    let mut console = TextConsole::new();
    let state = SyscallDispatchState::scaffold();
    let handled = handle_bootstrap_syscall_exception(class_bits(ExceptionClass::Brk64) | 1, &mut frame, &state, &mut console);
    assert!(!handled);
    assert_eq!(console.as_str(), "[warn] bootstrap live trap immediate mismatch\n");
}

#[test]
fn bootstrap_lower_el_svc_exception_advances_return_address() {
    let request = NovaSyscallRequestV1::new(NovaSyscallNumberV1::Trace, 0, [0xAA, 0xBB, 0, 0, 0, 0]);
    let mut frame = Arm64SyscallFrame::from_request(request);
    let mut console = TextConsole::new();
    frame.elr = 0x4000;
    let state = SyscallDispatchState::bootstrap(initd_task(NovaInitCapsuleCapabilityV1::BootLog.as_raw(), 0, 0), false, false);

    let handled = handle_lower_el_bootstrap_syscall_exception(class_bits(ExceptionClass::Svc64), &mut frame, &state, &mut console);

    assert!(handled);
    assert_eq!(frame.registers[Arm64SyscallFrame::STATUS_REGISTER], NovaSyscallStatusV1::Success.as_raw() as u64);
    assert_eq!(frame.registers[Arm64SyscallFrame::VALUE0_REGISTER], 0xAA);
    assert_eq!(frame.registers[Arm64SyscallFrame::VALUE1_REGISTER], 0xBB);
    assert_eq!(frame.elr, 0x4004);
    assert!(console.as_str().contains("bootstrap lower-el svc from initd"));
}

#[test]
fn bootstrap_lower_el_rejects_non_svc_exception() {
    let mut frame = Arm64SyscallFrame::empty();
    let mut console = TextConsole::new();
    frame.elr = 0x4000;

    let handled = handle_lower_el_bootstrap_syscall_exception(
        class_bits(ExceptionClass::Brk64) | NOVA_BOOTSTRAP_TRAP_IMM16 as u32,
        &mut frame,
        &SyscallDispatchState::scaffold(),
        &mut console,
    );

    assert!(!handled);
    assert_eq!(frame.elr, 0x4000);
    assert_eq!(console.as_str(), "");
}

#[test]
fn frame_request_round_trips() {
    let request = NovaSyscallRequestV1::new(NovaSyscallNumberV1::SharedMemoryMap, 7, [1, 2, 3, 4, 5, 6]);
    let frame = Arm64SyscallFrame::from_request(request);
    assert_eq!(frame.request(), request);
    assert_eq!(frame.registers[Arm64SyscallFrame::NUMBER_REGISTER], 4);
    assert_eq!(frame.registers[Arm64SyscallFrame::FLAG_REGISTER], 7);
}
