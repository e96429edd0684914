use novaos::bootstrap::dispatch_bootstrap_kernel_call;
use novaos::bootstrap_task::NovaBootstrapTaskContextV2;
use novaos::console::TextConsole;
use novaos::init_capsule::{encode_init_capsule_service_name, NovaInitCapsuleCapabilityV1};
use novaos::kernel_syscall::{BootstrapTaskState, CurrentTaskState, SyscallDispatchState};
use novaos::syscall::{NovaSyscallNumberV1, NovaSyscallRequestV1, NovaSyscallStatusV1};

fn initd_state() -> SyscallDispatchState {
    let service_name = encode_init_capsule_service_name("initd").expect("service name");
    SyscallDispatchState::bootstrap(
        CurrentTaskState::new(
            service_name,
            BootstrapTaskState::new(NovaInitCapsuleCapabilityV1::BootLog.as_raw(), 1, 0),
        ),
        true,
        false,
    )
}

#[test]
fn bootstrap_kernel_call_round_trips_trace_request() {
    let service_name = encode_init_capsule_service_name("initd").expect("service name");
    let state = initd_state();
    let context = NovaBootstrapTaskContextV2::new(service_name, NovaInitCapsuleCapabilityV1::BootLog.as_raw(), 1, 0, 1).to_bytes();
    let request = NovaSyscallRequestV1::new(NovaSyscallNumberV1::Trace, 0, [0xCAFE_BABE, 0x5151_0001, 0, 0, 0, 0]);
    let mut console = TextConsole::new();

    let result = dispatch_bootstrap_kernel_call(&context, request, &state, &mut console);

    assert_eq!(result.status, NovaSyscallStatusV1::Success.as_raw());
    assert_eq!(result.value0, 0xCAFE_BABE);
    assert_eq!(result.value1, 0x5151_0001);
    assert!(console.as_str().contains("bootstrap kernel call from initd"));
    assert!(console.as_str().contains("syscall trace request from initd"));
    assert!(console.as_str().starts_with("[info] bootstrap kernel call from initd\n"));
}

#[test]
fn bootstrap_kernel_call_rejects_mismatched_task_identity() {
    let state = initd_state();
    let foreign_context = NovaBootstrapTaskContextV2::new(
        encode_init_capsule_service_name("shell").expect("service name"),
        NovaInitCapsuleCapabilityV1::BootLog.as_raw(),
        1,
        0,
        1,
    )
    .to_bytes();
    let mut console = TextConsole::new();

    let result = dispatch_bootstrap_kernel_call(
        &foreign_context,
        NovaSyscallRequestV1::new(NovaSyscallNumberV1::Trace, 0, [1, 2, 0, 0, 0, 0]),
        &state,
        &mut console,
    );

    assert_eq!(result.status, NovaSyscallStatusV1::Denied.as_raw());
    assert_eq!(console.as_str(), "");
}

#[test]
fn bootstrap_kernel_call_rejects_unresolvable_context_and_idle_kernel() {
    let mut console = TextConsole::new();
    let request = NovaSyscallRequestV1::new(NovaSyscallNumberV1::Trace, 0, [1, 2, 0, 0, 0, 0]);
    let result = dispatch_bootstrap_kernel_call(&[0u8; 8], request, &initd_state(), &mut console);
    assert_eq!(result.status, NovaSyscallStatusV1::InvalidArgs.as_raw());

    let service_name = encode_init_capsule_service_name("initd").expect("service name");
    let context = NovaBootstrapTaskContextV2::new(service_name, 1, 1, 0, 1).to_bytes();
    let result = dispatch_bootstrap_kernel_call(&context, request, &SyscallDispatchState::scaffold(), &mut console);
    assert_eq!(result.status, NovaSyscallStatusV1::Unsupported.as_raw());
    assert_eq!(console.as_str(), "");
}
