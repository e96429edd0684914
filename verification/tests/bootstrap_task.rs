use novaos::bootstrap_task::{
    bootstrap_kernel_call, bootstrap_trace, resolve_bootstrap_task_context, NovaBootstrapTaskContextV1,
    NovaBootstrapTaskContextV2, ResolvedBootstrapTaskContext, NOVA_BOOTSTRAP_TASK_CONTEXT_SERVICE_NAME_OFFSET,
    NOVA_BOOTSTRAP_TASK_CONTEXT_V1_SIZE, NOVA_BOOTSTRAP_TASK_CONTEXT_V2_KERNEL_CALL_ENTRY_OFFSET,
    NOVA_BOOTSTRAP_TASK_CONTEXT_V2_SIZE,
};
use novaos::init_capsule::encode_init_capsule_service_name;
use novaos::syscall::{trace_request, NovaSyscallRequestV1, NovaSyscallResultV1, NovaSyscallStatusV1};

fn test_gate(context: NovaBootstrapTaskContextV2, request: NovaSyscallRequestV1) -> NovaSyscallResultV1 {
    assert_eq!(context.service_name(), "initd");
    NovaSyscallResultV1::ok(request.args[0], request.args[1])
}

const TEST_GATE_ADDRESS: u64 = 0xFFFF_0000_0040_1000;

#[test]
fn bootstrap_task_context_layout_is_stable() {
    assert_eq!(NOVA_BOOTSTRAP_TASK_CONTEXT_V1_SIZE, 48);
    assert_eq!(NOVA_BOOTSTRAP_TASK_CONTEXT_SERVICE_NAME_OFFSET, 16);
    assert_eq!(NOVA_BOOTSTRAP_TASK_CONTEXT_V2_SIZE, 56);
    assert_eq!(NOVA_BOOTSTRAP_TASK_CONTEXT_V2_KERNEL_CALL_ENTRY_OFFSET, 48);
    let name = encode_init_capsule_service_name("initd").expect("service name");
    let v1 = NovaBootstrapTaskContextV1::new(name, 1, 2, 3).to_bytes();
    assert_eq!(v1.len(), 48);
    assert_eq!(&v1[16..21], b"initd");
    let v2 = NovaBootstrapTaskContextV2::new(name, 1, 2, 3, 0x1122_3344).to_bytes();
    assert_eq!(v2.len(), 56);
    assert_eq!(&v2[48..56], &0x1122_3344u64.to_le_bytes());
}

#[test]
fn bootstrap_task_context_requires_valid_service_name() {
    let context = NovaBootstrapTaskContextV1::new(encode_init_capsule_service_name("initd").expect("service name"), 1, 2, 3);

    assert!(context.is_valid());
    assert_eq!(context.service_name(), "initd");
    assert_eq!(resolve_bootstrap_task_context(&context.to_bytes()).expect("context").endpoint_slots(), 2);
}

#[test]
fn bootstrap_task_context_rejects_invalid_marker() {
    let context = NovaBootstrapTaskContextV1::empty();

    assert!(resolve_bootstrap_task_context(&context.to_bytes()).is_none());
    assert!(resolve_bootstrap_task_context(&[]).is_none());
}

#[test]
fn bootstrap_task_context_v2_exposes_kernel_call_gate() {
    let context = NovaBootstrapTaskContextV2::new(
        encode_init_capsule_service_name("initd").expect("service name"),
        1,
        2,
        3,
        TEST_GATE_ADDRESS,
    );

    let resolved = resolve_bootstrap_task_context(&context.to_bytes()).expect("context");
    assert_eq!(resolved.service_name(), "initd");
    assert_eq!(resolved.requested_capabilities(), 1);
    assert_eq!(resolved.endpoint_slots(), 2);
    assert_eq!(resolved.shared_memory_regions(), 3);
    assert_eq!(resolved.kernel_call_entry(), Some(TEST_GATE_ADDRESS));
    assert_eq!(resolved, ResolvedBootstrapTaskContext::V2(context));
}

#[test]
fn bootstrap_task_context_v2_requires_gate_address() {
    let context = NovaBootstrapTaskContextV2::new(encode_init_capsule_service_name("initd").expect("name"), 1, 2, 3, 0);
    assert!(!context.is_valid());
    assert!(resolve_bootstrap_task_context(&context.to_bytes()).is_none());
    let short = NovaBootstrapTaskContextV2::new(encode_init_capsule_service_name("initd").expect("name"), 1, 2, 3, 9)
        .to_bytes();
    assert!(resolve_bootstrap_task_context(&short[..48]).is_none());
}

#[test]
fn bootstrap_trace_round_trips_through_context_call_gate() {
    let context = NovaBootstrapTaskContextV2::new(
        encode_init_capsule_service_name("initd").expect("service name"),
        1,
        1,
        0,
        TEST_GATE_ADDRESS,
    );

    let result = bootstrap_trace(&context.to_bytes(), 0xCAFE_BABE, 0x5151_0001, test_gate);

    assert_eq!(result.status, NovaSyscallStatusV1::Success.as_raw());
    assert_eq!(result.value0, 0xCAFE_BABE);
    assert_eq!(result.value1, 0x5151_0001);
}

#[test]
fn bootstrap_trace_requires_v2_call_gate() {
    let context = NovaBootstrapTaskContextV1::new(encode_init_capsule_service_name("initd").expect("service name"), 1, 1, 0);

    let result = bootstrap_trace(&context.to_bytes(), 1, 2, test_gate);

    assert_eq!(result.status, NovaSyscallStatusV1::Unsupported.as_raw());
}

#[test]
fn bootstrap_kernel_call_rejects_unresolvable_context() {
    let result = bootstrap_kernel_call(&[0u8; 10], trace_request(1, 2), test_gate);
    assert_eq!(result.status, NovaSyscallStatusV1::InvalidArgs.as_raw());
}
