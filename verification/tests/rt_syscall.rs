use novaos::syscall::{
    bootstrap_trap, bootstrap_trap_trace, decode_raw_syscall_result, syscall, trace, trace_request,
    NovaSyscallNumberV1, NovaSyscallRequestV1, NovaSyscallResultV1, NovaSyscallStatusV1, NOVA_BOOTSTRAP_TRAP_IMM16,
    NOVA_SYSCALL_ARG_COUNT, NOVA_SYSCALL_REQUEST_V1_ARGS_OFFSET, NOVA_SYSCALL_REQUEST_V1_SIZE,
    NOVA_SYSCALL_RESULT_V1_SIZE, NOVA_SYSCALL_RESULT_V1_VALUE0_OFFSET,
};

#[test]
fn syscall_layout_matches_c_header() {
    assert_eq!(NOVA_SYSCALL_ARG_COUNT, 6);
    assert_eq!(NOVA_SYSCALL_REQUEST_V1_SIZE, 56);
    assert_eq!(NOVA_SYSCALL_RESULT_V1_SIZE, 24);
    assert_eq!(NOVA_SYSCALL_REQUEST_V1_ARGS_OFFSET, 8);
    assert_eq!(NOVA_SYSCALL_RESULT_V1_VALUE0_OFFSET, 8);
}

#[test]
fn syscall_enums_match_public_abi_values() {
    assert_eq!(NovaSyscallNumberV1::Nop.as_raw(), 0);
    assert_eq!(NovaSyscallNumberV1::Trace.as_raw(), 1);
    assert_eq!(NovaSyscallNumberV1::Yield.as_raw(), 2);
    assert_eq!(NovaSyscallNumberV1::EndpointCall.as_raw(), 3);
    assert_eq!(NovaSyscallNumberV1::SharedMemoryMap.as_raw(), 4);
    assert_eq!(NovaSyscallStatusV1::Success.as_raw(), 0);
    assert_eq!(NovaSyscallStatusV1::Denied.as_raw(), 3);
    assert_eq!(NovaSyscallNumberV1::from_raw(4), Some(NovaSyscallNumberV1::SharedMemoryMap));
    assert_eq!(NovaSyscallNumberV1::from_raw(5), None);
}

#[test]
fn syscall_result_helpers_report_expected_status() {
    assert!(NovaSyscallResultV1::ok(1, 2).is_success());
    assert!(!NovaSyscallResultV1::unsupported().is_success());
    assert_eq!(
        NovaSyscallStatusV1::from_raw(NovaSyscallResultV1::denied().status),
        Some(NovaSyscallStatusV1::Denied)
    );
    assert_eq!(NovaSyscallResultV1::unknown().status, 1);
    assert_eq!(NovaSyscallResultV1::invalid_args().status, 4);
}

#[test]
fn trace_request_uses_trace_number_and_args() {
    let request = trace_request(0xAA, 0xBB);

    assert_eq!(request.number, NovaSyscallNumberV1::Trace.as_raw());
    assert_eq!(request.args[0], 0xAA);
    assert_eq!(request.args[1], 0xBB);
    assert_eq!(request, NovaSyscallRequestV1::new(NovaSyscallNumberV1::Trace, 0, [0xAA, 0xBB, 0, 0, 0, 0]));
}

#[test]
fn host_trace_wrapper_returns_unsupported() {
    let result = trace(0xAA, 0xBB);

    assert_eq!(result.status, NovaSyscallStatusV1::Unsupported.as_raw());
    assert_eq!(syscall(trace_request(1, 2)).status, 2);
}

#[test]
fn bootstrap_trap_constant_matches_expected_marker() {
    assert_eq!(NOVA_BOOTSTRAP_TRAP_IMM16, 0x4E4F);
    assert_eq!(bootstrap_trap_trace(0xAA, 0xBB).status, NovaSyscallStatusV1::Unsupported.as_raw());
    assert_eq!(bootstrap_trap(trace_request(1, 2)).status, 2);
}

#[test]
fn raw_syscall_result_decodes_unknown_status_words() {
    let r = decode_raw_syscall_result([3, 7, 8]);
    assert_eq!(r, NovaSyscallResultV1 { status: 3, flags: 0, value0: 7, value1: 8 });
    assert_eq!(decode_raw_syscall_result([99, 0, 0]).status, 1);
    assert_eq!(decode_raw_syscall_result([0x1_0000_0000, 0, 0]).status, 0);
}
