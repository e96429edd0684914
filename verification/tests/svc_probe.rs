use novaos::console::TextConsole;
use novaos::exceptions::BootstrapExceptionReturnCapture;
use novaos::svc_probe::{
    log_bootstrap_exception_install_status, log_runtime_exception_probe_state, report_bootstrap_kernel_svc_probe,
    BootstrapKernelSvcCallerCapture, RuntimeExceptionProbeState, SVC_PROBE_TRACE_VALUE0, SVC_PROBE_TRACE_VALUE1,
};
use novaos::syscall::NovaSyscallResultV1;

#[test]
fn probe_state_lines_report_el_stack_and_vectors() {
    let mut console = TextConsole::new();
    let state = RuntimeExceptionProbeState { current_el: 1, spsel: 0, vbar_el1: 0x4008_0800, expected_vbar_el1: 0x4008_0800 };
    log_runtime_exception_probe_state(&mut console, "probe", state);
    assert_eq!(
        console.as_str(),
        "[info] probe current_el_is_el1 true\n[info] probe spsel_is_spx false\n[info] probe runtime_vbar_aligned true\n[info] probe vbar_matches_runtime true\n"
    );
}

#[test]
fn install_status_marks_alignment_and_readback() {
    let mut markers = TextConsole::new();
    log_bootstrap_exception_install_status(&mut markers, 0x4008_0010, 0x4008_0800, 0x4008_0000);
    assert_eq!(
        markers.as_str(),
        "NovaOS bootstrap vector base misaligned\nNovaOS bootstrap vbar install mismatch\n"
    );
}

#[test]
fn svc_probe_report_marks_a_clean_round_trip() {
    let mut console = TextConsole::new();
    let mut markers = TextConsole::new();
    let caller = BootstrapKernelSvcCallerCapture {
        pre_x0: 1,
        pre_x1: SVC_PROBE_TRACE_VALUE0,
        pre_x2: SVC_PROBE_TRACE_VALUE1,
        post_x0: 0,
        post_x1: SVC_PROBE_TRACE_VALUE0,
        post_x2: SVC_PROBE_TRACE_VALUE1,
        valid: BootstrapKernelSvcCallerCapture::VALID,
    };
    let result = NovaSyscallResultV1 { status: 0, flags: 0, value0: SVC_PROBE_TRACE_VALUE0, value1: SVC_PROBE_TRACE_VALUE1 };
    report_bootstrap_kernel_svc_probe(&mut console, &mut markers, caller, (0, 1, 2), BootstrapExceptionReturnCapture::unset(), result);
    assert_eq!(
        markers.as_str(),
        "NovaOS bootstrap kernel svc begin\nNovaOS bootstrap kernel svc caller capture matched\nNovaOS bootstrap kernel svc passed\n"
    );
    assert!(console.as_str().starts_with("[info] bootstrap kernel svc caller pre x0 0x0000000000000001 x1 0x4B45525356433031"));
    assert!(console.as_str().contains("[info] bootstrap kernel svc raw x0 0x0000000000000000 x1 0x0000000000000001 x2 0x0000000000000002\n"));
    assert!(console.as_str().ends_with("[info] bootstrap kernel svc capture unavailable\n"));
}

#[test]
fn svc_probe_report_names_each_mismatch() {
    let mut console = TextConsole::new();
    let mut markers = TextConsole::new();
    let result = NovaSyscallResultV1 { status: 3, flags: 0, value0: SVC_PROBE_TRACE_VALUE0, value1: 7 };
    report_bootstrap_kernel_svc_probe(
        &mut console,
        &mut markers,
        BootstrapKernelSvcCallerCapture::unset(),
        (0, 0, 0),
        BootstrapExceptionReturnCapture::unset(),
        result,
    );
    assert_eq!(
        markers.as_str(),
        "NovaOS bootstrap kernel svc begin\n\
NovaOS bootstrap kernel svc caller capture mismatch\n\
NovaOS bootstrap kernel svc status mismatch\n\
NovaOS bootstrap kernel svc value1 mismatch\n\
NovaOS bootstrap kernel svc failed\n"
    );
    assert!(console.as_str().starts_with("[info] bootstrap kernel svc caller capture unavailable\n"));
    assert!(console.as_str().ends_with(
        "[info] bootstrap kernel svc result status 0x0000000000000003 value0 0x4B45525356433031 value1 0x0000000000000007\n"
    ));
}

#[test]
fn live_exception_frame_logs_its_result_registers() {
    let mut registers = [0u64; 31];
    registers[0] = 0;
    registers[1] = 0xABCD;
    registers[2] = 0x10;
    let frame = novaos::kernel_syscall::Arm64SyscallFrame { registers, elr: 0x4000, spsr: 0 };
    let mut console = TextConsole::new();
    novaos::svc_probe::log_live_exception_frame(&mut console, "trap", &frame);
    assert_eq!(
        console.as_str(),
        "[info] trap status 0x0000000000000000 value0 0x000000000000ABCD value1 0x0000000000000010\n"
    );
}
