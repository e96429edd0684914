//! What the kernel concludes, and logs, when it checks its exception
//! runtime and its bootstrap SVC path on hardware: the registers it read and
//! the ones an SVC round trip captured are handed in as plain values.
use vstd::prelude::*;
use crate::console::ConsoleSink;
use crate::diag::{hex_u64_text, write_hex_u64};
use crate::exceptions::BootstrapExceptionReturnCapture;
use crate::kernel_syscall::Arm64SyscallFrame;
use crate::syscall::NovaSyscallResultV1;

verus! {

/// Vector tables are 2 KiB aligned.
pub const EXCEPTION_VECTOR_ALIGNMENT_MASK: u64 = 0x7FF;

/// The first value the probe traces.
pub const SVC_PROBE_TRACE_VALUE0: u64 = 0x4B45_5253_5643_3031;

/// The second value the probe traces.
pub const SVC_PROBE_TRACE_VALUE1: u64 = 0x4E4F_5641_4B45_524E;

/// The exception level, stack selector and vector bases the probe read.
#[derive(Clone, Copy, Debug, PartialEq, Eq, Structural)]
pub struct RuntimeExceptionProbeState {
    pub current_el: u64,
    pub spsel: u64,
    pub vbar_el1: u64,
    pub expected_vbar_el1: u64,
}

/// One `[info] label name value` line.
pub open spec fn probe_line(label: Seq<char>, name: Seq<char>, value: bool) -> Seq<char> {
    "[info] "@ + label + name + (if value {
        "true"@
    } else {
        "false"@
    }) + "\n"@
}

/// The four probe-state lines.
pub open spec fn probe_state_log(label: Seq<char>, s: RuntimeExceptionProbeState) -> Seq<char> {
    probe_line(label, " current_el_is_el1 "@, s.current_el == 1) + probe_line(label, " spsel_is_spx "@, s.spsel == 1)
        + probe_line(label, " runtime_vbar_aligned "@, s.expected_vbar_el1 & EXCEPTION_VECTOR_ALIGNMENT_MASK == 0)
        + probe_line(label, " vbar_matches_runtime "@, s.vbar_el1 == s.expected_vbar_el1)
}

fn write_probe_line<C: ConsoleSink>(console: &mut C, label: &str, name: &str, value: bool)
    ensures
        final(console).written() == old(console).written() + probe_line(label@, name@, value),
{
    proof {
        reveal_strlit("\n");
    }
    console.write_str("[info] ");
    console.write_str(label);
    console.write_str(name);
    if value {
        console.write_line("true");
    } else {
        console.write_line("false");
    }
    assert(final(console).written() =~= old(console).written() + probe_line(label@, name@, value));
}

/// Logs whether the kernel runs at EL1 on SP_ELx and whether the vector base
/// it reads back is the aligned runtime table.
pub fn log_runtime_exception_probe_state<C: ConsoleSink>(console: &mut C, label: &str, state: RuntimeExceptionProbeState)
    ensures
        final(console).written() == old(console).written() + probe_state_log(label@, state),
{
    write_probe_line(console, label, " current_el_is_el1 ", state.current_el == 1);
    write_probe_line(console, label, " spsel_is_spx ", state.spsel == 1);
    write_probe_line(
        console,
        label,
        " runtime_vbar_aligned ",
        state.expected_vbar_el1 & EXCEPTION_VECTOR_ALIGNMENT_MASK == 0,
    );
    write_probe_line(console, label, " vbar_matches_runtime ", state.vbar_el1 == state.expected_vbar_el1);
    assert(final(console).written() =~= old(console).written() + probe_state_log(label@, state));
}

/// The markers of a vector install: whether the table is aligned and
/// whether the base read back is the one installed.
pub open spec fn install_status_markers(vectors_base: u64, installed_base: u64, readback_vbar: u64) -> Seq<char> {
    (if vectors_base & EXCEPTION_VECTOR_ALIGNMENT_MASK == 0 {
        "NovaOS bootstrap vector base aligned\n"@
    } else {
        "NovaOS bootstrap vector base misaligned\n"@
    }) + (if readback_vbar == installed_base {
        "NovaOS bootstrap vbar install match\n"@
    } else {
        "NovaOS bootstrap vbar install mismatch\n"@
    })
}

/// Writes the markers of a vector install.
pub fn log_bootstrap_exception_install_status<M: ConsoleSink>(
    markers: &mut M,
    vectors_base: u64,
    installed_base: u64,
    readback_vbar: u64,
)
    ensures
        final(markers).written() == old(markers).written() + install_status_markers(
            vectors_base,
            installed_base,
            readback_vbar,
        ),
{
    if vectors_base & EXCEPTION_VECTOR_ALIGNMENT_MASK == 0 {
        markers.write_str("NovaOS bootstrap vector base aligned\n");
    } else {
        markers.write_str("NovaOS bootstrap vector base misaligned\n");
    }
    if readback_vbar == installed_base {
        markers.write_str("NovaOS bootstrap vbar install match\n");
    } else {
        markers.write_str("NovaOS bootstrap vbar install mismatch\n");
    }
}

/// The registers the probe's caller saw before and after its SVC.
#[derive(Clone, Copy, Debug, PartialEq, Eq, Structural)]
pub struct BootstrapKernelSvcCallerCapture {
    pub pre_x0: u64,
    pub pre_x1: u64,
    pub pre_x2: u64,
    pub post_x0: u64,
    pub post_x1: u64,
    pub post_x2: u64,
    pub valid: u64,
}

impl BootstrapKernelSvcCallerCapture {
    /// The marker of a complete capture.
    pub const VALID: u64 = 0x4B53_5643_4341_5054;

    /// A capture with nothing recorded.
    pub fn unset() -> (r: Self)
        ensures
            r == (BootstrapKernelSvcCallerCapture {
                pre_x0: u64::MAX,
                pre_x1: u64::MAX,
                pre_x2: u64::MAX,
                post_x0: u64::MAX,
                post_x1: u64::MAX,
                post_x2: u64::MAX,
                valid: 0,
            }),
    {
        BootstrapKernelSvcCallerCapture {
            pre_x0: u64::MAX,
            pre_x1: u64::MAX,
            pre_x2: u64::MAX,
            post_x0: u64::MAX,
            post_x1: u64::MAX,
            post_x2: u64::MAX,
            valid: 0,
        }
    }
}

/// A `prefix x0 .. x1 .. x2 ..` line, the values in hex.
pub open spec fn registers_line(prefix: Seq<char>, x0: u64, x1: u64, x2: u64) -> Seq<char> {
    prefix + hex_u64_text(x0) + " x1 "@ + hex_u64_text(x1) + " x2 "@ + hex_u64_text(x2) + "\n"@
}

fn write_registers_line<C: ConsoleSink>(console: &mut C, prefix: &str, x0: u64, x1: u64, x2: u64)
    ensures
        final(console).written() == old(console).written() + registers_line(prefix@, x0, x1, x2),
{
    console.write_str(prefix);
    write_hex_u64(console, x0);
    console.write_str(" x1 ");
    write_hex_u64(console, x1);
    console.write_str(" x2 ");
    write_hex_u64(console, x2);
    console.write_str("\n");
    assert(final(console).written() =~= old(console).written() + registers_line(prefix@, x0, x1, x2));
}

/// The lines of a caller capture.
pub open spec fn caller_capture_log(pre: (u64, u64, u64), post: (u64, u64, u64), valid: u64) -> Seq<char> {
    if valid != BootstrapKernelSvcCallerCapture::VALID {
        "[info] bootstrap kernel svc caller capture unavailable"@ + "\n"@
    } else {
        registers_line("[info] bootstrap kernel svc caller pre x0 "@, pre.0, pre.1, pre.2) + registers_line(
            "[info] bootstrap kernel svc caller post x0 "@,
            post.0,
            post.1,
            post.2,
        )
    }
}

/// Logs what the probe's caller saw around its SVC, or that it saw nothing.
pub fn log_bootstrap_kernel_svc_caller_capture<C: ConsoleSink>(
    console: &mut C,
    pre_x0: u64,
    pre_x1: u64,
    pre_x2: u64,
    post_x0: u64,
    post_x1: u64,
    post_x2: u64,
    valid: u64,
)
    ensures
        final(console).written() == old(console).written() + caller_capture_log(
            (pre_x0, pre_x1, pre_x2),
            (post_x0, post_x1, post_x2),
            valid,
        ),
{
    if valid != BootstrapKernelSvcCallerCapture::VALID {
        proof {
            reveal_strlit("\n");
        }
        console.write_line("[info] bootstrap kernel svc caller capture unavailable");
        return;
    }
    write_registers_line(console, "[info] bootstrap kernel svc caller pre x0 ", pre_x0, pre_x1, pre_x2);
    write_registers_line(console, "[info] bootstrap kernel svc caller post x0 ", post_x0, post_x1, post_x2);
}

/// The lines of an exception-return capture.
pub open spec fn return_capture_log(c: BootstrapExceptionReturnCapture) -> Seq<char> {
    if c.frame_x0 == u64::MAX {
        "[info] bootstrap kernel svc capture unavailable"@ + "\n"@
    } else {
        registers_line("[info] bootstrap kernel svc frame x0 "@, c.frame_x0, c.frame_x1, c.frame_x2) + registers_line(
            "[info] bootstrap kernel svc restore x0 "@,
            c.restored_x0,
            c.restored_x1,
            c.restored_x2,
        )
    }
}

/// Logs the frame an SVC return saw and the registers it restored, or that
/// nothing was recorded.
pub fn log_bootstrap_exception_return_capture<C: ConsoleSink>(console: &mut C, capture: BootstrapExceptionReturnCapture)
    ensures
        final(console).written() == old(console).written() + return_capture_log(capture),
{
    if !capture.is_recorded() {
        proof {
            reveal_strlit("\n");
        }
        console.write_line("[info] bootstrap kernel svc capture unavailable");
        return;
    }
    write_registers_line(
        console,
        "[info] bootstrap kernel svc frame x0 ",
        capture.frame_x0,
        capture.frame_x1,
        capture.frame_x2,
    );
    write_registers_line(
        console,
        "[info] bootstrap kernel svc restore x0 ",
        capture.restored_x0,
        capture.restored_x1,
        capture.restored_x2,
    );
}

/// The caller saw the trace call succeed with both traced values.
pub open spec fn caller_capture_matched(c: BootstrapKernelSvcCallerCapture) -> bool {
    &&& c.valid == BootstrapKernelSvcCallerCapture::VALID
    &&& c.post_x0 == 0
    &&& c.post_x1 == SVC_PROBE_TRACE_VALUE0
    &&& c.post_x2 == SVC_PROBE_TRACE_VALUE1
}

/// The trace call returned success with both traced values.
pub open spec fn svc_result_passed(r: NovaSyscallResultV1) -> bool {
    r.status == 0 && r.value0 == SVC_PROBE_TRACE_VALUE0 && r.value1 == SVC_PROBE_TRACE_VALUE1
}

/// The console lines of the probe: the caller capture, the raw registers,
/// the return capture and, when the call failed, the result.
pub open spec fn svc_probe_console_log(
    caller: BootstrapKernelSvcCallerCapture,
    raw: (u64, u64, u64),
    ret: BootstrapExceptionReturnCapture,
    result: NovaSyscallResultV1,
) -> Seq<char> {
    caller_capture_log((caller.pre_x0, caller.pre_x1, caller.pre_x2), (caller.post_x0, caller.post_x1, caller.post_x2), caller.valid)
        + registers_line("[info] bootstrap kernel svc raw x0 "@, raw.0, raw.1, raw.2) + return_capture_log(ret)
        + svc_result_log(result)
}

/// The markers of the probe: whether the caller capture matched, then the
/// verdict on the call, with each mismatch named when it failed.
pub open spec fn svc_probe_markers(caller: BootstrapKernelSvcCallerCapture, result: NovaSyscallResultV1) -> Seq<char> {
    "NovaOS bootstrap kernel svc begin\n"@ + (if caller_capture_matched(caller) {
        "NovaOS bootstrap kernel svc caller capture matched\n"@
    } else {
        "NovaOS bootstrap kernel svc caller capture mismatch\n"@
    }) + svc_verdict_markers(result)
}

fn write_failure_markers<M: ConsoleSink>(markers: &mut M, result: NovaSyscallResultV1)
    requires
        !svc_result_passed(result),
    ensures
        final(markers).written() == old(markers).written() + (if result.status != 0 {
            "NovaOS bootstrap kernel svc status mismatch\n"@
        } else {
            Seq::empty()
        }) + (if result.value0 != SVC_PROBE_TRACE_VALUE0 {
            "NovaOS bootstrap kernel svc value0 mismatch\n"@
        } else {
            Seq::empty()
        }) + (if result.value1 != SVC_PROBE_TRACE_VALUE1 {
            "NovaOS bootstrap kernel svc value1 mismatch\n"@
        } else {
            Seq::empty()
        }),
{
    let ghost start = markers.written();
    if result.status != 0 {
        markers.write_str("NovaOS bootstrap kernel svc status mismatch\n");
    }
    if result.value0 != SVC_PROBE_TRACE_VALUE0 {
        markers.write_str("NovaOS bootstrap kernel svc value0 mismatch\n");
    }
    if result.value1 != SVC_PROBE_TRACE_VALUE1 {
        markers.write_str("NovaOS bootstrap kernel svc value1 mismatch\n");
    }
    assert(final(markers).written() =~= start + (if result.status != 0 {
        "NovaOS bootstrap kernel svc status mismatch\n"@
    } else {
        Seq::empty()
    }) + (if result.value0 != SVC_PROBE_TRACE_VALUE0 {
        "NovaOS bootstrap kernel svc value0 mismatch\n"@
    } else {
        Seq::empty()
    }) + (if result.value1 != SVC_PROBE_TRACE_VALUE1 {
        "NovaOS bootstrap kernel svc value1 mismatch\n"@
    } else {
        Seq::empty()
    }));
}

/// The console line of a failed trace call, or nothing when it passed.
pub open spec fn svc_result_log(result: NovaSyscallResultV1) -> Seq<char> {
    if svc_result_passed(result) {
        Seq::empty()
    } else {
        "[info] bootstrap kernel svc result status "@ + hex_u64_text(result.status as u64) + " value0 "@
            + hex_u64_text(result.value0) + " value1 "@ + hex_u64_text(result.value1) + "\n"@
    }
}

/// The verdict markers on the trace call.
pub open spec fn svc_verdict_markers(result: NovaSyscallResultV1) -> Seq<char> {
    if svc_result_passed(result) {
        "NovaOS bootstrap kernel svc passed\n"@
    } else {
        (if result.status != 0 {
            "NovaOS bootstrap kernel svc status mismatch\n"@
        } else {
            Seq::empty()
        }) + (if result.value0 != SVC_PROBE_TRACE_VALUE0 {
            "NovaOS bootstrap kernel svc value0 mismatch\n"@
        } else {
            Seq::empty()
        }) + (if result.value1 != SVC_PROBE_TRACE_VALUE1 {
            "NovaOS bootstrap kernel svc value1 mismatch\n"@
        } else {
            Seq::empty()
        }) + "NovaOS bootstrap kernel svc failed\n"@
    }
}

fn report_svc_result<C: ConsoleSink, M: ConsoleSink>(console: &mut C, markers: &mut M, result: NovaSyscallResultV1)
    ensures
        final(console).written() == old(console).written() + svc_result_log(result),
        final(markers).written() == old(markers).written() + svc_verdict_markers(result),
{
    if result.status == 0 && result.value0 == SVC_PROBE_TRACE_VALUE0 && result.value1 == SVC_PROBE_TRACE_VALUE1 {
        markers.write_str("NovaOS bootstrap kernel svc passed\n");
        assert(console.written() =~= old(console).written() + svc_result_log(result));
    } else {
        write_failure_markers(markers, result);
        console.write_str("[info] bootstrap kernel svc result status ");
        write_hex_u64(console, result.status as u64);
        console.write_str(" value0 ");
        write_hex_u64(console, result.value0);
        console.write_str(" value1 ");
        write_hex_u64(console, result.value1);
        console.write_str("\n");
        markers.write_str("NovaOS bootstrap kernel svc failed\n");
        assert(console.written() =~= old(console).written() + svc_result_log(result));
        assert(markers.written() =~= old(markers).written() + svc_verdict_markers(result));
    }
}

/// Reports a bootstrap kernel SVC round trip: logs what the caller, the raw
/// registers and the exception return captured, and marks whether the
/// capture matched and whether the trace call came back intact.
pub fn report_bootstrap_kernel_svc_probe<C: ConsoleSink, M: ConsoleSink>(
    console: &mut C,
    markers: &mut M,
    caller: BootstrapKernelSvcCallerCapture,
    raw: (u64, u64, u64),
    return_capture: BootstrapExceptionReturnCapture,
    result: NovaSyscallResultV1,
)
    ensures
        final(console).written() == old(console).written() + svc_probe_console_log(caller, raw, return_capture, result),
        final(markers).written() == old(markers).written() + svc_probe_markers(caller, result),
{
    let ghost c0 = console.written();
    let ghost m0 = markers.written();
    markers.write_str("NovaOS bootstrap kernel svc begin\n");
    log_bootstrap_kernel_svc_caller_capture(
        console,
        caller.pre_x0,
        caller.pre_x1,
        caller.pre_x2,
        caller.post_x0,
        caller.post_x1,
        caller.post_x2,
        caller.valid,
    );
    write_registers_line(console, "[info] bootstrap kernel svc raw x0 ", raw.0, raw.1, raw.2);
    log_bootstrap_exception_return_capture(console, return_capture);
    if caller.valid == BootstrapKernelSvcCallerCapture::VALID && caller.post_x0 == 0 && caller.post_x1
        == SVC_PROBE_TRACE_VALUE0 && caller.post_x2 == SVC_PROBE_TRACE_VALUE1 {
        markers.write_str("NovaOS bootstrap kernel svc caller capture matched\n");
    } else {
        markers.write_str("NovaOS bootstrap kernel svc caller capture mismatch\n");
    }
    report_svc_result(console, markers, result);
    proof {
        let cap = caller_capture_log(
            (caller.pre_x0, caller.pre_x1, caller.pre_x2),
            (caller.post_x0, caller.post_x1, caller.post_x2),
            caller.valid,
        );
        let rawl = registers_line("[info] bootstrap kernel svc raw x0 "@, raw.0, raw.1, raw.2);
        let retl = return_capture_log(return_capture);
        let resl = svc_result_log(result);
        assert(console.written() == c0 + cap + rawl + retl + resl);
        vstd::seq_lib::lemma_concat_associative(c0 + cap + rawl, retl, resl);
        vstd::seq_lib::lemma_concat_associative(c0 + cap, rawl, retl + resl);
        vstd::seq_lib::lemma_concat_associative(c0, cap, rawl + (retl + resl));
        assert(svc_probe_console_log(caller, raw, return_capture, result) == cap + rawl + retl + resl);
        vstd::seq_lib::lemma_concat_associative(cap + rawl, retl, resl);
        vstd::seq_lib::lemma_concat_associative(cap, rawl, retl + resl);
        let mk = if caller_capture_matched(caller) {
            "NovaOS bootstrap kernel svc caller capture matched\n"@
        } else {
            "NovaOS bootstrap kernel svc caller capture mismatch\n"@
        };
        let b = "NovaOS bootstrap kernel svc begin\n"@;
        let v = svc_verdict_markers(result);
        assert(markers.written() == m0 + b + mk + v);
        assert(svc_probe_markers(caller, result) == b + mk + v);
        vstd::seq_lib::lemma_concat_associative(m0 + b, mk, v);
        vstd::seq_lib::lemma_concat_associative(m0, b, mk + v);
        vstd::seq_lib::lemma_concat_associative(b, mk, v);
    }
}

/// The line a live exception frame is logged as: its result registers.
pub open spec fn frame_log(label: Seq<char>, frame: Arm64SyscallFrame) -> Seq<char> {
    "[info] "@ + label + " status "@ + hex_u64_text(frame.registers@[0]) + " value0 "@ + hex_u64_text(
        frame.registers@[1],
    ) + " value1 "@ + hex_u64_text(frame.registers@[2]) + "\n"@
}

/// Logs the status and values a live exception frame returns.
pub fn log_live_exception_frame<C: ConsoleSink>(console: &mut C, label: &str, frame: &Arm64SyscallFrame)
    ensures
        final(console).written() == old(console).written() + frame_log(label@, *frame),
{
    console.write_str("[info] ");
    console.write_str(label);
    console.write_str(" status ");
    write_hex_u64(console, frame.registers[Arm64SyscallFrame::STATUS_REGISTER]);
    console.write_str(" value0 ");
    write_hex_u64(console, frame.registers[Arm64SyscallFrame::VALUE0_REGISTER]);
    console.write_str(" value1 ");
    write_hex_u64(console, frame.registers[Arm64SyscallFrame::VALUE1_REGISTER]);
    console.write_str("\n");
    assert(final(console).written() =~= old(console).written() + frame_log(label@, *frame));
}

} // verus!
