//! Self-checks the kernel runs against its own syscall path, and the hex
//! formatting its diagnostics use.
use vstd::prelude::*;
use crate::console::{log_text, ConsoleSink, LogLevel};
use crate::text::{digit_value, digits_value};
use crate::exceptions::{spec_syndrome, ExceptionClass};
use crate::init_capsule::NovaInitCapsuleCapabilityV1;
use crate::kernel_syscall::{
    dispatch_log, dispatch_syscall, handle_lower_el_bootstrap_syscall_exception, handle_syscall_exception,
    lemma_frame_request_round_trip, spec_dispatch, task_note, Arm64SyscallFrame, SyscallDispatchState,
};
use crate::syscall::{NovaSyscallNumberV1, NovaSyscallRequestV1, NovaSyscallResultV1};

verus! {

// ---------------------------------------------------------------------------
// Hex
// ---------------------------------------------------------------------------

/// The upper-case hex digit of `d`.
pub open spec fn hex_char(d: u64) -> char {
    if d == 0 {
        '0'
    } else if d == 1 {
        '1'
    } else if d == 2 {
        '2'
    } else if d == 3 {
        '3'
    } else if d == 4 {
        '4'
    } else if d == 5 {
        '5'
    } else if d == 6 {
        '6'
    } else if d == 7 {
        '7'
    } else if d == 8 {
        '8'
    } else if d == 9 {
        '9'
    } else if d == 10 {
        'A'
    } else if d == 11 {
        'B'
    } else if d == 12 {
        'C'
    } else if d == 13 {
        'D'
    } else if d == 14 {
        'E'
    } else {
        'F'
    }
}

/// The first `n` of the 16 hex digits of `v`, most significant first.
pub open spec fn hex_digits(v: u64, n: int) -> Seq<char> {
    Seq::new(n as nat, |i: int| hex_char((v >> ((60 - 4 * i) as u64)) & 0xF))
}

/// `0x` and the 16 upper-case hex digits of `v`.
pub open spec fn hex_u64_text(v: u64) -> Seq<char> {
    "0x"@ + hex_digits(v, 16)
}

fn hex_digit_str(d: u64) -> (r: &'static str)
    requires
        d < 16,
    ensures
        r@ == seq![hex_char(d)],
{
    proof {
        reveal_strlit("0");
        reveal_strlit("1");
        reveal_strlit("2");
        reveal_strlit("3");
        reveal_strlit("4");
        reveal_strlit("5");
        reveal_strlit("6");
        reveal_strlit("7");
        reveal_strlit("8");
        reveal_strlit("9");
        reveal_strlit("A");
        reveal_strlit("B");
        reveal_strlit("C");
        reveal_strlit("D");
        reveal_strlit("E");
        reveal_strlit("F");
    }
    match d {
        0 => "0",
        1 => "1",
        2 => "2",
        3 => "3",
        4 => "4",
        5 => "5",
        6 => "6",
        7 => "7",
        8 => "8",
        9 => "9",
        10 => "A",
        11 => "B",
        12 => "C",
        13 => "D",
        14 => "E",
        _ => "F",
    }
}

/// Each digit character is an upper-case hex digit with the digit's value.
pub proof fn lemma_hex_char_value(d: u64)
    requires
        d < 16,
    ensures
        digit_value(hex_char(d)) == d,
        ('0' <= hex_char(d) && hex_char(d) <= '9') || ('A' <= hex_char(d) && hex_char(d) <= 'F'),
{
}

proof fn lemma_hex_digits_value(v: u64, n: int)
    requires
        1 <= n <= 16,
    ensures
        digits_value(hex_digits(v, n), 16) == (v >> ((64 - 4 * n) as u64)) as int,
    decreases n,
{
    let s = hex_digits(v, n);
    let shift = (64 - 4 * n) as u64;
    let d = (v >> shift) & 0xF;
    assert(d < 16) by (bit_vector)
        requires
            d == (v >> shift) & 0xF,
    ;
    lemma_hex_char_value(d);
    assert(s.last() == hex_char(d));
    if n == 1 {
        assert(s.drop_last() =~= Seq::<char>::empty());
        assert(v >> 60u64 == (v >> 60u64) & 0xF) by (bit_vector);
        assert(digits_value(s, 16) == digits_value(s.drop_last(), 16) * 16 + digit_value(s.last()));
    } else {
        lemma_hex_digits_value(v, n - 1);
        assert(s.drop_last() =~= hex_digits(v, n - 1));
        let high = v >> ((shift + 4) as u64);
        assert(high <= 0x0FFF_FFFF_FFFF_FFFF && (v >> shift) == high * 16 + d) by (bit_vector)
            requires
                shift <= 60,
                high == v >> ((shift + 4) as u64),
                d == (v >> shift) & 0xF,
        ;
        assert((shift + 4) as u64 == (64 - 4 * (n - 1)) as u64);
        assert(digits_value(hex_digits(v, n - 1), 16) == high as int);
        assert(digits_value(s, 16) == digits_value(s.drop_last(), 16) * 16 + digit_value(s.last()));
        assert(digits_value(s, 16) == high as int * 16 + d as int);
    }
}

/// The printed text of `v` is `0x` followed by 16 upper-case hex digits that
/// read back, as a base-16 number, as `v`.
pub proof fn lemma_hex_u64_text_reads_back(v: u64)
    ensures
        hex_u64_text(v).len() == 18,
        hex_u64_text(v)[0] == '0' && hex_u64_text(v)[1] == 'x',
        forall|i: int| 2 <= i < 18 ==> ('0' <= #[trigger] hex_u64_text(v)[i] && hex_u64_text(v)[i] <= '9') || ('A'
            <= hex_u64_text(v)[i] && hex_u64_text(v)[i] <= 'F'),
        digits_value(hex_u64_text(v).subrange(2, 18), 16) == v,
{
    reveal_strlit("0x");
    let t = hex_u64_text(v);
    assert(t.subrange(2, 18) =~= hex_digits(v, 16));
    lemma_hex_digits_value(v, 16);
    assert(v >> 0u64 == v) by (bit_vector);
    assert forall|i: int| 2 <= i < 18 implies ('0' <= #[trigger] t[i] && t[i] <= '9') || ('A' <= t[i] && t[i] <= 'F') by {
        let d = (v >> ((60 - 4 * (i - 2)) as u64)) & 0xF;
        let sh = (60 - 4 * (i - 2)) as u64;
        assert(d < 16) by (bit_vector)
            requires
                d == (v >> sh) & 0xF,
        ;
        lemma_hex_char_value(d);
    }
}

/// Writes `value` as `0x` and 16 upper-case hex digits.
pub fn write_hex_u64<C: ConsoleSink>(console: &mut C, value: u64)
    ensures
        final(console).written() == old(console).written() + hex_u64_text(value),
{
    proof {
        reveal_strlit("0x");
    }
    console.write_str("0x");
    let mut i: u64 = 0;
    while i < 16
        invariant
            0 <= i <= 16,
            console.written() == old(console).written() + "0x"@ + hex_digits(value, i as int),
        decreases 16 - i,
    {
        let shift: u64 = 60 - 4 * i;
        let d = (value >> shift) & 0xF;
        assert(d < 16) by (bit_vector)
            requires
                d == (value >> shift) & 0xF,
        ;
        console.write_str(hex_digit_str(d));
        assert(hex_digits(value, i + 1) =~= hex_digits(value, i as int).push(hex_char(d)));
        i = i + 1;
    }
    assert(console.written() =~= old(console).written() + hex_u64_text(value));
}

// ---------------------------------------------------------------------------
// Probes
// ---------------------------------------------------------------------------

/// A request with `number`, no flags and the arguments `a0`, `a1`, 0, 0, 0, 0.
pub open spec fn probe_request(number: u32, a0: u64, a1: u64) -> NovaSyscallRequestV1 {
    NovaSyscallRequestV1 {
        number,
        flags: 0,
        args: choose|a: [u64; 6]| #![trigger a@] a@ == seq![a0, a1, 0u64, 0u64, 0u64, 0u64],
    }
}

proof fn lemma_probe_request(r: NovaSyscallRequestV1, number: u32, a0: u64, a1: u64)
    requires
        r.number == number,
        r.flags == 0,
        r.args@ == seq![a0, a1, 0u64, 0u64, 0u64, 0u64],
    ensures
        r == probe_request(number, a0, a1),
{
    let c = choose|a: [u64; 6]| #![trigger a@] a@ == seq![a0, a1, 0u64, 0u64, 0u64, 0u64];
    assert(exists|a: [u64; 6]| #![trigger a@] a@ == seq![a0, a1, 0u64, 0u64, 0u64, 0u64]) by {
        assert(r.args@ == seq![a0, a1, 0u64, 0u64, 0u64, 0u64]);
    }
    assert(c@ == r.args@);
    assert(c == r.args);
}

fn make_probe_request(number: NovaSyscallNumberV1, a0: u64, a1: u64) -> (r: NovaSyscallRequestV1)
    ensures
        r == probe_request(number.spec_raw(), a0, a1),
{
    let r = NovaSyscallRequestV1::new(number, 0, [a0, a1, 0, 0, 0, 0]);
    proof {
        assert(r.args@ =~= seq![a0, a1, 0u64, 0u64, 0u64, 0u64]);
        lemma_probe_request(r, number.spec_raw(), a0, a1);
    }
    r
}

/// The syndrome of a 64-bit SVC.
pub const SVC64_ESR: u32 = 0x5400_0000;

proof fn lemma_svc64_esr()
    ensures
        spec_syndrome(SVC64_ESR).class == ExceptionClass::Svc64,
{
    assert(((0x5400_0000u32 >> 26u32) & 0x3Fu32) as u8 == 0x15u8) by (bit_vector);
}

pub const DRY_RUN_VALUE0: u64 = 0x4C4F_5745_4C53_5643;
pub const DRY_RUN_VALUE1: u64 = 0x4E4F_5641_454C_3030;

/// The details logged when a dry run fails.
pub open spec fn dry_run_failure_details(r: NovaSyscallResultV1) -> Seq<char> {
    "[error] bootstrap lower-el svc dry-run handled "@ + "true"@ + " status "@ + hex_u64_text(r.status as u64)
        + " value0 "@ + hex_u64_text(r.value0) + " value1 "@ + hex_u64_text(r.value1) + " elr "@
        + hex_u64_text(0x8004) + seq!['\n']
}

/// What the lower-EL SVC dry run writes: the handler's note and dispatch log
/// for a trace of two marker values, then whether both came back.
pub open spec fn dry_run_log(state: SyscallDispatchState) -> Seq<char> {
    let request = probe_request(1, DRY_RUN_VALUE0, DRY_RUN_VALUE1);
    let r = spec_dispatch(state, request);
    task_note(state, "bootstrap lower-el svc"@) + dispatch_log(state, request) + if r.status == 0 && r.value0
        == DRY_RUN_VALUE0 && r.value1 == DRY_RUN_VALUE1 {
        log_text(LogLevel::Info, "bootstrap lower-el svc dry-run passed"@)
    } else {
        log_text(LogLevel::Error, "bootstrap lower-el svc dry-run failed"@) + dry_run_failure_details(r)
    }
}

/// Runs a trace of two marker values through the lower-EL SVC handler with
/// the return address just past the SVC, and logs whether the values and the
/// return address came back.
pub fn run_lower_el_bootstrap_svc_dry_run<C: ConsoleSink>(console: &mut C, state: &SyscallDispatchState)
    requires
        state.wf(),
    ensures
        final(console).written() == old(console).written() + dry_run_log(*state),
{
    proof {
        lemma_svc64_esr();
        reveal_strlit("[error] bootstrap lower-el svc dry-run handled ");
        reveal_strlit("true");
        reveal_strlit("false");
        reveal_strlit(" status ");
        reveal_strlit(" value0 ");
        reveal_strlit(" value1 ");
        reveal_strlit(" elr ");
        reveal_strlit("\n");
    }
    let request = make_probe_request(NovaSyscallNumberV1::Trace, DRY_RUN_VALUE0, DRY_RUN_VALUE1);
    let mut frame = Arm64SyscallFrame::from_request(request);
    frame.elr = 0x8004 - Arm64SyscallFrame::SYSCALL_INSTRUCTION_LEN;
    proof {
        lemma_frame_request_round_trip(request, frame);
    }
    let ghost before = console.written();
    let handled = handle_lower_el_bootstrap_syscall_exception(SVC64_ESR, &mut frame, state, console);
    let ghost r = spec_dispatch(*state, request);
    assert(frame.registers@[0] == r.status as u64 && frame.registers@[1] == r.value0 && frame.registers@[2] == r.value1);
    assert(frame.elr == 0x8004);
    if handled && frame.registers[Arm64SyscallFrame::STATUS_REGISTER] == 0
        && frame.registers[Arm64SyscallFrame::VALUE0_REGISTER] == DRY_RUN_VALUE0
        && frame.registers[Arm64SyscallFrame::VALUE1_REGISTER] == DRY_RUN_VALUE1 && frame.elr == 0x8004 {
        console.log(LogLevel::Info, "bootstrap lower-el svc dry-run passed");
    } else {
        console.log(LogLevel::Error, "bootstrap lower-el svc dry-run failed");
        console.write_str("[error] bootstrap lower-el svc dry-run handled ");
        if handled {
            console.write_str("true");
        } else {
            console.write_str("false");
        }
        console.write_str(" status ");
        write_hex_u64(console, frame.registers[Arm64SyscallFrame::STATUS_REGISTER]);
        console.write_str(" value0 ");
        write_hex_u64(console, frame.registers[Arm64SyscallFrame::VALUE0_REGISTER]);
        console.write_str(" value1 ");
        write_hex_u64(console, frame.registers[Arm64SyscallFrame::VALUE1_REGISTER]);
        console.write_str(" elr ");
        write_hex_u64(console, frame.elr);
        console.write_str("\n");
    }
    assert(console.written() =~= old(console).written() + dry_run_log(*state));
}

pub const CAPABILITY_PROBE_VALUE0: u64 = 0xCAFE_BABE;
pub const CAPABILITY_PROBE_VALUE1: u64 = 0x5151_0001;
pub const DENIED_PROBE_VALUE0: u64 = 0xDEAD_BEEF;
pub const ENDPOINT_PROBE_VALUE1: u64 = 0x454E_4450;
pub const SHARED_MEMORY_PROBE_VALUE1: u64 = 0x5348_4D45_4D30;

/// A lane probe: where `enabled`, a call of `number` on slot or region 0
/// carrying `value1`, logged as passed when it comes back intact and as
/// failed, with its status and values, otherwise; else logged as skipped.
pub open spec fn lane_probe_log(
    state: SyscallDispatchState,
    enabled: bool,
    number: u32,
    value1: u64,
    passed: Seq<char>,
    failed: Seq<char>,
    skipped: Seq<char>,
    status_label: Seq<char>,
) -> Seq<char> {
    if enabled {
        let request = probe_request(number, 0, value1);
        let r = spec_dispatch(state, request);
        dispatch_log(state, request) + if r.status == 0 && r.value0 == 0 && r.value1 == value1 {
            log_text(LogLevel::Info, passed)
        } else {
            log_text(LogLevel::Error, failed) + status_label + hex_u64_text(r.status as u64) + " value0 "@
                + hex_u64_text(r.value0) + " value1 "@ + hex_u64_text(r.value1) + seq!['\n']
        }
    } else {
        log_text(LogLevel::Info, skipped)
    }
}

fn run_lane_probe<C: ConsoleSink>(
    console: &mut C,
    state: &SyscallDispatchState,
    enabled: bool,
    number: NovaSyscallNumberV1,
    value1: u64,
    passed: &str,
    failed: &str,
    skipped: &str,
    status_label: &str,
)
    requires
        state.wf(),
    ensures
        final(console).written() == old(console).written() + lane_probe_log(
            *state,
            enabled,
            number.spec_raw(),
            value1,
            passed@,
            failed@,
            skipped@,
            status_label@,
        ),
{
    proof {
        reveal_strlit(" value0 ");
        reveal_strlit(" value1 ");
        reveal_strlit("\n");
    }
    if enabled {
        let result = dispatch_syscall(state, make_probe_request(number, 0, value1), console);
        if result.status == 0 && result.value0 == 0 && result.value1 == value1 {
            console.log(LogLevel::Info, passed);
        } else {
            console.log(LogLevel::Error, failed);
            console.write_str(status_label);
            write_hex_u64(console, result.status as u64);
            console.write_str(" value0 ");
            write_hex_u64(console, result.value0);
            console.write_str(" value1 ");
            write_hex_u64(console, result.value1);
            console.write_str("\n");
        }
    } else {
        console.log(LogLevel::Info, skipped);
    }
    assert(final(console).written() =~= old(console).written() + lane_probe_log(
        *state,
        enabled,
        number.spec_raw(),
        value1,
        passed@,
        failed@,
        skipped@,
        status_label@,
    ));
}

/// The state with no task and no lanes.
pub open spec fn scaffold_state() -> SyscallDispatchState {
    SyscallDispatchState { current_task: None, endpoints_ready: false, shared_memory_ready: false }
}

/// What the capability probe writes: a trace refused without a task, a trace
/// through the SVC handler for the running task, and whether the first was
/// denied while the second came back intact past the SVC.
pub open spec fn capability_probe_log(state: SyscallDispatchState) -> Seq<char> {
    let denied_request = probe_request(1, DENIED_PROBE_VALUE0, 0);
    let denied = spec_dispatch(scaffold_state(), denied_request);
    let request = probe_request(1, CAPABILITY_PROBE_VALUE0, CAPABILITY_PROBE_VALUE1);
    let r = spec_dispatch(state, request);
    dispatch_log(scaffold_state(), denied_request) + dispatch_log(state, request) + if denied.status == 3 && r.status
        == 0 && r.value0 == CAPABILITY_PROBE_VALUE0 && r.value1 == CAPABILITY_PROBE_VALUE1 {
        log_text(LogLevel::Info, "bootstrap capability probe passed"@)
    } else {
        log_text(LogLevel::Error, "bootstrap capability probe failed"@)
    }
}

/// Everything the syscall probe writes.
pub open spec fn syscall_probe_log(state: SyscallDispatchState) -> Seq<char> {
    capability_probe_log(state) + lane_probe_log(
        state,
        state.spec_has_capability(NovaInitCapsuleCapabilityV1::EndpointBootstrap) && state.spec_contains_endpoint_slot(0),
        NovaSyscallNumberV1::EndpointCall.spec_raw(),
        ENDPOINT_PROBE_VALUE1,
        "bootstrap endpoint probe passed"@,
        "bootstrap endpoint probe failed"@,
        "bootstrap endpoint probe skipped"@,
        "[error] bootstrap endpoint probe status "@,
    ) + lane_probe_log(
        state,
        state.spec_has_capability(NovaInitCapsuleCapabilityV1::SharedMemoryBootstrap)
            && state.spec_contains_shared_memory_region(0),
        NovaSyscallNumberV1::SharedMemoryMap.spec_raw(),
        SHARED_MEMORY_PROBE_VALUE1,
        "bootstrap shared memory probe passed"@,
        "bootstrap shared memory probe failed"@,
        "bootstrap shared memory probe skipped"@,
        "[error] bootstrap shared memory probe status "@,
    ) + dry_run_log(state)
}

/// Probes the syscall path the kernel will hand the bootstrap task: refusal
/// without a task, a trace through the SVC handler, the endpoint and
/// shared-memory lanes where granted, and the lower-EL SVC dry run.
pub fn run_syscall_probe<C: ConsoleSink>(console: &mut C, state: SyscallDispatchState)
    requires
        state.wf(),
    ensures
        final(console).written() == old(console).written() + syscall_probe_log(state),
{
    proof {
        lemma_svc64_esr();
    }
    let scaffold = SyscallDispatchState::scaffold();
    let denied_trace = dispatch_syscall(
        &scaffold,
        make_probe_request(NovaSyscallNumberV1::Trace, DENIED_PROBE_VALUE0, 0),
        console,
    );
    let request = make_probe_request(NovaSyscallNumberV1::Trace, CAPABILITY_PROBE_VALUE0, CAPABILITY_PROBE_VALUE1);
    let mut frame = Arm64SyscallFrame::from_request(request);
    frame.elr = 0x4000;
    proof {
        lemma_frame_request_round_trip(request, frame);
    }
    let handled = handle_syscall_exception(SVC64_ESR, &mut frame, &state, console);
    if denied_trace.status == 3 && handled && frame.registers[Arm64SyscallFrame::STATUS_REGISTER] == 0
        && frame.registers[Arm64SyscallFrame::VALUE0_REGISTER] == CAPABILITY_PROBE_VALUE0
        && frame.registers[Arm64SyscallFrame::VALUE1_REGISTER] == CAPABILITY_PROBE_VALUE1 && frame.elr == 0x4004 {
        console.log(LogLevel::Info, "bootstrap capability probe passed");
    } else {
        console.log(LogLevel::Error, "bootstrap capability probe failed");
    }
    let ghost after_capability = console.written();
    assert(after_capability =~= old(console).written() + capability_probe_log(state));
    let endpoint_enabled = state.has_bootstrap_capability(NovaInitCapsuleCapabilityV1::EndpointBootstrap)
        && state.contains_endpoint_slot(0);
    run_lane_probe(
        console,
        &state,
        endpoint_enabled,
        NovaSyscallNumberV1::EndpointCall,
        ENDPOINT_PROBE_VALUE1,
        "bootstrap endpoint probe passed",
        "bootstrap endpoint probe failed",
        "bootstrap endpoint probe skipped",
        "[error] bootstrap endpoint probe status ",
    );
    let shared_memory_enabled = state.has_bootstrap_capability(NovaInitCapsuleCapabilityV1::SharedMemoryBootstrap)
        && state.contains_shared_memory_region(0);
    run_lane_probe(
        console,
        &state,
        shared_memory_enabled,
        NovaSyscallNumberV1::SharedMemoryMap,
        SHARED_MEMORY_PROBE_VALUE1,
        "bootstrap shared memory probe passed",
        "bootstrap shared memory probe failed",
        "bootstrap shared memory probe skipped",
        "[error] bootstrap shared memory probe status ",
    );
    run_lower_el_bootstrap_svc_dry_run(console, &state);
    assert(final(console).written() =~= old(console).written() + syscall_probe_log(state));
}

} // verus!
