//! The kernel's bring-up sequence up to the hand-off to the bootstrap task,
//! its identity and its memory windows.
use vstd::prelude::*;
use crate::boot_contract::{
    capsule_in_memory, prepare_bringup, resolve_boot_info, resolve_optional_boot_info_v2, spec_bringup_accepts, spec_bringup_state, BootRecordMemory, BootstrapCapsuleSummary,
    BootstrapTaskLaunchPlan, KernelBringupState,
};
use crate::bootinfo::{BootSummary, NovaBootInfoV1};
use crate::bootinfo_v2::NovaBootInfoV2;
use crate::console::{log_text, ConsoleSink, LogLevel};
use crate::diag::{run_syscall_probe, syscall_probe_log};
use crate::exception_runtime::{bootstrap_syscall_dispatch_state, spec_dispatch_state};
use crate::init_capsule::{service_name_text, service_name_valid};
use crate::kernel_syscall::SyscallDispatchState;

verus! {

/// The architecture this kernel is built for.
pub fn architecture_name() -> (r: &'static str)
    ensures
        r@ == "arm64"@,
{
    "arm64"
}

/// The kernel's name.
pub fn kernel_identity() -> (r: &'static str)
    ensures
        r@ == "NovaOS kernel"@,
{
    "NovaOS kernel"
}

/// A window of memory.
#[derive(Clone, Copy, Debug, PartialEq, Eq, Structural)]
pub struct MemoryWindow {
    pub base: u64,
    pub size: u64,
}

impl MemoryWindow {
    pub fn empty() -> (r: Self)
        ensures
            r == (MemoryWindow { base: 0, size: 0 }),
    {
        MemoryWindow { base: 0, size: 0 }
    }
}

/// The kernel window BootInfo v1 describes.
pub fn kernel_window(boot_info: &NovaBootInfoV1) -> (r: MemoryWindow)
    ensures
        r == (MemoryWindow { base: boot_info.spec_memory().kernel_window_base, size: boot_info.spec_memory().kernel_window_size }),
{
    let memory = boot_info.memory();
    MemoryWindow { base: memory.kernel_window_base, size: memory.kernel_window_size }
}

/// The user window BootInfo v1 describes.
pub fn user_window(boot_info: &NovaBootInfoV1) -> (r: MemoryWindow)
    ensures
        r == (MemoryWindow { base: boot_info.spec_memory().user_window_base, size: boot_info.spec_memory().user_window_size }),
{
    let memory = boot_info.memory();
    MemoryWindow { base: memory.user_window_base, size: memory.user_window_size }
}

/// What the kernel writes before it halts.
pub open spec fn halt_log(reason: Seq<char>) -> Seq<char> {
    log_text(LogLevel::Error, "kernel halted"@) + log_text(LogLevel::Error, reason)
}

/// Writes why the kernel is about to halt.
pub fn log_halt_reason<C: ConsoleSink>(console: &mut C, reason: &str)
    ensures
        final(console).written() == old(console).written() + halt_log(reason@),
{
    console.log(LogLevel::Error, "kernel halted");
    console.log(LogLevel::Error, reason);
    assert(final(console).written() =~= old(console).written() + halt_log(reason@));
}

/// The line a boot summary is described by.
pub open spec fn describe_text(s: BootSummary) -> Seq<char> {
    if s.framebuffer_present {
        "boot info parsed; framebuffer observed"@
    } else if s.secure_boot {
        "boot info parsed; secure boot observed"@
    } else if s.memory_map_entries != 0 {
        "boot info parsed; memory map observed"@
    } else {
        "boot info parsed"@
    }
}

/// What the kernel writes about an init capsule.
pub open spec fn capsule_summary_log(c: BootstrapCapsuleSummary) -> Seq<char> {
    let name = service_name_text(c.service_name@);
    let staged = if c.payload_body_present {
        log_text(LogLevel::Info, "bootstrap task image staged"@)
    } else {
        Seq::empty()
    };
    log_text(LogLevel::Info, "init capsule summary observed"@) + "[info] init capsule service "@ + name + seq!['\n']
        + "[info] bootstrap task current "@ + name + seq!['\n'] + (if c.payload_body_present {
        log_text(LogLevel::Info, "bootstrap task image observed"@)
    } else {
        Seq::empty()
    }) + (if c.spec_has_payload() && c.payload_descriptor_from_boot_info_v2 {
        log_text(LogLevel::Info, "bootstrap task launch plan from bootinfo_v2"@)
    } else {
        staged
    })
}

/// Logs what the init capsule holds: the service, whether a payload image
/// came with it, and where its launch plan came from.
pub fn log_init_capsule_summary<C: ConsoleSink>(console: &mut C, init_capsule: BootstrapCapsuleSummary)
    requires
        service_name_valid(init_capsule.service_name@),
    ensures
        final(console).written() == old(console).written() + capsule_summary_log(init_capsule),
{
    proof {
        reveal_strlit("[info] init capsule service ");
        reveal_strlit("[info] bootstrap task current ");
    }
    console.log(LogLevel::Info, "init capsule summary observed");
    console.write_str("[info] init capsule service ");
    console.write_line(init_capsule.service_name());
    console.write_str("[info] bootstrap task current ");
    console.write_line(init_capsule.service_name());
    if init_capsule.payload_body_present {
        console.log(LogLevel::Info, "bootstrap task image observed");
    }
    if init_capsule.launch_plan().is_some() {
        if init_capsule.payload_descriptor_from_boot_info_v2 {
            console.log(LogLevel::Info, "bootstrap task launch plan from bootinfo_v2");
        } else if init_capsule.payload_body_present {
            console.log(LogLevel::Info, "bootstrap task image staged");
        }
    } else if init_capsule.payload_body_present {
        console.log(LogLevel::Info, "bootstrap task image staged");
    }
    assert(final(console).written() =~= old(console).written() + capsule_summary_log(init_capsule));
}

/// A state whose init capsule, if any, carries a valid service name.
pub open spec fn bringup_names_valid(b: KernelBringupState) -> bool {
    b.init_capsule matches Some(c) ==> service_name_valid(c.service_name@)
}

/// The state bring-up ends with: the one handed in, else the one gathered
/// from the records, else the empty state.
pub open spec fn chosen_bringup(
    r: KernelBringupState,
    boot_info: NovaBootInfoV1,
    boot_info_v2: Option<NovaBootInfoV2>,
    given: Option<KernelBringupState>,
    memory: BootRecordMemory,
) -> bool {
    match given {
        Some(b) => r == b,
        None => if boot_info.memory_map_entries * boot_info.memory_map_desc_size <= usize::MAX && spec_bringup_accepts(
            boot_info,
            boot_info_v2,
            memory.init_capsule@,
        ) {
            spec_bringup_state(r, boot_info, boot_info_v2, memory)
        } else {
            r.init_capsule is None
        },
    }
}

/// The first lines of bring-up: the banner, a warning for an invalid record,
/// the boot summary and a note for a sidecar.
pub open spec fn records_log(boot_info: NovaBootInfoV1, boot_info_v2_present: bool, summary: BootSummary) -> Seq<char> {
    log_text(LogLevel::Info, "NovaOS kernel bring-up"@) + (if boot_info.spec_is_valid() {
        Seq::empty()
    } else {
        log_text(LogLevel::Warn, "boot info marker is not set"@)
    }) + log_text(LogLevel::Info, describe_text(summary)) + (if boot_info_v2_present {
        log_text(LogLevel::Info, "boot info v2 summary observed"@)
    } else {
        Seq::empty()
    })
}

fn log_boot_records<C: ConsoleSink>(console: &mut C, boot_info: &NovaBootInfoV1, boot_info_v2_present: bool, summary: BootSummary)
    ensures
        final(console).written() == old(console).written() + records_log(*boot_info, boot_info_v2_present, summary),
{
    console.log(LogLevel::Info, "NovaOS kernel bring-up");
    if !boot_info.is_valid() {
        console.log(LogLevel::Warn, "boot info marker is not set");
    }
    let line = summary.describe();
    assert(line@ == describe_text(summary));
    console.log(LogLevel::Info, line);
    if boot_info_v2_present {
        console.log(LogLevel::Info, "boot info v2 summary observed");
    }
    assert(final(console).written() =~= old(console).written() + records_log(*boot_info, boot_info_v2_present, summary));
}

/// Whether the memory map's byte length fits in `usize`.
fn memory_map_fits_usize(boot_info: &NovaBootInfoV1) -> (r: bool)
    ensures
        r == (boot_info.memory_map_entries * boot_info.memory_map_desc_size <= usize::MAX),
{
    let entries = boot_info.memory_map_entries as u64;
    let desc_size = boot_info.memory_map_desc_size as u64;
    proof {
        vstd::arithmetic::mul::lemma_mul_upper_bound(entries as int, 0xFFFF_FFFF, desc_size as int, 0xFFFF_FFFF);
    }
    entries * desc_size <= usize::MAX as u64
}

fn settle_bringup(
    boot_info: &NovaBootInfoV1,
    boot_info_v2: Option<&NovaBootInfoV2>,
    bringup: Option<KernelBringupState>,
    memory: &BootRecordMemory,
) -> (r: KernelBringupState)
    requires
        bringup matches Some(b) ==> bringup_names_valid(b),
        bringup is None ==> crate::boot_contract::capsule_in_memory(*boot_info, memory.init_capsule@),
    ensures
        chosen_bringup(r, *boot_info, match boot_info_v2 { Some(v) => Some(*v), None => None }, bringup, *memory),
        bringup_names_valid(r),
{
    match bringup {
        Some(b) => b,
        None if !memory_map_fits_usize(boot_info) => KernelBringupState::empty(),
        None => match prepare_bringup(boot_info, boot_info_v2, memory) {
            Some(b) => {
                assert(b.init_capsule matches Some(c) ==> c.service_name@ == memory.init_capsule@.subrange(40, 56));
                b
            },
            None => KernelBringupState::empty(),
        },
    }
}

/// The lines after the records: the capsule summary, the syscall probe and
/// the transfer announcement.
pub open spec fn handoff_log(r: KernelBringupState) -> Seq<char> {
    (match r.init_capsule {
        Some(c) => capsule_summary_log(c),
        None => Seq::empty(),
    }) + syscall_probe_log(spec_dispatch_state(r.init_capsule)) + (match r.init_capsule {
        Some(c) => if c.spec_has_payload() {
            "[info] bootstrap task transfer "@ + service_name_text(c.service_name@) + seq!['\n']
        } else {
            Seq::empty()
        },
        None => Seq::empty(),
    })
}

fn run_handoff<C: ConsoleSink>(console: &mut C, state: KernelBringupState) -> (r: (SyscallDispatchState, Option<BootstrapTaskLaunchPlan>))
    requires
        bringup_names_valid(state),
    ensures
        r.0 == spec_dispatch_state(state.init_capsule),
        r.1 is Some <==> (state.init_capsule matches Some(c) && c.spec_has_payload()),
        final(console).written() == old(console).written() + handoff_log(state),
{
    proof {
        reveal_strlit("[info] bootstrap task transfer ");
    }
    if let Some(init_capsule) = state.init_capsule {
        log_init_capsule_summary(console, init_capsule);
    }
    let dispatch_state = bootstrap_syscall_dispatch_state(state.init_capsule);
    run_syscall_probe(console, dispatch_state);
    let launch_plan = match state.init_capsule {
        Some(init_capsule) => init_capsule.launch_plan(),
        None => None,
    };
    if let Some(plan) = launch_plan {
        console.write_str("[info] bootstrap task transfer ");
        console.write_line(plan.service_name());
    }
    assert(final(console).written() =~= old(console).written() + handoff_log(state));
    (dispatch_state, launch_plan)
}

/// What the kernel is entered with: the boot records, the bring-up state
/// resolved from them where there is one, and the console to log to.
pub struct KernelContext<'a, C: ConsoleSink> {
    pub boot_info: &'a NovaBootInfoV1,
    pub boot_info_v2: Option<&'a NovaBootInfoV2>,
    pub bringup: Option<KernelBringupState>,
    pub console: &'a mut C,
}

/// Runs bring-up up to the hand-off: logs the records, settles on the
/// bring-up state, logs the init capsule, probes the syscall path the
/// bootstrap task will use and announces the transfer. It returns the state,
/// the dispatch state to install, and the launch plan where there is one;
/// installing the runtime, the transfer itself and the final halt are the
/// caller's.
pub fn kernel_main<C: ConsoleSink>(
    context: KernelContext<'_, C>,
    memory: &BootRecordMemory,
) -> (r: (KernelBringupState, SyscallDispatchState, Option<BootstrapTaskLaunchPlan>))
    requires
        context.bringup matches Some(b) ==> bringup_names_valid(b),
        context.bringup is None ==> crate::boot_contract::capsule_in_memory(*context.boot_info, memory.init_capsule@),
    ensures
        chosen_bringup(
            r.0,
            *context.boot_info,
            match context.boot_info_v2 { Some(v) => Some(*v), None => None },
            context.bringup,
            *memory,
        ),
        r.1 == spec_dispatch_state(r.0.init_capsule),
        r.2 is Some <==> (r.0.init_capsule matches Some(c) && c.spec_has_payload()),
        final(context.console).written() == old(context.console).written() + records_log(
            *context.boot_info,
            context.boot_info_v2 is Some,
            match context.bringup {
                Some(b) => b.boot_summary,
                None => context.boot_info.spec_summary(),
            },
        ) + handoff_log(r.0),
{
    let KernelContext { boot_info, boot_info_v2, bringup, console } = context;
    let summary = match bringup {
        Some(b) => b.boot_summary,
        None => boot_info.summary(),
    };
    log_boot_records(console, boot_info, boot_info_v2.is_some(), summary);
    let state = settle_bringup(boot_info, boot_info_v2, bringup, memory);
    let (dispatch_state, launch_plan) = run_handoff(console, state);
    (state, dispatch_state, launch_plan)
}

/// The records as a value: the BootInfo v2 record, where one was handed over.
pub open spec fn v2_record(boot_info_v2: Option<&NovaBootInfoV2>) -> Option<NovaBootInfoV2> {
    match boot_info_v2 {
        Some(v) => Some(*v),
        None => None,
    }
}

/// The markers the stage-0 entry leaves: an invalid BootInfo, an invalid
/// BootInfo v2, or both ready and then whether bring-up can proceed.
pub open spec fn stage0_entry_markers(
    boot_info: Option<NovaBootInfoV1>,
    boot_info_v2: Option<NovaBootInfoV2>,
    init_capsule: Seq<u8>,
) -> Seq<char> {
    if !(boot_info matches Some(b) && b.spec_is_valid()) {
        "NovaOS kernel bootinfo invalid\n"@
    } else if boot_info_v2 matches Some(v) && !v.spec_is_valid() {
        "NovaOS kernel bootinfo_v2 invalid\n"@
    } else if boot_info->0.memory_map_entries * boot_info->0.memory_map_desc_size <= usize::MAX && spec_bringup_accepts(
        boot_info->0,
        boot_info_v2,
        init_capsule,
    ) {
        "NovaOS kernel bootinfo_v2 ready\n"@ + "NovaOS kernel bringup ready\n"@
    } else {
        "NovaOS kernel bootinfo_v2 ready\n"@ + "NovaOS kernel bringup invalid\n"@
    }
}

/// The stage-0 entry's decisions: the BootInfo must be valid, a BootInfo v2
/// record, where there is one, must be valid, and bring-up must accept them.
/// It gives the records and the bring-up state to enter the runtime with, or
/// nothing where the kernel halts.
pub fn kernel_stage0_entry<'a, M: ConsoleSink>(
    markers: &mut M,
    boot_info: Option<&'a NovaBootInfoV1>,
    boot_info_v2: Option<&'a NovaBootInfoV2>,
    memory: &BootRecordMemory,
) -> (r: Option<(&'a NovaBootInfoV1, Option<&'a NovaBootInfoV2>, KernelBringupState)>)
    requires
        boot_info matches Some(b) ==> capsule_in_memory(*b, memory.init_capsule@),
    ensures
        r is Some <==> ({
            &&& boot_info matches Some(b) && b.spec_is_valid()
            &&& boot_info_v2 matches Some(v) ==> v.spec_is_valid()
            &&& boot_info->0.memory_map_entries * boot_info->0.memory_map_desc_size <= usize::MAX
            &&& spec_bringup_accepts(*boot_info->0, v2_record(boot_info_v2), memory.init_capsule@)
        }),
        r matches Some(t) ==> boot_info == Some(t.0) && t.1 == boot_info_v2 && spec_bringup_state(
            t.2,
            *t.0,
            v2_record(boot_info_v2),
            *memory,
        ),
        final(markers).written() == old(markers).written() + stage0_entry_markers(
            match boot_info { Some(b) => Some(*b), None => None },
            v2_record(boot_info_v2),
            memory.init_capsule@,
        ),
{
    let boot_info = match resolve_boot_info(boot_info) {
        Some(b) => b,
        None => {
            markers.write_str("NovaOS kernel bootinfo invalid\n");
            return None;
        },
    };
    let boot_info_v2 = match resolve_optional_boot_info_v2(boot_info_v2) {
        Some(v) => v,
        None => {
            markers.write_str("NovaOS kernel bootinfo_v2 invalid\n");
            return None;
        },
    };
    markers.write_str("NovaOS kernel bootinfo_v2 ready\n");
    if !memory_map_fits_usize(boot_info) {
        markers.write_str("NovaOS kernel bringup invalid\n");
        return None;
    }
    match prepare_bringup(boot_info, boot_info_v2, memory) {
        Some(bringup) => {
            markers.write_str("NovaOS kernel bringup ready\n");
            Some((boot_info, boot_info_v2, bringup))
        },
        None => {
            markers.write_str("NovaOS kernel bringup invalid\n");
            None
        },
    }
}

} // verus!
