//! The kernel's syscall path: the bootstrap task's budget, the trap frame,
//! capability-checked dispatch and the exception handlers that drive it.
use vstd::prelude::*;
use crate::console::{log_text, ConsoleSink, LogLevel};
use crate::exceptions::{spec_syndrome, ExceptionClass, ExceptionSyndrome};
use crate::init_capsule::{
    decode_init_capsule_service_name, service_name_text, service_name_valid, NovaInitCapsuleCapabilityV1,
};
use crate::syscall::{
    status_result, NovaSyscallNumberV1, NovaSyscallRequestV1, NovaSyscallResultV1, NovaSyscallStatusV1,
    NOVA_BOOTSTRAP_TRAP_IMM16,
};

verus! {

/// What the bootstrap task was granted.
#[derive(Clone, Copy, Debug, PartialEq, Eq, Structural)]
pub struct BootstrapTaskState {
    pub bootstrap_capabilities: u64,
    pub endpoint_slots: u32,
    pub shared_memory_regions: u32,
}

impl BootstrapTaskState {
    /// A grant from its parts.
    pub fn new(bootstrap_capabilities: u64, endpoint_slots: u32, shared_memory_regions: u32) -> (r: Self)
        ensures
            r == (BootstrapTaskState { bootstrap_capabilities, endpoint_slots, shared_memory_regions }),
    {
        BootstrapTaskState { bootstrap_capabilities, endpoint_slots, shared_memory_regions }
    }

    /// Whether `capability` was granted.
    pub fn has_bootstrap_capability(&self, capability: NovaInitCapsuleCapabilityV1) -> (r: bool)
        ensures
            r == (self.bootstrap_capabilities & capability.spec_raw() != 0),
    {
        (self.bootstrap_capabilities & capability.as_raw()) != 0
    }

    /// Whether endpoint slot `slot` was reserved.
    pub fn contains_endpoint_slot(&self, slot: u64) -> (r: bool)
        ensures
            r == (slot < self.endpoint_slots),
    {
        slot < self.endpoint_slots as u64
    }

    /// Whether shared-memory region `region` was reserved.
    pub fn contains_shared_memory_region(&self, region: u64) -> (r: bool)
        ensures
            r == (region < self.shared_memory_regions),
    {
        region < self.shared_memory_regions as u64
    }
}

/// The task the kernel is running: its service name and grant.
#[derive(Clone, Copy, Debug, PartialEq, Eq)]
pub struct CurrentTaskState {
    pub service_name: [u8; 16],
    pub bootstrap: BootstrapTaskState,
}

impl CurrentTaskState {
    /// A task from its parts.
    pub fn new(service_name: [u8; 16], bootstrap: BootstrapTaskState) -> (r: Self)
        ensures
            r == (CurrentTaskState { service_name, bootstrap }),
    {
        CurrentTaskState { service_name, bootstrap }
    }

    /// The task's service name.
    pub fn service_name(&self) -> (r: &str)
        requires
            service_name_valid(self.service_name@),
        ensures
            r@ == service_name_text(self.service_name@),
    {
        match decode_init_capsule_service_name(&self.service_name) {
            Some(name) => name,
            None => "",
        }
    }

    /// The task's grant.
    pub fn bootstrap(&self) -> (r: BootstrapTaskState)
        ensures
            r == self.bootstrap,
    {
        self.bootstrap
    }
}

/// What syscall dispatch knows: the current task, if any, and which lanes
/// are ready.
#[derive(Clone, Copy, Debug, PartialEq, Eq)]
pub struct SyscallDispatchState {
    pub current_task: Option<CurrentTaskState>,
    pub endpoints_ready: bool,
    pub shared_memory_ready: bool,
}

impl SyscallDispatchState {
    /// A current task, if any, carries a valid service name.
    pub open spec fn wf(&self) -> bool {
        self.current_task matches Some(t) ==> service_name_valid(t.service_name@)
    }

    pub open spec fn spec_has_capability(&self, capability: NovaInitCapsuleCapabilityV1) -> bool {
        self.current_task matches Some(t) && t.bootstrap.bootstrap_capabilities & capability.spec_raw() != 0
    }

    pub open spec fn spec_contains_endpoint_slot(&self, slot: u64) -> bool {
        self.current_task matches Some(t) && slot < t.bootstrap.endpoint_slots
    }

    pub open spec fn spec_contains_shared_memory_region(&self, region: u64) -> bool {
        self.current_task matches Some(t) && region < t.bootstrap.shared_memory_regions
    }

    /// No task and no lanes.
    pub fn scaffold() -> (r: Self)
        ensures
            r == (SyscallDispatchState { current_task: None, endpoints_ready: false, shared_memory_ready: false }),
    {
        SyscallDispatchState { current_task: None, endpoints_ready: false, shared_memory_ready: false }
    }

    /// The bootstrap task and the readiness of its lanes.
    pub fn bootstrap(current_task: CurrentTaskState, endpoints_ready: bool, shared_memory_ready: bool) -> (r: Self)
        ensures
            r == (SyscallDispatchState { current_task: Some(current_task), endpoints_ready, shared_memory_ready }),
    {
        SyscallDispatchState { current_task: Some(current_task), endpoints_ready, shared_memory_ready }
    }

    /// Whether the current task was granted `capability`.
    pub fn has_bootstrap_capability(&self, capability: NovaInitCapsuleCapabilityV1) -> (r: bool)
        ensures
            r == self.spec_has_capability(capability),
    {
        match &self.current_task {
            Some(task) => task.bootstrap().has_bootstrap_capability(capability),
            None => false,
        }
    }

    /// Whether the current task reserved endpoint slot `slot`.
    pub fn contains_endpoint_slot(&self, slot: u64) -> (r: bool)
        ensures
            r == self.spec_contains_endpoint_slot(slot),
    {
        match &self.current_task {
            Some(task) => task.bootstrap().contains_endpoint_slot(slot),
            None => false,
        }
    }

    /// Whether the current task reserved shared-memory region `region`.
    pub fn contains_shared_memory_region(&self, region: u64) -> (r: bool)
        ensures
            r == self.spec_contains_shared_memory_region(region),
    {
        match &self.current_task {
            Some(task) => task.bootstrap().contains_shared_memory_region(region),
            None => false,
        }
    }

    /// The current task's service name, if there is a task.
    pub fn current_task_service_name(&self) -> (r: Option<&str>)
        requires
            self.wf(),
        ensures
            r is Some <==> self.current_task is Some,
            r matches Some(s) ==> s@ == service_name_text(self.current_task->0.service_name@),
    {
        match &self.current_task {
            Some(task) => Some(task.service_name()),
            None => None,
        }
    }
}

// ---------------------------------------------------------------------------
// Dispatch
// ---------------------------------------------------------------------------

/// The result of a syscall: unknown numbers are `Unknown`; each call needs
/// its capability, endpoint and shared-memory calls need a reserved slot or
/// region and a ready lane, and the calls that succeed echo their first two
/// arguments (`Nop` echoes zeros, `Yield` is not supported yet).
pub open spec fn spec_dispatch(state: SyscallDispatchState, request: NovaSyscallRequestV1) -> NovaSyscallResultV1 {
    let ok_args = NovaSyscallResultV1 { status: 0, flags: 0, value0: request.args[0], value1: request.args[1] };
    match NovaSyscallNumberV1::spec_from_raw(request.number) {
        None => status_result(NovaSyscallStatusV1::Unknown),
        Some(NovaSyscallNumberV1::Nop) => NovaSyscallResultV1 { status: 0, flags: 0, value0: 0, value1: 0 },
        Some(NovaSyscallNumberV1::Trace) => {
            if !state.spec_has_capability(NovaInitCapsuleCapabilityV1::BootLog) {
                status_result(NovaSyscallStatusV1::Denied)
            } else {
                ok_args
            }
        },
        Some(NovaSyscallNumberV1::Yield) => {
            if !state.spec_has_capability(NovaInitCapsuleCapabilityV1::Yield) {
                status_result(NovaSyscallStatusV1::Denied)
            } else {
                status_result(NovaSyscallStatusV1::Unsupported)
            }
        },
        Some(NovaSyscallNumberV1::EndpointCall) => {
            if !state.spec_has_capability(NovaInitCapsuleCapabilityV1::EndpointBootstrap) {
                status_result(NovaSyscallStatusV1::Denied)
            } else if !state.spec_contains_endpoint_slot(request.args[0]) {
                status_result(NovaSyscallStatusV1::InvalidArgs)
            } else if !state.endpoints_ready {
                status_result(NovaSyscallStatusV1::Unsupported)
            } else {
                ok_args
            }
        },
        Some(NovaSyscallNumberV1::SharedMemoryMap) => {
            if !state.spec_has_capability(NovaInitCapsuleCapabilityV1::SharedMemoryBootstrap) {
                status_result(NovaSyscallStatusV1::Denied)
            } else if !state.spec_contains_shared_memory_region(request.args[0]) {
                status_result(NovaSyscallStatusV1::InvalidArgs)
            } else if !state.shared_memory_ready {
                status_result(NovaSyscallStatusV1::Unsupported)
            } else {
                ok_args
            }
        },
    }
}

/// A note naming the current task: `[info] <what> from <service>` and a
/// newline, or, with no task, `[info] <what>` and a newline.
pub open spec fn task_note(state: SyscallDispatchState, what: Seq<char>) -> Seq<char> {
    match state.current_task {
        Some(t) => "[info] "@ + what + " from "@ + service_name_text(t.service_name@) + seq!['\n'],
        None => log_text(LogLevel::Info, what),
    }
}

/// What dispatch writes to the console: a note for each call that went
/// through, and nothing otherwise.
pub open spec fn dispatch_log(state: SyscallDispatchState, request: NovaSyscallRequestV1) -> Seq<char> {
    let r = spec_dispatch(state, request);
    match NovaSyscallNumberV1::spec_from_raw(request.number) {
        Some(NovaSyscallNumberV1::Trace) => if r.status == 0 {
            task_note(state, "syscall trace request"@)
        } else {
            Seq::empty()
        },
        Some(NovaSyscallNumberV1::EndpointCall) => if r.status == 0 {
            task_note(state, "bootstrap endpoint call"@)
        } else {
            Seq::empty()
        },
        Some(NovaSyscallNumberV1::SharedMemoryMap) => if r.status == 0 {
            task_note(state, "bootstrap shared memory map"@)
        } else {
            Seq::empty()
        },
        _ => Seq::empty(),
    }
}

fn announce<C: ConsoleSink>(state: &SyscallDispatchState, console: &mut C, with_task: &str, without_task: &str, what: Ghost<Seq<char>>)
    requires
        state.wf(),
        with_task@ == "[info] "@ + what@ + " from "@,
        without_task@ == what@,
    ensures
        final(console).written() == old(console).written() + task_note(*state, what@),
{
    match state.current_task_service_name() {
        Some(service_name) => {
            console.write_str(with_task);
            console.write_line(service_name);
            assert(final(console).written() =~= old(console).written() + task_note(*state, what@));
        },
        None => {
            console.log(LogLevel::Info, without_task);
        },
    }
}

/// Dispatches a syscall for the current task and logs the calls that go
/// through.
pub fn dispatch_syscall<C: ConsoleSink>(state: &SyscallDispatchState, request: NovaSyscallRequestV1, console: &mut C) -> (r: NovaSyscallResultV1)
    requires
        state.wf(),
    ensures
        r == spec_dispatch(*state, request),
        final(console).written() == old(console).written() + dispatch_log(*state, request),
{
    proof {
        reveal_strlit("[info] syscall trace request from ");
        reveal_strlit("syscall trace request");
        reveal_strlit("[info] bootstrap endpoint call from ");
        reveal_strlit("bootstrap endpoint call");
        reveal_strlit("[info] bootstrap shared memory map from ");
        reveal_strlit("bootstrap shared memory map");
        reveal_strlit("[info] ");
        reveal_strlit(" from ");
    }
    let number = match NovaSyscallNumberV1::from_raw(request.number) {
        Some(n) => n,
        None => {
            assert(old(console).written() + dispatch_log(*state, request) =~= old(console).written());
            return NovaSyscallResultV1::unknown();
        },
    };
    match number {
        NovaSyscallNumberV1::Nop => {
            assert(old(console).written() + dispatch_log(*state, request) =~= old(console).written());
            NovaSyscallResultV1::ok(0, 0)
        },
        NovaSyscallNumberV1::Trace => {
            if !state.has_bootstrap_capability(NovaInitCapsuleCapabilityV1::BootLog) {
                assert(old(console).written() + dispatch_log(*state, request) =~= old(console).written());
                return NovaSyscallResultV1::denied();
            }
            assert("[info] syscall trace request from "@ =~= "[info] "@ + "syscall trace request"@ + " from "@);
            announce(
                state,
                console,
                "[info] syscall trace request from ",
                "syscall trace request",
                Ghost("syscall trace request"@),
            );
            NovaSyscallResultV1::ok(request.args[0], request.args[1])
        },
        NovaSyscallNumberV1::Yield => {
            assert(old(console).written() + dispatch_log(*state, request) =~= old(console).written());
            if !state.has_bootstrap_capability(NovaInitCapsuleCapabilityV1::Yield) {
                return NovaSyscallResultV1::denied();
            }
            NovaSyscallResultV1::unsupported()
        },
        NovaSyscallNumberV1::EndpointCall => {
            if !state.has_bootstrap_capability(NovaInitCapsuleCapabilityV1::EndpointBootstrap) {
                assert(old(console).written() + dispatch_log(*state, request) =~= old(console).written());
                return NovaSyscallResultV1::denied();
            }
            if !state.contains_endpoint_slot(request.args[0]) {
                assert(old(console).written() + dispatch_log(*state, request) =~= old(console).written());
                return NovaSyscallResultV1::invalid_args();
            }
            if !state.endpoints_ready {
                assert(old(console).written() + dispatch_log(*state, request) =~= old(console).written());
                return NovaSyscallResultV1::unsupported();
            }
            assert("[info] bootstrap endpoint call from "@ =~= "[info] "@ + "bootstrap endpoint call"@ + " from "@);
            announce(
                state,
                console,
                "[info] bootstrap endpoint call from ",
                "bootstrap endpoint call",
                Ghost("bootstrap endpoint call"@),
            );
            NovaSyscallResultV1::ok(request.args[0], request.args[1])
        },
        NovaSyscallNumberV1::SharedMemoryMap => {
            if !state.has_bootstrap_capability(NovaInitCapsuleCapabilityV1::SharedMemoryBootstrap) {
                assert(old(console).written() + dispatch_log(*state, request) =~= old(console).written());
                return NovaSyscallResultV1::denied();
            }
            if !state.contains_shared_memory_region(request.args[0]) {
                assert(old(console).written() + dispatch_log(*state, request) =~= old(console).written());
                return NovaSyscallResultV1::invalid_args();
            }
            if !state.shared_memory_ready {
                assert(old(console).written() + dispatch_log(*state, request) =~= old(console).written());
                return NovaSyscallResultV1::unsupported();
            }
            assert("[info] bootstrap shared memory map from "@ =~= "[info] "@ + "bootstrap shared memory map"@ + " from "@);
            announce(
                state,
                console,
                "[info] bootstrap shared memory map from ",
                "bootstrap shared memory map",
                Ghost("bootstrap shared memory map"@),
            );
            NovaSyscallResultV1::ok(request.args[0], request.args[1])
        },
    }
}

/// Capabilities guard every syscall but `Nop`: without the capability a call
/// needs, it is denied and nothing is logged; a call that succeeds was made
/// by a task holding its capability.
pub proof fn lemma_dispatch_requires_capability(state: SyscallDispatchState, request: NovaSyscallRequestV1)
    ensures
        ({
            let n = NovaSyscallNumberV1::spec_from_raw(request.number);
            let needed = match n {
                Some(NovaSyscallNumberV1::Trace) => Some(NovaInitCapsuleCapabilityV1::BootLog),
                Some(NovaSyscallNumberV1::Yield) => Some(NovaInitCapsuleCapabilityV1::Yield),
                Some(NovaSyscallNumberV1::EndpointCall) => Some(NovaInitCapsuleCapabilityV1::EndpointBootstrap),
                Some(NovaSyscallNumberV1::SharedMemoryMap) => Some(NovaInitCapsuleCapabilityV1::SharedMemoryBootstrap),
                _ => None,
            };
            &&& needed matches Some(c) ==> (!state.spec_has_capability(c) ==> spec_dispatch(state, request)
                == status_result(NovaSyscallStatusV1::Denied) && dispatch_log(state, request) == Seq::<char>::empty())
            &&& needed matches Some(c) ==> (spec_dispatch(state, request).status == 0 ==> state.spec_has_capability(c))
            &&& spec_dispatch(state, request).status == 0 ==> n is Some
            &&& state.current_task is None ==> spec_dispatch(state, request).status != 0 || n == Some(
                NovaSyscallNumberV1::Nop,
            )
        }),
{
}

// ---------------------------------------------------------------------------
// The trap frame
// ---------------------------------------------------------------------------

/// The registers the exception vectors save.
#[derive(Clone, Copy, Debug, PartialEq, Eq)]
pub struct Arm64SyscallFrame {
    pub registers: [u64; 31],
    pub elr: u64,
    pub spsr: u64,
}

/// `frame` with the result in x0..x2 and `elr` as the return address.
pub open spec fn frame_with_result(frame: Arm64SyscallFrame, result: NovaSyscallResultV1, elr: u64) -> (Seq<u64>, u64) {
    (frame.registers@.update(0, result.status as u64).update(1, result.value0).update(2, result.value1), elr)
}

impl Arm64SyscallFrame {
    pub const FLAG_REGISTER: usize = 6;
    pub const RESERVED_REGISTER: usize = 7;
    pub const NUMBER_REGISTER: usize = 8;
    pub const STATUS_REGISTER: usize = 0;
    pub const VALUE0_REGISTER: usize = 1;
    pub const VALUE1_REGISTER: usize = 2;
    pub const SYSCALL_INSTRUCTION_LEN: u64 = 4;

    /// The request a frame carries: x0..x5 the arguments, x6 the flags, x8
    /// the number.
    pub open spec fn spec_request(&self) -> NovaSyscallRequestV1 {
        NovaSyscallRequestV1 {
            number: self.registers@[8] as u32,
            flags: self.registers@[6] as u32,
            args: choose|a: [u64; 6]| #![trigger a@] a@ == self.registers@.subrange(0, 6),
        }
    }

    /// All registers zero.
    pub fn empty() -> (r: Self)
        ensures
            r.registers@ == Seq::new(31, |i: int| 0u64),
            r.elr == 0,
            r.spsr == 0,
    {
        let r = Arm64SyscallFrame { registers: [0u64; 31], elr: 0, spsr: 0 };
        assert(r.registers@ =~= Seq::new(31, |i: int| 0u64));
        r
    }

    /// The frame a task issuing `request` traps with.
    pub fn from_request(request: NovaSyscallRequestV1) -> (r: Self)
        ensures
            r.registers@ == request.args@ + seq![request.flags as u64, 0u64, request.number as u64]
                + Seq::new(22, |i: int| 0u64),
            r.elr == 0,
            r.spsr == 0,
    {
        let mut frame = Self::empty();
        let mut i: usize = 0;
        while i < 6
            invariant
                0 <= i <= 6,
                frame.registers@.len() == 31,
                frame.elr == 0 && frame.spsr == 0,
                forall|j: int| 0 <= j < i ==> frame.registers@[j] == request.args@[j],
                forall|j: int| i <= j < 31 ==> frame.registers@[j] == 0,
            decreases 6 - i,
        {
            frame.registers[i] = request.args[i];
            i = i + 1;
        }
        frame.registers[Self::FLAG_REGISTER] = request.flags as u64;
        frame.registers[Self::NUMBER_REGISTER] = request.number as u64;
        assert(frame.registers@ =~= request.args@ + seq![request.flags as u64, 0u64, request.number as u64]
            + Seq::new(22, |i: int| 0u64));
        frame
    }

    /// The request the frame carries.
    pub fn request(&self) -> (r: NovaSyscallRequestV1)
        ensures
            r.number == self.registers@[8] as u32,
            r.flags == self.registers@[6] as u32,
            r.args@ == self.registers@.subrange(0, 6),
            r == self.spec_request(),
    {
        let mut args = [0u64; 6];
        let mut i: usize = 0;
        while i < 6
            invariant
                0 <= i <= 6,
                args@.len() == 6,
                self.registers@.len() == 31,
                forall|j: int| 0 <= j < i ==> args@[j] == self.registers@[j],
            decreases 6 - i,
        {
            args[i] = self.registers[i];
            i = i + 1;
        }
        assert(args@ =~= self.registers@.subrange(0, 6));
        let r = NovaSyscallRequestV1 {
            number: self.registers[Self::NUMBER_REGISTER] as u32,
            flags: self.registers[Self::FLAG_REGISTER] as u32,
            args,
        };
        proof {
            let c = choose|a: [u64; 6]| #![trigger a@] a@ == self.registers@.subrange(0, 6);
            assert(c@ == args@);
            assert(c == args);
        }
        r
    }

    fn apply_result_with_return_elr(&mut self, result: NovaSyscallResultV1, return_elr: u64)
        ensures
            (final(self).registers@, final(self).elr) == frame_with_result(*old(self), result, return_elr),
            final(self).spsr == old(self).spsr,
    {
        self.registers[Self::STATUS_REGISTER] = result.status as u64;
        self.registers[Self::VALUE0_REGISTER] = result.value0;
        self.registers[Self::VALUE1_REGISTER] = result.value1;
        self.elr = return_elr;
    }

    /// Writes the result and returns past the trapping instruction.
    pub fn apply_result(&mut self, result: NovaSyscallResultV1)
        ensures
            (final(self).registers@, final(self).elr) == frame_with_result(*old(self), result, old(self).elr.wrapping_add(4)),
            final(self).spsr == old(self).spsr,
    {
        let next = self.elr.wrapping_add(Self::SYSCALL_INSTRUCTION_LEN);
        self.apply_result_with_return_elr(result, next);
    }

    /// Writes the result and returns to the same address.
    pub fn apply_result_without_elr_advance(&mut self, result: NovaSyscallResultV1)
        ensures
            (final(self).registers@, final(self).elr) == frame_with_result(*old(self), result, old(self).elr),
            final(self).spsr == old(self).spsr,
    {
        let elr = self.elr;
        self.apply_result_with_return_elr(result, elr);
    }
}

/// A request placed in a frame reads back unchanged.
pub proof fn lemma_frame_request_round_trip(request: NovaSyscallRequestV1, frame: Arm64SyscallFrame)
    requires
        frame.registers@ == request.args@ + seq![request.flags as u64, 0u64, request.number as u64]
            + Seq::new(22, |i: int| 0u64),
    ensures
        frame.spec_request() == request,
{
    let regs = frame.registers@;
    assert(regs[8] == request.number as u64);
    assert(regs[6] == request.flags as u64);
    assert(regs.subrange(0, 6) =~= request.args@);
    let c = choose|a: [u64; 6]| #![trigger a@] a@ == regs.subrange(0, 6);
    assert(exists|a: [u64; 6]| #![trigger a@] a@ == regs.subrange(0, 6)) by {
        assert(request.args@ == regs.subrange(0, 6));
    }
    assert(c@ == request.args@);
    assert(c == request.args);
}

// ---------------------------------------------------------------------------
// Exception handlers
// ---------------------------------------------------------------------------

/// Handles a synchronous exception as a syscall when it is an SVC: the
/// frame's request is dispatched and its result written back, returning past
/// the SVC. Any other exception is left alone.
pub fn handle_syscall_exception<C: ConsoleSink>(esr: u32, frame: &mut Arm64SyscallFrame, state: &SyscallDispatchState, console: &mut C) -> (r: bool)
    requires
        state.wf(),
    ensures
        r == (spec_syndrome(esr).class == ExceptionClass::Svc64),
        !r ==> *final(frame) == *old(frame) && final(console).written() == old(console).written(),
        r ==> (final(frame).registers@, final(frame).elr) == frame_with_result(
            *old(frame),
            spec_dispatch(*state, old(frame).spec_request()),
            old(frame).elr.wrapping_add(4),
        ) && final(frame).spsr == old(frame).spsr
            && final(console).written() == old(console).written() + dispatch_log(*state, old(frame).spec_request()),
{
    let syndrome = ExceptionSyndrome::from_esr(esr);
    match syndrome.class {
        ExceptionClass::Svc64 => {},
        _ => return false,
    }
    let result = dispatch_syscall(state, frame.request(), console);
    frame.apply_result(result);
    true
}

/// What the bootstrap handler logs before dispatch, by exception class.
pub open spec fn bootstrap_trap_prelude(state: SyscallDispatchState, esr: u32) -> Seq<char> {
    let s = spec_syndrome(esr);
    match s.class {
        ExceptionClass::Svc64 => task_note(state, "bootstrap live svc"@),
        ExceptionClass::Brk64 => if (s.iss & 0xFFFFu32) as u16 == NOVA_BOOTSTRAP_TRAP_IMM16 {
            task_note(state, "bootstrap live trap"@)
        } else {
            log_text(LogLevel::Warn, "bootstrap live trap immediate mismatch"@)
        },
        ExceptionClass::InstructionAbortLowerEl => log_text(
            LogLevel::Warn,
            "bootstrap sync exception instruction_abort_lower_el"@,
        ),
        ExceptionClass::DataAbortLowerEl => log_text(LogLevel::Warn, "bootstrap sync exception data_abort_lower_el"@),
        ExceptionClass::Unknown => log_text(LogLevel::Warn, "bootstrap sync exception unknown"@),
    }
}

/// Whether the bootstrap handler dispatches: an SVC, or a BRK with the
/// bootstrap trap immediate.
pub open spec fn bootstrap_trap_dispatches(esr: u32) -> bool {
    let s = spec_syndrome(esr);
    s.class == ExceptionClass::Svc64 || (s.class == ExceptionClass::Brk64 && (s.iss & 0xFFFFu32) as u16
        == NOVA_BOOTSTRAP_TRAP_IMM16)
}

/// The current-EL bootstrap handler. An SVC is dispatched and returns to the
/// address the frame already holds, which for a current-EL SVC is the one
/// after it; a BRK with the bootstrap immediate is dispatched and returns past
/// the BRK. Anything else is logged as a warning and left to the caller.
pub fn handle_bootstrap_syscall_exception<C: ConsoleSink>(
    esr: u32,
    frame: &mut Arm64SyscallFrame,
    state: &SyscallDispatchState,
    console: &mut C,
) -> (r: bool)
    requires
        state.wf(),
    ensures
        r == bootstrap_trap_dispatches(esr),
        !r ==> *final(frame) == *old(frame) && final(console).written() == old(console).written()
            + bootstrap_trap_prelude(*state, esr),
        r ==> final(console).written() == old(console).written() + bootstrap_trap_prelude(*state, esr)
            + dispatch_log(*state, old(frame).spec_request()) && final(frame).spsr == old(frame).spsr
            && (final(frame).registers@, final(frame).elr) == frame_with_result(
            *old(frame),
            spec_dispatch(*state, old(frame).spec_request()),
            if spec_syndrome(esr).class == ExceptionClass::Svc64 {
                old(frame).elr
            } else {
                old(frame).elr.wrapping_add(4)
            },
        ),
{
    proof {
        reveal_strlit("[info] bootstrap live svc from ");
        reveal_strlit("bootstrap live svc");
        reveal_strlit("[info] bootstrap live trap from ");
        reveal_strlit("bootstrap live trap");
        reveal_strlit("[info] ");
        reveal_strlit(" from ");
    }
    let syndrome = ExceptionSyndrome::from_esr(esr);
    match syndrome.class {
        ExceptionClass::Svc64 => {
            assert("[info] bootstrap live svc from "@ =~= "[info] "@ + "bootstrap live svc"@ + " from "@);
            announce(
                state,
                console,
                "[info] bootstrap live svc from ",
                "bootstrap live svc",
                Ghost("bootstrap live svc"@),
            );
            let result = dispatch_syscall(state, frame.request(), console);
            frame.apply_result_without_elr_advance(result);
            true
        },
        ExceptionClass::Brk64 => {
            if syndrome.brk_imm16() != Some(NOVA_BOOTSTRAP_TRAP_IMM16) {
                console.log(LogLevel::Warn, "bootstrap live trap immediate mismatch");
                return false;
            }
            assert("[info] bootstrap live trap from "@ =~= "[info] "@ + "bootstrap live trap"@ + " from "@);
            announce(
                state,
                console,
                "[info] bootstrap live trap from ",
                "bootstrap live trap",
                Ghost("bootstrap live trap"@),
            );
            let result = dispatch_syscall(state, frame.request(), console);
            frame.apply_result(result);
            true
        },
        ExceptionClass::InstructionAbortLowerEl => {
            console.log(LogLevel::Warn, "bootstrap sync exception instruction_abort_lower_el");
            false
        },
        ExceptionClass::DataAbortLowerEl => {
            console.log(LogLevel::Warn, "bootstrap sync exception data_abort_lower_el");
            false
        },
        ExceptionClass::Unknown => {
            console.log(LogLevel::Warn, "bootstrap sync exception unknown");
            false
        },
    }
}

/// The lower-EL bootstrap handler: an SVC from EL0 is dispatched and returns
/// past the SVC; anything else is left to the caller, untouched.
pub fn handle_lower_el_bootstrap_syscall_exception<C: ConsoleSink>(
    esr: u32,
    frame: &mut Arm64SyscallFrame,
    state: &SyscallDispatchState,
    console: &mut C,
) -> (r: bool)
    requires
        state.wf(),
    ensures
        r == (spec_syndrome(esr).class == ExceptionClass::Svc64),
        !r ==> *final(frame) == *old(frame) && final(console).written() == old(console).written(),
        r ==> final(console).written() == old(console).written() + task_note(*state, "bootstrap lower-el svc"@)
            + dispatch_log(*state, old(frame).spec_request()) && final(frame).spsr == old(frame).spsr
            && (final(frame).registers@, final(frame).elr) == frame_with_result(
            *old(frame),
            spec_dispatch(*state, old(frame).spec_request()),
            old(frame).elr.wrapping_add(4),
        ),
{
    proof {
        reveal_strlit("[info] bootstrap lower-el svc from ");
        reveal_strlit("bootstrap lower-el svc");
        reveal_strlit("[info] ");
        reveal_strlit(" from ");
    }
    let syndrome = ExceptionSyndrome::from_esr(esr);
    match syndrome.class {
        ExceptionClass::Svc64 => {},
        _ => return false,
    }
    assert("[info] bootstrap lower-el svc from "@ =~= "[info] "@ + "bootstrap lower-el svc"@ + " from "@);
    announce(
        state,
        console,
        "[info] bootstrap lower-el svc from ",
        "bootstrap lower-el svc",
        Ghost("bootstrap lower-el svc"@),
    );
    let result = dispatch_syscall(state, frame.request(), console);
    frame.apply_result(result);
    true
}

} // verus!
