//! The context record the kernel hands the bootstrap task, in its two
//! versions, and the kernel-call gate that version 2 names.
use vstd::prelude::*;
use vstd::string::StringSliceAdditionalSpecFns;
use crate::bytes::{
    le_u32_at, le_u32_bytes, le_u64_at, le_u64_bytes, lemma_u32_field, lemma_u32_round_trip,
    lemma_u64_field, lemma_u64_round_trip, push_bytes, push_u32_le, push_u64_le, read_array16,
    read_u32_le, read_u64_le,
};
use crate::init_capsule::{decode_init_capsule_service_name, service_name_split, service_name_valid};
use crate::syscall::{status_result, trace_request, NovaSyscallRequestV1, NovaSyscallResultV1, NovaSyscallStatusV1};

verus! {

/// Encoded size of [`NovaBootstrapTaskContextV1`].
pub const NOVA_BOOTSTRAP_TASK_CONTEXT_V1_SIZE: usize = 48;
/// Encoded size of [`NovaBootstrapTaskContextV2`].
pub const NOVA_BOOTSTRAP_TASK_CONTEXT_V2_SIZE: usize = 56;
/// Offset of the service name in either context.
pub const NOVA_BOOTSTRAP_TASK_CONTEXT_SERVICE_NAME_OFFSET: usize = 16;
/// Offset of the kernel-call entry in a version-2 context.
pub const NOVA_BOOTSTRAP_TASK_CONTEXT_V2_KERNEL_CALL_ENTRY_OFFSET: usize = 48;

/// Version 1 of the bootstrap task context.
#[derive(Clone, Copy, Debug, PartialEq, Eq)]
pub struct NovaBootstrapTaskContextV1 {
    pub magic: u64,
    pub version: u32,
    pub size: u32,
    pub service_name: [u8; 16],
    pub requested_capabilities: u64,
    pub endpoint_slots: u32,
    pub shared_memory_regions: u32,
}

/// Version 2 of the bootstrap task context: version 1 plus the address of the
/// kernel-call gate.
#[derive(Clone, Copy, Debug, PartialEq, Eq)]
pub struct NovaBootstrapTaskContextV2 {
    pub magic: u64,
    pub version: u32,
    pub size: u32,
    pub service_name: [u8; 16],
    pub requested_capabilities: u64,
    pub endpoint_slots: u32,
    pub shared_memory_regions: u32,
    pub kernel_call_entry: u64,
}

/// The little-endian encoding of a version-1 context.
pub open spec fn context_v1_encoding(c: NovaBootstrapTaskContextV1) -> Seq<u8> {
    le_u64_bytes(c.magic) + le_u32_bytes(c.version) + le_u32_bytes(c.size) + c.service_name@
        + le_u64_bytes(c.requested_capabilities) + le_u32_bytes(c.endpoint_slots) + le_u32_bytes(c.shared_memory_regions)
}

/// The little-endian encoding of a version-2 context.
pub open spec fn context_v2_encoding(c: NovaBootstrapTaskContextV2) -> Seq<u8> {
    le_u64_bytes(c.magic) + le_u32_bytes(c.version) + le_u32_bytes(c.size) + c.service_name@
        + le_u64_bytes(c.requested_capabilities) + le_u32_bytes(c.endpoint_slots) + le_u32_bytes(c.shared_memory_regions)
        + le_u64_bytes(c.kernel_call_entry)
}

/// The version-1 fields stored at the start of `b`.
pub open spec fn context_v1_matches_bytes(c: NovaBootstrapTaskContextV1, b: Seq<u8>) -> bool {
    &&& b.len() >= 48
    &&& c.magic == le_u64_at(b, 0)
    &&& c.version == le_u32_at(b, 8)
    &&& c.size == le_u32_at(b, 12)
    &&& c.service_name@ == b.subrange(16, 32)
    &&& c.requested_capabilities == le_u64_at(b, 32)
    &&& c.endpoint_slots == le_u32_at(b, 40)
    &&& c.shared_memory_regions == le_u32_at(b, 44)
}

/// The version-2 fields stored at the start of `b`.
pub open spec fn context_v2_matches_bytes(c: NovaBootstrapTaskContextV2, b: Seq<u8>) -> bool {
    &&& b.len() >= 56
    &&& c.magic == le_u64_at(b, 0)
    &&& c.version == le_u32_at(b, 8)
    &&& c.size == le_u32_at(b, 12)
    &&& c.service_name@ == b.subrange(16, 32)
    &&& c.requested_capabilities == le_u64_at(b, 32)
    &&& c.endpoint_slots == le_u32_at(b, 40)
    &&& c.shared_memory_regions == le_u32_at(b, 44)
    &&& c.kernel_call_entry == le_u64_at(b, 48)
}

impl NovaBootstrapTaskContextV1 {
    pub const MAGIC: u64 = 0x3158_5443_5453_424e;
    pub const VERSION: u32 = 1;

    pub open spec fn spec_is_valid(&self) -> bool {
        &&& self.magic == Self::MAGIC
        &&& self.version == Self::VERSION
        &&& self.size == 48
        &&& service_name_valid(self.service_name@)
    }

    /// The all-zero context.
    pub fn empty() -> (r: Self)
        ensures
            r.magic == 0 && r.version == 0 && r.size == 0 && r.requested_capabilities == 0
                && r.endpoint_slots == 0 && r.shared_memory_regions == 0,
            r.service_name@ == Seq::new(16, |i: int| 0u8),
    {
        let r = NovaBootstrapTaskContextV1 {
            magic: 0,
            version: 0,
            size: 0,
            service_name: [0u8; 16],
            requested_capabilities: 0,
            endpoint_slots: 0,
            shared_memory_regions: 0,
        };
        assert(r.service_name@ =~= Seq::new(16, |i: int| 0u8));
        r
    }

    /// A version-1 context for the named service and its budget.
    pub fn new(service_name: [u8; 16], requested_capabilities: u64, endpoint_slots: u32, shared_memory_regions: u32) -> (r: Self)
        ensures
            r == (NovaBootstrapTaskContextV1 {
                magic: Self::MAGIC,
                version: Self::VERSION,
                size: 48,
                service_name,
                requested_capabilities,
                endpoint_slots,
                shared_memory_regions,
            }),
    {
        NovaBootstrapTaskContextV1 {
            magic: Self::MAGIC,
            version: Self::VERSION,
            size: 48,
            service_name,
            requested_capabilities,
            endpoint_slots,
            shared_memory_regions,
        }
    }

    /// Magic, version, size and service name check out.
    pub fn is_valid(&self) -> (r: bool)
        ensures
            r == self.spec_is_valid(),
    {
        self.magic == Self::MAGIC && self.version == Self::VERSION && self.size == 48
            && decode_init_capsule_service_name(&self.service_name).is_some()
    }

    /// The service name of a valid context.
    pub fn service_name(&self) -> (r: &str)
        requires
            self.spec_is_valid(),
        ensures
            service_name_split(self.service_name@, r.spec_bytes().len() as int),
            r.spec_bytes() == self.service_name@.subrange(0, r.spec_bytes().len() as int),
    {
        match decode_init_capsule_service_name(&self.service_name) {
            Some(name) => name,
            None => "",
        }
    }

    /// The 48-byte little-endian encoding of the context.
    pub fn to_bytes(&self) -> (r: Vec<u8>)
        ensures
            r@ == context_v1_encoding(*self),
            r@.len() == 48,
    {
        let mut out: Vec<u8> = Vec::new();
        push_u64_le(&mut out, self.magic);
        push_u32_le(&mut out, self.version);
        push_u32_le(&mut out, self.size);
        push_bytes(&mut out, &self.service_name);
        push_u64_le(&mut out, self.requested_capabilities);
        push_u32_le(&mut out, self.endpoint_slots);
        push_u32_le(&mut out, self.shared_memory_regions);
        proof {
            lemma_u64_round_trip(self.magic);
            lemma_u32_round_trip(self.version);
            lemma_u32_round_trip(self.size);
            lemma_u64_round_trip(self.requested_capabilities);
            lemma_u32_round_trip(self.endpoint_slots);
            lemma_u32_round_trip(self.shared_memory_regions);
        }
        out
    }
}

impl NovaBootstrapTaskContextV2 {
    pub const MAGIC: u64 = 0x3158_5443_5453_424e;
    pub const VERSION: u32 = 2;

    pub open spec fn spec_is_valid(&self) -> bool {
        &&& self.magic == Self::MAGIC
        &&& self.version == Self::VERSION
        &&& self.size == 56
        &&& self.kernel_call_entry != 0
        &&& service_name_valid(self.service_name@)
    }

    /// The all-zero context.
    pub fn empty() -> (r: Self)
        ensures
            r.magic == 0 && r.version == 0 && r.size == 0 && r.requested_capabilities == 0
                && r.endpoint_slots == 0 && r.shared_memory_regions == 0 && r.kernel_call_entry == 0,
            r.service_name@ == Seq::new(16, |i: int| 0u8),
    {
        let r = NovaBootstrapTaskContextV2 {
            magic: 0,
            version: 0,
            size: 0,
            service_name: [0u8; 16],
            requested_capabilities: 0,
            endpoint_slots: 0,
            shared_memory_regions: 0,
            kernel_call_entry: 0,
        };
        assert(r.service_name@ =~= Seq::new(16, |i: int| 0u8));
        r
    }

    /// A version-2 context for the named service, its budget and its gate.
    pub fn new(
        service_name: [u8; 16],
        requested_capabilities: u64,
        endpoint_slots: u32,
        shared_memory_regions: u32,
        kernel_call_entry: u64,
    ) -> (r: Self)
        ensures
            r == (NovaBootstrapTaskContextV2 {
                magic: Self::MAGIC,
                version: Self::VERSION,
                size: 56,
                service_name,
                requested_capabilities,
                endpoint_slots,
                shared_memory_regions,
                kernel_call_entry,
            }),
    {
        NovaBootstrapTaskContextV2 {
            magic: Self::MAGIC,
            version: Self::VERSION,
            size: 56,
            service_name,
            requested_capabilities,
            endpoint_slots,
            shared_memory_regions,
            kernel_call_entry,
        }
    }

    /// Magic, version, size, gate and service name check out.
    pub fn is_valid(&self) -> (r: bool)
        ensures
            r == self.spec_is_valid(),
    {
        self.magic == Self::MAGIC && self.version == Self::VERSION && self.size == 56 && self.kernel_call_entry != 0
            && decode_init_capsule_service_name(&self.service_name).is_some()
    }

    /// The service name of a valid context.
    pub fn service_name(&self) -> (r: &str)
        requires
            self.spec_is_valid(),
        ensures
            service_name_split(self.service_name@, r.spec_bytes().len() as int),
            r.spec_bytes() == self.service_name@.subrange(0, r.spec_bytes().len() as int),
    {
        match decode_init_capsule_service_name(&self.service_name) {
            Some(name) => name,
            None => "",
        }
    }

    /// The address of the kernel-call gate.
    pub fn kernel_call_entry(&self) -> (r: u64)
        ensures
            r == self.kernel_call_entry,
    {
        self.kernel_call_entry
    }

    /// The 56-byte little-endian encoding of the context.
    pub fn to_bytes(&self) -> (r: Vec<u8>)
        ensures
            r@ == context_v2_encoding(*self),
            r@.len() == 56,
    {
        let mut out: Vec<u8> = Vec::new();
        push_u64_le(&mut out, self.magic);
        push_u32_le(&mut out, self.version);
        push_u32_le(&mut out, self.size);
        push_bytes(&mut out, &self.service_name);
        push_u64_le(&mut out, self.requested_capabilities);
        push_u32_le(&mut out, self.endpoint_slots);
        push_u32_le(&mut out, self.shared_memory_regions);
        push_u64_le(&mut out, self.kernel_call_entry);
        proof {
            lemma_u64_round_trip(self.magic);
            lemma_u32_round_trip(self.version);
            lemma_u32_round_trip(self.size);
            lemma_u64_round_trip(self.requested_capabilities);
            lemma_u32_round_trip(self.endpoint_slots);
            lemma_u32_round_trip(self.shared_memory_regions);
            lemma_u64_round_trip(self.kernel_call_entry);
        }
        out
    }
}

fn read_context_v1(bytes: &[u8]) -> (r: NovaBootstrapTaskContextV1)
    requires
        bytes@.len() >= 48,
    ensures
        context_v1_matches_bytes(r, bytes@),
{
    NovaBootstrapTaskContextV1 {
        magic: read_u64_le(bytes, 0),
        version: read_u32_le(bytes, 8),
        size: read_u32_le(bytes, 12),
        service_name: read_array16(bytes, 16),
        requested_capabilities: read_u64_le(bytes, 32),
        endpoint_slots: read_u32_le(bytes, 40),
        shared_memory_regions: read_u32_le(bytes, 44),
    }
}

fn read_context_v2(bytes: &[u8]) -> (r: NovaBootstrapTaskContextV2)
    requires
        bytes@.len() >= 56,
    ensures
        context_v2_matches_bytes(r, bytes@),
{
    NovaBootstrapTaskContextV2 {
        magic: read_u64_le(bytes, 0),
        version: read_u32_le(bytes, 8),
        size: read_u32_le(bytes, 12),
        service_name: read_array16(bytes, 16),
        requested_capabilities: read_u64_le(bytes, 32),
        endpoint_slots: read_u32_le(bytes, 40),
        shared_memory_regions: read_u32_le(bytes, 44),
        kernel_call_entry: read_u64_le(bytes, 48),
    }
}

/// A context that checked out, in whichever version it came.
#[derive(Clone, Copy, Debug, PartialEq, Eq)]
pub enum ResolvedBootstrapTaskContext {
    V1(NovaBootstrapTaskContextV1),
    V2(NovaBootstrapTaskContextV2),
}

impl ResolvedBootstrapTaskContext {
    pub open spec fn spec_is_valid(self) -> bool {
        match self {
            ResolvedBootstrapTaskContext::V1(c) => c.spec_is_valid(),
            ResolvedBootstrapTaskContext::V2(c) => c.spec_is_valid(),
        }
    }

    pub open spec fn spec_service_name_field(self) -> Seq<u8> {
        match self {
            ResolvedBootstrapTaskContext::V1(c) => c.service_name@,
            ResolvedBootstrapTaskContext::V2(c) => c.service_name@,
        }
    }

    /// The service name.
    pub fn service_name(&self) -> (r: &str)
        requires
            self.spec_is_valid(),
        ensures
            service_name_split(self.spec_service_name_field(), r.spec_bytes().len() as int),
            r.spec_bytes() == self.spec_service_name_field().subrange(0, r.spec_bytes().len() as int),
    {
        match self {
            ResolvedBootstrapTaskContext::V1(c) => c.service_name(),
            ResolvedBootstrapTaskContext::V2(c) => c.service_name(),
        }
    }

    /// The capability bits the service asked for.
    pub fn requested_capabilities(self) -> (r: u64)
        ensures
            r == (match self {
                ResolvedBootstrapTaskContext::V1(c) => c.requested_capabilities,
                ResolvedBootstrapTaskContext::V2(c) => c.requested_capabilities,
            }),
    {
        match self {
            ResolvedBootstrapTaskContext::V1(c) => c.requested_capabilities,
            ResolvedBootstrapTaskContext::V2(c) => c.requested_capabilities,
        }
    }

    /// The endpoint slots the service asked for.
    pub fn endpoint_slots(self) -> (r: u32)
        ensures
            r == (match self {
                ResolvedBootstrapTaskContext::V1(c) => c.endpoint_slots,
                ResolvedBootstrapTaskContext::V2(c) => c.endpoint_slots,
            }),
    {
        match self {
            ResolvedBootstrapTaskContext::V1(c) => c.endpoint_slots,
            ResolvedBootstrapTaskContext::V2(c) => c.endpoint_slots,
        }
    }

    /// The shared-memory regions the service asked for.
    pub fn shared_memory_regions(self) -> (r: u32)
        ensures
            r == (match self {
                ResolvedBootstrapTaskContext::V1(c) => c.shared_memory_regions,
                ResolvedBootstrapTaskContext::V2(c) => c.shared_memory_regions,
            }),
    {
        match self {
            ResolvedBootstrapTaskContext::V1(c) => c.shared_memory_regions,
            ResolvedBootstrapTaskContext::V2(c) => c.shared_memory_regions,
        }
    }

    /// The version-2 context, where that is the version.
    pub fn as_v2(self) -> (r: Option<NovaBootstrapTaskContextV2>)
        ensures
            r == (match self {
                ResolvedBootstrapTaskContext::V1(_) => None,
                ResolvedBootstrapTaskContext::V2(c) => Some(c),
            }),
    {
        match self {
            ResolvedBootstrapTaskContext::V1(_) => None,
            ResolvedBootstrapTaskContext::V2(c) => Some(c),
        }
    }

    /// The kernel-call gate address, which only version 2 carries.
    pub fn kernel_call_entry(self) -> (r: Option<u64>)
        ensures
            r == (match self {
                ResolvedBootstrapTaskContext::V1(_) => None,
                ResolvedBootstrapTaskContext::V2(c) => Some(c.kernel_call_entry),
            }),
    {
        match self {
            ResolvedBootstrapTaskContext::V1(_) => None,
            ResolvedBootstrapTaskContext::V2(c) => Some(c.kernel_call_entry),
        }
    }
}

/// What resolving the context at the start of `b` gives: by its version
/// word, a valid version-1 or version-2 context, or nothing.
pub open spec fn spec_resolve_context(b: Seq<u8>) -> Option<ResolvedBootstrapTaskContext> {
    if b.len() < 48 {
        None
    } else if le_u32_at(b, 8) == 1 {
        let c = NovaBootstrapTaskContextV1 {
            magic: le_u64_at(b, 0),
            version: le_u32_at(b, 8),
            size: le_u32_at(b, 12),
            service_name: choose|a: [u8; 16]| a@ == b.subrange(16, 32),
            requested_capabilities: le_u64_at(b, 32),
            endpoint_slots: le_u32_at(b, 40),
            shared_memory_regions: le_u32_at(b, 44),
        };
        if c.magic == NovaBootstrapTaskContextV1::MAGIC && c.size == 48 && service_name_valid(b.subrange(16, 32)) {
            Some(ResolvedBootstrapTaskContext::V1(c))
        } else {
            None
        }
    } else if le_u32_at(b, 8) == 2 && b.len() >= 56 {
        let c = NovaBootstrapTaskContextV2 {
            magic: le_u64_at(b, 0),
            version: le_u32_at(b, 8),
            size: le_u32_at(b, 12),
            service_name: choose|a: [u8; 16]| a@ == b.subrange(16, 32),
            requested_capabilities: le_u64_at(b, 32),
            endpoint_slots: le_u32_at(b, 40),
            shared_memory_regions: le_u32_at(b, 44),
            kernel_call_entry: le_u64_at(b, 48),
        };
        if c.magic == NovaBootstrapTaskContextV2::MAGIC && c.size == 56 && c.kernel_call_entry != 0
            && service_name_valid(b.subrange(16, 32)) {
            Some(ResolvedBootstrapTaskContext::V2(c))
        } else {
            None
        }
    } else {
        None
    }
}

/// Resolves the context stored at the start of `context`: the version word
/// picks the layout, and only a valid context of that version resolves.
pub fn resolve_bootstrap_task_context(context: &[u8]) -> (r: Option<ResolvedBootstrapTaskContext>)
    ensures
        r is Some <==> spec_resolve_context(context@) is Some,
        r matches Some(c) ==> c.spec_is_valid(),
        r matches Some(ResolvedBootstrapTaskContext::V1(c)) ==> context_v1_matches_bytes(c, context@)
            && spec_resolve_context(context@) matches Some(ResolvedBootstrapTaskContext::V1(_)),
        r matches Some(ResolvedBootstrapTaskContext::V2(c)) ==> context_v2_matches_bytes(c, context@)
            && spec_resolve_context(context@) matches Some(ResolvedBootstrapTaskContext::V2(_)),
{
    if context.len() < NOVA_BOOTSTRAP_TASK_CONTEXT_V1_SIZE {
        return None;
    }
    let version = read_u32_le(context, 8);
    if version == NovaBootstrapTaskContextV1::VERSION {
        let c = read_context_v1(context);
        if c.is_valid() {
            Some(ResolvedBootstrapTaskContext::V1(c))
        } else {
            None
        }
    } else if version == NovaBootstrapTaskContextV2::VERSION {
        if context.len() < NOVA_BOOTSTRAP_TASK_CONTEXT_V2_SIZE {
            return None;
        }
        let c = read_context_v2(context);
        if c.is_valid() {
            Some(ResolvedBootstrapTaskContext::V2(c))
        } else {
            None
        }
    } else {
        None
    }
}

/// Calls the kernel through the kernel-call entry of a version-2 context;
/// `gate` makes that call. An unresolvable context gets `InvalidArgs`, and a
/// version-1 context, which has no entry, gets `Unsupported`.
pub fn bootstrap_kernel_call<F: Fn(NovaBootstrapTaskContextV2, NovaSyscallRequestV1) -> NovaSyscallResultV1>(
    context: &[u8],
    request: NovaSyscallRequestV1,
    gate: F,
) -> (r: NovaSyscallResultV1)
    requires
        forall|c: NovaBootstrapTaskContextV2| #[trigger] c.spec_is_valid() ==> call_requires(gate, (c, request)),
    ensures
        spec_resolve_context(context@) is None ==> r == status_result(NovaSyscallStatusV1::InvalidArgs),
        spec_resolve_context(context@) matches Some(ResolvedBootstrapTaskContext::V1(_)) ==> r == status_result(
            NovaSyscallStatusV1::Unsupported,
        ),
        spec_resolve_context(context@) matches Some(ResolvedBootstrapTaskContext::V2(_)) ==> exists|
            c: NovaBootstrapTaskContextV2,
        | context_v2_matches_bytes(c, context@) && c.spec_is_valid() && call_ensures(gate, (c, request), r),
{
    let resolved = match resolve_bootstrap_task_context(context) {
        Some(c) => c,
        None => return NovaSyscallResultV1::invalid_args(),
    };
    let v2 = match resolved.as_v2() {
        Some(c) => c,
        None => return NovaSyscallResultV1::unsupported(),
    };
    if resolved.kernel_call_entry().is_none() {
        return NovaSyscallResultV1::unsupported();
    }
    let r = gate(v2, request);
    assert(context_v2_matches_bytes(v2, context@) && v2.spec_is_valid() && call_ensures(gate, (v2, request), r));
    r
}

/// Traces two values through the context's kernel-call gate.
pub fn bootstrap_trace<F: Fn(NovaBootstrapTaskContextV2, NovaSyscallRequestV1) -> NovaSyscallResultV1>(
    context: &[u8],
    value0: u64,
    value1: u64,
    gate: F,
) -> (r: NovaSyscallResultV1)
    requires
        forall|c: NovaBootstrapTaskContextV2, q: NovaSyscallRequestV1| c.spec_is_valid() ==> #[trigger] call_requires(gate, (c, q)),
    ensures
        spec_resolve_context(context@) is None ==> r == status_result(NovaSyscallStatusV1::InvalidArgs),
        spec_resolve_context(context@) matches Some(ResolvedBootstrapTaskContext::V1(_)) ==> r == status_result(
            NovaSyscallStatusV1::Unsupported,
        ),
        spec_resolve_context(context@) matches Some(ResolvedBootstrapTaskContext::V2(_)) ==> exists|
            c: NovaBootstrapTaskContextV2,
            q: NovaSyscallRequestV1,
        | context_v2_matches_bytes(c, context@) && c.spec_is_valid() && q.number == 1 && q.args@ == seq![
            value0,
            value1,
            0u64,
            0u64,
            0u64,
            0u64,
        ] && call_ensures(gate, (c, q), r),
{
    let q = trace_request(value0, value1);
    bootstrap_kernel_call(context, q, gate)
}

/// Resolving the encoding of a valid context gives that context back, in its
/// version.
pub proof fn lemma_context_round_trip(c1: NovaBootstrapTaskContextV1, c2: NovaBootstrapTaskContextV2)
    ensures
        c1.spec_is_valid() ==> (spec_resolve_context(context_v1_encoding(c1)) matches Some(
            ResolvedBootstrapTaskContext::V1(r),
        ) && r.requested_capabilities == c1.requested_capabilities && r.endpoint_slots == c1.endpoint_slots
            && r.shared_memory_regions == c1.shared_memory_regions && r.service_name@ == c1.service_name@),
        c2.spec_is_valid() ==> (spec_resolve_context(context_v2_encoding(c2)) matches Some(
            ResolvedBootstrapTaskContext::V2(r),
        ) && r.requested_capabilities == c2.requested_capabilities && r.endpoint_slots == c2.endpoint_slots
            && r.shared_memory_regions == c2.shared_memory_regions && r.service_name@ == c2.service_name@
            && r.kernel_call_entry == c2.kernel_call_entry),
{
    let e1 = context_v1_encoding(c1);
    let e2 = context_v2_encoding(c2);
    lemma_u64_round_trip(c1.magic);
    lemma_u32_round_trip(c1.version);
    lemma_u32_round_trip(c1.size);
    lemma_u64_round_trip(c1.requested_capabilities);
    lemma_u32_round_trip(c1.endpoint_slots);
    lemma_u32_round_trip(c1.shared_memory_regions);
    lemma_u64_round_trip(c2.magic);
    lemma_u32_round_trip(c2.version);
    lemma_u32_round_trip(c2.size);
    lemma_u64_round_trip(c2.requested_capabilities);
    lemma_u32_round_trip(c2.endpoint_slots);
    lemma_u32_round_trip(c2.shared_memory_regions);
    lemma_u64_round_trip(c2.kernel_call_entry);
    assert(e1.len() == 48);
    assert(e2.len() == 56);
    assert(e1.subrange(0, 48) =~= e1);
    assert(e2.subrange(0, 56) =~= e2);
    assert(e1.subrange(0, 8) =~= le_u64_bytes(c1.magic));
    assert(e1.subrange(8, 12) =~= le_u32_bytes(c1.version));
    assert(e1.subrange(12, 16) =~= le_u32_bytes(c1.size));
    assert(e1.subrange(16, 32) =~= c1.service_name@);
    assert(e1.subrange(32, 40) =~= le_u64_bytes(c1.requested_capabilities));
    assert(e1.subrange(40, 44) =~= le_u32_bytes(c1.endpoint_slots));
    assert(e1.subrange(44, 48) =~= le_u32_bytes(c1.shared_memory_regions));
    lemma_u64_field(e1, e1, 0, c1.magic);
    lemma_u32_field(e1, e1, 8, c1.version);
    lemma_u32_field(e1, e1, 12, c1.size);
    lemma_u64_field(e1, e1, 32, c1.requested_capabilities);
    lemma_u32_field(e1, e1, 40, c1.endpoint_slots);
    lemma_u32_field(e1, e1, 44, c1.shared_memory_regions);
    assert(e2.subrange(0, 8) =~= le_u64_bytes(c2.magic));
    assert(e2.subrange(8, 12) =~= le_u32_bytes(c2.version));
    assert(e2.subrange(12, 16) =~= le_u32_bytes(c2.size));
    assert(e2.subrange(16, 32) =~= c2.service_name@);
    assert(e2.subrange(32, 40) =~= le_u64_bytes(c2.requested_capabilities));
    assert(e2.subrange(40, 44) =~= le_u32_bytes(c2.endpoint_slots));
    assert(e2.subrange(44, 48) =~= le_u32_bytes(c2.shared_memory_regions));
    assert(e2.subrange(48, 56) =~= le_u64_bytes(c2.kernel_call_entry));
    lemma_u64_field(e2, e2, 0, c2.magic);
    lemma_u32_field(e2, e2, 8, c2.version);
    lemma_u32_field(e2, e2, 12, c2.size);
    lemma_u64_field(e2, e2, 32, c2.requested_capabilities);
    lemma_u32_field(e2, e2, 40, c2.endpoint_slots);
    lemma_u32_field(e2, e2, 44, c2.shared_memory_regions);
    lemma_u64_field(e2, e2, 48, c2.kernel_call_entry);
    if c1.spec_is_valid() {
        assert(exists|a: [u8; 16]| a@ == e1.subrange(16, 32)) by {
            assert(c1.service_name@ == e1.subrange(16, 32));
        }
    }
    if c2.spec_is_valid() {
        assert(exists|a: [u8; 16]| a@ == e2.subrange(16, 32)) by {
            assert(c2.service_name@ == e2.subrange(16, 32));
        }
    }
}

} // verus!
