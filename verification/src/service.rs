//! The service model: identities, descriptors, launch requests and results,
//! bootstrap requirements, kernel bindings, policy and intent records.
use vstd::prelude::*;
use vstd::string::StringSliceAdditionalSpecFns;
use crate::bootstrap_task::NovaBootstrapTaskContextV1;
use crate::init_capsule::{
    encode_init_capsule_service_name, lemma_service_name_round_trip, padded_service_name,
    service_name_encodable, NovaInitCapsuleCapabilityV1, NOVA_INIT_CAPSULE_KNOWN_CAPABILITIES_V1,
};

verus! {

/// Identity of a service.
#[derive(Clone, Copy, Debug, PartialEq, Eq, Structural)]
pub struct NovaServiceId(pub u64);

impl NovaServiceId {
    /// The init service.
    pub fn initd() -> (r: Self)
        ensures
            r.0 == 0x494E_4954_445F_3031u64,
    {
        NovaServiceId(0x494E_4954_445F_3031u64)
    }

    /// The policy service.
    pub fn policyd() -> (r: Self)
        ensures
            r.0 == 0x504F_4C49_4359_4431u64,
    {
        NovaServiceId(0x504F_4C49_4359_4431u64)
    }

    /// The agent service.
    pub fn agentd() -> (r: Self)
        ensures
            r.0 == 0x4147_454E_5444_3031u64,
    {
        NovaServiceId(0x4147_454E_5444_3031u64)
    }

    /// The memory service.
    pub fn memd() -> (r: Self)
        ensures
            r.0 == 0x4D45_4D44_5F5F_3031u64,
    {
        NovaServiceId(0x4D45_4D44_5F5F_3031u64)
    }

    /// The accelerator service.
    pub fn acceld() -> (r: Self)
        ensures
            r.0 == 0x4143_4345_4C44_3031u64,
    {
        NovaServiceId(0x4143_4345_4C44_3031u64)
    }

    /// The intent service.
    pub fn intentd() -> (r: Self)
        ensures
            r.0 == 0x494E_5445_4E54_4431u64,
    {
        NovaServiceId(0x494E_5445_4E54_4431u64)
    }

    /// The scene service.
    pub fn scened() -> (r: Self)
        ensures
            r.0 == 0x5343_454E_4544_3031u64,
    {
        NovaServiceId(0x5343_454E_4544_3031u64)
    }

    /// The app-bridge service.
    pub fn appbridged() -> (r: Self)
        ensures
            r.0 == 0x4150_5042_5247_3031u64,
    {
        NovaServiceId(0x4150_5042_5247_3031u64)
    }

    /// The shell service.
    pub fn shelld() -> (r: Self)
        ensures
            r.0 == 0x5348_454C_4C44_3031u64,
    {
        NovaServiceId(0x5348_454C_4C44_3031u64)
    }

    /// The identity with raw value `raw`.
    pub fn new(raw: u64) -> (r: Self)
        ensures
            r.0 == raw,
    {
        NovaServiceId(raw)
    }

    /// Whether this is the empty identity.
    pub fn is_empty(self) -> (r: bool)
        ensures
            r == (self.0 == 0),
    {
        self.0 == 0
    }
}

/// Identity of an agent.
#[derive(Clone, Copy, Debug, PartialEq, Eq, Structural)]
pub struct NovaAgentId(pub u64);

impl NovaAgentId {
    /// The kernel agent.
    pub fn kernel() -> (r: Self)
        ensures
            r.0 == 1u64,
    {
        NovaAgentId(1u64)
    }

    /// The init agent.
    pub fn init() -> (r: Self)
        ensures
            r.0 == 2u64,
    {
        NovaAgentId(2u64)
    }

    /// The identity with raw value `raw`.
    pub fn new(raw: u64) -> (r: Self)
        ensures
            r.0 == raw,
    {
        NovaAgentId(raw)
    }
}

/// Identity of a scene.
#[derive(Clone, Copy, Debug, PartialEq, Eq, Structural)]
pub struct NovaSceneId(pub u64);

impl NovaSceneId {
    /// The root scene.
    pub fn root() -> (r: Self)
        ensures
            r.0 == 1u64,
    {
        NovaSceneId(1u64)
    }

    /// The identity with raw value `raw`.
    pub fn new(raw: u64) -> (r: Self)
        ensures
            r.0 == raw,
    {
        NovaSceneId(raw)
    }

    /// Whether this is the empty identity.
    pub fn is_empty(self) -> (r: bool)
        ensures
            r == (self.0 == 0),
    {
        self.0 == 0
    }
}

/// Identity of an app.
#[derive(Clone, Copy, Debug, PartialEq, Eq, Structural)]
pub struct NovaAppId(pub u64);

impl NovaAppId {
    /// The identity with raw value `raw`.
    pub fn new(raw: u64) -> (r: Self)
        ensures
            r.0 == raw,
    {
        NovaAppId(raw)
    }

    /// Whether this is the empty identity.
    pub fn is_empty(self) -> (r: bool)
        ensures
            r == (self.0 == 0),
    {
        self.0 == 0
    }
}

/// Identity of a kernel task.
#[derive(Clone, Copy, Debug, PartialEq, Eq, Structural)]
pub struct NovaTaskId(pub u64);

impl NovaTaskId {
    /// No task.
    pub fn unassigned() -> (r: Self)
        ensures
            r.0 == 0u64,
    {
        NovaTaskId(0u64)
    }

    /// The bootstrap init task.
    pub fn bootstrap_initd() -> (r: Self)
        ensures
            r.0 == 1u64,
    {
        NovaTaskId(1u64)
    }

    /// The identity with raw value `raw`.
    pub fn new(raw: u64) -> (r: Self)
        ensures
            r.0 == raw,
    {
        NovaTaskId(raw)
    }

    /// Whether an identity has been assigned.
    pub fn is_assigned(self) -> (r: bool)
        ensures
            r == (self.0 != 0),
    {
        self.0 != 0
    }
}

/// Identity of a kernel endpoint.
#[derive(Clone, Copy, Debug, PartialEq, Eq, Structural)]
pub struct NovaEndpointId(pub u64);

impl NovaEndpointId {
    /// No endpoint.
    pub fn unassigned() -> (r: Self)
        ensures
            r.0 == 0u64,
    {
        NovaEndpointId(0u64)
    }

    /// The identity with raw value `raw`.
    pub fn new(raw: u64) -> (r: Self)
        ensures
            r.0 == raw,
    {
        NovaEndpointId(raw)
    }

    /// Whether an identity has been assigned.
    pub fn is_assigned(self) -> (r: bool)
        ensures
            r == (self.0 != 0),
    {
        self.0 != 0
    }
}

/// Identity of a shared-memory region.
#[derive(Clone, Copy, Debug, PartialEq, Eq, Structural)]
pub struct NovaSharedMemoryRegionId(pub u64);

impl NovaSharedMemoryRegionId {
    /// No region.
    pub fn unassigned() -> (r: Self)
        ensures
            r.0 == 0u64,
    {
        NovaSharedMemoryRegionId(0u64)
    }

    /// The identity with raw value `raw`.
    pub fn new(raw: u64) -> (r: Self)
        ensures
            r.0 == raw,
    {
        NovaSharedMemoryRegionId(raw)
    }

    /// Whether an identity has been assigned.
    pub fn is_assigned(self) -> (r: bool)
        ensures
            r == (self.0 != 0),
    {
        self.0 != 0
    }
}

/// What part of the system a service belongs to.
#[derive(Clone, Copy, Debug, PartialEq, Eq, Structural)]
pub enum NovaServiceKind {
    Kernel,
    Core,
    Interaction,
    Bridge,
    Operator,
}

impl NovaServiceKind {
    pub open spec fn spec_raw(self) -> u16 {
        match self {
            NovaServiceKind::Kernel => 1,
            NovaServiceKind::Core => 2,
            NovaServiceKind::Interaction => 3,
            NovaServiceKind::Bridge => 4,
            NovaServiceKind::Operator => 5,
        }
    }

    /// The ABI value.
    pub fn as_raw(self) -> (r: u16)
        ensures
            r == self.spec_raw(),
    {
        match self {
            NovaServiceKind::Kernel => 1,
            NovaServiceKind::Core => 2,
            NovaServiceKind::Interaction => 3,
            NovaServiceKind::Bridge => 4,
            NovaServiceKind::Operator => 5,
        }
    }

    pub open spec fn spec_label(self) -> Seq<char> {
        match self {
            NovaServiceKind::Kernel => "kernel"@,
            NovaServiceKind::Core => "core"@,
            NovaServiceKind::Interaction => "interaction"@,
            NovaServiceKind::Bridge => "bridge"@,
            NovaServiceKind::Operator => "operator"@,
        }
    }

    /// A stable kebab-case name.
    pub fn label(self) -> (r: &'static str)
        ensures
            r@ == self.spec_label(),
    {
        match self {
            NovaServiceKind::Kernel => "kernel",
            NovaServiceKind::Core => "core",
            NovaServiceKind::Interaction => "interaction",
            NovaServiceKind::Bridge => "bridge",
            NovaServiceKind::Operator => "operator",
        }
    }
}

/// Lifecycle state of a service.
#[derive(Clone, Copy, Debug, PartialEq, Eq, Structural)]
pub enum NovaServiceState {
    NotStarted,
    Starting,
    Running,
    Degraded,
    Stopped,
    Failed,
}

impl NovaServiceState {
    pub open spec fn spec_raw(self) -> u16 {
        match self {
            NovaServiceState::NotStarted => 0,
            NovaServiceState::Starting => 1,
            NovaServiceState::Running => 2,
            NovaServiceState::Degraded => 3,
            NovaServiceState::Stopped => 4,
            NovaServiceState::Failed => 5,
        }
    }

    /// The ABI value.
    pub fn as_raw(self) -> (r: u16)
        ensures
            r == self.spec_raw(),
    {
        match self {
            NovaServiceState::NotStarted => 0,
            NovaServiceState::Starting => 1,
            NovaServiceState::Running => 2,
            NovaServiceState::Degraded => 3,
            NovaServiceState::Stopped => 4,
            NovaServiceState::Failed => 5,
        }
    }

    pub open spec fn spec_label(self) -> Seq<char> {
        match self {
            NovaServiceState::NotStarted => "not-started"@,
            NovaServiceState::Starting => "starting"@,
            NovaServiceState::Running => "running"@,
            NovaServiceState::Degraded => "degraded"@,
            NovaServiceState::Stopped => "stopped"@,
            NovaServiceState::Failed => "failed"@,
        }
    }

    /// A stable kebab-case name.
    pub fn label(self) -> (r: &'static str)
        ensures
            r@ == self.spec_label(),
    {
        match self {
            NovaServiceState::NotStarted => "not-started",
            NovaServiceState::Starting => "starting",
            NovaServiceState::Running => "running",
            NovaServiceState::Degraded => "degraded",
            NovaServiceState::Stopped => "stopped",
            NovaServiceState::Failed => "failed",
        }
    }
}

/// What the system knows of a service before it runs.
#[derive(Clone, Copy, Debug, PartialEq, Eq)]
pub struct NovaServiceDescriptor {
    pub id: NovaServiceId,
    pub name: &'static str,
    pub kind: NovaServiceKind,
    pub required: bool,
    pub launch_order: u16,
}

impl NovaServiceDescriptor {
    /// A descriptor from its parts.
    pub fn new(id: NovaServiceId, name: &'static str, kind: NovaServiceKind, required: bool, launch_order: u16) -> (r: Self)
        ensures
            r == (NovaServiceDescriptor { id, name, kind, required, launch_order }),
    {
        NovaServiceDescriptor { id, name, kind, required, launch_order }
    }
}

/// A service's state and the result of its last launch.
#[derive(Clone, Copy, Debug, PartialEq, Eq)]
pub struct NovaServiceStatus {
    pub descriptor: NovaServiceDescriptor,
    pub state: NovaServiceState,
    pub last_result: NovaServiceLaunchResult,
}

impl NovaServiceStatus {
    /// A status from its parts.
    pub fn new(descriptor: NovaServiceDescriptor, state: NovaServiceState, last_result: NovaServiceLaunchResult) -> (r: Self)
        ensures
            r == (NovaServiceStatus { descriptor, state, last_result }),
    {
        NovaServiceStatus { descriptor, state, last_result }
    }

    /// A running service whose launch started it.
    pub fn running(descriptor: NovaServiceDescriptor) -> (r: Self)
        ensures
            r == (NovaServiceStatus {
                descriptor,
                state: NovaServiceState::Running,
                last_result: NovaServiceLaunchResult { target: descriptor.id, status: NovaServiceLaunchStatus::Started, detail: 0 },
            }),
    {
        Self::new(descriptor, NovaServiceState::Running, NovaServiceLaunchResult::started(descriptor.id))
    }

    /// A service not started, whose launch was deferred with `detail`.
    pub fn deferred(descriptor: NovaServiceDescriptor, detail: u64) -> (r: Self)
        ensures
            r == (NovaServiceStatus {
                descriptor,
                state: NovaServiceState::NotStarted,
                last_result: NovaServiceLaunchResult { target: descriptor.id, status: NovaServiceLaunchStatus::Deferred, detail },
            }),
    {
        Self::new(descriptor, NovaServiceState::NotStarted, NovaServiceLaunchResult::deferred(descriptor.id, detail))
    }

    /// Running and degraded services are healthy.
    pub fn is_healthy(self) -> (r: bool)
        ensures
            r == (self.state == NovaServiceState::Running || self.state == NovaServiceState::Degraded),
    {
        match self.state {
            NovaServiceState::Running => true,
            NovaServiceState::Degraded => true,
            _ => false,
        }
    }
}

/// A request that one service launch another in a scene.
#[derive(Clone, Copy, Debug, PartialEq, Eq, Structural)]
pub struct NovaServiceLaunchRequest {
    pub requester: NovaServiceId,
    pub target: NovaServiceId,
    pub scene: NovaSceneId,
    pub flags: u64,
}

impl NovaServiceLaunchRequest {
    /// A request from its parts.
    pub fn new(requester: NovaServiceId, target: NovaServiceId, scene: NovaSceneId, flags: u64) -> (r: Self)
        ensures
            r == (NovaServiceLaunchRequest { requester, target, scene, flags }),
    {
        NovaServiceLaunchRequest { requester, target, scene, flags }
    }
}

/// Outcome of a launch request.
#[derive(Clone, Copy, Debug, PartialEq, Eq, Structural)]
pub enum NovaServiceLaunchStatus {
    NotRequested,
    Started,
    AlreadyRunning,
    Deferred,
    Denied,
    Failed,
}

impl NovaServiceLaunchStatus {
    pub open spec fn spec_raw(self) -> u16 {
        match self {
            NovaServiceLaunchStatus::NotRequested => 0,
            NovaServiceLaunchStatus::Started => 1,
            NovaServiceLaunchStatus::AlreadyRunning => 2,
            NovaServiceLaunchStatus::Deferred => 3,
            NovaServiceLaunchStatus::Denied => 4,
            NovaServiceLaunchStatus::Failed => 5,
        }
    }

    /// The ABI value.
    pub fn as_raw(self) -> (r: u16)
        ensures
            r == self.spec_raw(),
    {
        match self {
            NovaServiceLaunchStatus::NotRequested => 0,
            NovaServiceLaunchStatus::Started => 1,
            NovaServiceLaunchStatus::AlreadyRunning => 2,
            NovaServiceLaunchStatus::Deferred => 3,
            NovaServiceLaunchStatus::Denied => 4,
            NovaServiceLaunchStatus::Failed => 5,
        }
    }

    pub open spec fn spec_label(self) -> Seq<char> {
        match self {
            NovaServiceLaunchStatus::NotRequested => "not-requested"@,
            NovaServiceLaunchStatus::Started => "started"@,
            NovaServiceLaunchStatus::AlreadyRunning => "already-running"@,
            NovaServiceLaunchStatus::Deferred => "deferred"@,
            NovaServiceLaunchStatus::Denied => "denied"@,
            NovaServiceLaunchStatus::Failed => "failed"@,
        }
    }

    /// A stable kebab-case name.
    pub fn label(self) -> (r: &'static str)
        ensures
            r@ == self.spec_label(),
    {
        match self {
            NovaServiceLaunchStatus::NotRequested => "not-requested",
            NovaServiceLaunchStatus::Started => "started",
            NovaServiceLaunchStatus::AlreadyRunning => "already-running",
            NovaServiceLaunchStatus::Deferred => "deferred",
            NovaServiceLaunchStatus::Denied => "denied",
            NovaServiceLaunchStatus::Failed => "failed",
        }
    }
}

/// The outcome of a launch request for a target.
#[derive(Clone, Copy, Debug, PartialEq, Eq, Structural)]
pub struct NovaServiceLaunchResult {
    pub target: NovaServiceId,
    pub status: NovaServiceLaunchStatus,
    pub detail: u64,
}

impl NovaServiceLaunchResult {
    /// A result from its parts.
    pub fn new(target: NovaServiceId, status: NovaServiceLaunchStatus, detail: u64) -> (r: Self)
        ensures
            r == (NovaServiceLaunchResult { target, status, detail }),
    {
        NovaServiceLaunchResult { target, status, detail }
    }

    /// The target was started.
    pub fn started(target: NovaServiceId) -> (r: Self)
        ensures
            r == (NovaServiceLaunchResult { target, status: NovaServiceLaunchStatus::Started, detail: 0 }),
    {
        Self::new(target, NovaServiceLaunchStatus::Started, 0)
    }

    /// The target's launch was deferred, for the reason `detail`.
    pub fn deferred(target: NovaServiceId, detail: u64) -> (r: Self)
        ensures
            r == (NovaServiceLaunchResult { target, status: NovaServiceLaunchStatus::Deferred, detail }),
    {
        Self::new(target, NovaServiceLaunchStatus::Deferred, detail)
    }
}

/// What a service asks the kernel for when it is bootstrapped.
#[derive(Clone, Copy, Debug, PartialEq, Eq, Structural)]
pub struct NovaServiceBootstrapRequirement {
    pub requested_capabilities: u64,
    pub endpoint_slots: u32,
    pub shared_memory_regions: u32,
}

impl NovaServiceBootstrapRequirement {
    /// Only known capability bits, and endpoint slots exactly when the
    /// endpoint capability is asked for, shared-memory regions exactly when
    /// the shared-memory capability is.
    pub open spec fn spec_is_valid(self) -> bool {
        &&& self.requested_capabilities & !NOVA_INIT_CAPSULE_KNOWN_CAPABILITIES_V1 == 0
        &&& (self.endpoint_slots != 0) == (self.requested_capabilities & 4 != 0)
        &&& (self.shared_memory_regions != 0) == (self.requested_capabilities & 8 != 0)
    }

    /// A requirement from its parts.
    pub fn new(requested_capabilities: u64, endpoint_slots: u32, shared_memory_regions: u32) -> (r: Self)
        ensures
            r == (NovaServiceBootstrapRequirement { requested_capabilities, endpoint_slots, shared_memory_regions }),
    {
        NovaServiceBootstrapRequirement { requested_capabilities, endpoint_slots, shared_memory_regions }
    }

    /// Every capability, one endpoint slot and one shared-memory region.
    pub fn core_required() -> (r: Self)
        ensures
            r == (NovaServiceBootstrapRequirement { requested_capabilities: 0xF, endpoint_slots: 1, shared_memory_regions: 1 }),
            r.spec_is_valid(),
    {
        assert(0xFu64 & !0xFu64 == 0 && 0xFu64 & 4 != 0 && 0xFu64 & 8 != 0 && 1u64 | 2u64 | 4u64 | 8u64 == 0xFu64) by (bit_vector);
        Self::new(
            NovaInitCapsuleCapabilityV1::BootLog.as_raw() | NovaInitCapsuleCapabilityV1::Yield.as_raw()
                | NovaInitCapsuleCapabilityV1::EndpointBootstrap.as_raw()
                | NovaInitCapsuleCapabilityV1::SharedMemoryBootstrap.as_raw(),
            1,
            1,
        )
    }

    /// The boot log alone.
    pub fn boot_log_only() -> (r: Self)
        ensures
            r == (NovaServiceBootstrapRequirement { requested_capabilities: 1, endpoint_slots: 0, shared_memory_regions: 0 }),
            r.spec_is_valid(),
    {
        assert(1u64 & !0xFu64 == 0 && 1u64 & 4 == 0 && 1u64 & 8 == 0) by (bit_vector);
        Self::new(NovaInitCapsuleCapabilityV1::BootLog.as_raw(), 0, 0)
    }

    /// Whether the requirement is consistent.
    pub fn is_valid(self) -> (r: bool)
        ensures
            r == self.spec_is_valid(),
    {
        let known_caps = (self.requested_capabilities & !NOVA_INIT_CAPSULE_KNOWN_CAPABILITIES_V1) == 0;
        let endpoint_cap = self.has_capability(NovaInitCapsuleCapabilityV1::EndpointBootstrap);
        let shared_memory_cap = self.has_capability(NovaInitCapsuleCapabilityV1::SharedMemoryBootstrap);
        known_caps && ((self.endpoint_slots == 0 && !endpoint_cap) || (self.endpoint_slots != 0 && endpoint_cap))
            && ((self.shared_memory_regions == 0 && !shared_memory_cap) || (self.shared_memory_regions != 0
            && shared_memory_cap))
    }

    /// Whether `capability` is asked for.
    pub fn has_capability(self, capability: NovaInitCapsuleCapabilityV1) -> (r: bool)
        ensures
            r == (self.requested_capabilities & capability.spec_raw() != 0),
    {
        (self.requested_capabilities & capability.as_raw()) != 0
    }
}

/// A service together with what it needs at bootstrap.
#[derive(Clone, Copy, Debug, PartialEq, Eq)]
pub struct NovaServiceLaunchSpec {
    pub descriptor: NovaServiceDescriptor,
    pub bootstrap: NovaServiceBootstrapRequirement,
}

impl NovaServiceLaunchSpec {
    pub open spec fn spec_is_valid(self) -> bool {
        &&& self.descriptor.id.0 != 0
        &&& self.bootstrap.spec_is_valid()
        &&& service_name_encodable(self.descriptor.name.spec_bytes())
    }

    /// A launch spec from its parts.
    pub fn new(descriptor: NovaServiceDescriptor, bootstrap: NovaServiceBootstrapRequirement) -> (r: Self)
        ensures
            r == (NovaServiceLaunchSpec { descriptor, bootstrap }),
    {
        NovaServiceLaunchSpec { descriptor, bootstrap }
    }

    /// A named service with a consistent requirement and an encodable name.
    pub fn is_valid(self) -> (r: bool)
        ensures
            r == self.spec_is_valid(),
    {
        !self.descriptor.id.is_empty() && self.bootstrap.is_valid() && self.encoded_service_name().is_some()
    }

    /// The request that `requester` launch this service in `scene`.
    pub fn launch_request(self, requester: NovaServiceId, scene: NovaSceneId) -> (r: NovaServiceLaunchRequest)
        ensures
            r == (NovaServiceLaunchRequest { requester, target: self.descriptor.id, scene, flags: 0 }),
    {
        NovaServiceLaunchRequest::new(requester, self.descriptor.id, scene, 0)
    }

    /// The service's name as an init-capsule name field.
    pub fn encoded_service_name(self) -> (r: Option<[u8; 16]>)
        ensures
            r is Some <==> service_name_encodable(self.descriptor.name.spec_bytes()),
            r matches Some(e) ==> e@ == padded_service_name(self.descriptor.name.spec_bytes()),
    {
        encode_init_capsule_service_name(self.descriptor.name)
    }

    /// The version-1 bootstrap context for this service, where its name is
    /// encodable.
    pub fn bootstrap_context_v1(self) -> (r: Option<NovaBootstrapTaskContextV1>)
        ensures
            r is Some <==> service_name_encodable(self.descriptor.name.spec_bytes()),
            r matches Some(c) ==> c.spec_is_valid() && c.service_name@ == padded_service_name(self.descriptor.name.spec_bytes())
                && c.requested_capabilities == self.bootstrap.requested_capabilities
                && c.endpoint_slots == self.bootstrap.endpoint_slots
                && c.shared_memory_regions == self.bootstrap.shared_memory_regions,
    {
        let name = match self.encoded_service_name() {
            Some(n) => n,
            None => return None,
        };
        let context = NovaBootstrapTaskContextV1::new(
            name,
            self.bootstrap.requested_capabilities,
            self.bootstrap.endpoint_slots,
            self.bootstrap.shared_memory_regions,
        );
        proof {
            let bytes = self.descriptor.name.spec_bytes();
            lemma_service_name_round_trip(bytes, name@, 0);
            assert(crate::init_capsule::service_name_split(name@, bytes.len() as int));
        }
        if context.is_valid() {
            Some(context)
        } else {
            None
        }
    }
}

/// How far a service's kernel objects have come.
#[derive(Clone, Copy, Debug, PartialEq, Eq, Structural)]
pub enum NovaServiceBindingState {
    ModelOnly,
    Planned,
    KernelTaskReady,
    EndpointReady,
    SharedMemoryReady,
    KernelBacked,
}

impl NovaServiceBindingState {
    pub open spec fn spec_raw(self) -> u16 {
        match self {
            NovaServiceBindingState::ModelOnly => 0,
            NovaServiceBindingState::Planned => 1,
            NovaServiceBindingState::KernelTaskReady => 2,
            NovaServiceBindingState::EndpointReady => 3,
            NovaServiceBindingState::SharedMemoryReady => 4,
            NovaServiceBindingState::KernelBacked => 5,
        }
    }

    /// The ABI value.
    pub fn as_raw(self) -> (r: u16)
        ensures
            r == self.spec_raw(),
    {
        match self {
            NovaServiceBindingState::ModelOnly => 0,
            NovaServiceBindingState::Planned => 1,
            NovaServiceBindingState::KernelTaskReady => 2,
            NovaServiceBindingState::EndpointReady => 3,
            NovaServiceBindingState::SharedMemoryReady => 4,
            NovaServiceBindingState::KernelBacked => 5,
        }
    }

    pub open spec fn spec_label(self) -> Seq<char> {
        match self {
            NovaServiceBindingState::ModelOnly => "model-only"@,
            NovaServiceBindingState::Planned => "planned"@,
            NovaServiceBindingState::KernelTaskReady => "kernel-task-ready"@,
            NovaServiceBindingState::EndpointReady => "endpoint-ready"@,
            NovaServiceBindingState::SharedMemoryReady => "shared-memory-ready"@,
            NovaServiceBindingState::KernelBacked => "kernel-backed"@,
        }
    }

    /// A stable kebab-case name.
    pub fn label(self) -> (r: &'static str)
        ensures
            r@ == self.spec_label(),
    {
        match self {
            NovaServiceBindingState::ModelOnly => "model-only",
            NovaServiceBindingState::Planned => "planned",
            NovaServiceBindingState::KernelTaskReady => "kernel-task-ready",
            NovaServiceBindingState::EndpointReady => "endpoint-ready",
            NovaServiceBindingState::SharedMemoryReady => "shared-memory-ready",
            NovaServiceBindingState::KernelBacked => "kernel-backed",
        }
    }
}

/// The kernel objects that back a service.
#[derive(Clone, Copy, Debug, PartialEq, Eq, Structural)]
pub struct NovaServiceKernelBinding {
    pub service: NovaServiceId,
    pub task: NovaTaskId,
    pub control_endpoint: NovaEndpointId,
    pub shared_memory_region: NovaSharedMemoryRegionId,
    pub state: NovaServiceBindingState,
    pub health_generation: u64,
}

impl NovaServiceKernelBinding {
    /// A service that exists only in the model.
    pub fn model_only(service: NovaServiceId) -> (r: Self)
        ensures
            r == (NovaServiceKernelBinding {
                service,
                task: NovaTaskId(0),
                control_endpoint: NovaEndpointId(0),
                shared_memory_region: NovaSharedMemoryRegionId(0),
                state: NovaServiceBindingState::ModelOnly,
                health_generation: 0,
            }),
    {
        NovaServiceKernelBinding {
            service,
            task: NovaTaskId::unassigned(),
            control_endpoint: NovaEndpointId::unassigned(),
            shared_memory_region: NovaSharedMemoryRegionId::unassigned(),
            state: NovaServiceBindingState::ModelOnly,
            health_generation: 0,
        }
    }

    pub open spec fn spec_planned(service: NovaServiceId, task: u64, control_endpoint: u64, shared_memory_region: u64) -> Self {
        NovaServiceKernelBinding {
            service,
            task: NovaTaskId(task),
            control_endpoint: NovaEndpointId(control_endpoint),
            shared_memory_region: NovaSharedMemoryRegionId(shared_memory_region),
            state: NovaServiceBindingState::Planned,
            health_generation: 0,
        }
    }

    /// Kernel objects chosen but not yet backed.
    pub fn planned(
        service: NovaServiceId,
        task: NovaTaskId,
        control_endpoint: NovaEndpointId,
        shared_memory_region: NovaSharedMemoryRegionId,
    ) -> (r: Self)
        ensures
            r == (NovaServiceKernelBinding {
                service,
                task,
                control_endpoint,
                shared_memory_region,
                state: NovaServiceBindingState::Planned,
                health_generation: 0,
            }),
    {
        NovaServiceKernelBinding {
            service,
            task,
            control_endpoint,
            shared_memory_region,
            state: NovaServiceBindingState::Planned,
            health_generation: 0,
        }
    }

    /// Kernel objects that back the service, at a health generation.
    pub fn kernel_backed(
        service: NovaServiceId,
        task: NovaTaskId,
        control_endpoint: NovaEndpointId,
        shared_memory_region: NovaSharedMemoryRegionId,
        health_generation: u64,
    ) -> (r: Self)
        ensures
            r == (NovaServiceKernelBinding {
                service,
                task,
                control_endpoint,
                shared_memory_region,
                state: NovaServiceBindingState::KernelBacked,
                health_generation,
            }),
    {
        NovaServiceKernelBinding {
            service,
            task,
            control_endpoint,
            shared_memory_region,
            state: NovaServiceBindingState::KernelBacked,
            health_generation,
        }
    }

    pub open spec fn spec_has_kernel_objects(self) -> bool {
        self.task.0 != 0 && self.control_endpoint.0 != 0 && self.shared_memory_region.0 != 0
    }

    pub open spec fn spec_can_publish_kernel_health(self) -> bool {
        self.spec_has_kernel_objects() && self.state == NovaServiceBindingState::KernelBacked && self.health_generation != 0
    }

    /// Whether task, endpoint and region are all assigned.
    pub fn has_kernel_objects(self) -> (r: bool)
        ensures
            r == self.spec_has_kernel_objects(),
    {
        self.task.is_assigned() && self.control_endpoint.is_assigned() && self.shared_memory_region.is_assigned()
    }

    /// Whether the binding is kernel backed, with its objects and a health
    /// generation, so that health can be published.
    pub fn can_publish_kernel_health(self) -> (r: bool)
        ensures
            r == self.spec_can_publish_kernel_health(),
    {
        self.has_kernel_objects() && match self.state {
            NovaServiceBindingState::KernelBacked => true,
            _ => false,
        } && self.health_generation != 0
    }
}

/// A service, its launch request and its kernel binding.
#[derive(Clone, Copy, Debug, PartialEq, Eq)]
pub struct NovaServiceKernelLaunchPlan {
    pub descriptor: NovaServiceDescriptor,
    pub request: NovaServiceLaunchRequest,
    pub binding: NovaServiceKernelBinding,
}

impl NovaServiceKernelLaunchPlan {
    /// A plan from its parts.
    pub fn new(descriptor: NovaServiceDescriptor, request: NovaServiceLaunchRequest, binding: NovaServiceKernelBinding) -> (r: Self)
        ensures
            r == (NovaServiceKernelLaunchPlan { descriptor, request, binding }),
    {
        NovaServiceKernelLaunchPlan { descriptor, request, binding }
    }

    /// A required service needs the kernel to launch it until its binding
    /// can publish health.
    pub fn requires_kernel_launch(self) -> (r: bool)
        ensures
            r == (self.descriptor.required && !self.binding.spec_can_publish_kernel_health()),
    {
        self.descriptor.required && !self.binding.can_publish_kernel_health()
    }
}

/// A policy verdict.
#[derive(Clone, Copy, Debug, PartialEq, Eq, Structural)]
pub enum NovaPolicyDecision {
    Allow,
    Deny,
    Ask,
}

impl NovaPolicyDecision {
    pub open spec fn spec_raw(self) -> u16 {
        match self {
            NovaPolicyDecision::Allow => 1,
            NovaPolicyDecision::Deny => 2,
            NovaPolicyDecision::Ask => 3,
        }
    }

    /// The ABI value.
    pub fn as_raw(self) -> (r: u16)
        ensures
            r == self.spec_raw(),
    {
        match self {
            NovaPolicyDecision::Allow => 1,
            NovaPolicyDecision::Deny => 2,
            NovaPolicyDecision::Ask => 3,
        }
    }

    pub open spec fn spec_label(self) -> Seq<char> {
        match self {
            NovaPolicyDecision::Allow => "allow"@,
            NovaPolicyDecision::Deny => "deny"@,
            NovaPolicyDecision::Ask => "ask"@,
        }
    }

    /// A stable kebab-case name.
    pub fn label(self) -> (r: &'static str)
        ensures
            r@ == self.spec_label(),
    {
        match self {
            NovaPolicyDecision::Allow => "allow",
            NovaPolicyDecision::Deny => "deny",
            NovaPolicyDecision::Ask => "ask",
        }
    }
}

/// What a policy request asks to do.
#[derive(Clone, Copy, Debug, PartialEq, Eq, Structural)]
pub enum NovaPolicyAction {
    LaunchService,
    StopService,
    RouteIntent,
    AccessMemory,
    AppAction,
    DelegateToAgent,
}

impl NovaPolicyAction {
    pub open spec fn spec_raw(self) -> u16 {
        match self {
            NovaPolicyAction::LaunchService => 1,
            NovaPolicyAction::StopService => 2,
            NovaPolicyAction::RouteIntent => 3,
            NovaPolicyAction::AccessMemory => 4,
            NovaPolicyAction::AppAction => 5,
            NovaPolicyAction::DelegateToAgent => 6,
        }
    }

    /// The ABI value.
    pub fn as_raw(self) -> (r: u16)
        ensures
            r == self.spec_raw(),
    {
        match self {
            NovaPolicyAction::LaunchService => 1,
            NovaPolicyAction::StopService => 2,
            NovaPolicyAction::RouteIntent => 3,
            NovaPolicyAction::AccessMemory => 4,
            NovaPolicyAction::AppAction => 5,
            NovaPolicyAction::DelegateToAgent => 6,
        }
    }
}

/// What a policy request is about.
#[derive(Clone, Copy, Debug, PartialEq, Eq, Structural)]
pub enum NovaPolicyScope {
    System,
    Service(NovaServiceId),
    Scene(NovaSceneId),
    Agent(NovaAgentId),
    App(NovaAppId),
}

/// A request for a policy verdict.
#[derive(Clone, Copy, Debug, PartialEq, Eq, Structural)]
pub struct NovaPolicyRequest {
    pub subject_service: NovaServiceId,
    pub subject_agent: NovaAgentId,
    pub action: NovaPolicyAction,
    pub scope: NovaPolicyScope,
}

/// Kinds of intent.
#[derive(Clone, Copy, Debug, PartialEq, Eq, Structural)]
pub enum NovaIntentKind {
    LaunchService,
    OpenApp,
    SwitchScene,
    RequestStatus,
    Custom,
}

impl NovaIntentKind {
    pub open spec fn spec_raw(self) -> u16 {
        match self {
            NovaIntentKind::LaunchService => 1,
            NovaIntentKind::OpenApp => 2,
            NovaIntentKind::SwitchScene => 3,
            NovaIntentKind::RequestStatus => 4,
            NovaIntentKind::Custom => 0xffff,
        }
    }

    /// The ABI value.
    pub fn as_raw(self) -> (r: u16)
        ensures
            r == self.spec_raw(),
    {
        match self {
            NovaIntentKind::LaunchService => 1,
            NovaIntentKind::OpenApp => 2,
            NovaIntentKind::SwitchScene => 3,
            NovaIntentKind::RequestStatus => 4,
            NovaIntentKind::Custom => 0xffff,
        }
    }

    pub open spec fn spec_label(self) -> Seq<char> {
        match self {
            NovaIntentKind::LaunchService => "launch-service"@,
            NovaIntentKind::OpenApp => "open-app"@,
            NovaIntentKind::SwitchScene => "switch-scene"@,
            NovaIntentKind::RequestStatus => "request-status"@,
            NovaIntentKind::Custom => "custom"@,
        }
    }

    /// A stable kebab-case name.
    pub fn label(self) -> (r: &'static str)
        ensures
            r@ == self.spec_label(),
    {
        match self {
            NovaIntentKind::LaunchService => "launch-service",
            NovaIntentKind::OpenApp => "open-app",
            NovaIntentKind::SwitchScene => "switch-scene",
            NovaIntentKind::RequestStatus => "request-status",
            NovaIntentKind::Custom => "custom",
        }
    }
}

/// An intent as an agent raised it.
#[derive(Clone, Copy, Debug, PartialEq, Eq, Structural)]
pub struct NovaIntentEnvelope {
    pub id: u64,
    pub source_agent: NovaAgentId,
    pub scene: NovaSceneId,
    pub target_service: NovaServiceId,
    pub kind: NovaIntentKind,
    pub policy_hint: NovaPolicyDecision,
}

/// A request to switch scenes.
#[derive(Clone, Copy, Debug, PartialEq, Eq, Structural)]
pub struct NovaSceneSwitchRequest {
    pub requested_by: NovaAgentId,
    pub current_scene: NovaSceneId,
    pub target_scene: NovaSceneId,
}

impl NovaSceneSwitchRequest {
    /// A request from its parts.
    pub fn new(requested_by: NovaAgentId, current_scene: NovaSceneId, target_scene: NovaSceneId) -> (r: Self)
        ensures
            r == (NovaSceneSwitchRequest { requested_by, current_scene, target_scene }),
    {
        NovaSceneSwitchRequest { requested_by, current_scene, target_scene }
    }

    /// A request whose target scene is not resolved yet.
    pub fn unresolved(requested_by: NovaAgentId, current_scene: NovaSceneId) -> (r: Self)
        ensures
            r == (NovaSceneSwitchRequest { requested_by, current_scene, target_scene: NovaSceneId(0) }),
    {
        Self::new(requested_by, current_scene, NovaSceneId::new(0))
    }

    /// Whether a target scene is set.
    pub fn has_target(self) -> (r: bool)
        ensures
            r == (self.target_scene.0 != 0),
    {
        !self.target_scene.is_empty()
    }
}

/// A request to act on an app.
#[derive(Clone, Copy, Debug, PartialEq, Eq, Structural)]
pub struct NovaAppActionRequest {
    pub app: NovaAppId,
    pub scene: NovaSceneId,
    pub requested_by: NovaAgentId,
    pub action: NovaAppActionKind,
}

impl NovaAppActionRequest {
    /// A request from its parts.
    pub fn new(app: NovaAppId, scene: NovaSceneId, requested_by: NovaAgentId, action: NovaAppActionKind) -> (r: Self)
        ensures
            r == (NovaAppActionRequest { app, scene, requested_by, action }),
    {
        NovaAppActionRequest { app, scene, requested_by, action }
    }

    /// A request whose app is not resolved yet.
    pub fn unresolved(scene: NovaSceneId, requested_by: NovaAgentId, action: NovaAppActionKind) -> (r: Self)
        ensures
            r == (NovaAppActionRequest { app: NovaAppId(0), scene, requested_by, action }),
    {
        Self::new(NovaAppId::new(0), scene, requested_by, action)
    }

    /// Whether an app is set.
    pub fn has_target_app(self) -> (r: bool)
        ensures
            r == (self.app.0 != 0),
    {
        !self.app.is_empty()
    }
}

/// A request for a service's status.
#[derive(Clone, Copy, Debug, PartialEq, Eq, Structural)]
pub struct NovaStatusRequest {
    pub requested_by: NovaAgentId,
    pub scene: NovaSceneId,
    pub target_service: NovaServiceId,
}

impl NovaStatusRequest {
    /// A request from its parts.
    pub fn new(requested_by: NovaAgentId, scene: NovaSceneId, target_service: NovaServiceId) -> (r: Self)
        ensures
            r == (NovaStatusRequest { requested_by, scene, target_service }),
    {
        NovaStatusRequest { requested_by, scene, target_service }
    }
}

/// The typed request an intent resolves to.
#[derive(Clone, Copy, Debug, PartialEq, Eq, Structural)]
pub enum NovaIntentDispatch {
    LaunchService(NovaServiceLaunchRequest),
    SwitchScene(NovaSceneSwitchRequest),
    AppAction(NovaAppActionRequest),
    Status(NovaStatusRequest),
}

impl NovaIntentDispatch {
    pub open spec fn spec_label(self) -> Seq<char> {
        match self {
            NovaIntentDispatch::LaunchService(_) => "launch-service"@,
            NovaIntentDispatch::SwitchScene(_) => "switch-scene"@,
            NovaIntentDispatch::AppAction(_) => "app-action"@,
            NovaIntentDispatch::Status(_) => "status"@,
        }
    }

    /// A stable kebab-case name.
    pub fn label(self) -> (r: &'static str)
        ensures
            r@ == self.spec_label(),
    {
        match self {
            NovaIntentDispatch::LaunchService(_) => "launch-service",
            NovaIntentDispatch::SwitchScene(_) => "switch-scene",
            NovaIntentDispatch::AppAction(_) => "app-action",
            NovaIntentDispatch::Status(_) => "status",
        }
    }
}

/// An intent projected onto the service that handles it.
#[derive(Clone, Copy, Debug, PartialEq, Eq, Structural)]
pub struct NovaIntentProjection {
    pub intent_id: u64,
    pub target_service: NovaServiceId,
    pub dispatch: NovaIntentDispatch,
}

impl NovaIntentProjection {
    /// A projection from its parts.
    pub fn new(intent_id: u64, target_service: NovaServiceId, dispatch: NovaIntentDispatch) -> (r: Self)
        ensures
            r == (NovaIntentProjection { intent_id, target_service, dispatch }),
    {
        NovaIntentProjection { intent_id, target_service, dispatch }
    }

    /// The label of the dispatch.
    pub fn dispatch_label(self) -> (r: &'static str)
        ensures
            r@ == self.dispatch.spec_label(),
    {
        self.dispatch.label()
    }
}

/// How a scene presents itself.
#[derive(Clone, Copy, Debug, PartialEq, Eq, Structural)]
pub enum NovaSceneMode {
    Consumer,
    Pro,
    Operator,
}

impl NovaSceneMode {
    pub open spec fn spec_raw(self) -> u16 {
        match self {
            NovaSceneMode::Consumer => 1,
            NovaSceneMode::Pro => 2,
            NovaSceneMode::Operator => 3,
        }
    }

    /// The ABI value.
    pub fn as_raw(self) -> (r: u16)
        ensures
            r == self.spec_raw(),
    {
        match self {
            NovaSceneMode::Consumer => 1,
            NovaSceneMode::Pro => 2,
            NovaSceneMode::Operator => 3,
        }
    }

    pub open spec fn spec_label(self) -> Seq<char> {
        match self {
            NovaSceneMode::Consumer => "consumer"@,
            NovaSceneMode::Pro => "pro"@,
            NovaSceneMode::Operator => "operator"@,
        }
    }

    /// A stable kebab-case name.
    pub fn label(self) -> (r: &'static str)
        ensures
            r@ == self.spec_label(),
    {
        match self {
            NovaSceneMode::Consumer => "consumer",
            NovaSceneMode::Pro => "pro",
            NovaSceneMode::Operator => "operator",
        }
    }
}

/// A scene.
#[derive(Clone, Copy, Debug, PartialEq, Eq)]
pub struct NovaSceneDescriptor {
    pub id: NovaSceneId,
    pub name: &'static str,
    pub mode: NovaSceneMode,
    pub owner_agent: NovaAgentId,
    pub app_count: u16,
    pub agent_count: u16,
}

/// How an app is bridged in.
#[derive(Clone, Copy, Debug, PartialEq, Eq, Structural)]
pub enum NovaAppBridgeKind {
    Native,
    Compatibility,
    Remote,
}

impl NovaAppBridgeKind {
    pub open spec fn spec_raw(self) -> u16 {
        match self {
            NovaAppBridgeKind::Native => 1,
            NovaAppBridgeKind::Compatibility => 2,
            NovaAppBridgeKind::Remote => 3,
        }
    }

    /// The ABI value.
    pub fn as_raw(self) -> (r: u16)
        ensures
            r == self.spec_raw(),
    {
        match self {
            NovaAppBridgeKind::Native => 1,
            NovaAppBridgeKind::Compatibility => 2,
            NovaAppBridgeKind::Remote => 3,
        }
    }

    pub open spec fn spec_label(self) -> Seq<char> {
        match self {
            NovaAppBridgeKind::Native => "native"@,
            NovaAppBridgeKind::Compatibility => "compatibility"@,
            NovaAppBridgeKind::Remote => "remote"@,
        }
    }

    /// A stable kebab-case name.
    pub fn label(self) -> (r: &'static str)
        ensures
            r@ == self.spec_label(),
    {
        match self {
            NovaAppBridgeKind::Native => "native",
            NovaAppBridgeKind::Compatibility => "compatibility",
            NovaAppBridgeKind::Remote => "remote",
        }
    }
}

/// What can be done to an app.
#[derive(Clone, Copy, Debug, PartialEq, Eq, Structural)]
pub enum NovaAppActionKind {
    Launch,
    Open,
    Focus,
    Close,
    RequestAction,
}

impl NovaAppActionKind {
    pub open spec fn spec_raw(self) -> u16 {
        match self {
            NovaAppActionKind::Launch => 1,
            NovaAppActionKind::Open => 2,
            NovaAppActionKind::Focus => 3,
            NovaAppActionKind::Close => 4,
            NovaAppActionKind::RequestAction => 5,
        }
    }

    /// The ABI value.
    pub fn as_raw(self) -> (r: u16)
        ensures
            r == self.spec_raw(),
    {
        match self {
            NovaAppActionKind::Launch => 1,
            NovaAppActionKind::Open => 2,
            NovaAppActionKind::Focus => 3,
            NovaAppActionKind::Close => 4,
            NovaAppActionKind::RequestAction => 5,
        }
    }

    pub open spec fn spec_label(self) -> Seq<char> {
        match self {
            NovaAppActionKind::Launch => "launch"@,
            NovaAppActionKind::Open => "open"@,
            NovaAppActionKind::Focus => "focus"@,
            NovaAppActionKind::Close => "close"@,
            NovaAppActionKind::RequestAction => "request-action"@,
        }
    }

    /// A stable kebab-case name.
    pub fn label(self) -> (r: &'static str)
        ensures
            r@ == self.spec_label(),
    {
        match self {
            NovaAppActionKind::Launch => "launch",
            NovaAppActionKind::Open => "open",
            NovaAppActionKind::Focus => "focus",
            NovaAppActionKind::Close => "close",
            NovaAppActionKind::RequestAction => "request-action",
        }
    }
}

/// An app.
#[derive(Clone, Copy, Debug, PartialEq, Eq)]
pub struct NovaAppDescriptor {
    pub id: NovaAppId,
    pub name: &'static str,
    pub bridge: NovaAppBridgeKind,
    pub action_count: u16,
}

} // verus!
