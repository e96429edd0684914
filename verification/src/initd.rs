//! The init service's runtime model: the core services it launches, in what
//! order and with what bootstrap grant, their boot status, and the kernel
//! launch plan it hands to the kernel.
use vstd::prelude::*;
use vstd::string::StringSliceAdditionalSpecFns;
use vstd::utf8::{encode_utf8, is_ascii_chars, is_ascii_chars_encode_utf8};
use crate::init_capsule::{is_service_name_byte, service_name_encodable};
use crate::syscall::NovaSyscallResultV1;
use crate::service::{
    NovaEndpointId, NovaSceneId, NovaServiceBootstrapRequirement, NovaServiceDescriptor, NovaServiceId,
    NovaServiceKernelBinding, NovaServiceKernelLaunchPlan, NovaServiceKind, NovaServiceLaunchRequest,
    NovaServiceLaunchResult, NovaServiceLaunchSpec, NovaServiceLaunchStatus, NovaServiceState, NovaServiceStatus,
    NovaSharedMemoryRegionId, NovaTaskId, NovaServiceBindingState,
};

verus! {

// ---------------------------------------------------------------------------
// Counting
// ---------------------------------------------------------------------------

/// How many elements of `s` satisfy `p`.
pub open spec fn count_where<T>(s: Seq<T>, p: spec_fn(T) -> bool) -> nat
    decreases s.len(),
{
    if s.len() == 0 {
        0
    } else {
        count_where(s.drop_last(), p) + if p(s.last()) { 1nat } else { 0nat }
    }
}

/// Counting over one more element.
pub proof fn lemma_count_where_push<T>(s: Seq<T>, i: int, p: spec_fn(T) -> bool)
    requires
        0 <= i < s.len(),
    ensures
        count_where(s.take(i + 1), p) == count_where(s.take(i), p) + if p(s[i]) { 1nat } else { 0nat },
{
    assert(s.take(i + 1).drop_last() =~= s.take(i));
}

/// No more elements satisfy a stronger predicate, and exactly as many do
/// only when every element that satisfies the weaker satisfies the stronger.
pub proof fn lemma_count_where_subset<T>(s: Seq<T>, p: spec_fn(T) -> bool, q: spec_fn(T) -> bool)
    requires
        forall|x: T| #[trigger] q(x) ==> p(x),
    ensures
        count_where(s, q) <= count_where(s, p),
        count_where(s, q) == count_where(s, p) <==> forall|i: int| 0 <= i < s.len() ==> (p(#[trigger] s[i]) ==> q(s[i])),
    decreases s.len(),
{
    if s.len() != 0 {
        let t = s.drop_last();
        lemma_count_where_subset(t, p, q);
        if count_where(s, q) == count_where(s, p) {
            assert forall|i: int| 0 <= i < s.len() && p(#[trigger] s[i]) implies q(s[i]) by {
                if i < t.len() {
                    assert(s[i] == t[i]);
                }
            }
        }
        if forall|i: int| 0 <= i < s.len() ==> (p(#[trigger] s[i]) ==> q(s[i])) {
            assert forall|i: int| 0 <= i < t.len() && p(#[trigger] t[i]) implies q(t[i]) by {
                assert(s[i] == t[i]);
            }
            assert(p(s[s.len() - 1]) ==> q(s[s.len() - 1]));
        }
    }
}

/// The first element of `s` with service `id`, as found by a search from the
/// front, is at `i`: `r` holds it, and no earlier element has that service.
pub open spec fn first_with<T>(s: Seq<T>, id_of: spec_fn(T) -> NovaServiceId, id: NovaServiceId, r: Option<T>) -> bool {
    match r {
        Some(x) => exists|i: int| 0 <= i < s.len() && s[i] == x && id_of(s[i]) == id && forall|j: int| 0 <= j < i ==> id_of(#[trigger] s[j]) != id,
        None => forall|j: int| 0 <= j < s.len() ==> id_of(#[trigger] s[j]) != id,
    }
}

// ---------------------------------------------------------------------------
// The core services
// ---------------------------------------------------------------------------

/// The identifier of the core service at launch position `i`.
pub open spec fn core_service_id(i: int) -> u64 {
    if i == 0 {
        0x504F_4C49_4359_4431u64
    } else if i == 1 {
        0x4147_454E_5444_3031u64
    } else if i == 2 {
        0x4D45_4D44_5F5F_3031u64
    } else if i == 3 {
        0x4143_4345_4C44_3031u64
    } else if i == 4 {
        0x494E_5445_4E54_4431u64
    } else if i == 5 {
        0x5343_454E_4544_3031u64
    } else if i == 6 {
        0x4150_5042_5247_3031u64
    } else {
        0x5348_454C_4C44_3031u64
    }
}

/// The name of the core service at launch position `i`.
pub open spec fn core_service_name(i: int) -> Seq<char> {
    if i == 0 {
        "policyd"@
    } else if i == 1 {
        "agentd"@
    } else if i == 2 {
        "memd"@
    } else if i == 3 {
        "acceld"@
    } else if i == 4 {
        "intentd"@
    } else if i == 5 {
        "scened"@
    } else if i == 6 {
        "appbridged"@
    } else {
        "shelld"@
    }
}

/// The kind of the core service at launch position `i`: four core services,
/// two interaction services, the app bridge and the operator shell.
pub open spec fn core_service_kind(i: int) -> NovaServiceKind {
    if i < 4 {
        NovaServiceKind::Core
    } else if i < 6 {
        NovaServiceKind::Interaction
    } else if i == 6 {
        NovaServiceKind::Bridge
    } else {
        NovaServiceKind::Operator
    }
}

/// `d` describes the core service at launch position `i` (0 to 7): its
/// identifier, name and kind, required unless it is the shell, launched at
/// order `10 * (i + 1)`.
pub open spec fn is_core_descriptor(d: NovaServiceDescriptor, i: int) -> bool {
    &&& d.id.0 == core_service_id(i)
    &&& d.name@ == core_service_name(i)
    &&& d.kind == core_service_kind(i)
    &&& d.required == (i < 7)
    &&& d.launch_order == 10 * (i + 1)
}

/// A character allowed in a service name.
pub open spec fn is_service_name_char(c: char) -> bool {
    ('a' <= c && c <= 'z') || ('0' <= c && c <= '9') || c == '_' || c == '-' || c == '.'
}

/// A name of 1 to 16 allowed characters can be stored in a name field.
pub proof fn lemma_service_name_chars_encodable(name: Seq<char>)
    requires
        1 <= name.len() <= 16,
        forall|i: int| 0 <= i < name.len() ==> is_service_name_char(#[trigger] name[i]),
    ensures
        service_name_encodable(encode_utf8(name)),
{
    assert(is_ascii_chars(name));
    is_ascii_chars_encode_utf8(name);
    let b = encode_utf8(name);
    assert forall|i: int| 0 <= i < b.len() implies is_service_name_byte(#[trigger] b[i]) by {
        assert(is_service_name_char(name[i]));
        assert(name[i] as u8 == b[i]);
    }
}

/// Every core service has a name that can be stored in a name field.
pub proof fn lemma_core_service_name_encodable(i: int)
    requires
        0 <= i < 8,
    ensures
        service_name_encodable(encode_utf8(core_service_name(i))),
{
    reveal_strlit("policyd");
    reveal_strlit("agentd");
    reveal_strlit("memd");
    reveal_strlit("acceld");
    reveal_strlit("intentd");
    reveal_strlit("scened");
    reveal_strlit("appbridged");
    reveal_strlit("shelld");
    lemma_service_name_chars_encodable(core_service_name(i));
}

/// `d` describes the init service: a required core service launched first.
pub open spec fn is_initd_descriptor(d: NovaServiceDescriptor) -> bool {
    &&& d.id.0 == 0x494E_4954_445F_3031u64
    &&& d.name@ == "initd"@
    &&& d.kind == NovaServiceKind::Core
    &&& d.required
    &&& d.launch_order == 0
}

/// The init service itself.
pub fn initd_descriptor() -> (r: NovaServiceDescriptor)
    ensures
        is_initd_descriptor(r),
{
    NovaServiceDescriptor::new(NovaServiceId::initd(), "initd", NovaServiceKind::Core, true, 0)
}

pub fn policyd_descriptor() -> (r: NovaServiceDescriptor)
    ensures
        is_core_descriptor(r, 0),
{
    NovaServiceDescriptor::new(NovaServiceId::policyd(), "policyd", NovaServiceKind::Core, true, 10)
}

pub fn agentd_descriptor() -> (r: NovaServiceDescriptor)
    ensures
        is_core_descriptor(r, 1),
{
    NovaServiceDescriptor::new(NovaServiceId::agentd(), "agentd", NovaServiceKind::Core, true, 20)
}

pub fn memd_descriptor() -> (r: NovaServiceDescriptor)
    ensures
        is_core_descriptor(r, 2),
{
    NovaServiceDescriptor::new(NovaServiceId::memd(), "memd", NovaServiceKind::Core, true, 30)
}

pub fn acceld_descriptor() -> (r: NovaServiceDescriptor)
    ensures
        is_core_descriptor(r, 3),
{
    NovaServiceDescriptor::new(NovaServiceId::acceld(), "acceld", NovaServiceKind::Core, true, 40)
}

pub fn intentd_descriptor() -> (r: NovaServiceDescriptor)
    ensures
        is_core_descriptor(r, 4),
{
    NovaServiceDescriptor::new(NovaServiceId::intentd(), "intentd", NovaServiceKind::Interaction, true, 50)
}

pub fn scened_descriptor() -> (r: NovaServiceDescriptor)
    ensures
        is_core_descriptor(r, 5),
{
    NovaServiceDescriptor::new(NovaServiceId::scened(), "scened", NovaServiceKind::Interaction, true, 60)
}

pub fn appbridged_descriptor() -> (r: NovaServiceDescriptor)
    ensures
        is_core_descriptor(r, 6),
{
    NovaServiceDescriptor::new(NovaServiceId::appbridged(), "appbridged", NovaServiceKind::Bridge, true, 70)
}

pub fn shelld_descriptor() -> (r: NovaServiceDescriptor)
    ensures
        is_core_descriptor(r, 7),
{
    NovaServiceDescriptor::new(NovaServiceId::shelld(), "shelld", NovaServiceKind::Operator, false, 80)
}

/// The core services in launch order: policy, agents, memory, accelerators,
/// intents, scenes, the app bridge, and the optional shell last.
pub fn core_service_launch_order() -> (r: Vec<NovaServiceDescriptor>)
    ensures
        r@.len() == 8,
        forall|i: int| 0 <= i < 8 ==> is_core_descriptor(#[trigger] r@[i], i),
{
    vec![
        policyd_descriptor(),
        agentd_descriptor(),
        memd_descriptor(),
        acceld_descriptor(),
        intentd_descriptor(),
        scened_descriptor(),
        appbridged_descriptor(),
        shelld_descriptor(),
    ]
}

/// `s` is the boot status of the core service at launch position `i`: a
/// required service running, started by its launch; the shell not started,
/// its launch deferred with detail 1.
pub open spec fn is_core_boot_status(s: NovaServiceStatus, i: int) -> bool {
    &&& is_core_descriptor(s.descriptor, i)
    &&& s.state == if i < 7 { NovaServiceState::Running } else { NovaServiceState::NotStarted }
    &&& s.last_result == if i < 7 {
        NovaServiceLaunchResult { target: s.descriptor.id, status: NovaServiceLaunchStatus::Started, detail: 0 }
    } else {
        NovaServiceLaunchResult { target: s.descriptor.id, status: NovaServiceLaunchStatus::Deferred, detail: 1 }
    }
}

/// The boot status of each core service: every required service running,
/// the shell deferred.
pub fn core_service_boot_statuses() -> (r: Vec<NovaServiceStatus>)
    ensures
        r@.len() == 8,
        forall|i: int| 0 <= i < 8 ==> is_core_boot_status(#[trigger] r@[i], i),
{
    vec![
        NovaServiceStatus::running(policyd_descriptor()),
        NovaServiceStatus::running(agentd_descriptor()),
        NovaServiceStatus::running(memd_descriptor()),
        NovaServiceStatus::running(acceld_descriptor()),
        NovaServiceStatus::running(intentd_descriptor()),
        NovaServiceStatus::running(scened_descriptor()),
        NovaServiceStatus::running(appbridged_descriptor()),
        NovaServiceStatus::deferred(shelld_descriptor(), 1),
    ]
}

/// `s` is the launch spec of the core service at launch position `i`: every
/// capability, one endpoint slot and one shared-memory region for a
/// required service, the boot log alone for the shell.
pub open spec fn is_core_launch_spec(s: NovaServiceLaunchSpec, i: int) -> bool {
    &&& is_core_descriptor(s.descriptor, i)
    &&& s.bootstrap == if i < 7 {
        NovaServiceBootstrapRequirement { requested_capabilities: 0xF, endpoint_slots: 1, shared_memory_regions: 1 }
    } else {
        NovaServiceBootstrapRequirement { requested_capabilities: 1, endpoint_slots: 0, shared_memory_regions: 0 }
    }
}

/// The core services with their bootstrap grants.
pub fn core_service_launch_specs() -> (r: Vec<NovaServiceLaunchSpec>)
    ensures
        r@.len() == 8,
        forall|i: int| 0 <= i < 8 ==> is_core_launch_spec(#[trigger] r@[i], i),
{
    vec![
        NovaServiceLaunchSpec::new(policyd_descriptor(), NovaServiceBootstrapRequirement::core_required()),
        NovaServiceLaunchSpec::new(agentd_descriptor(), NovaServiceBootstrapRequirement::core_required()),
        NovaServiceLaunchSpec::new(memd_descriptor(), NovaServiceBootstrapRequirement::core_required()),
        NovaServiceLaunchSpec::new(acceld_descriptor(), NovaServiceBootstrapRequirement::core_required()),
        NovaServiceLaunchSpec::new(intentd_descriptor(), NovaServiceBootstrapRequirement::core_required()),
        NovaServiceLaunchSpec::new(scened_descriptor(), NovaServiceBootstrapRequirement::core_required()),
        NovaServiceLaunchSpec::new(appbridged_descriptor(), NovaServiceBootstrapRequirement::core_required()),
        NovaServiceLaunchSpec::new(shelld_descriptor(), NovaServiceBootstrapRequirement::boot_log_only()),
    ]
}

/// The request that the init service launch `target` in the root scene.
pub open spec fn spec_service_launch_request(target: NovaServiceId) -> NovaServiceLaunchRequest {
    NovaServiceLaunchRequest {
        requester: NovaServiceId(0x494E_4954_445F_3031u64),
        target,
        scene: NovaSceneId(1),
        flags: 0,
    }
}

fn service_launch_request(target: NovaServiceId) -> (r: NovaServiceLaunchRequest)
    ensures
        r == spec_service_launch_request(target),
{
    NovaServiceLaunchRequest::new(initd_descriptor().id, target, NovaSceneId::root(), 0)
}

fn planned_binding(service: NovaServiceId, n: u64) -> (r: NovaServiceKernelBinding)
    requires
        1 <= n <= 7,
    ensures
        r == NovaServiceKernelBinding::spec_planned(service, (0x1000 + n) as u64, (0x2000 + n) as u64, (0x3000 + n) as u64),
{
    NovaServiceKernelBinding::planned(
        service,
        NovaTaskId::new(0x1000 + n),
        NovaEndpointId::new(0x2000 + n),
        NovaSharedMemoryRegionId::new(0x3000 + n),
    )
}

fn kernel_launch_plan(descriptor: NovaServiceDescriptor, binding: NovaServiceKernelBinding) -> (r: NovaServiceKernelLaunchPlan)
    ensures
        r == (NovaServiceKernelLaunchPlan { descriptor, request: spec_service_launch_request(descriptor.id), binding }),
{
    NovaServiceKernelLaunchPlan::new(descriptor, service_launch_request(descriptor.id), binding)
}

/// The kernel binding of the core service at launch position `i`: a
/// required service has task `0x1000 + i + 1`, endpoint `0x2000 + i + 1` and
/// region `0x3000 + i + 1` planned; the shell lives in the model only.
pub open spec fn core_service_binding(service: NovaServiceId, i: int) -> NovaServiceKernelBinding {
    if i < 7 {
        NovaServiceKernelBinding::spec_planned(service, (0x1000 + i + 1) as u64, (0x2000 + i + 1) as u64, (0x3000 + i + 1) as u64)
    } else {
        NovaServiceKernelBinding {
            service,
            task: NovaTaskId(0),
            control_endpoint: NovaEndpointId(0),
            shared_memory_region: NovaSharedMemoryRegionId(0),
            state: NovaServiceBindingState::ModelOnly,
            health_generation: 0,
        }
    }
}

/// `p` is the kernel launch plan of the core service at launch position
/// `i`: its descriptor, the init service's request to launch it in the root
/// scene, and its binding.
pub open spec fn is_core_kernel_plan(p: NovaServiceKernelLaunchPlan, i: int) -> bool {
    &&& is_core_descriptor(p.descriptor, i)
    &&& p.request == spec_service_launch_request(p.descriptor.id)
    &&& p.binding == core_service_binding(p.descriptor.id, i)
}

/// The kernel launch plan of each core service: planned task, endpoint and
/// region objects for each required service, the shell in the model only.
pub fn core_service_kernel_launch_plans() -> (r: Vec<NovaServiceKernelLaunchPlan>)
    ensures
        r@.len() == 8,
        forall|i: int| 0 <= i < 8 ==> is_core_kernel_plan(#[trigger] r@[i], i),
{
    let policyd = policyd_descriptor();
    let agentd = agentd_descriptor();
    let memd = memd_descriptor();
    let acceld = acceld_descriptor();
    let intentd = intentd_descriptor();
    let scened = scened_descriptor();
    let appbridged = appbridged_descriptor();
    let shelld = shelld_descriptor();
    vec![
        kernel_launch_plan(policyd, planned_binding(policyd.id, 1)),
        kernel_launch_plan(agentd, planned_binding(agentd.id, 2)),
        kernel_launch_plan(memd, planned_binding(memd.id, 3)),
        kernel_launch_plan(acceld, planned_binding(acceld.id, 4)),
        kernel_launch_plan(intentd, planned_binding(intentd.id, 5)),
        kernel_launch_plan(scened, planned_binding(scened.id, 6)),
        kernel_launch_plan(appbridged, planned_binding(appbridged.id, 7)),
        kernel_launch_plan(shelld, NovaServiceKernelBinding::model_only(shelld.id)),
    ]
}

// ---------------------------------------------------------------------------
// Predicates the pages count by
// ---------------------------------------------------------------------------

pub open spec fn descriptor_required() -> spec_fn(NovaServiceDescriptor) -> bool {
    |d: NovaServiceDescriptor| d.required
}

pub open spec fn spec_required() -> spec_fn(NovaServiceLaunchSpec) -> bool {
    |s: NovaServiceLaunchSpec| s.descriptor.required
}

pub open spec fn status_required() -> spec_fn(NovaServiceStatus) -> bool {
    |s: NovaServiceStatus| s.descriptor.required
}

/// A required service that is running or degraded.
pub open spec fn status_required_healthy() -> spec_fn(NovaServiceStatus) -> bool {
    |s: NovaServiceStatus| s.descriptor.required && (s.state == NovaServiceState::Running || s.state == NovaServiceState::Degraded)
}

pub open spec fn plan_required() -> spec_fn(NovaServiceKernelLaunchPlan) -> bool {
    |p: NovaServiceKernelLaunchPlan| p.descriptor.required
}

/// A required service whose kernel objects are all planned.
pub open spec fn plan_required_planned() -> spec_fn(NovaServiceKernelLaunchPlan) -> bool {
    |p: NovaServiceKernelLaunchPlan| p.descriptor.required && p.binding.spec_has_kernel_objects()
}

/// A service whose binding can publish kernel health.
pub open spec fn plan_kernel_backed() -> spec_fn(NovaServiceKernelLaunchPlan) -> bool {
    |p: NovaServiceKernelLaunchPlan| p.binding.spec_can_publish_kernel_health()
}

pub open spec fn spec_service_id() -> spec_fn(NovaServiceLaunchSpec) -> NovaServiceId {
    |s: NovaServiceLaunchSpec| s.descriptor.id
}

pub open spec fn status_service_id() -> spec_fn(NovaServiceStatus) -> NovaServiceId {
    |s: NovaServiceStatus| s.descriptor.id
}

pub open spec fn plan_service_id() -> spec_fn(NovaServiceKernelLaunchPlan) -> NovaServiceId {
    |p: NovaServiceKernelLaunchPlan| p.descriptor.id
}

// ---------------------------------------------------------------------------
// The launch table
// ---------------------------------------------------------------------------

/// The services the init service launches, in order.
pub struct InitServiceLaunchTable {
    pub init_service: NovaServiceDescriptor,
    pub services: Vec<NovaServiceDescriptor>,
}

impl InitServiceLaunchTable {
    /// A table of `services` launched by the init service.
    pub fn new(services: Vec<NovaServiceDescriptor>) -> (r: Self)
        ensures
            r.services@ == services@,
            is_initd_descriptor(r.init_service),
    {
        InitServiceLaunchTable { init_service: initd_descriptor(), services }
    }

    pub fn service_count(&self) -> (r: usize)
        ensures
            r == self.services@.len(),
    {
        self.services.len()
    }

    /// How many of the services are required.
    pub fn required_service_count(&self) -> (r: usize)
        ensures
            r == count_where(self.services@, descriptor_required()),
    {
        let mut count: usize = 0;
        let mut i: usize = 0;
        while i < self.services.len()
            invariant
                0 <= i <= self.services@.len(),
                count == count_where(self.services@.take(i as int), descriptor_required()),
                count <= i,
            decreases self.services@.len() - i,
        {
            proof {
                lemma_count_where_push(self.services@, i as int, descriptor_required());
            }
            if self.services[i].required {
                count = count + 1;
            }
            i = i + 1;
        }
        assert(self.services@.take(i as int) =~= self.services@);
        count
    }

    /// The request to launch the service at `index`.
    pub fn launch_request(&self, index: usize) -> (r: Option<NovaServiceLaunchRequest>)
        ensures
            index < self.services@.len() ==> r == Some(spec_service_launch_request(self.services@[index as int].id)),
            index >= self.services@.len() ==> r is None,
    {
        if index < self.services.len() {
            Some(service_launch_request(self.services[index].id))
        } else {
            None
        }
    }
}

// ---------------------------------------------------------------------------
// The launch plan
// ---------------------------------------------------------------------------

/// A launch plan is valid when it is not empty, every spec in it is valid,
/// launch orders strictly increase and no service appears twice.
pub open spec fn spec_plan_valid(specs: Seq<NovaServiceLaunchSpec>) -> bool {
    &&& specs.len() != 0
    &&& forall|i: int| 0 <= i < specs.len() ==> (#[trigger] specs[i]).spec_is_valid()
    &&& forall|i: int, j: int| 0 <= i < j < specs.len() ==> (#[trigger] specs[i]).descriptor.launch_order < (#[trigger] specs[j]).descriptor.launch_order
    &&& forall|i: int, j: int| 0 <= i < j < specs.len() ==> (#[trigger] specs[i]).descriptor.id != (#[trigger] specs[j]).descriptor.id
}

/// The services the init service launches with their bootstrap grants.
pub struct InitServiceLaunchPlan {
    pub init_service: NovaServiceDescriptor,
    pub specs: Vec<NovaServiceLaunchSpec>,
}

impl InitServiceLaunchPlan {
    /// A plan of `specs` launched by the init service.
    pub fn new(specs: Vec<NovaServiceLaunchSpec>) -> (r: Self)
        ensures
            r.specs@ == specs@,
            is_initd_descriptor(r.init_service),
    {
        InitServiceLaunchPlan { init_service: initd_descriptor(), specs }
    }

    pub fn service_count(&self) -> (r: usize)
        ensures
            r == self.specs@.len(),
    {
        self.specs.len()
    }

    /// How many of the services are required.
    pub fn required_service_count(&self) -> (r: usize)
        ensures
            r == count_where(self.specs@, spec_required()),
    {
        let mut count: usize = 0;
        let mut i: usize = 0;
        while i < self.specs.len()
            invariant
                0 <= i <= self.specs@.len(),
                count == count_where(self.specs@.take(i as int), spec_required()),
                count <= i,
            decreases self.specs@.len() - i,
        {
            proof {
                lemma_count_where_push(self.specs@, i as int, spec_required());
            }
            if self.specs[i].descriptor.required {
                count = count + 1;
            }
            i = i + 1;
        }
        assert(self.specs@.take(i as int) =~= self.specs@);
        count
    }

    /// The first spec for service `id`.
    pub fn spec_for(&self, id: NovaServiceId) -> (r: Option<NovaServiceLaunchSpec>)
        ensures
            first_with(self.specs@, spec_service_id(), id, r),
            r matches Some(x) ==> x.descriptor.id == id,
    {
        let mut i: usize = 0;
        while i < self.specs.len()
            invariant
                0 <= i <= self.specs@.len(),
                forall|j: int| 0 <= j < i ==> (spec_service_id())(#[trigger] self.specs@[j]) != id,
            decreases self.specs@.len() - i,
        {
            if self.specs[i].descriptor.id.0 == id.0 {
                assert((spec_service_id())(self.specs@[i as int]) == id);
                return Some(self.specs[i]);
            }
            i = i + 1;
        }
        None
    }

    /// The request to launch service `id` from the init service in the root
    /// scene, where the plan has it.
    pub fn launch_request_for(&self, id: NovaServiceId) -> (r: Option<NovaServiceLaunchRequest>)
        ensures
            r is Some <==> exists|i: int| 0 <= i < self.specs@.len() && (#[trigger] self.specs@[i]).descriptor.id == id,
            r matches Some(q) ==> q == (NovaServiceLaunchRequest {
                requester: self.init_service.id,
                target: id,
                scene: NovaSceneId(1),
                flags: 0,
            }),
    {
        match self.spec_for(id) {
            Some(spec) => Some(spec.launch_request(self.init_service.id, NovaSceneId::root())),
            None => {
                assert forall|i: int| 0 <= i < self.specs@.len() implies (#[trigger] self.specs@[i]).descriptor.id != id by {
                    assert((spec_service_id())(self.specs@[i]) != id);
                }
                None
            },
        }
    }

    /// Whether the plan is valid: non-empty, every spec valid, launch orders
    /// strictly increasing and no service twice.
    pub fn validate(&self) -> (r: bool)
        ensures
            r == spec_plan_valid(self.specs@),
    {
        let specs = &self.specs;
        if specs.len() == 0 {
            return false;
        }
        let mut index: usize = 0;
        while index < specs.len()
            invariant
                0 <= index <= specs@.len(),
                specs@ == self.specs@,
                specs@.len() != 0,
                forall|i: int| 0 <= i < index ==> (#[trigger] specs@[i]).spec_is_valid(),
                forall|i: int, j: int| 0 <= i < j < specs@.len() && i < index ==> (#[trigger] specs@[i]).descriptor.id != (#[trigger] specs@[j]).descriptor.id,
                forall|i: int, j: int| 0 <= i < j < index ==> (#[trigger] specs@[i]).descriptor.launch_order < (#[trigger] specs@[j]).descriptor.launch_order,
            decreases specs@.len() - index,
        {
            let spec = specs[index];
            if !spec.is_valid() {
                return false;
            }
            if index > 0 && specs[index - 1].descriptor.launch_order >= spec.descriptor.launch_order {
                assert(!spec_plan_valid(specs@)) by {
                    let a = specs@[index - 1];
                    let b = specs@[index as int];
                }
                return false;
            }
            proof {
                assert forall|i: int, j: int| 0 <= i < j < index + 1 implies (#[trigger] specs@[i]).descriptor.launch_order < (#[trigger] specs@[j]).descriptor.launch_order by {
                    if j == index && i < index - 1 {
                        assert(specs@[i].descriptor.launch_order < specs@[index - 1].descriptor.launch_order);
                    }
                }
            }
            let mut compare = index + 1;
            while compare < specs.len()
                invariant
                    index < compare <= specs@.len(),
                    specs@ == self.specs@,
                    spec == specs@[index as int],
                    forall|j: int| index < j < compare ==> (#[trigger] specs@[j]).descriptor.id != spec.descriptor.id,
                decreases specs@.len() - compare,
            {
                if specs[compare].descriptor.id.0 == spec.descriptor.id.0 {
                    assert(!spec_plan_valid(specs@)) by {
                        let a = specs@[index as int];
                        let b = specs@[compare as int];
                    }
                    return false;
                }
                compare = compare + 1;
            }
            index = index + 1;
        }
        true
    }
}

// ---------------------------------------------------------------------------
// Snapshots and pages
// ---------------------------------------------------------------------------

/// A summary of the init service's runtime.
#[derive(Clone, Copy, Debug, PartialEq, Eq)]
pub struct InitRuntimeSnapshot {
    pub registered_service: NovaServiceDescriptor,
    pub launch_service_count: u16,
    pub required_service_count: u16,
    pub health_generation: u64,
}

impl InitRuntimeSnapshot {
    /// At least as many services launched as are required, at a health
    /// generation.
    pub fn healthy(self) -> (r: bool)
        ensures
            r == (self.launch_service_count >= self.required_service_count && self.health_generation != 0),
    {
        self.launch_service_count >= self.required_service_count && self.health_generation != 0
    }
}

/// The status of each service the init service launched.
pub struct InitRuntimeStatusPage {
    pub registered_service: NovaServiceDescriptor,
    pub services: Vec<NovaServiceStatus>,
    pub health_generation: u64,
}

impl InitRuntimeStatusPage {
    pub fn service_count(&self) -> (r: usize)
        ensures
            r == self.services@.len(),
    {
        self.services.len()
    }

    /// How many of the services are required.
    pub fn required_service_count(&self) -> (r: usize)
        ensures
            r == count_where(self.services@, status_required()),
    {
        let mut count: usize = 0;
        let mut i: usize = 0;
        while i < self.services.len()
            invariant
                0 <= i <= self.services@.len(),
                count == count_where(self.services@.take(i as int), status_required()),
                count <= i,
            decreases self.services@.len() - i,
        {
            proof {
                lemma_count_where_push(self.services@, i as int, status_required());
            }
            let item = self.services[i];
            if item.descriptor.required {
                count = count + 1;
            }
            i = i + 1;
        }
        assert(self.services@.take(i as int) =~= self.services@);
        count
    }

    /// How many required services are running or degraded.
    pub fn running_required_service_count(&self) -> (r: usize)
        ensures
            r == count_where(self.services@, status_required_healthy()),
    {
        let mut count: usize = 0;
        let mut i: usize = 0;
        while i < self.services.len()
            invariant
                0 <= i <= self.services@.len(),
                count == count_where(self.services@.take(i as int), status_required_healthy()),
                count <= i,
            decreases self.services@.len() - i,
        {
            proof {
                lemma_count_where_push(self.services@, i as int, status_required_healthy());
            }
            let item = self.services[i];
            if item.descriptor.required && item.is_healthy() {
                count = count + 1;
            }
            i = i + 1;
        }
        assert(self.services@.take(i as int) =~= self.services@);
        count
    }

    /// The first status of service `id`.
    pub fn status_for(&self, id: NovaServiceId) -> (r: Option<NovaServiceStatus>)
        ensures
            first_with(self.services@, status_service_id(), id, r),
            r matches Some(x) ==> x.descriptor.id == id,
    {
        let mut i: usize = 0;
        while i < self.services.len()
            invariant
                0 <= i <= self.services@.len(),
                forall|j: int| 0 <= j < i ==> (status_service_id())(#[trigger] self.services@[j]) != id,
            decreases self.services@.len() - i,
        {
            if self.services[i].descriptor.id.0 == id.0 {
                assert((status_service_id())(self.services@[i as int]) == id);
                return Some(self.services[i]);
            }
            i = i + 1;
        }
        None
    }

    /// At a health generation, with every required service running or
    /// degraded.
    pub fn healthy(&self) -> (r: bool)
        ensures
            r == (self.health_generation != 0 && count_where(self.services@, status_required_healthy()) >= count_where(
                self.services@,
                status_required(),
            )),
    {
        self.health_generation != 0 && self.running_required_service_count() >= self.required_service_count()
    }
}

/// The kernel launch plan of each service the init service launches.
pub struct InitKernelLaunchPlanPage {
    pub registered_service: NovaServiceDescriptor,
    pub plans: Vec<NovaServiceKernelLaunchPlan>,
    pub generation: u64,
}

impl InitKernelLaunchPlanPage {
    pub fn service_count(&self) -> (r: usize)
        ensures
            r == self.plans@.len(),
    {
        self.plans.len()
    }

    /// How many of the services are required.
    pub fn required_service_count(&self) -> (r: usize)
        ensures
            r == count_where(self.plans@, plan_required()),
    {
        let mut count: usize = 0;
        let mut i: usize = 0;
        while i < self.plans.len()
            invariant
                0 <= i <= self.plans@.len(),
                count == count_where(self.plans@.take(i as int), plan_required()),
                count <= i,
            decreases self.plans@.len() - i,
        {
            proof {
                lemma_count_where_push(self.plans@, i as int, plan_required());
            }
            let item = self.plans[i];
            if item.descriptor.required {
                count = count + 1;
            }
            i = i + 1;
        }
        assert(self.plans@.take(i as int) =~= self.plans@);
        count
    }

    /// How many required services have all their kernel objects planned.
    pub fn planned_required_service_count(&self) -> (r: usize)
        ensures
            r == count_where(self.plans@, plan_required_planned()),
    {
        let mut count: usize = 0;
        let mut i: usize = 0;
        while i < self.plans.len()
            invariant
                0 <= i <= self.plans@.len(),
                count == count_where(self.plans@.take(i as int), plan_required_planned()),
                count <= i,
            decreases self.plans@.len() - i,
        {
            proof {
                lemma_count_where_push(self.plans@, i as int, plan_required_planned());
            }
            let item = self.plans[i];
            if item.descriptor.required && item.binding.has_kernel_objects() {
                count = count + 1;
            }
            i = i + 1;
        }
        assert(self.plans@.take(i as int) =~= self.plans@);
        count
    }

    /// How many services are kernel backed and can publish health.
    pub fn kernel_backed_service_count(&self) -> (r: usize)
        ensures
            r == count_where(self.plans@, plan_kernel_backed()),
    {
        let mut count: usize = 0;
        let mut i: usize = 0;
        while i < self.plans.len()
            invariant
                0 <= i <= self.plans@.len(),
                count == count_where(self.plans@.take(i as int), plan_kernel_backed()),
                count <= i,
            decreases self.plans@.len() - i,
        {
            proof {
                lemma_count_where_push(self.plans@, i as int, plan_kernel_backed());
            }
            let item = self.plans[i];
            if item.binding.can_publish_kernel_health() {
                count = count + 1;
            }
            i = i + 1;
        }
        assert(self.plans@.take(i as int) =~= self.plans@);
        count
    }

    /// The first plan for service `id`.
    pub fn plan_for(&self, id: NovaServiceId) -> (r: Option<NovaServiceKernelLaunchPlan>)
        ensures
            first_with(self.plans@, plan_service_id(), id, r),
            r matches Some(x) ==> x.descriptor.id == id,
    {
        let mut i: usize = 0;
        while i < self.plans.len()
            invariant
                0 <= i <= self.plans@.len(),
                forall|j: int| 0 <= j < i ==> (plan_service_id())(#[trigger] self.plans@[j]) != id,
            decreases self.plans@.len() - i,
        {
            if self.plans[i].descriptor.id.0 == id.0 {
                assert((plan_service_id())(self.plans@[i as int]) == id);
                return Some(self.plans[i]);
            }
            i = i + 1;
        }
        None
    }

    /// At a generation, with the kernel objects of every required service
    /// planned.
    pub fn ready_for_kernel_handoff(&self) -> (r: bool)
        ensures
            r == (self.generation != 0 && count_where(self.plans@, plan_required_planned()) >= count_where(
                self.plans@,
                plan_required(),
            )),
    {
        self.generation != 0 && self.planned_required_service_count() >= self.required_service_count()
    }
}

/// A status page is healthy exactly when it has a health generation and every
/// required service on it is running or degraded.
pub proof fn lemma_status_page_healthy(services: Seq<NovaServiceStatus>, health_generation: u64)
    ensures
        (health_generation != 0 && count_where(services, status_required_healthy()) >= count_where(services, status_required()))
            <==> (health_generation != 0 && forall|i: int| 0 <= i < services.len() && (#[trigger] services[i]).descriptor.required
            ==> (services[i].state == NovaServiceState::Running || services[i].state == NovaServiceState::Degraded)),
{
    lemma_count_where_subset(services, status_required(), status_required_healthy());
    assert forall|i: int| 0 <= i < services.len() implies ((status_required())(#[trigger] services[i]) ==> (status_required_healthy())(services[i]))
        == (services[i].descriptor.required ==> (services[i].state == NovaServiceState::Running || services[i].state == NovaServiceState::Degraded)) by {
    }
}

/// A kernel launch plan page is ready for the hand-off exactly when it has a
/// generation and every required service on it has its task, endpoint and
/// shared-memory region planned.
pub proof fn lemma_kernel_plan_page_ready(plans: Seq<NovaServiceKernelLaunchPlan>, generation: u64)
    ensures
        (generation != 0 && count_where(plans, plan_required_planned()) >= count_where(plans, plan_required()))
            <==> (generation != 0 && forall|i: int| 0 <= i < plans.len() && (#[trigger] plans[i]).descriptor.required
            ==> plans[i].binding.spec_has_kernel_objects()),
{
    lemma_count_where_subset(plans, plan_required(), plan_required_planned());
    assert forall|i: int| 0 <= i < plans.len() implies ((plan_required())(#[trigger] plans[i]) ==> (plan_required_planned())(plans[i]))
        == (plans[i].descriptor.required ==> plans[i].binding.spec_has_kernel_objects()) by {
    }
}

// ---------------------------------------------------------------------------
// The init service's pages
// ---------------------------------------------------------------------------

/// The core launch table: the core services in launch order, launched by
/// the init service.
pub fn core_launch_table() -> (r: InitServiceLaunchTable)
    ensures
        is_initd_descriptor(r.init_service),
        r.services@.len() == 8,
        forall|i: int| 0 <= i < 8 ==> is_core_descriptor(#[trigger] r.services@[i], i),
        count_where(r.services@, descriptor_required()) == 7,
{
    let r = InitServiceLaunchTable::new(core_service_launch_order());
    proof {
        lemma_count_seven_of_eight(r.services@, descriptor_required());
    }
    r
}

/// The core launch plan: the core services with their bootstrap grants. It
/// is valid, and seven of its eight services are required.
pub fn core_launch_plan() -> (r: InitServiceLaunchPlan)
    ensures
        is_initd_descriptor(r.init_service),
        r.specs@.len() == 8,
        forall|i: int| 0 <= i < 8 ==> is_core_launch_spec(#[trigger] r.specs@[i], i),
        spec_plan_valid(r.specs@),
        count_where(r.specs@, spec_required()) == 7,
{
    let r = InitServiceLaunchPlan::new(core_service_launch_specs());
    proof {
        lemma_core_launch_specs_valid(r.specs@);
        lemma_count_seven_of_eight(r.specs@, spec_required());
    }
    r
}

/// Eight specs that are the core launch specs in order form a valid plan.
pub proof fn lemma_core_launch_specs_valid(specs: Seq<NovaServiceLaunchSpec>)
    requires
        specs.len() == 8,
        forall|i: int| 0 <= i < 8 ==> is_core_launch_spec(#[trigger] specs[i], i),
    ensures
        spec_plan_valid(specs),
{
    assert forall|i: int| 0 <= i < specs.len() implies (#[trigger] specs[i]).spec_is_valid() by {
        assert(is_core_launch_spec(specs[i], i));
        lemma_core_service_name_encodable(i);
        assert(0xFu64 & !0xFu64 == 0 && 0xFu64 & 4 != 0 && 0xFu64 & 8 != 0) by (bit_vector);
        assert(1u64 & !0xFu64 == 0 && 1u64 & 4 == 0 && 1u64 & 8 == 0) by (bit_vector);
    }
    assert forall|i: int, j: int| 0 <= i < j < specs.len() implies (#[trigger] specs[i]).descriptor.launch_order
        < (#[trigger] specs[j]).descriptor.launch_order by {
        assert(is_core_launch_spec(specs[i], i));
        assert(is_core_launch_spec(specs[j], j));
    }
    assert forall|i: int, j: int| 0 <= i < j < specs.len() implies (#[trigger] specs[i]).descriptor.id
        != (#[trigger] specs[j]).descriptor.id by {
        assert(is_core_launch_spec(specs[i], i));
        assert(is_core_launch_spec(specs[j], j));
    }
}

/// The boot status page: the core statuses at health generation one. It is
/// healthy: all seven required services run.
pub fn initd_boot_status_page() -> (r: InitRuntimeStatusPage)
    ensures
        is_initd_descriptor(r.registered_service),
        r.services@.len() == 8,
        r.health_generation == 1,
        forall|i: int| 0 <= i < 8 ==> is_core_boot_status(#[trigger] r.services@[i], i),
        count_where(r.services@, status_required()) == 7,
        count_where(r.services@, status_required_healthy()) == 7,
{
    let r = InitRuntimeStatusPage { registered_service: initd_descriptor(), services: core_service_boot_statuses(), health_generation: 1 };
    proof {
        lemma_count_seven_of_eight(r.services@, status_required());
        lemma_count_seven_of_eight(r.services@, status_required_healthy());
    }
    r
}

/// The kernel launch plan page: the core plans at generation one. It is
/// ready for the hand-off: all seven required services have their kernel
/// objects planned, and none is kernel backed yet.
pub fn initd_kernel_launch_plan_page() -> (r: InitKernelLaunchPlanPage)
    ensures
        is_initd_descriptor(r.registered_service),
        r.plans@.len() == 8,
        r.generation == 1,
        forall|i: int| 0 <= i < 8 ==> is_core_kernel_plan(#[trigger] r.plans@[i], i),
        count_where(r.plans@, plan_required()) == 7,
        count_where(r.plans@, plan_required_planned()) == 7,
        count_where(r.plans@, plan_kernel_backed()) == 0,
{
    let r = InitKernelLaunchPlanPage { registered_service: initd_descriptor(), plans: core_service_kernel_launch_plans(), generation: 1 };
    proof {
        lemma_count_seven_of_eight(r.plans@, plan_required());
        lemma_count_seven_of_eight(r.plans@, plan_required_planned());
        lemma_count_none(r.plans@, plan_kernel_backed());
    }
    r
}

/// The boot snapshot: the init service, how many services it launches, how
/// many the boot status page says are required, and its health generation.
pub fn initd_boot_snapshot() -> (r: InitRuntimeSnapshot)
    ensures
        is_initd_descriptor(r.registered_service),
        r.launch_service_count == 8,
        r.required_service_count == 7,
        r.health_generation == 1,
{
    let table = core_launch_table();
    let status_page = initd_boot_status_page();
    let launch_service_count = table.service_count();
    let required = status_page.required_service_count();
    InitRuntimeSnapshot {
        registered_service: table.init_service,
        launch_service_count: launch_service_count as u16,
        required_service_count: required as u16,
        health_generation: status_page.health_generation,
    }
}

/// The first `k` elements all satisfy `p`, so `k` of them do.
proof fn lemma_count_prefix<T>(s: Seq<T>, p: spec_fn(T) -> bool, k: int)
    requires
        0 <= k <= s.len(),
        forall|i: int| 0 <= i < k ==> p(#[trigger] s[i]),
    ensures
        count_where(s.take(k), p) == k,
    decreases k,
{
    if k > 0 {
        lemma_count_prefix(s, p, k - 1);
        lemma_count_where_push(s, k - 1, p);
    } else {
        assert(s.take(0) =~= Seq::<T>::empty());
    }
}

/// Of eight elements, the first seven satisfy `p` and the last does not.
proof fn lemma_count_seven_of_eight<T>(s: Seq<T>, p: spec_fn(T) -> bool)
    requires
        s.len() == 8,
        forall|i: int| 0 <= i < 7 ==> p(#[trigger] s[i]),
        !p(s[7]),
    ensures
        count_where(s, p) == 7,
{
    lemma_count_prefix(s, p, 7);
    lemma_count_where_push(s, 7, p);
    assert(s.take(8) =~= s);
}

/// No element satisfies `p`.
proof fn lemma_count_none<T>(s: Seq<T>, p: spec_fn(T) -> bool)
    requires
        forall|i: int| 0 <= i < s.len() ==> !p(#[trigger] s[i]),
    ensures
        count_where(s, p) == 0,
    decreases s.len(),
{
    if s.len() > 0 {
        let t = s.drop_last();
        assert forall|i: int| 0 <= i < t.len() implies !p(#[trigger] t[i]) by {
            assert(t[i] == s[i]);
        }
        lemma_count_none(t, p);
        assert(!p(s[s.len() - 1]));
    }
}

// ---------------------------------------------------------------------------
// The init payload
// ---------------------------------------------------------------------------

/// The init payload's name.
pub fn initd_identity() -> (r: &'static str)
    ensures
        r@ == "NovaOS initd payload"@,
{
    "NovaOS initd payload"
}

/// The values the init payload's kernel-call probe traces.
pub const INITD_KERNEL_CALL_PROBE_VALUE0: u64 = 0x494E_4954_444B_4341;
pub const INITD_KERNEL_CALL_PROBE_VALUE1: u64 = 0x4E4F_5641_4B45_524E;
/// The values the init payload's trap probe traces.
pub const INITD_TRAP_PROBE_VALUE0: u64 = 0x494E_4954_4454_5241;
pub const INITD_TRAP_PROBE_VALUE1: u64 = 0x4E4F_5641_5452_4150;
/// The values the init payload's SVC probe traces.
pub const INITD_SVC_PROBE_VALUE0: u64 = 0x494E_4954_4453_5643;
pub const INITD_SVC_PROBE_VALUE1: u64 = 0x4E4F_5641_5356_4321;

/// A trace probe passed when the kernel answered success and gave both
/// traced values back.
pub fn trace_probe_passed(result: NovaSyscallResultV1, value0: u64, value1: u64) -> (r: bool)
    ensures
        r == (result.status == 0 && result.value0 == value0 && result.value1 == value1),
{
    result.status == 0 && result.value0 == value0 && result.value1 == value1
}

} // verus!
