//! Kernel bring-up: the checks made on the boot records the loader hands over,
//! and the state the kernel starts from.
use vstd::prelude::*;
use vstd::string::StringSliceAdditionalSpecFns;
use crate::allocator::FrameAllocatorPlan;
use crate::bootinfo::{BootSource, BootSummary, NovaBootInfoV1};
use crate::bootinfo_v2::NovaBootInfoV2;
use crate::bytes::{le_u32_at, le_u64_at};
use crate::digest::NovaImageDigestV1;
use crate::exceptions::ExceptionVectors;
use crate::init_capsule::{
    capsule_body, capsule_structure_ok, decode_init_capsule_service_name, parse_init_capsule_header,
    service_name_text, service_name_valid, service_payload_accepts,
};
use crate::kernel_syscall::BootstrapTaskState;
use crate::mmu::PageTablePlan;
use crate::payload::{NovaPayloadEntryAbi, NovaPayloadKind, PayloadImage};
use crate::verification::NovaVerificationInfoV1;

verus! {

/// What the kernel keeps of a BootInfo v2 sidecar.
#[derive(Clone, Copy, Debug, PartialEq, Eq, Structural)]
pub struct KernelBringupV2State {
    pub cpu_arch: u16,
    pub platform_class: u16,
    pub memory_topology_class: u16,
    pub boot_source: BootSource,
    pub framebuffer_present: bool,
    pub storage_seed_count: u32,
    pub network_seed_count: u32,
    pub accel_seed_count: u32,
}

/// What the kernel keeps of the init capsule: the service, its budget and
/// where its bootstrap payload sits.
#[derive(Clone, Copy, Debug, PartialEq, Eq)]
pub struct BootstrapCapsuleSummary {
    pub service_name: [u8; 16],
    pub requested_capabilities: u64,
    pub endpoint_slots: u32,
    pub shared_memory_regions: u32,
    pub payload_body_present: bool,
    pub payload_image_base: u64,
    pub payload_image_size: u64,
    pub payload_load_base: u64,
    pub payload_load_size: u64,
    pub payload_entry_point: u64,
    pub payload_descriptor_from_boot_info_v2: bool,
}

/// Where the bootstrap task's image sits and where it starts.
#[derive(Clone, Copy, Debug, PartialEq, Eq)]
pub struct BootstrapTaskLaunchPlan {
    pub service_name: [u8; 16],
    pub image_base: u64,
    pub image_size: u64,
    pub load_base: u64,
    pub load_size: u64,
    pub entry_point: u64,
}

impl BootstrapTaskLaunchPlan {
    /// The service name, as text.
    pub fn service_name(&self) -> (r: &str)
        requires
            service_name_valid(self.service_name@),
        ensures
            r@ == service_name_text(self.service_name@),
    {
        match decode_init_capsule_service_name(&self.service_name) {
            Some(name) => name,
            None => "",
        }
    }
}

impl BootstrapCapsuleSummary {
    /// The service name, as text.
    pub fn service_name(&self) -> (r: &str)
        requires
            service_name_valid(self.service_name@),
        ensures
            r@ == service_name_text(self.service_name@),
    {
        match decode_init_capsule_service_name(&self.service_name) {
            Some(name) => name,
            None => "",
        }
    }

    pub open spec fn spec_has_payload(&self) -> bool {
        &&& self.payload_image_base != 0
        &&& self.payload_image_size != 0
        &&& self.payload_load_base != 0
        &&& self.payload_load_size != 0
        &&& self.payload_entry_point != 0
    }

    /// Whether every payload location is set.
    pub fn has_payload(&self) -> (r: bool)
        ensures
            r == self.spec_has_payload(),
    {
        self.payload_image_base != 0 && self.payload_image_size != 0 && self.payload_load_base != 0
            && self.payload_load_size != 0 && self.payload_entry_point != 0
    }

    /// The grant the capsule asks for.
    pub fn task_state(&self) -> (r: BootstrapTaskState)
        ensures
            r == (BootstrapTaskState {
                bootstrap_capabilities: self.requested_capabilities,
                endpoint_slots: self.endpoint_slots,
                shared_memory_regions: self.shared_memory_regions,
            }),
    {
        BootstrapTaskState::new(self.requested_capabilities, self.endpoint_slots, self.shared_memory_regions)
    }

    /// The launch plan of the payload, where one is present.
    pub fn launch_plan(&self) -> (r: Option<BootstrapTaskLaunchPlan>)
        ensures
            r is Some <==> self.spec_has_payload(),
            r matches Some(p) ==> p == (BootstrapTaskLaunchPlan {
                service_name: self.service_name,
                image_base: self.payload_image_base,
                image_size: self.payload_image_size,
                load_base: self.payload_load_base,
                load_size: self.payload_load_size,
                entry_point: self.payload_entry_point,
            }),
    {
        if !self.has_payload() {
            return None;
        }
        Some(BootstrapTaskLaunchPlan {
            service_name: self.service_name,
            image_base: self.payload_image_base,
            image_size: self.payload_image_size,
            load_base: self.payload_load_base,
            load_size: self.payload_load_size,
            entry_point: self.payload_entry_point,
        })
    }
}

/// Everything the kernel gathered from the boot records.
#[derive(Clone, Copy, Debug, PartialEq, Eq)]
pub struct KernelBringupState {
    pub boot_summary: BootSummary,
    pub boot_info_v2: Option<KernelBringupV2State>,
    pub init_capsule: Option<BootstrapCapsuleSummary>,
    pub memory_map_bytes: usize,
    pub kernel_image_digest_present: bool,
    pub verification_info_present: bool,
    pub stage1_payload_verified: bool,
    pub kernel_payload_verified: bool,
    pub exception_vectors: ExceptionVectors,
    pub page_tables: PageTablePlan,
    pub allocator: FrameAllocatorPlan,
}

impl KernelBringupState {
    /// Nothing gathered yet.
    pub fn empty() -> (r: Self)
        ensures
            r.boot_summary == (BootSummary { secure_boot: false, framebuffer_present: false, memory_map_entries: 0 }),
            r.boot_info_v2 is None,
            r.init_capsule is None,
            r.memory_map_bytes == 0,
            !r.kernel_image_digest_present,
            !r.verification_info_present,
            !r.stage1_payload_verified,
            !r.kernel_payload_verified,
            r.exception_vectors == (ExceptionVectors { base: 0, installed: false }),
            r.page_tables == (PageTablePlan { kernel_base: 0, kernel_size: 0, user_base: 0, user_size: 0, user_stack_size: 0 }),
            r.allocator == (FrameAllocatorPlan {
                usable_base: 0,
                usable_limit: 0,
                reserved_bytes: 0,
                bootstrap_el0_arena_base: 0,
                bootstrap_el0_arena_size: 0,
            }),
    {
        KernelBringupState {
            boot_summary: BootSummary::empty(),
            boot_info_v2: None,
            init_capsule: None,
            memory_map_bytes: 0,
            kernel_image_digest_present: false,
            verification_info_present: false,
            stage1_payload_verified: false,
            kernel_payload_verified: false,
            exception_vectors: ExceptionVectors::placeholder(),
            page_tables: PageTablePlan::empty(),
            allocator: FrameAllocatorPlan::empty(),
        }
    }
}

/// The BootInfo v1 record the loader handed over, where there is one and it is
/// valid.
pub fn resolve_boot_info(boot_info: Option<&NovaBootInfoV1>) -> (r: Option<&NovaBootInfoV1>)
    ensures
        r is Some <==> (boot_info matches Some(b) && b.spec_is_valid()),
        r matches Some(b) ==> boot_info == Some(b),
{
    match boot_info {
        Some(b) => if b.is_valid() { Some(b) } else { None },
        None => None,
    }
}

/// The BootInfo v2 record the loader handed over, where there is one and it is
/// valid.
pub fn resolve_boot_info_v2(boot_info_v2: Option<&NovaBootInfoV2>) -> (r: Option<&NovaBootInfoV2>)
    ensures
        r is Some <==> (boot_info_v2 matches Some(b) && b.spec_is_valid()),
        r matches Some(b) ==> boot_info_v2 == Some(b),
{
    match boot_info_v2 {
        Some(b) => if b.is_valid() { Some(b) } else { None },
        None => None,
    }
}

/// An absent sidecar is accepted as absent; a present one must be valid.
pub fn resolve_optional_boot_info_v2(boot_info_v2: Option<&NovaBootInfoV2>) -> (r: Option<Option<&NovaBootInfoV2>>)
    ensures
        boot_info_v2 is None ==> r == Some(None::<&NovaBootInfoV2>),
        boot_info_v2 matches Some(b) ==> (if b.spec_is_valid() { r == Some(Some(b)) } else { r is None }),
{
    match boot_info_v2 {
        None => Some(None),
        Some(b) => match resolve_boot_info_v2(Some(b)) {
            Some(v) => Some(Some(v)),
            None => None,
        },
    }
}

/// The memory map window, as address and byte length, of a valid record that
/// carries a non-empty memory map.
pub fn resolve_memory_map(boot_info: &NovaBootInfoV1) -> (r: Option<(u64, usize)>)
    requires
        boot_info.memory_map_entries * boot_info.memory_map_desc_size <= usize::MAX,
    ensures
        r is Some <==> (boot_info.spec_is_valid() && boot_info.spec_memory_map_present()),
        r matches Some((ptr, len)) ==> ptr == boot_info.memory_map_ptr
            && len == boot_info.memory_map_entries * boot_info.memory_map_desc_size && len != 0,
{
    if !boot_info.is_valid() || !boot_info.memory_map_present() {
        return None;
    }
    let len = boot_info.memory_map_byte_len();
    let ptr = boot_info.memory_map_ptr;
    proof {
        vstd::arithmetic::mul::lemma_mul_strictly_positive(
            boot_info.memory_map_entries as int,
            boot_info.memory_map_desc_size as int,
        );
    }
    if ptr != 0 && len != 0 {
        Some((ptr, len))
    } else {
        None
    }
}

/// The kernel image digest record, where the record says it carries one and
/// the record read at its pointer (`record`, `None` for a null pointer) is
/// valid.
pub fn resolve_kernel_image_digest(boot_info: &NovaBootInfoV1, record: Option<NovaImageDigestV1>) -> (r: Option<NovaImageDigestV1>)
    ensures
        r is Some <==> (boot_info.spec_has_flag(NovaBootInfoV1::FLAG_HAS_KERNEL_IMAGE_DIGEST)
            && (record matches Some(d) && d.spec_is_valid())),
        r is Some ==> r == record,
{
    if !boot_info.has_flag(NovaBootInfoV1::FLAG_HAS_KERNEL_IMAGE_DIGEST) {
        return None;
    }
    match record {
        Some(d) => if d.is_valid() { Some(d) } else { None },
        None => None,
    }
}

/// The verification record, where the record says it carries one and the
/// record read at its pointer (`record`, `None` for a null pointer) is valid.
pub fn resolve_verification_info(boot_info: &NovaBootInfoV1, record: Option<NovaVerificationInfoV1>) -> (r: Option<NovaVerificationInfoV1>)
    ensures
        r is Some <==> (boot_info.spec_has_flag(NovaBootInfoV1::FLAG_HAS_VERIFICATION_INFO)
            && (record matches Some(v) && v.spec_is_valid())),
        r is Some ==> r == record,
{
    if !boot_info.has_flag(NovaBootInfoV1::FLAG_HAS_VERIFICATION_INFO) {
        return None;
    }
    match record {
        Some(v) => if v.is_valid() { Some(v) } else { None },
        None => None,
    }
}

// ---------------------------------------------------------------------------
// The sidecar
// ---------------------------------------------------------------------------

/// The two records agree on the framebuffer: both describe one or neither
/// does, and a described one has the same base, size, stride and format.
pub open spec fn spec_framebuffer_matches(b: NovaBootInfoV1, v: NovaBootInfoV2) -> bool {
    let v_present = v.framebuffer.base != 0 && v.framebuffer.width != 0 && v.framebuffer.height != 0;
    &&& b.spec_framebuffer_present() == v_present
    &&& b.spec_framebuffer_present() ==> {
        &&& b.framebuffer_base == v.framebuffer.base
        &&& b.framebuffer_width == v.framebuffer.width
        &&& b.framebuffer_height == v.framebuffer.height
        &&& b.framebuffer_stride == v.framebuffer.stride
        &&& b.framebuffer_format == v.framebuffer.format
    }
}

/// The BootInfo v2 sidecar repeats every field it shares with BootInfo v1.
pub open spec fn spec_boot_info_v2_matches_v1(b: NovaBootInfoV1, v: NovaBootInfoV2) -> bool {
    &&& b.firmware_vendor_ptr == v.firmware_vendor_ptr
    &&& b.firmware_revision == v.firmware_revision
    &&& b.secure_boot_state == v.secure_boot_state
    &&& b.boot_source == v.boot_source
    &&& b.current_el == v.current_el
    &&& b.memory_map_ptr == v.memory_map_ptr
    &&& b.memory_map_entries == v.memory_map_entries
    &&& b.memory_map_desc_size == v.memory_map_desc_size
    &&& b.config_tables_ptr == v.config_tables_ptr
    &&& b.config_table_count == v.config_table_count
    &&& b.acpi_rsdp_ptr == v.acpi_rsdp_ptr
    &&& b.dtb_ptr == v.dtb_ptr
    &&& b.smbios_ptr == v.smbios_ptr
    &&& b.init_capsule_ptr == v.init_capsule_ptr
    &&& b.init_capsule_len == v.init_capsule_len
    &&& b.loader_log_ptr == v.loader_log_ptr
    &&& b.kernel_image_hash_ptr == v.kernel_image_hash_ptr
    &&& spec_framebuffer_matches(b, v)
}

/// What the kernel keeps of a sidecar.
pub open spec fn spec_v2_state(v: NovaBootInfoV2) -> KernelBringupV2State {
    KernelBringupV2State {
        cpu_arch: v.cpu_arch.spec_raw(),
        platform_class: v.platform_class.spec_raw(),
        memory_topology_class: v.memory_topology_class.spec_raw(),
        boot_source: v.boot_source,
        framebuffer_present: v.framebuffer.base != 0 && v.framebuffer.width != 0 && v.framebuffer.height != 0,
        storage_seed_count: v.storage_seed_count,
        network_seed_count: v.network_seed_count,
        accel_seed_count: v.accel_seed_count,
    }
}

fn framebuffer_matches(boot_info: &NovaBootInfoV1, boot_info_v2: &NovaBootInfoV2) -> (r: bool)
    ensures
        r == spec_framebuffer_matches(*boot_info, *boot_info_v2),
{
    if boot_info.framebuffer_present() != boot_info_v2.framebuffer_present() {
        return false;
    }
    if !boot_info.framebuffer_present() {
        return true;
    }
    boot_info.framebuffer_base == boot_info_v2.framebuffer.base
        && boot_info.framebuffer_width == boot_info_v2.framebuffer.width
        && boot_info.framebuffer_height == boot_info_v2.framebuffer.height
        && boot_info.framebuffer_stride == boot_info_v2.framebuffer.stride
        && boot_info.framebuffer_format == boot_info_v2.framebuffer.format
}

fn boot_info_v2_matches_v1(boot_info: &NovaBootInfoV1, boot_info_v2: &NovaBootInfoV2) -> (r: bool)
    ensures
        r == spec_boot_info_v2_matches_v1(*boot_info, *boot_info_v2),
{
    boot_info.firmware_vendor_ptr == boot_info_v2.firmware_vendor_ptr
        && boot_info.firmware_revision == boot_info_v2.firmware_revision
        && boot_info.secure_boot_state == boot_info_v2.secure_boot_state
        && boot_info.boot_source == boot_info_v2.boot_source
        && boot_info.current_el == boot_info_v2.current_el
        && boot_info.memory_map_ptr == boot_info_v2.memory_map_ptr
        && boot_info.memory_map_entries == boot_info_v2.memory_map_entries
        && boot_info.memory_map_desc_size == boot_info_v2.memory_map_desc_size
        && boot_info.config_tables_ptr == boot_info_v2.config_tables_ptr
        && boot_info.config_table_count == boot_info_v2.config_table_count
        && boot_info.acpi_rsdp_ptr == boot_info_v2.acpi_rsdp_ptr
        && boot_info.dtb_ptr == boot_info_v2.dtb_ptr
        && boot_info.smbios_ptr == boot_info_v2.smbios_ptr
        && boot_info.init_capsule_ptr == boot_info_v2.init_capsule_ptr
        && boot_info.init_capsule_len == boot_info_v2.init_capsule_len
        && boot_info.loader_log_ptr == boot_info_v2.loader_log_ptr
        && boot_info.kernel_image_hash_ptr == boot_info_v2.kernel_image_hash_ptr
        && framebuffer_matches(boot_info, boot_info_v2)
}

fn summarize_boot_info_v2(boot_info: &NovaBootInfoV1, boot_info_v2: &NovaBootInfoV2) -> (r: Option<KernelBringupV2State>)
    ensures
        r is Some <==> spec_boot_info_v2_matches_v1(*boot_info, *boot_info_v2),
        r matches Some(s) ==> s == spec_v2_state(*boot_info_v2),
{
    if boot_info_v2_matches_v1(boot_info, boot_info_v2) {
        Some(KernelBringupV2State {
            cpu_arch: boot_info_v2.cpu_arch.as_raw(),
            platform_class: boot_info_v2.platform_class.as_raw(),
            memory_topology_class: boot_info_v2.memory_topology_class.as_raw(),
            boot_source: boot_info_v2.boot_source,
            framebuffer_present: boot_info_v2.framebuffer_present(),
            storage_seed_count: boot_info_v2.storage_seed_count,
            network_seed_count: boot_info_v2.network_seed_count,
            accel_seed_count: boot_info_v2.accel_seed_count,
        })
    } else {
        None
    }
}

// ---------------------------------------------------------------------------
// The init capsule
// ---------------------------------------------------------------------------

/// The sidecar carries a bootstrap payload descriptor.
pub open spec fn spec_has_payload_descriptor(v2: Option<NovaBootInfoV2>) -> bool {
    v2 matches Some(v) && !v.bootstrap_payload.spec_is_empty()
}

/// A payload descriptor in the sidecar, where the capsule has a body, names
/// exactly that body: its address and its length.
pub open spec fn spec_payload_descriptor_agrees(body: Seq<u8>, body_base: u64, v2: Option<NovaBootInfoV2>) -> bool {
    body.len() == 0 || !spec_has_payload_descriptor(v2) || {
        let d = v2->0.bootstrap_payload;
        d.image_ptr == body_base && d.image_len == body.len()
    }
}

/// The payload locations of a capsule body at `body_base`: image base and
/// size, load base and size, entry point, and whether they came from the
/// sidecar. An empty body, or one that is no bootstrap service payload while
/// the sidecar names none, has no payload.
pub open spec fn spec_payload_fields(body: Seq<u8>, body_base: u64, v2: Option<NovaBootInfoV2>) -> (u64, u64, u64, u64, u64, bool) {
    if body.len() == 0 {
        (0, 0, 0, 0, 0, false)
    } else if spec_has_payload_descriptor(v2) {
        let d = v2->0.bootstrap_payload;
        (d.image_ptr, d.image_len, d.load_base, d.load_size, d.entry_point, true)
    } else if service_payload_accepts(body) {
        (
            body_base,
            body.len() as u64,
            (body_base + le_u32_at(body, 24)) as u64,
            le_u32_at(body, 28) as u64,
            (body_base + le_u32_at(body, 32)) as u64,
            false,
        )
    } else {
        (0, 0, 0, 0, 0, false)
    }
}

/// The summary of the capsule `bytes` whose body sits at `body_base`.
pub open spec fn spec_capsule_summary_matches(s: BootstrapCapsuleSummary, bytes: Seq<u8>, body_base: u64, v2: Option<NovaBootInfoV2>) -> bool {
    let f = spec_payload_fields(capsule_body(bytes), body_base, v2);
    &&& s.service_name@ == bytes.subrange(40, 56)
    &&& s.requested_capabilities == le_u64_at(bytes, 24)
    &&& s.endpoint_slots == le_u32_at(bytes, 32)
    &&& s.shared_memory_regions == le_u32_at(bytes, 36)
    &&& s.payload_body_present == (bytes.len() > 64)
    &&& s.payload_image_base == f.0
    &&& s.payload_image_size == f.1
    &&& s.payload_load_base == f.2
    &&& s.payload_load_size == f.3
    &&& s.payload_entry_point == f.4
    &&& s.payload_descriptor_from_boot_info_v2 == f.5
}

/// The record names no capsule, or names the valid capsule `bytes` whose
/// payload agrees with the sidecar.
pub open spec fn spec_capsule_resolves(b: NovaBootInfoV1, v2: Option<NovaBootInfoV2>, bytes: Seq<u8>) -> bool {
    ||| (b.init_capsule_ptr == 0 && b.init_capsule_len == 0)
    ||| {
        &&& b.init_capsule_ptr != 0
        &&& b.init_capsule_len != 0
        &&& capsule_structure_ok(bytes)
        &&& spec_payload_descriptor_agrees(capsule_body(bytes), (b.init_capsule_ptr + 64) as u64, v2)
    }
}

/// Where the init capsule's bytes are, if the record names a capsule.
pub open spec fn capsule_in_memory(b: NovaBootInfoV1, bytes: Seq<u8>) -> bool {
    (b.init_capsule_ptr != 0 && b.init_capsule_len != 0) ==> (bytes.len() == b.init_capsule_len
        && b.init_capsule_ptr + b.init_capsule_len <= u64::MAX)
}

fn resolve_bootstrap_payload(body: &[u8], body_base: u64, boot_info_v2: Option<&NovaBootInfoV2>) -> (r: Option<(u64, u64, u64, u64, u64, bool)>)
    requires
        body_base + body@.len() <= u64::MAX,
    ensures
        r is Some <==> spec_payload_descriptor_agrees(body@, body_base, match boot_info_v2 { Some(v) => Some(*v), None => None }),
        r matches Some(f) ==> f == spec_payload_fields(body@, body_base, match boot_info_v2 { Some(v) => Some(*v), None => None }),
{
    if body.len() == 0 {
        return Some((0, 0, 0, 0, 0, false));
    }
    if let Some(v2) = boot_info_v2 {
        let d = v2.bootstrap_payload;
        if !d.is_empty() {
            if d.image_ptr != body_base || d.image_len != body.len() as u64 {
                return None;
            }
            return Some((d.image_ptr, d.image_len, d.load_base, d.load_size, d.entry_point, true));
        }
    }
    match PayloadImage::parse_kind_abi(body, NovaPayloadKind::Service, NovaPayloadEntryAbi::BootstrapTaskV1) {
        Some(payload) => {
            let image_size = body.len() as u64;
            let load_base = payload.load_base(body_base);
            let entry_point = payload.entry_addr(body_base);
            Some((body_base, image_size, load_base, payload.load_size(), entry_point, false))
        },
        None => Some((0, 0, 0, 0, 0, false)),
    }
}

fn resolve_init_capsule(boot_info: &NovaBootInfoV1, boot_info_v2: Option<&NovaBootInfoV2>, bytes: &[u8]) -> (r: Option<Option<BootstrapCapsuleSummary>>)
    requires
        capsule_in_memory(*boot_info, bytes@),
    ensures
        r is Some <==> spec_capsule_resolves(*boot_info, match boot_info_v2 { Some(v) => Some(*v), None => None }, bytes@),
        r matches Some(o) ==> (if boot_info.init_capsule_ptr == 0 && boot_info.init_capsule_len == 0 {
            o is None
        } else {
            o matches Some(s) && spec_capsule_summary_matches(
                s,
                bytes@,
                (boot_info.init_capsule_ptr + 64) as u64,
                match boot_info_v2 { Some(v) => Some(*v), None => None },
            )
        }),
{
    if boot_info.init_capsule_ptr == 0 && boot_info.init_capsule_len == 0 {
        return Some(None);
    }
    if boot_info.init_capsule_ptr == 0 || boot_info.init_capsule_len == 0 {
        return None;
    }
    let header = match parse_init_capsule_header(bytes) {
        Some(h) => h,
        None => return None,
    };
    if !header.is_valid() || !header.matches_image_len(bytes.len()) {
        return None;
    }
    let body = vstd::slice::slice_subrange(bytes, 64, bytes.len());
    assert(body@ == capsule_body(bytes@));
    let body_base = boot_info.init_capsule_ptr + 64;
    let payload = match resolve_bootstrap_payload(body, body_base, boot_info_v2) {
        Some(p) => p,
        None => return None,
    };
    Some(Some(BootstrapCapsuleSummary {
        service_name: header.service_name,
        requested_capabilities: header.requested_capabilities,
        endpoint_slots: header.endpoint_slots,
        shared_memory_regions: header.shared_memory_regions,
        payload_body_present: body.len() != 0,
        payload_image_base: payload.0,
        payload_image_size: payload.1,
        payload_load_base: payload.2,
        payload_load_size: payload.3,
        payload_entry_point: payload.4,
        payload_descriptor_from_boot_info_v2: payload.5,
    }))
}

// ---------------------------------------------------------------------------
// Bring-up
// ---------------------------------------------------------------------------

/// What the boot records point at, read out of memory by the caller.
pub struct BootRecordMemory {
    /// The record at `kernel_image_hash_ptr`; `None` where that pointer is null.
    pub kernel_image_digest: Option<NovaImageDigestV1>,
    /// The record at `verification_info_ptr`; `None` where that pointer is null.
    pub verification_info: Option<NovaVerificationInfoV1>,
    /// The `init_capsule_len` bytes at `init_capsule_ptr`; empty where either
    /// is zero.
    pub init_capsule: Vec<u8>,
}

impl BootRecordMemory {
    /// Nothing behind any pointer.
    pub fn empty() -> (r: Self)
        ensures
            r.kernel_image_digest is None,
            r.verification_info is None,
            r.init_capsule@.len() == 0,
    {
        BootRecordMemory { kernel_image_digest: None, verification_info: None, init_capsule: Vec::new() }
    }
}

/// The verification record that bring-up trusts.
pub open spec fn spec_verification(b: NovaBootInfoV1, record: Option<NovaVerificationInfoV1>) -> Option<NovaVerificationInfoV1> {
    if b.spec_has_flag(NovaBootInfoV1::FLAG_HAS_VERIFICATION_INFO) && (record matches Some(v) && v.spec_is_valid()) {
        record
    } else {
        None
    }
}

/// Bring-up succeeds on a valid record with a memory map, a sidecar (if any)
/// that repeats it, and an init capsule (if any) that resolves.
pub open spec fn spec_bringup_accepts(b: NovaBootInfoV1, v2: Option<NovaBootInfoV2>, capsule: Seq<u8>) -> bool {
    &&& b.spec_is_valid()
    &&& b.spec_memory_map_present()
    &&& (v2 matches Some(v) ==> spec_boot_info_v2_matches_v1(b, v))
    &&& spec_capsule_resolves(b, v2, capsule)
}

/// The state bring-up gathers from the records and the memory behind them.
pub open spec fn spec_bringup_state(st: KernelBringupState, b: NovaBootInfoV1, v2: Option<NovaBootInfoV2>, memory: BootRecordMemory) -> bool {
    let verification = spec_verification(b, memory.verification_info);
    &&& st.boot_summary == b.spec_summary()
    &&& st.boot_info_v2 == (match v2 { Some(v) => Some(spec_v2_state(v)), None => None })
    &&& (if b.init_capsule_ptr == 0 && b.init_capsule_len == 0 {
        st.init_capsule is None
    } else {
        st.init_capsule matches Some(s) && spec_capsule_summary_matches(s, memory.init_capsule@, (b.init_capsule_ptr + 64) as u64, v2)
    })
    &&& st.memory_map_bytes == b.memory_map_entries * b.memory_map_desc_size
    &&& st.kernel_image_digest_present == (b.spec_has_flag(NovaBootInfoV1::FLAG_HAS_KERNEL_IMAGE_DIGEST)
        && (memory.kernel_image_digest matches Some(d) && d.spec_is_valid()))
    &&& st.verification_info_present == verification is Some
    &&& st.stage1_payload_verified == (verification matches Some(v) && v.spec_has_flag(NovaVerificationInfoV1::FLAG_STAGE1_PAYLOAD_VERIFIED))
    &&& st.kernel_payload_verified == (verification matches Some(v) && v.spec_has_flag(NovaVerificationInfoV1::FLAG_KERNEL_PAYLOAD_VERIFIED))
    &&& st.exception_vectors == (ExceptionVectors { base: 0, installed: false })
    &&& st.page_tables == PageTablePlan::spec_from_boot_info_with_v2(b, v2)
    &&& st.allocator == FrameAllocatorPlan::spec_from_boot_info_with_v2(b, v2)
}

/// Checks the boot records and gathers the state the kernel starts from:
/// `None` for an invalid record, a missing memory map, a sidecar that does
/// not repeat the record, or an init capsule that does not resolve.
pub fn prepare_bringup(boot_info: &NovaBootInfoV1, boot_info_v2: Option<&NovaBootInfoV2>, memory: &BootRecordMemory) -> (r: Option<KernelBringupState>)
    requires
        boot_info.memory_map_entries * boot_info.memory_map_desc_size <= usize::MAX,
        capsule_in_memory(*boot_info, memory.init_capsule@),
    ensures
        r is Some <==> spec_bringup_accepts(*boot_info, match boot_info_v2 { Some(v) => Some(*v), None => None }, memory.init_capsule@),
        r matches Some(st) ==> spec_bringup_state(st, *boot_info, match boot_info_v2 { Some(v) => Some(*v), None => None }, *memory),
{
    let memory_map = match resolve_memory_map(boot_info) {
        Some(window) => window,
        None => return None,
    };
    let verification = resolve_verification_info(boot_info, memory.verification_info);
    let kernel_digest_present = resolve_kernel_image_digest(boot_info, memory.kernel_image_digest).is_some();
    let boot_info_v2_summary = match boot_info_v2 {
        Some(v2) => match summarize_boot_info_v2(boot_info, v2) {
            Some(summary) => Some(summary),
            None => return None,
        },
        None => None,
    };
    let init_capsule = match resolve_init_capsule(boot_info, boot_info_v2, memory.init_capsule.as_slice()) {
        Some(c) => c,
        None => return None,
    };
    if !boot_info.is_valid() {
        return None;
    }
    let (stage1_payload_verified, kernel_payload_verified) = match verification {
        Some(v) => (v.stage1_payload_verified(), v.kernel_payload_verified()),
        None => (false, false),
    };
    Some(KernelBringupState {
        boot_summary: boot_info.summary(),
        boot_info_v2: boot_info_v2_summary,
        init_capsule,
        memory_map_bytes: memory_map.1,
        kernel_image_digest_present: kernel_digest_present,
        verification_info_present: verification.is_some(),
        stage1_payload_verified,
        kernel_payload_verified,
        exception_vectors: ExceptionVectors::runtime(),
        page_tables: PageTablePlan::from_boot_info_with_v2(boot_info, boot_info_v2),
        allocator: FrameAllocatorPlan::from_boot_info_with_v2(boot_info, boot_info_v2),
    })
}

} // verus!
