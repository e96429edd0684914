//! The stage-0 loader's plan: the BootInfo v2 draft it builds from BootInfo
//! v1 and the sidecar tables it stages, and the checks it runs before it
//! hands over to stage 1.
use vstd::prelude::*;
use crate::bootinfo::{boot_info_v1_zero, NovaBootInfoV1, NOVA_BOOT_INFO_MAGIC};
use crate::bootinfo_v2::{
    boot_info_v2_zero, NovaBootInfoV2, NovaBootstrapPayloadDescriptorV1, NovaBootstrapUserWindowDescriptorV1,
    NovaDisplayPathDescriptorV1, NovaNetworkSeedV1, NovaStorageSeedV1,
};
use crate::bytes::le_u32_at;
use crate::fabric::{AccelSeedV1, AccelTopologyHint, AccelTransport, CpuArchitecture, MemoryTopologyClass, PlatformClass};
use crate::init_capsule::{capsule_accepts, capsule_body, InitCapsuleImage};
use crate::mmu::align_up_int;
use crate::stage1::{build_plan, spec_build_plan_parts, Stage1Input, Stage1Plan, Stage1Status};
use crate::digest::{digest_bytes_equal, sha256_spec, NovaDigestAlgorithm, NovaImageDigestV1, NOVA_IMAGE_DIGEST_MAGIC};
use crate::payload::{payload_accepts, NovaPayloadEntryAbi, NovaPayloadKind, PayloadImage};
use crate::verification::{NovaVerificationInfoV1, NOVA_VERIFICATION_MAGIC};

verus! {

pub const EFI_PAGE_SIZE: usize = 4096;
pub const MEMORY_MAP_RESERVE_EXTRA_DESCRIPTORS: usize = 8;
pub const BOOTSTRAP_USER_WINDOW_BASE: u64 = 0x4000_0000;
pub const BOOTSTRAP_USER_WINDOW_MIN_SIZE: u64 = 0x20_000;
pub const BOOTSTRAP_USER_WINDOW_CONTEXT_RESERVE: u64 = 0x4000;
pub const BOOTSTRAP_USER_WINDOW_STACK_SIZE: u64 = 0x8000;

/// A staged region: the file it came from, where it sits and how long it is.
#[derive(Clone, Copy, Debug)]
pub struct PayloadRegion {
    pub path: &'static str,
    pub base: u64,
    pub len: usize,
}

/// What the loader staged for stage 1 and the kernel.
#[derive(Clone, Copy, Debug)]
pub struct LoaderPlan {
    pub boot_info: NovaBootInfoV1,
    pub boot_info_v2_draft: NovaBootInfoV2,
    pub boot_info_v2: Option<PayloadRegion>,
    pub display_path_v2: Option<PayloadRegion>,
    pub storage_seeds_v2: Option<PayloadRegion>,
    pub network_seeds_v2: Option<PayloadRegion>,
    pub accel_seed_v2: Option<PayloadRegion>,
    pub kernel_image_digest: Option<PayloadRegion>,
    pub verification_info: Option<PayloadRegion>,
    pub memory_map: Option<PayloadRegion>,
    pub stage1_plan: Option<PayloadRegion>,
    pub stage1_image: Option<PayloadRegion>,
    pub kernel_image: Option<PayloadRegion>,
    pub init_capsule: Option<PayloadRegion>,
    pub loader_log: Option<PayloadRegion>,
}

impl LoaderPlan {
    /// Fresh records and nothing staged.
    pub fn unknown() -> (r: Self)
        ensures
            r.boot_info == (NovaBootInfoV1 { magic: NOVA_BOOT_INFO_MAGIC, version: 1, ..boot_info_v1_zero() }),
            r.boot_info.spec_is_valid(),
            r.boot_info_v2_draft == (NovaBootInfoV2 { magic: NovaBootInfoV2::MAGIC, version: NovaBootInfoV2::VERSION, ..boot_info_v2_zero() }),
            r.boot_info_v2 is None && r.display_path_v2 is None && r.storage_seeds_v2 is None,
            r.network_seeds_v2 is None && r.accel_seed_v2 is None && r.kernel_image_digest is None,
            r.verification_info is None && r.memory_map is None && r.stage1_plan is None,
            r.stage1_image is None && r.kernel_image is None && r.init_capsule is None && r.loader_log is None,
    {
        LoaderPlan {
            boot_info: NovaBootInfoV1::new(),
            boot_info_v2_draft: NovaBootInfoV2::new(),
            boot_info_v2: None,
            display_path_v2: None,
            storage_seeds_v2: None,
            network_seeds_v2: None,
            accel_seed_v2: None,
            kernel_image_digest: None,
            verification_info: None,
            memory_map: None,
            stage1_plan: None,
            stage1_image: None,
            kernel_image: None,
            init_capsule: None,
            loader_log: None,
        }
    }
}

/// A record the loader stages and points the BootInfo at.
#[derive(Clone, Copy, Debug, PartialEq, Eq, Structural)]
pub enum StagedRecord {
    InitCapsule,
    KernelImageDigest,
    VerificationInfo,
    MemoryMap,
    LoaderLog,
}

/// The plan once `region` is staged as `record`: the region is kept, the
/// BootInfo points at it (the init capsule with its length too), and the
/// digest, verification record and loader log raise their presence flags.
pub open spec fn spec_record_staged(p: LoaderPlan, record: StagedRecord, region: PayloadRegion) -> LoaderPlan {
    let b = p.boot_info;
    match record {
        StagedRecord::InitCapsule => LoaderPlan {
            init_capsule: Some(region),
            boot_info: NovaBootInfoV1 { init_capsule_ptr: region.base, init_capsule_len: region.len as u64, ..b },
            ..p
        },
        StagedRecord::KernelImageDigest => LoaderPlan {
            kernel_image_digest: Some(region),
            boot_info: NovaBootInfoV1 {
                kernel_image_hash_ptr: region.base,
                flags: b.flags | NovaBootInfoV1::FLAG_HAS_KERNEL_IMAGE_DIGEST,
                ..b
            },
            ..p
        },
        StagedRecord::VerificationInfo => LoaderPlan {
            verification_info: Some(region),
            boot_info: NovaBootInfoV1 {
                verification_info_ptr: region.base,
                flags: b.flags | NovaBootInfoV1::FLAG_HAS_VERIFICATION_INFO,
                ..b
            },
            ..p
        },
        StagedRecord::MemoryMap => LoaderPlan {
            memory_map: Some(region),
            boot_info: NovaBootInfoV1 { memory_map_ptr: region.base, ..b },
            ..p
        },
        StagedRecord::LoaderLog => LoaderPlan {
            loader_log: Some(region),
            boot_info: NovaBootInfoV1 {
                loader_log_ptr: region.base,
                flags: b.flags | NovaBootInfoV1::FLAG_HAS_LOADER_LOG,
                ..b
            },
            ..p
        },
    }
}

impl LoaderPlan {
    /// Records that `region` was staged as `record`.
    pub fn record_staged(&mut self, record: StagedRecord, region: PayloadRegion)
        ensures
            *final(self) == spec_record_staged(*old(self), record, region),
    {
        match record {
            StagedRecord::InitCapsule => {
                self.boot_info.init_capsule_ptr = region.base;
                self.boot_info.init_capsule_len = region.len as u64;
                self.init_capsule = Some(region);
            },
            StagedRecord::KernelImageDigest => {
                self.boot_info.kernel_image_hash_ptr = region.base;
                self.boot_info.set_flag(NovaBootInfoV1::FLAG_HAS_KERNEL_IMAGE_DIGEST);
                self.kernel_image_digest = Some(region);
            },
            StagedRecord::VerificationInfo => {
                self.boot_info.verification_info_ptr = region.base;
                self.boot_info.set_flag(NovaBootInfoV1::FLAG_HAS_VERIFICATION_INFO);
                self.verification_info = Some(region);
            },
            StagedRecord::MemoryMap => {
                self.boot_info.memory_map_ptr = region.base;
                self.memory_map = Some(region);
            },
            StagedRecord::LoaderLog => {
                self.boot_info.loader_log_ptr = region.base;
                self.boot_info.set_flag(NovaBootInfoV1::FLAG_HAS_LOADER_LOG);
                self.loader_log = Some(region);
            },
        }
    }
}

/// Where the loader staged the BootInfo v2 sidecar tables.
#[derive(Clone, Copy, Debug, PartialEq, Eq, Structural)]
pub struct BootInfoV2SeedLayout {
    pub display_path_ptr: u64,
    pub display_path_len: u32,
    pub display_path_flags: u32,
    pub storage_seeds_ptr: u64,
    pub storage_seed_count: u32,
    pub network_seeds_ptr: u64,
    pub network_seed_count: u32,
    pub accel_seeds_ptr: u64,
    pub accel_seed_count: u32,
    pub bootstrap_payload: NovaBootstrapPayloadDescriptorV1,
    pub bootstrap_user_window: NovaBootstrapUserWindowDescriptorV1,
}

impl BootInfoV2SeedLayout {
    /// Nothing staged.
    pub fn empty() -> (r: Self)
        ensures
            r.display_path_ptr == 0 && r.display_path_len == 0 && r.display_path_flags == 0,
            r.storage_seeds_ptr == 0 && r.storage_seed_count == 0,
            r.network_seeds_ptr == 0 && r.network_seed_count == 0,
            r.accel_seeds_ptr == 0 && r.accel_seed_count == 0,
            r.bootstrap_payload.spec_is_empty(),
            r.bootstrap_user_window.spec_is_empty(),
    {
        BootInfoV2SeedLayout {
            display_path_ptr: 0,
            display_path_len: 0,
            display_path_flags: 0,
            storage_seeds_ptr: 0,
            storage_seed_count: 0,
            network_seeds_ptr: 0,
            network_seed_count: 0,
            accel_seeds_ptr: 0,
            accel_seed_count: 0,
            bootstrap_payload: NovaBootstrapPayloadDescriptorV1::empty(),
            bootstrap_user_window: NovaBootstrapUserWindowDescriptorV1::empty(),
        }
    }
}

/// Why the loader refused to hand over.
#[derive(Clone, Copy, Debug, PartialEq, Eq, Structural)]
pub enum LoaderError {
    InvalidBootInfo,
    InvalidBootInfoV2,
    MissingBootInfoStorage,
    MissingKernelImageDigest,
    InvalidKernelImageDigest,
    MissingVerificationInfo,
    InvalidVerificationInfo,
    MissingMemoryMapStorage,
    MissingStage1PlanStorage,
    InvalidStage1Image,
    MissingStage1Image,
    InvalidKernelImage,
    MissingKernelImage,
    Stage1(Stage1Status),
}

/// Bytes to reserve for the final memory map: the current map and room for
/// a few more descriptors.
pub fn memory_map_reserve_len(map_size: usize, desc_size: usize) -> (r: usize)
    requires
        map_size + desc_size * 8 <= usize::MAX,
    ensures
        r == map_size + desc_size * 8,
{
    map_size + desc_size * MEMORY_MAP_RESERVE_EXTRA_DESCRIPTORS
}

/// The accelerator seed of the Spark UMA lane: an integrated accelerator in
/// unified memory.
pub fn build_accel_seed_v2() -> (r: AccelSeedV1)
    ensures
        r.transport == AccelTransport::Integrated,
        r.topology_hint == AccelTopologyHint::Uma,
        r.memory_topology == MemoryTopologyClass::Uma,
        r.spec_platform_ready(),
        r.vendor_id == 0 && r.device_id == 0 && r.class_code == 0 && r.mmio_window_count == 0,
{
    let mut seed = AccelSeedV1::empty();
    seed.transport = AccelTransport::Integrated;
    seed.topology_hint = AccelTopologyHint::Uma;
    seed.memory_topology = MemoryTopologyClass::Uma;
    seed
}

// ---------------------------------------------------------------------------
// The bootstrap payload and its user window
// ---------------------------------------------------------------------------

/// The descriptor of the bootstrap payload in the init capsule `c` staged at
/// `addr`: the body after the 64-byte header, its load range and entry
/// point. Empty where there is no valid capsule or its body is empty.
pub open spec fn spec_capsule_payload_descriptor(c: Option<Seq<u8>>, addr: u64) -> NovaBootstrapPayloadDescriptorV1 {
    match c {
        Some(b) => if capsule_accepts(b) && capsule_body(b).len() != 0 {
            let body = capsule_body(b);
            let base = (addr + 64) as u64;
            NovaBootstrapPayloadDescriptorV1 {
                image_ptr: base,
                image_len: body.len() as u64,
                load_base: (base + le_u32_at(body, 24)) as u64,
                load_size: le_u32_at(body, 28) as u64,
                entry_point: (base + le_u32_at(body, 32)) as u64,
            }
        } else {
            NovaBootstrapPayloadDescriptorV1 { image_ptr: 0, image_len: 0, load_base: 0, load_size: 0, entry_point: 0 }
        },
        None => NovaBootstrapPayloadDescriptorV1 { image_ptr: 0, image_len: 0, load_base: 0, load_size: 0, entry_point: 0 },
    }
}

/// Describes the bootstrap payload of the init capsule staged at
/// `init_capsule_addr`.
pub fn build_bootstrap_payload_descriptor(init_capsule: Option<&[u8]>, init_capsule_addr: u64) -> (r: NovaBootstrapPayloadDescriptorV1)
    requires
        init_capsule matches Some(c) ==> init_capsule_addr + c@.len() <= u64::MAX,
    ensures
        r == spec_capsule_payload_descriptor(
            match init_capsule { Some(c) => Some(c@), None => None },
            init_capsule_addr,
        ),
{
    let bytes = match init_capsule {
        Some(c) => c,
        None => return NovaBootstrapPayloadDescriptorV1::empty(),
    };
    let capsule = match InitCapsuleImage::parse(bytes) {
        Some(c) => c,
        None => return NovaBootstrapPayloadDescriptorV1::empty(),
    };
    let payload = match capsule.bootstrap_service_payload() {
        Some(p) => p,
        None => return NovaBootstrapPayloadDescriptorV1::empty(),
    };
    let image = payload.image_bytes();
    let image_base = init_capsule_addr + 64;
    NovaBootstrapPayloadDescriptorV1 {
        image_ptr: image_base,
        image_len: image.len() as u64,
        load_base: payload.load_base(image_base),
        load_size: payload.load_size(),
        entry_point: payload.entry_addr(image_base),
    }
}

/// `value` rounded up to a 4 KiB page, where `value` plus a page less one
/// stays inside `u64`.
pub open spec fn spec_align_up_user_window(value: u64) -> Option<u64> {
    if value + 4095 <= u64::MAX {
        Some(align_up_int(value as int) as u64)
    } else {
        None
    }
}

/// Rounds up to a 4 KiB page.
pub fn align_up_bootstrap_user_window(value: u64) -> (r: Option<u64>)
    ensures
        r == spec_align_up_user_window(value),
{
    match value.checked_add(4095) {
        Some(v) => {
            let r = v & !4095u64;
            assert(r == v - v % 4096) by (bit_vector)
                requires
                    r == v & !4095u64,
            ;
            Some(r)
        },
        None => None,
    }
}

/// The user window for a payload: at the fixed base, holding the page-rounded
/// load size, the context reserve and the stack, and no smaller than the
/// minimum. Empty for an empty or invalid payload, or where the sizes leave
/// `u64`.
pub open spec fn spec_user_window(payload: NovaBootstrapPayloadDescriptorV1) -> NovaBootstrapUserWindowDescriptorV1 {
    let empty = NovaBootstrapUserWindowDescriptorV1 { base: 0, len: 0, stack_size: 0, page_size: 0, flags: 0 };
    if payload.spec_is_empty() || !payload.spec_is_valid() {
        empty
    } else {
        match spec_align_up_user_window(payload.load_size) {
            None => empty,
            Some(image_size) => if image_size + 0x4000 + 0x8000 > u64::MAX {
                empty
            } else {
                let required = image_size + 0x4000 + 0x8000;
                NovaBootstrapUserWindowDescriptorV1 {
                    base: 0x4000_0000,
                    len: if required > 0x20_000 { required as u64 } else { 0x20_000 },
                    stack_size: 0x8000,
                    page_size: 4096,
                    flags: 0,
                }
            },
        }
    }
}

/// Sizes the bootstrap task's user window for its payload.
pub fn build_bootstrap_user_window_descriptor(payload: NovaBootstrapPayloadDescriptorV1) -> (r: NovaBootstrapUserWindowDescriptorV1)
    ensures
        r == spec_user_window(payload),
{
    if payload.is_empty() || !payload.is_valid() {
        return NovaBootstrapUserWindowDescriptorV1::empty();
    }
    let image_size = match align_up_bootstrap_user_window(payload.load_size) {
        Some(v) => v,
        None => return NovaBootstrapUserWindowDescriptorV1::empty(),
    };
    let with_context = match image_size.checked_add(BOOTSTRAP_USER_WINDOW_CONTEXT_RESERVE) {
        Some(v) => v,
        None => return NovaBootstrapUserWindowDescriptorV1::empty(),
    };
    let required_len = match with_context.checked_add(BOOTSTRAP_USER_WINDOW_STACK_SIZE) {
        Some(v) => v,
        None => return NovaBootstrapUserWindowDescriptorV1::empty(),
    };
    let len = if required_len > BOOTSTRAP_USER_WINDOW_MIN_SIZE { required_len } else { BOOTSTRAP_USER_WINDOW_MIN_SIZE };
    NovaBootstrapUserWindowDescriptorV1 {
        base: BOOTSTRAP_USER_WINDOW_BASE,
        len,
        stack_size: BOOTSTRAP_USER_WINDOW_STACK_SIZE,
        page_size: NovaBootstrapUserWindowDescriptorV1::PAGE_SIZE_4K,
        flags: 0,
    }
}

// ---------------------------------------------------------------------------
// The BootInfo v2 draft
// ---------------------------------------------------------------------------

/// The BootInfo v2 draft: an Arm64 Spark UMA record that repeats BootInfo
/// v1, points at the staged sidecar tables and carries the bootstrap payload,
/// with the user window sized for the payload where none was staged.
pub open spec fn spec_boot_info_v2_draft(plan: LoaderPlan, seeds: BootInfoV2SeedLayout) -> NovaBootInfoV2 {
    let b = plan.boot_info;
    NovaBootInfoV2 {
        magic: NovaBootInfoV2::MAGIC,
        version: NovaBootInfoV2::VERSION,
        cpu_arch: CpuArchitecture::Arm64,
        platform_class: PlatformClass::SparkUma,
        memory_topology_class: MemoryTopologyClass::Uma,
        secure_boot_state: b.secure_boot_state,
        boot_source: b.boot_source,
        current_el: b.current_el,
        firmware_vendor_ptr: b.firmware_vendor_ptr,
        firmware_revision: b.firmware_revision,
        memory_map_ptr: b.memory_map_ptr,
        memory_map_entries: b.memory_map_entries,
        memory_map_desc_size: b.memory_map_desc_size,
        config_tables_ptr: b.config_tables_ptr,
        config_table_count: b.config_table_count,
        acpi_rsdp_ptr: b.acpi_rsdp_ptr,
        dtb_ptr: b.dtb_ptr,
        smbios_ptr: b.smbios_ptr,
        framebuffer: crate::bootinfo_v2::NovaFramebufferDescriptorV1 {
            base: b.framebuffer_base,
            width: b.framebuffer_width,
            height: b.framebuffer_height,
            stride: b.framebuffer_stride,
            format: b.framebuffer_format,
            ..boot_info_v2_zero().framebuffer
        },
        display_path: NovaDisplayPathDescriptorV1 {
            device_path_ptr: seeds.display_path_ptr,
            device_path_len: seeds.display_path_len,
            flags: seeds.display_path_flags,
        },
        storage_seeds_ptr: seeds.storage_seeds_ptr,
        storage_seed_count: seeds.storage_seed_count,
        network_seeds_ptr: seeds.network_seeds_ptr,
        network_seed_count: seeds.network_seed_count,
        accel_seeds_ptr: seeds.accel_seeds_ptr,
        accel_seed_count: seeds.accel_seed_count,
        init_capsule_ptr: b.init_capsule_ptr,
        init_capsule_len: b.init_capsule_len,
        loader_log_ptr: b.loader_log_ptr,
        loader_log_len: match plan.loader_log { Some(region) => region.len as u64, None => 0 },
        kernel_image_hash_ptr: b.kernel_image_hash_ptr,
        bootstrap_payload: seeds.bootstrap_payload,
        bootstrap_user_window: if seeds.bootstrap_user_window.spec_is_empty() {
            spec_user_window(seeds.bootstrap_payload)
        } else {
            seeds.bootstrap_user_window
        },
        ..boot_info_v2_zero()
    }
}

/// Builds the BootInfo v2 draft from the loader's plan and staged tables.
pub fn build_boot_info_v2_draft(plan: &LoaderPlan, seeds: &BootInfoV2SeedLayout) -> (r: NovaBootInfoV2)
    ensures
        r == spec_boot_info_v2_draft(*plan, *seeds),
{
    let mut info = NovaBootInfoV2::new();
    info.cpu_arch = CpuArchitecture::Arm64;
    info.platform_class = PlatformClass::SparkUma;
    info.memory_topology_class = MemoryTopologyClass::Uma;
    info.secure_boot_state = plan.boot_info.secure_boot_state;
    info.boot_source = plan.boot_info.boot_source;
    info.current_el = plan.boot_info.current_el;
    info.firmware_vendor_ptr = plan.boot_info.firmware_vendor_ptr;
    info.firmware_revision = plan.boot_info.firmware_revision;
    info.memory_map_ptr = plan.boot_info.memory_map_ptr;
    info.memory_map_entries = plan.boot_info.memory_map_entries;
    info.memory_map_desc_size = plan.boot_info.memory_map_desc_size;
    info.config_tables_ptr = plan.boot_info.config_tables_ptr;
    info.config_table_count = plan.boot_info.config_table_count;
    info.acpi_rsdp_ptr = plan.boot_info.acpi_rsdp_ptr;
    info.dtb_ptr = plan.boot_info.dtb_ptr;
    info.smbios_ptr = plan.boot_info.smbios_ptr;
    info.framebuffer.base = plan.boot_info.framebuffer_base;
    info.framebuffer.width = plan.boot_info.framebuffer_width;
    info.framebuffer.height = plan.boot_info.framebuffer_height;
    info.framebuffer.stride = plan.boot_info.framebuffer_stride;
    info.framebuffer.format = plan.boot_info.framebuffer_format;
    info.display_path = NovaDisplayPathDescriptorV1 {
        device_path_ptr: seeds.display_path_ptr,
        device_path_len: seeds.display_path_len,
        flags: seeds.display_path_flags,
    };
    info.storage_seeds_ptr = seeds.storage_seeds_ptr;
    info.storage_seed_count = seeds.storage_seed_count;
    info.network_seeds_ptr = seeds.network_seeds_ptr;
    info.network_seed_count = seeds.network_seed_count;
    info.accel_seeds_ptr = seeds.accel_seeds_ptr;
    info.accel_seed_count = seeds.accel_seed_count;
    info.init_capsule_ptr = plan.boot_info.init_capsule_ptr;
    info.init_capsule_len = plan.boot_info.init_capsule_len;
    info.loader_log_ptr = plan.boot_info.loader_log_ptr;
    info.loader_log_len = match plan.loader_log {
        Some(region) => region.len as u64,
        None => 0,
    };
    info.kernel_image_hash_ptr = plan.boot_info.kernel_image_hash_ptr;
    info.bootstrap_payload = seeds.bootstrap_payload;
    info.bootstrap_user_window = if seeds.bootstrap_user_window.is_empty() {
        build_bootstrap_user_window_descriptor(seeds.bootstrap_payload)
    } else {
        seeds.bootstrap_user_window
    };
    info
}

// ---------------------------------------------------------------------------
// Checking a staged sidecar
// ---------------------------------------------------------------------------

/// The staged sidecar tables a BootInfo v2 record points at, and where each
/// was staged.
#[derive(Clone, Copy)]
pub struct BootInfoV2Sidecars<'a> {
    pub display_path: Option<&'a [u8]>,
    pub display_path_addr: u64,
    pub storage_seeds: Option<&'a [NovaStorageSeedV1]>,
    pub storage_seeds_addr: u64,
    pub network_seeds: Option<&'a [NovaNetworkSeedV1]>,
    pub network_seeds_addr: u64,
    pub accel_seed: Option<&'a AccelSeedV1>,
    pub accel_seed_addr: u64,
    pub init_capsule: Option<&'a [u8]>,
    pub init_capsule_addr: u64,
}

/// A path descriptor with no length points nowhere and has no flags; one with
/// a length names the staged bytes exactly and has a flag set.
pub open spec fn spec_path_matches(d: NovaDisplayPathDescriptorV1, bytes: Option<Seq<u8>>, addr: u64) -> bool {
    if d.device_path_len == 0 {
        d.device_path_ptr == 0 && d.flags == 0
    } else {
        bytes matches Some(b) && d.device_path_ptr == addr && d.device_path_len == b.len() && d.flags != 0
    }
}

/// A seed table with no entries points nowhere; one with entries names the
/// staged table exactly, and every seed in it names a device path.
pub open spec fn spec_seeds_match(ptr: u64, count: u32, seeds: Option<Seq<(u64, u32)>>, addr: u64) -> bool {
    if count == 0 {
        ptr == 0
    } else {
        match seeds {
            Some(s) => ptr == addr && count == s.len() && (forall|i: int| #![trigger s[i]] 0 <= i < s.len() ==> s[i].0 != 0 && s[i].1 != 0),
            None => false,
        }
    }
}

/// The device paths a storage seed table names.
pub open spec fn storage_seed_paths(seeds: Seq<NovaStorageSeedV1>) -> Seq<(u64, u32)> {
    seeds.map_values(|s: NovaStorageSeedV1| (s.device_path_ptr, s.device_path_len))
}

/// The device paths a network seed table names.
pub open spec fn network_seed_paths(seeds: Seq<NovaNetworkSeedV1>) -> Seq<(u64, u32)> {
    seeds.map_values(|s: NovaNetworkSeedV1| (s.device_path_ptr, s.device_path_len))
}

/// No accelerator points nowhere; one accelerator names the staged,
/// platform-ready seed; more are refused.
pub open spec fn spec_accel_matches(info: NovaBootInfoV2, seed: Option<AccelSeedV1>, addr: u64) -> bool {
    if info.accel_seed_count == 0 {
        info.accel_seeds_ptr == 0
    } else {
        info.accel_seed_count == 1 && (seed matches Some(s) && info.accel_seeds_ptr == addr && s.spec_platform_ready())
    }
}

/// A valid payload descriptor is empty where no capsule or no payload was
/// staged, and otherwise describes the payload of the staged capsule.
pub open spec fn spec_payload_descriptor_matches(d: NovaBootstrapPayloadDescriptorV1, c: Option<Seq<u8>>, addr: u64) -> bool {
    &&& d.spec_is_valid()
    &&& match c {
        None => d.spec_is_empty(),
        Some(b) => capsule_accepts(b) && if capsule_body(b).len() == 0 {
            d.spec_is_empty()
        } else {
            d == spec_capsule_payload_descriptor(c, addr)
        },
    }
}

/// A BootInfo v2 record agrees with the tables staged for it, given as their
/// contents and addresses.
pub open spec fn spec_validate_boot_info_v2_parts(
    info: NovaBootInfoV2,
    display_path: Option<Seq<u8>>,
    display_path_addr: u64,
    storage_seeds: Option<Seq<(u64, u32)>>,
    storage_seeds_addr: u64,
    network_seeds: Option<Seq<(u64, u32)>>,
    network_seeds_addr: u64,
    accel_seed: Option<AccelSeedV1>,
    accel_seed_addr: u64,
    init_capsule: Option<Seq<u8>>,
    init_capsule_addr: u64,
) -> bool {
    &&& info.spec_is_valid()
    &&& spec_path_matches(info.display_path, display_path, display_path_addr)
    &&& spec_seeds_match(info.storage_seeds_ptr, info.storage_seed_count, storage_seeds, storage_seeds_addr)
    &&& spec_seeds_match(info.network_seeds_ptr, info.network_seed_count, network_seeds, network_seeds_addr)
    &&& spec_accel_matches(info, accel_seed, accel_seed_addr)
    &&& spec_payload_descriptor_matches(info.bootstrap_payload, init_capsule, init_capsule_addr)
}

/// A BootInfo v2 record agrees with the tables the loader staged for it.
pub open spec fn spec_validate_boot_info_v2(info: NovaBootInfoV2, s: BootInfoV2Sidecars) -> bool {
    spec_validate_boot_info_v2_parts(
        info,
        match s.display_path { Some(b) => Some(b@), None => None },
        s.display_path_addr,
        match s.storage_seeds { Some(t) => Some(storage_seed_paths(t@)), None => None },
        s.storage_seeds_addr,
        match s.network_seeds { Some(t) => Some(network_seed_paths(t@)), None => None },
        s.network_seeds_addr,
        match s.accel_seed { Some(a) => Some(*a), None => None },
        s.accel_seed_addr,
        match s.init_capsule { Some(c) => Some(c@), None => None },
        s.init_capsule_addr,
    )
}

fn validate_path_descriptor(descriptor: &NovaDisplayPathDescriptorV1, bytes: Option<&[u8]>, addr: u64) -> (r: bool)
    ensures
        r == spec_path_matches(*descriptor, match bytes { Some(b) => Some(b@), None => None }, addr),
{
    if descriptor.device_path_len == 0 {
        return descriptor.device_path_ptr == 0 && descriptor.flags == 0;
    }
    match bytes {
        Some(b) => descriptor.device_path_ptr == addr && descriptor.device_path_len as usize == b.len() && descriptor.flags != 0,
        None => false,
    }
}

fn validate_storage_seeds(ptr: u64, count: u32, seeds: Option<&[NovaStorageSeedV1]>, addr: u64) -> (r: bool)
    ensures
        r == spec_seeds_match(ptr, count, match seeds { Some(t) => Some(storage_seed_paths(t@)), None => None }, addr),
{
    if count == 0 {
        return ptr == 0;
    }
    let table = match seeds {
        Some(s) => s,
        None => return false,
    };
    if ptr != addr || count as usize != table.len() {
        return false;
    }
    let ghost paths = storage_seed_paths(table@);
    let mut i: usize = 0;
    while i < table.len()
        invariant
            0 <= i <= table@.len(),
            seeds == Some(table),
            count != 0,
            ptr == addr,
            count == table@.len(),
            paths == storage_seed_paths(table@),
            paths.len() == table@.len(),
            forall|j: int| #![trigger paths[j]] 0 <= j < i ==> paths[j].0 != 0 && paths[j].1 != 0,
        decreases table@.len() - i,
    {
        assert(paths[i as int] == (table@[i as int].device_path_ptr, table@[i as int].device_path_len));
        if table[i].device_path_ptr == 0 || table[i].device_path_len == 0 {
            assert(!(paths[i as int].0 != 0 && paths[i as int].1 != 0));
            return false;
        }
        i = i + 1;
    }
    true
}

fn validate_network_seeds(ptr: u64, count: u32, seeds: Option<&[NovaNetworkSeedV1]>, addr: u64) -> (r: bool)
    ensures
        r == spec_seeds_match(ptr, count, match seeds { Some(t) => Some(network_seed_paths(t@)), None => None }, addr),
{
    if count == 0 {
        return ptr == 0;
    }
    let table = match seeds {
        Some(s) => s,
        None => return false,
    };
    if ptr != addr || count as usize != table.len() {
        return false;
    }
    let ghost paths = network_seed_paths(table@);
    let mut i: usize = 0;
    while i < table.len()
        invariant
            0 <= i <= table@.len(),
            seeds == Some(table),
            count != 0,
            ptr == addr,
            count == table@.len(),
            paths == network_seed_paths(table@),
            paths.len() == table@.len(),
            forall|j: int| #![trigger paths[j]] 0 <= j < i ==> paths[j].0 != 0 && paths[j].1 != 0,
        decreases table@.len() - i,
    {
        assert(paths[i as int] == (table@[i as int].device_path_ptr, table@[i as int].device_path_len));
        if table[i].device_path_ptr == 0 || table[i].device_path_len == 0 {
            assert(!(paths[i as int].0 != 0 && paths[i as int].1 != 0));
            return false;
        }
        i = i + 1;
    }
    true
}

fn validate_bootstrap_payload_descriptor(
    descriptor: &NovaBootstrapPayloadDescriptorV1,
    init_capsule: Option<&[u8]>,
    addr: u64,
) -> (r: bool)
    requires
        init_capsule matches Some(c) ==> addr + c@.len() <= u64::MAX,
    ensures
        r == spec_payload_descriptor_matches(*descriptor, match init_capsule { Some(c) => Some(c@), None => None }, addr),
{
    if !descriptor.is_valid() {
        return false;
    }
    let bytes = match init_capsule {
        Some(c) => c,
        None => return descriptor.is_empty(),
    };
    let capsule = match InitCapsuleImage::parse(bytes) {
        Some(c) => c,
        None => return false,
    };
    let payload = match capsule.bootstrap_service_payload() {
        Some(p) => p,
        None => return descriptor.is_empty(),
    };
    let image = payload.image_bytes();
    let image_base = addr + 64;
    descriptor.image_ptr == image_base && descriptor.image_len == image.len() as u64
        && descriptor.load_base == payload.load_base(image_base) && descriptor.load_size == payload.load_size()
        && descriptor.entry_point == payload.entry_addr(image_base)
}

/// Checks a BootInfo v2 record against the sidecar tables staged for it.
pub fn validate_boot_info_v2(info: &NovaBootInfoV2, sidecars: &BootInfoV2Sidecars) -> (r: bool)
    requires
        sidecars.init_capsule matches Some(c) ==> sidecars.init_capsule_addr + c@.len() <= u64::MAX,
    ensures
        r == spec_validate_boot_info_v2(*info, *sidecars),
{
    if !info.is_valid() {
        return false;
    }
    if !validate_path_descriptor(&info.display_path, sidecars.display_path, sidecars.display_path_addr) {
        return false;
    }
    if !validate_storage_seeds(info.storage_seeds_ptr, info.storage_seed_count, sidecars.storage_seeds, sidecars.storage_seeds_addr) {
        return false;
    }
    if !validate_network_seeds(info.network_seeds_ptr, info.network_seed_count, sidecars.network_seeds, sidecars.network_seeds_addr) {
        return false;
    }
    let accel_valid = if info.accel_seed_count == 0 {
        info.accel_seeds_ptr == 0
    } else {
        if info.accel_seed_count != 1 {
            return false;
        }
        match sidecars.accel_seed {
            Some(seed) => info.accel_seeds_ptr == sidecars.accel_seed_addr && seed.platform_ready(),
            None => return false,
        }
    };
    accel_valid && validate_bootstrap_payload_descriptor(&info.bootstrap_payload, sidecars.init_capsule, sidecars.init_capsule_addr)
}

// ---------------------------------------------------------------------------
// The hand-over check
// ---------------------------------------------------------------------------

/// Bytes the loader staged, and where.
pub struct StagedBytes {
    pub addr: u64,
    pub bytes: Vec<u8>,
}

/// What the loader staged for the hand-over: each record and table with the
/// address it was staged at.
pub struct LoaderBuffers {
    pub boot_info: Option<(u64, NovaBootInfoV1)>,
    pub boot_info_v2: Option<(u64, NovaBootInfoV2)>,
    pub display_path_text_v2: Option<StagedBytes>,
    pub storage_seeds_v2: Option<(u64, Vec<NovaStorageSeedV1>)>,
    pub network_seeds_v2: Option<(u64, Vec<NovaNetworkSeedV1>)>,
    pub accel_seed_v2: Option<(u64, AccelSeedV1)>,
    pub kernel_image_digest: Option<NovaImageDigestV1>,
    pub verification_info: Option<NovaVerificationInfoV1>,
    pub memory_map: Option<StagedBytes>,
    pub stage1_plan: Option<(u64, Stage1Plan)>,
    pub stage1_image: Option<StagedBytes>,
    pub kernel_image: Option<StagedBytes>,
    pub init_capsule: Option<StagedBytes>,
}

impl LoaderBuffers {
    /// Nothing staged.
    pub fn empty() -> (r: Self)
        ensures
            r.boot_info is None && r.boot_info_v2 is None && r.display_path_text_v2 is None,
            r.storage_seeds_v2 is None && r.network_seeds_v2 is None && r.accel_seed_v2 is None,
            r.kernel_image_digest is None && r.verification_info is None && r.memory_map is None,
            r.stage1_plan is None && r.stage1_image is None && r.kernel_image is None && r.init_capsule is None,
    {
        LoaderBuffers {
            boot_info: None,
            boot_info_v2: None,
            display_path_text_v2: None,
            storage_seeds_v2: None,
            network_seeds_v2: None,
            accel_seed_v2: None,
            kernel_image_digest: None,
            verification_info: None,
            memory_map: None,
            stage1_plan: None,
            stage1_image: None,
            kernel_image: None,
            init_capsule: None,
        }
    }

    /// Every staged buffer lies inside the address space.
    pub open spec fn fits(&self) -> bool {
        &&& (self.kernel_image matches Some(k) ==> k.addr + k.bytes@.len() <= u64::MAX)
        &&& (self.init_capsule matches Some(c) ==> c.addr + c.bytes@.len() <= u64::MAX)
    }
}

/// The staged stage-1 image is a stage-1 payload entered with a plan.
pub open spec fn stage1_image_accepts(b: Seq<u8>) -> bool {
    &&& payload_accepts(b)
    &&& le_u32_at(b, 12) == NovaPayloadKind::Stage1.spec_raw()
    &&& le_u32_at(b, 36) == NovaPayloadEntryAbi::Stage1Plan.spec_raw()
}

/// The staged kernel is a kernel payload entered with a BootInfo v2 sidecar.
pub open spec fn kernel_payload_accepts(b: Seq<u8>) -> bool {
    &&& payload_accepts(b)
    &&& le_u32_at(b, 12) == NovaPayloadKind::Kernel.spec_raw()
    &&& le_u32_at(b, 36) == NovaPayloadEntryAbi::BootInfoV2Sidecar.spec_raw()
}

/// The digest record is the SHA-256 record of a non-empty image.
pub open spec fn spec_digest_matches(image: Seq<u8>, d: NovaImageDigestV1) -> bool {
    &&& image.len() != 0
    &&& d.magic == NOVA_IMAGE_DIGEST_MAGIC
    &&& d.algorithm == NovaDigestAlgorithm::Sha256
    &&& d.byte_len == 32
    &&& d.bytes@ == sha256_spec(image)
}

/// The digest record the loader stages for a kernel image: none for an
/// empty image, else the SHA-256 record of its bytes.
pub fn build_kernel_image_digest(image: &[u8]) -> (r: Option<NovaImageDigestV1>)
    ensures
        r is None <==> image@.len() == 0,
        r matches Some(d) ==> spec_digest_matches(image@, d) && d.spec_is_valid(),
{
    if image.len() == 0 {
        return None;
    }
    Some(NovaImageDigestV1::from_bytes_sha256(image))
}

/// Whether the digest record is the SHA-256 record of the image.
pub fn kernel_image_digest_matches(image: &[u8], digest: &NovaImageDigestV1) -> (r: bool)
    ensures
        r == spec_digest_matches(image@, *digest),
{
    if image.len() == 0 {
        return false;
    }
    let expected = NovaImageDigestV1::from_bytes_sha256(image);
    expected.magic == digest.magic && expected.algorithm.as_raw() == digest.algorithm.as_raw()
        && expected.byte_len == digest.byte_len && digest_bytes_equal(&expected.bytes, &digest.bytes)
        && digest.is_valid()
}

/// The verification record the staged buffers call for: each payload that is
/// present with its size, each that parses as verified, the capsule's
/// presence, and the kernel digest's presence and match.
pub open spec fn spec_expected_verification(b: LoaderBuffers) -> NovaVerificationInfoV1 {
    let f0 = 0u32;
    let f1 = if b.stage1_image is Some { f0 | 0x1u32 } else { f0 };
    let f2 = if (b.stage1_image matches Some(s) && stage1_image_accepts(s.bytes@)) { f1 | 0x2u32 } else { f1 };
    let f3 = if b.kernel_image is Some { f2 | 0x4u32 } else { f2 };
    let f4 = if (b.kernel_image matches Some(k) && kernel_payload_accepts(k.bytes@)) { f3 | 0x8u32 } else { f3 };
    let f5 = if b.init_capsule is Some { f4 | 0x40u32 } else { f4 };
    let f6 = if b.kernel_image_digest is Some { f5 | 0x10u32 } else { f5 };
    let f7 = if (b.kernel_image_digest matches Some(d) && (b.kernel_image matches Some(k) && spec_digest_matches(k.bytes@, d))) {
        f6 | 0x20u32
    } else {
        f6
    };
    NovaVerificationInfoV1 {
        magic: NOVA_VERIFICATION_MAGIC,
        version: 1,
        flags: f7,
        stage1_image_size: match b.stage1_image { Some(s) => s.bytes@.len() as u64, None => 0 },
        kernel_image_size: match b.kernel_image { Some(k) => k.bytes@.len() as u64, None => 0 },
    }
}

/// The verification record the staged buffers call for sets each flag
/// exactly when what it names holds: stage 1 present, stage 1 accepted as a
/// stage-1 payload, kernel present, kernel accepted as a kernel payload,
/// digest present, digest matching the staged kernel, capsule present; it
/// sets no other flag, records each image's size, and is valid exactly when
/// each staged image is non-empty.
pub proof fn lemma_expected_verification_flags(b: LoaderBuffers)
    ensures
        ({
            let v = spec_expected_verification(b);
            &&& (v.flags & 0x01 != 0) == (b.stage1_image is Some)
            &&& (v.flags & 0x02 != 0) == (b.stage1_image matches Some(s) && stage1_image_accepts(s.bytes@))
            &&& (v.flags & 0x04 != 0) == (b.kernel_image is Some)
            &&& (v.flags & 0x08 != 0) == (b.kernel_image matches Some(k) && kernel_payload_accepts(k.bytes@))
            &&& (v.flags & 0x10 != 0) == (b.kernel_image_digest is Some)
            &&& (v.flags & 0x20 != 0) == (b.kernel_image_digest matches Some(d) && (b.kernel_image matches Some(k)
                && spec_digest_matches(k.bytes@, d)))
            &&& (v.flags & 0x40 != 0) == (b.init_capsule is Some)
            &&& v.flags & 0xFFFF_FF80 == 0
            &&& v.stage1_image_size == match b.stage1_image { Some(s) => s.bytes@.len() as u64, None => 0 }
            &&& v.kernel_image_size == match b.kernel_image { Some(k) => k.bytes@.len() as u64, None => 0 }
            &&& v.spec_is_valid() == ((b.stage1_image matches Some(s) ==> s.bytes@.len() as u64 != 0) && (
                b.kernel_image matches Some(k) ==> k.bytes@.len() as u64 != 0))
        }),
{
    let a1 = b.stage1_image is Some;
    let a2 = b.stage1_image matches Some(s) && stage1_image_accepts(s.bytes@);
    let a3 = b.kernel_image is Some;
    let a4 = b.kernel_image matches Some(k) && kernel_payload_accepts(k.bytes@);
    let a5 = b.init_capsule is Some;
    let a6 = b.kernel_image_digest is Some;
    let a7 = b.kernel_image_digest matches Some(d) && (b.kernel_image matches Some(k) && spec_digest_matches(k.bytes@, d));
    let m1: u32 = if a1 { 0x1 } else { 0 };
    let m2: u32 = if a2 { 0x2 } else { 0 };
    let m3: u32 = if a3 { 0x4 } else { 0 };
    let m4: u32 = if a4 { 0x8 } else { 0 };
    let m5: u32 = if a5 { 0x40 } else { 0 };
    let m6: u32 = if a6 { 0x10 } else { 0 };
    let m7: u32 = if a7 { 0x20 } else { 0 };
    let f1: u32 = 0u32 | m1;
    let f2: u32 = f1 | m2;
    let f3: u32 = f2 | m3;
    let f4: u32 = f3 | m4;
    let f5: u32 = f4 | m5;
    let f6: u32 = f5 | m6;
    let f7: u32 = f6 | m7;
    assert(forall|x: u32| #[trigger] (x | 0u32) == x) by (bit_vector);
    assert(spec_expected_verification(b).flags == f7);
    assert({
        &&& (f7 & 0x01 != 0) == (m1 == 0x1)
        &&& (f7 & 0x02 != 0) == (m2 == 0x2)
        &&& (f7 & 0x04 != 0) == (m3 == 0x4)
        &&& (f7 & 0x08 != 0) == (m4 == 0x8)
        &&& (f7 & 0x40 != 0) == (m5 == 0x40)
        &&& (f7 & 0x10 != 0) == (m6 == 0x10)
        &&& (f7 & 0x20 != 0) == (m7 == 0x20)
        &&& f7 & 0xFFFF_FF80 == 0
        &&& (f7 & 0x02 != 0) ==> (f7 & 0x01 != 0) || m1 == 0
    }) by (bit_vector)
        requires
            m1 == 0 || m1 == 0x1,
            m2 == 0 || m2 == 0x2,
            m3 == 0 || m3 == 0x4,
            m4 == 0 || m4 == 0x8,
            m5 == 0 || m5 == 0x40,
            m6 == 0 || m6 == 0x10,
            m7 == 0 || m7 == 0x20,
            f7 == 0u32 | m1 | m2 | m3 | m4 | m5 | m6 | m7,
    ;
}

/// Builds the verification record the staged buffers call for, where it is
/// valid.
pub fn build_verification_info(buffers: &LoaderBuffers) -> (r: Option<NovaVerificationInfoV1>)
    ensures
        r is Some <==> spec_expected_verification(*buffers).spec_is_valid(),
        r matches Some(v) ==> v == spec_expected_verification(*buffers),
        r matches Some(v) ==> (v.flags & 0x02 != 0) == (buffers.stage1_image matches Some(s) && stage1_image_accepts(
            s.bytes@,
        )) && (v.flags & 0x08 != 0) == (buffers.kernel_image matches Some(k) && kernel_payload_accepts(k.bytes@)) && (
        v.flags & 0x20 != 0) == (buffers.kernel_image_digest matches Some(d) && (buffers.kernel_image matches Some(k)
            && spec_digest_matches(k.bytes@, d))),
{
    proof {
        lemma_expected_verification_flags(*buffers);
    }
    let mut info = NovaVerificationInfoV1::new();
    if let Some(stage1_image) = &buffers.stage1_image {
        info.stage1_image_size = stage1_image.bytes.len() as u64;
        info.set_flag(NovaVerificationInfoV1::FLAG_STAGE1_PAYLOAD_PRESENT);
        if PayloadImage::parse_kind_abi(stage1_image.bytes.as_slice(), NovaPayloadKind::Stage1, NovaPayloadEntryAbi::Stage1Plan).is_some() {
            info.set_flag(NovaVerificationInfoV1::FLAG_STAGE1_PAYLOAD_VERIFIED);
        }
    }
    if let Some(kernel_image) = &buffers.kernel_image {
        info.kernel_image_size = kernel_image.bytes.len() as u64;
        info.set_flag(NovaVerificationInfoV1::FLAG_KERNEL_PAYLOAD_PRESENT);
        if PayloadImage::parse_kind_abi(kernel_image.bytes.as_slice(), NovaPayloadKind::Kernel, NovaPayloadEntryAbi::BootInfoV2Sidecar).is_some() {
            info.set_flag(NovaVerificationInfoV1::FLAG_KERNEL_PAYLOAD_VERIFIED);
        }
    }
    if buffers.init_capsule.is_some() {
        info.set_flag(NovaVerificationInfoV1::FLAG_INIT_CAPSULE_PRESENT);
    }
    if let Some(digest) = &buffers.kernel_image_digest {
        info.set_flag(NovaVerificationInfoV1::FLAG_KERNEL_DIGEST_PRESENT);
        let matches = match &buffers.kernel_image {
            Some(image) => kernel_image_digest_matches(image.bytes.as_slice(), digest),
            None => false,
        };
        if matches {
            info.set_flag(NovaVerificationInfoV1::FLAG_KERNEL_DIGEST_VERIFIED);
        }
    }
    if info.is_valid() {
        Some(info)
    } else {
        None
    }
}

/// The loader's hand-over: its plan and what it staged.
pub struct LoaderHandoff {
    pub plan: LoaderPlan,
    pub buffers: LoaderBuffers,
}

/// What `validate` gives: the first refusal that applies, in the order boot
/// record, missing stage-1 image, kernel image, kernel digest and
/// verification record, invalid stage-1 image, kernel image, kernel digest
/// and verification record, missing plan and memory-map storage, missing
/// boot-record storage, the stage-1 plan's own refusal, and a sidecar that
/// disagrees with its staged tables; otherwise success.
pub open spec fn spec_loader_validate(plan: LoaderPlan, b: LoaderBuffers) -> Result<(), LoaderError> {
    if !plan.boot_info.spec_is_valid() {
        Err(LoaderError::InvalidBootInfo)
    } else if b.stage1_image is None {
        Err(LoaderError::MissingStage1Image)
    } else if b.kernel_image is None {
        Err(LoaderError::MissingKernelImage)
    } else if b.kernel_image_digest is None {
        Err(LoaderError::MissingKernelImageDigest)
    } else if b.verification_info is None {
        Err(LoaderError::MissingVerificationInfo)
    } else if !stage1_image_accepts(b.stage1_image->0.bytes@) {
        Err(LoaderError::InvalidStage1Image)
    } else if !kernel_payload_accepts(b.kernel_image->0.bytes@) {
        Err(LoaderError::InvalidKernelImage)
    } else if !spec_digest_matches(b.kernel_image->0.bytes@, b.kernel_image_digest->0) {
        Err(LoaderError::InvalidKernelImageDigest)
    } else if !(spec_expected_verification(b).spec_is_valid() && spec_expected_verification(b) == b.verification_info->0) {
        Err(LoaderError::InvalidVerificationInfo)
    } else if b.stage1_plan is None {
        Err(LoaderError::MissingStage1PlanStorage)
    } else if b.memory_map is None {
        Err(LoaderError::MissingMemoryMapStorage)
    } else if b.boot_info is None {
        Err(LoaderError::MissingBootInfoStorage)
    } else {
        let record = b.boot_info->0;
        let built = spec_build_plan_parts(
            record.1,
            record.0,
            match b.boot_info_v2 { Some(v) => Some(v.1), None => None },
            match b.boot_info_v2 { Some(v) => v.0, None => 0 },
            b.kernel_image->0.bytes@,
            b.kernel_image->0.addr,
            match b.init_capsule { Some(c) => Some(c.bytes@), None => None },
            match b.init_capsule { Some(c) => c.addr, None => 0 },
            b.kernel_image_digest,
            b.verification_info,
        );
        match built {
            Err(status) => Err(LoaderError::Stage1(status)),
            Ok(_) => if (b.boot_info_v2 matches Some(v) && !spec_validate_boot_info_v2_parts(
                v.1,
                match b.display_path_text_v2 { Some(d) => Some(d.bytes@), None => None },
                match b.display_path_text_v2 { Some(d) => d.addr, None => 0 },
                match b.storage_seeds_v2 { Some(t) => Some(storage_seed_paths(t.1@)), None => None },
                match b.storage_seeds_v2 { Some(t) => t.0, None => 0 },
                match b.network_seeds_v2 { Some(t) => Some(network_seed_paths(t.1@)), None => None },
                match b.network_seeds_v2 { Some(t) => t.0, None => 0 },
                match b.accel_seed_v2 { Some(a) => Some(a.1), None => None },
                match b.accel_seed_v2 { Some(a) => a.0, None => 0 },
                match b.init_capsule { Some(c) => Some(c.bytes@), None => None },
                match b.init_capsule { Some(c) => c.addr, None => 0 },
            )) {
                Err(LoaderError::InvalidBootInfoV2)
            } else {
                Ok(())
            },
        }
    }
}

/// What planning stage 1 from the staged buffers gives: the missing
/// boot-record storage or kernel image, else the stage-1 planner's answer.
pub open spec fn spec_handoff_stage1_plan(b: LoaderBuffers) -> Result<Stage1Plan, LoaderError> {
    if b.boot_info is None {
        Err(LoaderError::MissingBootInfoStorage)
    } else if b.kernel_image is None {
        Err(LoaderError::MissingKernelImage)
    } else {
        let record = b.boot_info->0;
        match spec_build_plan_parts(
            record.1,
            record.0,
            match b.boot_info_v2 { Some(v) => Some(v.1), None => None },
            match b.boot_info_v2 { Some(v) => v.0, None => 0 },
            b.kernel_image->0.bytes@,
            b.kernel_image->0.addr,
            match b.init_capsule { Some(c) => Some(c.bytes@), None => None },
            match b.init_capsule { Some(c) => c.addr, None => 0 },
            b.kernel_image_digest,
            b.verification_info,
        ) {
            Ok(plan) => Ok(plan),
            Err(status) => Err(LoaderError::Stage1(status)),
        }
    }
}

/// A hand-over that validates also plans stage 1: validation runs the
/// stage-1 planner on the same staged records and refuses what it refuses.
pub proof fn lemma_validated_handoff_plans_stage1(plan: LoaderPlan, b: LoaderBuffers)
    requires
        spec_loader_validate(plan, b) is Ok,
    ensures
        spec_handoff_stage1_plan(b) is Ok,
{
}

/// A hand-over that validates has every image, digest and record staged: the
/// boot record is valid, the stage-1 and kernel images are accepted, the
/// kernel image matches its digest, the verification record is the one the
/// staged buffers call for, and the plan, memory-map and boot-record storage
/// are there.
pub proof fn lemma_validated_handoff_staged(plan: LoaderPlan, b: LoaderBuffers)
    requires
        spec_loader_validate(plan, b) is Ok,
    ensures
        plan.boot_info.spec_is_valid(),
        b.stage1_image matches Some(i) && stage1_image_accepts(i.bytes@),
        b.kernel_image matches Some(k) && kernel_payload_accepts(k.bytes@),
        b.kernel_image_digest matches Some(d) && spec_digest_matches(b.kernel_image->0.bytes@, d),
        b.verification_info matches Some(v) && v == spec_expected_verification(b) && v.spec_is_valid(),
        b.stage1_plan is Some && b.memory_map is Some && b.boot_info is Some,
{
}

/// `record` with the final memory map: `entries` descriptors of `desc_size`
/// bytes at `ptr`.
pub open spec fn with_memory_map_v1(record: NovaBootInfoV1, entries: u32, desc_size: u32, ptr: u64) -> NovaBootInfoV1 {
    NovaBootInfoV1 { memory_map_entries: entries, memory_map_desc_size: desc_size, memory_map_ptr: ptr, ..record }
}

/// The BootInfo v2 `record` with the final memory map.
pub open spec fn with_memory_map_v2(record: NovaBootInfoV2, entries: u32, desc_size: u32, ptr: u64) -> NovaBootInfoV2 {
    NovaBootInfoV2 { memory_map_entries: entries, memory_map_desc_size: desc_size, memory_map_ptr: ptr, ..record }
}

impl LoaderHandoff {
    /// Writes the final memory map (`entries` descriptors of `desc_size`
    /// bytes at `ptr`) into the planned BootInfo and its staged copy, and into
    /// the staged BootInfo v2 record and the plan's draft of it, where one is
    /// staged. Nothing else changes.
    pub fn record_final_memory_map(&mut self, entries: u32, desc_size: u32, ptr: u64)
        ensures
            final(self).plan == (LoaderPlan {
                boot_info: with_memory_map_v1(old(self).plan.boot_info, entries, desc_size, ptr),
                boot_info_v2_draft: match old(self).buffers.boot_info_v2 {
                    Some(v) => with_memory_map_v2(v.1, entries, desc_size, ptr),
                    None => old(self).plan.boot_info_v2_draft,
                },
                ..old(self).plan
            }),
            final(self).buffers == (LoaderBuffers {
                boot_info: match old(self).buffers.boot_info {
                    Some(b) => Some((b.0, with_memory_map_v1(old(self).plan.boot_info, entries, desc_size, ptr))),
                    None => None,
                },
                boot_info_v2: match old(self).buffers.boot_info_v2 {
                    Some(v) => Some((v.0, with_memory_map_v2(v.1, entries, desc_size, ptr))),
                    None => None,
                },
                ..old(self).buffers
            }),
    {
        let record = NovaBootInfoV1 {
            memory_map_entries: entries,
            memory_map_desc_size: desc_size,
            memory_map_ptr: ptr,
            ..self.plan.boot_info
        };
        self.plan.boot_info = record;
        if let Some((addr, _)) = self.buffers.boot_info {
            self.buffers.boot_info = Some((addr, record));
        }
        if let Some((addr, v2)) = self.buffers.boot_info_v2 {
            let updated = NovaBootInfoV2 {
                memory_map_entries: entries,
                memory_map_desc_size: desc_size,
                memory_map_ptr: ptr,
                ..v2
            };
            self.plan.boot_info_v2_draft = updated;
            self.buffers.boot_info_v2 = Some((addr, updated));
        }
    }

    /// A hand-over of `plan` with nothing staged yet.
    pub fn prepare(plan: LoaderPlan) -> (r: Self)
        ensures
            r.plan == plan,
            r.buffers.boot_info is None && r.buffers.boot_info_v2 is None && r.buffers.stage1_image is None,
            r.buffers.kernel_image is None && r.buffers.kernel_image_digest is None && r.buffers.verification_info is None,
            r.buffers.init_capsule is None && r.buffers.memory_map is None && r.buffers.stage1_plan is None,
            r.buffers.display_path_text_v2 is None && r.buffers.storage_seeds_v2 is None,
            r.buffers.network_seeds_v2 is None && r.buffers.accel_seed_v2 is None,
    {
        LoaderHandoff { plan, buffers: LoaderBuffers::empty() }
    }

    /// Plans stage 1 from what was staged.
    pub fn build_stage1_plan(&self) -> (r: Result<Stage1Plan, LoaderError>)
        requires
            self.buffers.fits(),
        ensures
            r == spec_handoff_stage1_plan(self.buffers),
    {
        let b = &self.buffers;
        let (boot_info_addr, boot_info) = match &b.boot_info {
            Some(r) => (r.0, &r.1),
            None => return Err(LoaderError::MissingBootInfoStorage),
        };
        let kernel_image = match &b.kernel_image {
            Some(k) => k,
            None => return Err(LoaderError::MissingKernelImage),
        };
        let (boot_info_v2, boot_info_v2_addr) = match &b.boot_info_v2 {
            Some(v) => (Some(&v.1), v.0),
            None => (None, 0),
        };
        let (init_capsule, init_capsule_addr) = match &b.init_capsule {
            Some(c) => (Some(c.bytes.as_slice()), c.addr),
            None => (None, 0),
        };
        let input = Stage1Input {
            boot_info,
            boot_info_addr,
            boot_info_v2,
            boot_info_v2_addr,
            kernel_image: kernel_image.bytes.as_slice(),
            kernel_image_addr: kernel_image.addr,
            init_capsule,
            init_capsule_addr,
            kernel_image_digest: b.kernel_image_digest,
            verification_info: b.verification_info,
            secure_boot: boot_info.secure_boot_enabled(),
        };
        match build_plan(&input) {
            Ok(plan) => Ok(plan),
            Err(status) => Err(LoaderError::Stage1(status)),
        }
    }

    /// The structured hand-over report, with whether stage 1 could be
    /// planned from what was staged.
    pub fn structured_handoff_report(&self) -> (r: String)
        requires
            self.buffers.fits(),
        ensures
            r@ == crate::loader_report::spec_handoff_report(
                self.plan,
                spec_handoff_stage1_plan(self.buffers) is Ok,
            ),
    {
        let ready = self.build_stage1_plan().is_ok();
        self.plan.structured_handoff_report(ready)
    }

    /// The loader's printed summary of its plan.
    pub fn summary(&self) -> (r: String)
        ensures
            r@ == crate::loader_report::spec_plan_summary(self.plan),
    {
        self.plan.summary()
    }

    /// Checks that everything stage 1 and the kernel need is staged and
    /// consistent.
    pub fn validate(&self) -> (r: Result<(), LoaderError>)
        requires
            self.buffers.fits(),
        ensures
            r == spec_loader_validate(self.plan, self.buffers),
    {
        let b = &self.buffers;
        if !self.plan.boot_info.is_valid() {
            return Err(LoaderError::InvalidBootInfo);
        }
        let stage1_image = match &b.stage1_image {
            Some(s) => s,
            None => return Err(LoaderError::MissingStage1Image),
        };
        let kernel_image = match &b.kernel_image {
            Some(k) => k,
            None => return Err(LoaderError::MissingKernelImage),
        };
        let digest = match &b.kernel_image_digest {
            Some(d) => d,
            None => return Err(LoaderError::MissingKernelImageDigest),
        };
        let verification = match &b.verification_info {
            Some(v) => v,
            None => return Err(LoaderError::MissingVerificationInfo),
        };
        if PayloadImage::parse_kind_abi(stage1_image.bytes.as_slice(), NovaPayloadKind::Stage1, NovaPayloadEntryAbi::Stage1Plan).is_none() {
            return Err(LoaderError::InvalidStage1Image);
        }
        if PayloadImage::parse_kind_abi(kernel_image.bytes.as_slice(), NovaPayloadKind::Kernel, NovaPayloadEntryAbi::BootInfoV2Sidecar).is_none() {
            return Err(LoaderError::InvalidKernelImage);
        }
        if !kernel_image_digest_matches(kernel_image.bytes.as_slice(), digest) {
            return Err(LoaderError::InvalidKernelImageDigest);
        }
        let expected_matches = match build_verification_info(b) {
            Some(expected) => expected == *verification,
            None => false,
        };
        if !expected_matches {
            return Err(LoaderError::InvalidVerificationInfo);
        }
        if b.stage1_plan.is_none() {
            return Err(LoaderError::MissingStage1PlanStorage);
        }
        if b.memory_map.is_none() {
            return Err(LoaderError::MissingMemoryMapStorage);
        }
        let (boot_info_addr, boot_info) = match &b.boot_info {
            Some(r) => (r.0, &r.1),
            None => return Err(LoaderError::MissingBootInfoStorage),
        };
        let (boot_info_v2, boot_info_v2_addr) = match &b.boot_info_v2 {
            Some(v) => (Some(&v.1), v.0),
            None => (None, 0),
        };
        let (init_capsule, init_capsule_addr) = match &b.init_capsule {
            Some(c) => (Some(c.bytes.as_slice()), c.addr),
            None => (None, 0),
        };
        let input = Stage1Input {
            boot_info,
            boot_info_addr,
            boot_info_v2,
            boot_info_v2_addr,
            kernel_image: kernel_image.bytes.as_slice(),
            kernel_image_addr: kernel_image.addr,
            init_capsule,
            init_capsule_addr,
            kernel_image_digest: b.kernel_image_digest,
            verification_info: b.verification_info,
            secure_boot: boot_info.secure_boot_enabled(),
        };
        if let Err(status) = build_plan(&input) {
            return Err(LoaderError::Stage1(status));
        }
        if let Some(v2) = &b.boot_info_v2 {
            let (display_path, display_path_addr) = match &b.display_path_text_v2 {
                Some(d) => (Some(d.bytes.as_slice()), d.addr),
                None => (None, 0),
            };
            let (storage_seeds, storage_seeds_addr) = match &b.storage_seeds_v2 {
                Some(t) => (Some(t.1.as_slice()), t.0),
                None => (None, 0),
            };
            let (network_seeds, network_seeds_addr) = match &b.network_seeds_v2 {
                Some(t) => (Some(t.1.as_slice()), t.0),
                None => (None, 0),
            };
            let (accel_seed, accel_seed_addr) = match &b.accel_seed_v2 {
                Some(a) => (Some(&a.1), a.0),
                None => (None, 0),
            };
            let sidecars = BootInfoV2Sidecars {
                display_path,
                display_path_addr,
                storage_seeds,
                storage_seeds_addr,
                network_seeds,
                network_seeds_addr,
                accel_seed,
                accel_seed_addr,
                init_capsule,
                init_capsule_addr,
            };
            if !validate_boot_info_v2(&v2.1, &sidecars) {
                return Err(LoaderError::InvalidBootInfoV2);
            }
        }
        Ok(())
    }
}

} // verus!
