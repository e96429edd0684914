//! BootInfo v2: the portable boot record with its bootstrap sidecar descriptors.
use vstd::prelude::*;
use crate::bootinfo::{BootSource, FramebufferFormat};
use crate::fabric::{CpuArchitecture, MemoryTopologyClass, PlatformClass};

verus! {

/// Encoded size of [`NovaFramebufferDescriptorV1`].
pub const NOVA_FRAMEBUFFER_DESCRIPTOR_V1_SIZE: usize = 24;
/// Encoded size of [`NovaDisplayPathDescriptorV1`].
pub const NOVA_DISPLAY_PATH_DESCRIPTOR_V1_SIZE: usize = 16;
/// Encoded size of [`NovaStorageSeedV1`].
pub const NOVA_STORAGE_SEED_V1_SIZE: usize = 16;
/// Encoded size of [`NovaNetworkSeedV1`].
pub const NOVA_NETWORK_SEED_V1_SIZE: usize = 16;
/// Encoded size of [`NovaBootstrapPayloadDescriptorV1`].
pub const NOVA_BOOTSTRAP_PAYLOAD_DESCRIPTOR_V1_SIZE: usize = 40;
/// Encoded size of [`NovaBootstrapUserWindowDescriptorV1`].
pub const NOVA_BOOTSTRAP_USER_WINDOW_DESCRIPTOR_V1_SIZE: usize = 32;
/// Encoded size of [`NovaBootstrapFrameArenaDescriptorV1`].
pub const NOVA_BOOTSTRAP_FRAME_ARENA_DESCRIPTOR_V1_SIZE: usize = 24;
/// Encoded size of [`NovaBootInfoV2`].
pub const NOVA_BOOT_INFO_V2_SIZE: usize = 368;
/// Offset of `cpu_arch` in the encoded [`NovaBootInfoV2`].
pub const NOVA_BOOT_INFO_V2_CPU_ARCH_OFFSET: usize = 16;
/// Offset of `firmware_vendor_ptr` in the encoded [`NovaBootInfoV2`].
pub const NOVA_BOOT_INFO_V2_FIRMWARE_VENDOR_PTR_OFFSET: usize = 32;
/// Offset of `framebuffer` in the encoded [`NovaBootInfoV2`].
pub const NOVA_BOOT_INFO_V2_FRAMEBUFFER_OFFSET: usize = 120;
/// Offset of `accel_seeds_ptr` in the encoded [`NovaBootInfoV2`].
pub const NOVA_BOOT_INFO_V2_ACCEL_SEEDS_PTR_OFFSET: usize = 192;
/// Offset of `init_capsule_ptr` in the encoded [`NovaBootInfoV2`].
pub const NOVA_BOOT_INFO_V2_INIT_CAPSULE_PTR_OFFSET: usize = 208;
/// Offset of `bootstrap_payload` in the encoded [`NovaBootInfoV2`].
pub const NOVA_BOOT_INFO_V2_BOOTSTRAP_PAYLOAD_OFFSET: usize = 272;
/// Offset of `bootstrap_user_window` in the encoded [`NovaBootInfoV2`].
pub const NOVA_BOOT_INFO_V2_BOOTSTRAP_USER_WINDOW_OFFSET: usize = 312;
/// Offset of `bootstrap_frame_arena` in the encoded [`NovaBootInfoV2`].
pub const NOVA_BOOT_INFO_V2_BOOTSTRAP_FRAME_ARENA_OFFSET: usize = 344;

/// The framebuffer the firmware left running.
#[derive(Clone, Copy, Debug, PartialEq, Eq, Structural)]
pub struct NovaFramebufferDescriptorV1 {
    pub base: u64,
    pub width: u32,
    pub height: u32,
    pub stride: u32,
    pub format: FramebufferFormat,
}

impl NovaFramebufferDescriptorV1 {
    /// The descriptor of no framebuffer.
    pub fn empty() -> (r: Self)
        ensures
            r == (NovaFramebufferDescriptorV1 {
                base: 0,
                width: 0,
                height: 0,
                stride: 0,
                format: FramebufferFormat::Unknown,
            }),
    {
        NovaFramebufferDescriptorV1 { base: 0, width: 0, height: 0, stride: 0, format: FramebufferFormat::Unknown }
    }
}

/// The firmware device path of the active display.
#[derive(Clone, Copy, Debug, PartialEq, Eq, Structural)]
pub struct NovaDisplayPathDescriptorV1 {
    pub device_path_ptr: u64,
    pub device_path_len: u32,
    pub flags: u32,
}

impl NovaDisplayPathDescriptorV1 {
    /// The descriptor of no display path.
    pub fn empty() -> (r: Self)
        ensures
            r == (NovaDisplayPathDescriptorV1 { device_path_ptr: 0, device_path_len: 0, flags: 0 }),
    {
        NovaDisplayPathDescriptorV1 { device_path_ptr: 0, device_path_len: 0, flags: 0 }
    }
}

/// A storage device the loader saw.
#[derive(Clone, Copy, Debug, PartialEq, Eq, Structural)]
pub struct NovaStorageSeedV1 {
    pub device_path_ptr: u64,
    pub device_path_len: u32,
    pub flags: u32,
}

impl NovaStorageSeedV1 {
    /// The empty storage seed.
    pub fn empty() -> (r: Self)
        ensures
            r == (NovaStorageSeedV1 { device_path_ptr: 0, device_path_len: 0, flags: 0 }),
    {
        NovaStorageSeedV1 { device_path_ptr: 0, device_path_len: 0, flags: 0 }
    }
}

/// A network device the loader saw.
#[derive(Clone, Copy, Debug, PartialEq, Eq, Structural)]
pub struct NovaNetworkSeedV1 {
    pub device_path_ptr: u64,
    pub device_path_len: u32,
    pub flags: u32,
}

impl NovaNetworkSeedV1 {
    /// The empty network seed.
    pub fn empty() -> (r: Self)
        ensures
            r == (NovaNetworkSeedV1 { device_path_ptr: 0, device_path_len: 0, flags: 0 }),
    {
        NovaNetworkSeedV1 { device_path_ptr: 0, device_path_len: 0, flags: 0 }
    }
}

/// Where the bootstrap task payload sits in memory and how it is loaded.
#[derive(Clone, Copy, Debug, PartialEq, Eq, Structural)]
pub struct NovaBootstrapPayloadDescriptorV1 {
    pub image_ptr: u64,
    pub image_len: u64,
    pub load_base: u64,
    pub load_size: u64,
    pub entry_point: u64,
}

impl NovaBootstrapPayloadDescriptorV1 {
    pub open spec fn spec_is_empty(self) -> bool {
        self.image_ptr == 0 && self.image_len == 0 && self.load_base == 0 && self.load_size == 0
            && self.entry_point == 0
    }

    /// The load range lies inside the image and the entry inside the load range.
    pub open spec fn spec_is_valid(self) -> bool {
        ||| self.spec_is_empty()
        ||| {
            &&& self.image_ptr != 0
            &&& self.image_len != 0
            &&& self.load_base != 0
            &&& self.load_size != 0
            &&& self.entry_point != 0
            &&& self.image_ptr + self.image_len <= u64::MAX
            &&& self.load_base + self.load_size <= u64::MAX
            &&& self.image_ptr <= self.load_base
            &&& self.load_base < self.image_ptr + self.image_len
            &&& self.load_base + self.load_size <= self.image_ptr + self.image_len
            &&& self.load_base <= self.entry_point
            &&& self.entry_point < self.load_base + self.load_size
        }
    }

    /// The descriptor of no payload.
    pub fn empty() -> (r: Self)
        ensures
            r.spec_is_empty(),
    {
        NovaBootstrapPayloadDescriptorV1 { image_ptr: 0, image_len: 0, load_base: 0, load_size: 0, entry_point: 0 }
    }

    /// Whether every field is zero.
    pub fn is_empty(&self) -> (r: bool)
        ensures
            r == self.spec_is_empty(),
    {
        self.image_ptr == 0 && self.image_len == 0 && self.load_base == 0 && self.load_size == 0
            && self.entry_point == 0
    }

    /// Whether the descriptor is empty or describes coherent ranges.
    pub fn is_valid(&self) -> (r: bool)
        ensures
            r == self.spec_is_valid(),
    {
        if self.is_empty() {
            return true;
        }
        if self.image_ptr == 0 || self.image_len == 0 || self.load_base == 0 || self.load_size == 0
            || self.entry_point == 0 {
            return false;
        }
        let image_limit = match self.image_ptr.checked_add(self.image_len) {
            Some(v) => v,
            None => return false,
        };
        let load_limit = match self.load_base.checked_add(self.load_size) {
            Some(v) => v,
            None => return false,
        };
        self.load_base >= self.image_ptr && self.load_base < image_limit && load_limit <= image_limit
            && self.entry_point >= self.load_base && self.entry_point < load_limit
    }
}

/// The user window the bootstrap task runs in.
#[derive(Clone, Copy, Debug, PartialEq, Eq, Structural)]
pub struct NovaBootstrapUserWindowDescriptorV1 {
    pub base: u64,
    pub len: u64,
    pub stack_size: u64,
    pub page_size: u32,
    pub flags: u32,
}

impl NovaBootstrapUserWindowDescriptorV1 {
    pub const PAGE_SIZE_4K: u32 = 4096;

    pub open spec fn spec_is_empty(self) -> bool {
        self.base == 0 && self.len == 0 && self.stack_size == 0 && self.page_size == 0 && self.flags == 0
    }

    /// A non-empty window is 4 KiB pages, page aligned, with room for its stack.
    pub open spec fn spec_is_valid(self) -> bool {
        ||| self.spec_is_empty()
        ||| {
            &&& self.base != 0
            &&& self.len != 0
            &&& self.stack_size != 0
            &&& self.page_size == 4096
            &&& self.flags == 0
            &&& self.base % 4096 == 0
            &&& self.len % 4096 == 0
            &&& self.stack_size % 4096 == 0
            &&& self.stack_size <= self.len
        }
    }

    /// The descriptor of no window.
    pub fn empty() -> (r: Self)
        ensures
            r.spec_is_empty(),
    {
        NovaBootstrapUserWindowDescriptorV1 { base: 0, len: 0, stack_size: 0, page_size: 0, flags: 0 }
    }

    /// Whether every field is zero.
    pub fn is_empty(&self) -> (r: bool)
        ensures
            r == self.spec_is_empty(),
    {
        self.base == 0 && self.len == 0 && self.stack_size == 0 && self.page_size == 0 && self.flags == 0
    }

    /// Whether the descriptor is empty or a well-formed window.
    pub fn is_valid(&self) -> (r: bool)
        ensures
            r == self.spec_is_valid(),
    {
        if self.is_empty() {
            return true;
        }
        if self.base == 0 || self.len == 0 || self.stack_size == 0 || self.page_size != Self::PAGE_SIZE_4K
            || self.flags != 0 {
            return false;
        }
        let page_size: u64 = 4096;
        self.base % page_size == 0 && self.len % page_size == 0 && self.stack_size % page_size == 0
            && self.stack_size <= self.len
    }
}

/// The physical frame arena the kernel may carve bootstrap frames from.
#[derive(Clone, Copy, Debug, PartialEq, Eq, Structural)]
pub struct NovaBootstrapFrameArenaDescriptorV1 {
    pub base: u64,
    pub len: u64,
    pub page_size: u32,
    pub flags: u32,
}

impl NovaBootstrapFrameArenaDescriptorV1 {
    pub const PAGE_SIZE_4K: u32 = 4096;

    pub open spec fn spec_is_empty(self) -> bool {
        self.base == 0 && self.len == 0 && self.page_size == 0 && self.flags == 0
    }

    /// A non-empty arena is 4 KiB pages and page aligned.
    pub open spec fn spec_is_valid(self) -> bool {
        ||| self.spec_is_empty()
        ||| {
            &&& self.base != 0
            &&& self.len != 0
            &&& self.page_size == 4096
            &&& self.flags == 0
            &&& self.base % 4096 == 0
            &&& self.len % 4096 == 0
        }
    }

    /// The descriptor of no arena.
    pub fn empty() -> (r: Self)
        ensures
            r.spec_is_empty(),
    {
        NovaBootstrapFrameArenaDescriptorV1 { base: 0, len: 0, page_size: 0, flags: 0 }
    }

    /// Whether every field is zero.
    pub fn is_empty(&self) -> (r: bool)
        ensures
            r == self.spec_is_empty(),
    {
        self.base == 0 && self.len == 0 && self.page_size == 0 && self.flags == 0
    }

    /// Whether the descriptor is empty or a well-formed arena.
    pub fn is_valid(&self) -> (r: bool)
        ensures
            r == self.spec_is_valid(),
    {
        if self.is_empty() {
            return true;
        }
        if self.base == 0 || self.len == 0 || self.page_size != Self::PAGE_SIZE_4K || self.flags != 0 {
            return false;
        }
        let page_size: u64 = 4096;
        self.base % page_size == 0 && self.len % page_size == 0
    }
}

/// BootInfo v2.
#[derive(Clone, Copy, Debug, PartialEq, Eq, Structural)]
pub struct NovaBootInfoV2 {
    pub magic: u64,
    pub version: u32,
    pub flags: u32,
    pub cpu_arch: CpuArchitecture,
    pub platform_class: PlatformClass,
    pub memory_topology_class: MemoryTopologyClass,
    pub secure_boot_state: u8,
    pub boot_source: BootSource,
    pub current_el: u8,
    pub reserved0: u8,
    pub reserved1: u16,
    pub firmware_vendor_ptr: u64,
    pub firmware_revision: u32,
    pub reserved2: u32,
    pub memory_map_ptr: u64,
    pub memory_map_entries: u32,
    pub memory_map_desc_size: u32,
    pub config_tables_ptr: u64,
    pub config_table_count: u32,
    pub reserved3: u32,
    pub acpi_rsdp_ptr: u64,
    pub dtb_ptr: u64,
    pub smbios_ptr: u64,
    pub vendor_tables_ptr: u64,
    pub vendor_table_count: u32,
    pub reserved4: u32,
    pub framebuffer: NovaFramebufferDescriptorV1,
    pub display_path: NovaDisplayPathDescriptorV1,
    pub storage_seeds_ptr: u64,
    pub storage_seed_count: u32,
    pub reserved5: u32,
    pub network_seeds_ptr: u64,
    pub network_seed_count: u32,
    pub reserved6: u32,
    pub accel_seeds_ptr: u64,
    pub accel_seed_count: u32,
    pub reserved7: u32,
    pub init_capsule_ptr: u64,
    pub init_capsule_len: u64,
    pub loader_log_ptr: u64,
    pub loader_log_len: u64,
    pub kernel_image_hash_ptr: u64,
    pub loader_image_hash_ptr: u64,
    pub boot_counter: u64,
    pub observatory_hash_ptr: u64,
    pub bootstrap_payload: NovaBootstrapPayloadDescriptorV1,
    pub bootstrap_user_window: NovaBootstrapUserWindowDescriptorV1,
    pub bootstrap_frame_arena: NovaBootstrapFrameArenaDescriptorV1,
}

/// The all-zero BootInfo v2.
pub open spec fn boot_info_v2_zero() -> NovaBootInfoV2 {
    NovaBootInfoV2 {
        magic: 0,
        version: 0,
        flags: 0,
        cpu_arch: CpuArchitecture::Unknown,
        platform_class: PlatformClass::Unknown,
        memory_topology_class: MemoryTopologyClass::Unknown,
        secure_boot_state: 0,
        boot_source: BootSource::Unknown,
        current_el: 0,
        reserved0: 0,
        reserved1: 0,
        firmware_vendor_ptr: 0,
        firmware_revision: 0,
        reserved2: 0,
        memory_map_ptr: 0,
        memory_map_entries: 0,
        memory_map_desc_size: 0,
        config_tables_ptr: 0,
        config_table_count: 0,
        reserved3: 0,
        acpi_rsdp_ptr: 0,
        dtb_ptr: 0,
        smbios_ptr: 0,
        vendor_tables_ptr: 0,
        vendor_table_count: 0,
        reserved4: 0,
        framebuffer: NovaFramebufferDescriptorV1 { base: 0, width: 0, height: 0, stride: 0, format: FramebufferFormat::Unknown },
        display_path: NovaDisplayPathDescriptorV1 { device_path_ptr: 0, device_path_len: 0, flags: 0 },
        storage_seeds_ptr: 0,
        storage_seed_count: 0,
        reserved5: 0,
        network_seeds_ptr: 0,
        network_seed_count: 0,
        reserved6: 0,
        accel_seeds_ptr: 0,
        accel_seed_count: 0,
        reserved7: 0,
        init_capsule_ptr: 0,
        init_capsule_len: 0,
        loader_log_ptr: 0,
        loader_log_len: 0,
        kernel_image_hash_ptr: 0,
        loader_image_hash_ptr: 0,
        boot_counter: 0,
        observatory_hash_ptr: 0,
        bootstrap_payload: NovaBootstrapPayloadDescriptorV1 { image_ptr: 0, image_len: 0, load_base: 0, load_size: 0, entry_point: 0 },
        bootstrap_user_window: NovaBootstrapUserWindowDescriptorV1 { base: 0, len: 0, stack_size: 0, page_size: 0, flags: 0 },
        bootstrap_frame_arena: NovaBootstrapFrameArenaDescriptorV1 { base: 0, len: 0, page_size: 0, flags: 0 },
    }
}

impl NovaBootInfoV2 {
    pub const MAGIC: u64 = 0x3242_4F4F_5441_564E;
    pub const VERSION: u32 = 2;

    pub open spec fn spec_is_valid(self) -> bool {
        &&& self.magic == Self::MAGIC
        &&& self.version == Self::VERSION
        &&& self.bootstrap_payload.spec_is_valid()
        &&& self.bootstrap_user_window.spec_is_valid()
        &&& self.bootstrap_frame_arena.spec_is_valid()
    }

    /// The all-zero record.
    pub fn zero() -> (r: Self)
        ensures
            r == boot_info_v2_zero(),
    {
        NovaBootInfoV2 {
            magic: 0,
            version: 0,
            flags: 0,
            cpu_arch: CpuArchitecture::Unknown,
            platform_class: PlatformClass::Unknown,
            memory_topology_class: MemoryTopologyClass::Unknown,
            secure_boot_state: 0,
            boot_source: BootSource::Unknown,
            current_el: 0,
            reserved0: 0,
            reserved1: 0,
            firmware_vendor_ptr: 0,
            firmware_revision: 0,
            reserved2: 0,
            memory_map_ptr: 0,
            memory_map_entries: 0,
            memory_map_desc_size: 0,
            config_tables_ptr: 0,
            config_table_count: 0,
            reserved3: 0,
            acpi_rsdp_ptr: 0,
            dtb_ptr: 0,
            smbios_ptr: 0,
            vendor_tables_ptr: 0,
            vendor_table_count: 0,
            reserved4: 0,
            framebuffer: NovaFramebufferDescriptorV1::empty(),
            display_path: NovaDisplayPathDescriptorV1::empty(),
            storage_seeds_ptr: 0,
            storage_seed_count: 0,
            reserved5: 0,
            network_seeds_ptr: 0,
            network_seed_count: 0,
            reserved6: 0,
            accel_seeds_ptr: 0,
            accel_seed_count: 0,
            reserved7: 0,
            init_capsule_ptr: 0,
            init_capsule_len: 0,
            loader_log_ptr: 0,
            loader_log_len: 0,
            kernel_image_hash_ptr: 0,
            loader_image_hash_ptr: 0,
            boot_counter: 0,
            observatory_hash_ptr: 0,
            bootstrap_payload: NovaBootstrapPayloadDescriptorV1::empty(),
            bootstrap_user_window: NovaBootstrapUserWindowDescriptorV1::empty(),
            bootstrap_frame_arena: NovaBootstrapFrameArenaDescriptorV1::empty(),
        }
    }

    /// A zeroed record carrying the v2 magic and version.
    pub fn new() -> (r: Self)
        ensures
            r == (NovaBootInfoV2 { magic: Self::MAGIC, version: Self::VERSION, ..boot_info_v2_zero() }),
            r.spec_is_valid(),
    {
        NovaBootInfoV2 { magic: Self::MAGIC, version: Self::VERSION, ..Self::zero() }
    }

    /// The all-zero record.
    pub fn empty() -> (r: Self)
        ensures
            r == boot_info_v2_zero(),
    {
        Self::zero()
    }

    /// Magic, version and each bootstrap descriptor check out.
    pub fn is_valid(&self) -> (r: bool)
        ensures
            r == self.spec_is_valid(),
    {
        self.magic == Self::MAGIC && self.version == Self::VERSION && self.bootstrap_payload.is_valid()
            && self.bootstrap_user_window.is_valid() && self.bootstrap_frame_arena.is_valid()
    }

    /// Whether a memory map is attached.
    pub fn memory_map_present(&self) -> (r: bool)
        ensures
            r == (self.memory_map_ptr != 0 && self.memory_map_entries != 0
                && self.memory_map_desc_size != 0),
    {
        self.memory_map_ptr != 0 && self.memory_map_entries != 0 && self.memory_map_desc_size != 0
    }

    /// Whether a framebuffer is attached.
    pub fn framebuffer_present(&self) -> (r: bool)
        ensures
            r == (self.framebuffer.base != 0 && self.framebuffer.width != 0
                && self.framebuffer.height != 0),
    {
        self.framebuffer.base != 0 && self.framebuffer.width != 0 && self.framebuffer.height != 0
    }
}

} // verus!
