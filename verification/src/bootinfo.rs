//! BootInfo v1: the record the loader hands to stage1 and the kernel.
use vstd::prelude::*;

verus! {

/// Encoded size of [`NovaBootInfoV1`].
pub const NOVA_BOOT_INFO_V1_SIZE: usize = 152;
/// Offset of `framebuffer_base` in the encoded [`NovaBootInfoV1`].
pub const NOVA_BOOT_INFO_V1_FRAMEBUFFER_BASE_OFFSET: usize = 88;
/// Offset of `verification_info_ptr` in the encoded [`NovaBootInfoV1`].
pub const NOVA_BOOT_INFO_V1_VERIFICATION_INFO_PTR_OFFSET: usize = 144;

pub const NOVA_BOOT_INFO_MAGIC: u64 = 0x4E4F5641424F4F54;

/// Where the system booted from.
#[derive(Clone, Copy, Debug, PartialEq, Eq, Structural)]
pub enum BootSource {
    Unknown,
    Usb,
    BootOption,
    Pxe,
    InternalNvme,
}

impl BootSource {
    pub open spec fn spec_raw(self) -> u8 {
        match self {
            BootSource::Unknown => 0,
            BootSource::Usb => 1,
            BootSource::BootOption => 2,
            BootSource::Pxe => 3,
            BootSource::InternalNvme => 4,
        }
    }

    /// The ABI value.
    pub fn as_raw(self) -> (r: u8)
        ensures
            r == self.spec_raw(),
    {
        match self {
            BootSource::Unknown => 0,
            BootSource::Usb => 1,
            BootSource::BootOption => 2,
            BootSource::Pxe => 3,
            BootSource::InternalNvme => 4,
        }
    }
}

/// Pixel layout of a framebuffer.
#[derive(Clone, Copy, Debug, PartialEq, Eq, Structural)]
pub enum FramebufferFormat {
    Unknown,
    Rgbx8888,
    Bgrx8888,
}

impl FramebufferFormat {
    pub open spec fn spec_raw(self) -> u32 {
        match self {
            FramebufferFormat::Unknown => 0,
            FramebufferFormat::Rgbx8888 => 1,
            FramebufferFormat::Bgrx8888 => 2,
        }
    }

    /// The ABI value.
    pub fn as_raw(self) -> (r: u32)
        ensures
            r == self.spec_raw(),
    {
        match self {
            FramebufferFormat::Unknown => 0,
            FramebufferFormat::Rgbx8888 => 1,
            FramebufferFormat::Bgrx8888 => 2,
        }
    }
}

/// BootInfo v1.
#[derive(Clone, Copy, Debug, PartialEq, Eq, Structural)]
pub struct NovaBootInfoV1 {
    pub magic: u64,
    pub version: u32,
    pub flags: u32,
    pub firmware_vendor_ptr: u64,
    pub firmware_revision: u32,
    pub secure_boot_state: u8,
    pub boot_source: BootSource,
    pub current_el: u8,
    pub reserved0: u8,
    pub memory_map_ptr: u64,
    pub memory_map_entries: u32,
    pub memory_map_desc_size: u32,
    pub config_tables_ptr: u64,
    pub config_table_count: u32,
    pub reserved1: u32,
    pub acpi_rsdp_ptr: u64,
    pub dtb_ptr: u64,
    pub smbios_ptr: u64,
    pub framebuffer_base: u64,
    pub framebuffer_width: u32,
    pub framebuffer_height: u32,
    pub framebuffer_stride: u32,
    pub framebuffer_format: FramebufferFormat,
    pub init_capsule_ptr: u64,
    pub init_capsule_len: u64,
    pub kernel_image_hash_ptr: u64,
    pub loader_log_ptr: u64,
    pub verification_info_ptr: u64,
}

/// The all-zero BootInfo v1.
pub open spec fn boot_info_v1_zero() -> NovaBootInfoV1 {
    NovaBootInfoV1 {
        magic: 0,
        version: 0,
        flags: 0,
        firmware_vendor_ptr: 0,
        firmware_revision: 0,
        secure_boot_state: 0,
        boot_source: BootSource::Unknown,
        current_el: 0,
        reserved0: 0,
        memory_map_ptr: 0,
        memory_map_entries: 0,
        memory_map_desc_size: 0,
        config_tables_ptr: 0,
        config_table_count: 0,
        reserved1: 0,
        acpi_rsdp_ptr: 0,
        dtb_ptr: 0,
        smbios_ptr: 0,
        framebuffer_base: 0,
        framebuffer_width: 0,
        framebuffer_height: 0,
        framebuffer_stride: 0,
        framebuffer_format: FramebufferFormat::Unknown,
        init_capsule_ptr: 0,
        init_capsule_len: 0,
        kernel_image_hash_ptr: 0,
        loader_log_ptr: 0,
        verification_info_ptr: 0,
    }
}

impl NovaBootInfoV1 {
    pub const MAGIC: u64 = 0x4E4F5641424F4F54;
    pub const VERSION: u32 = 1;
    pub const FLAG_HAS_ACPI_RSDP: u32 = 0x1;
    pub const FLAG_HAS_DTB: u32 = 0x2;
    pub const FLAG_HAS_SMBIOS: u32 = 0x4;
    pub const FLAG_HAS_FRAMEBUFFER: u32 = 0x8;
    pub const FLAG_HAS_LOADER_LOG: u32 = 0x10;
    pub const FLAG_HAS_KERNEL_IMAGE_DIGEST: u32 = 0x20;
    pub const FLAG_HAS_VERIFICATION_INFO: u32 = 0x40;
    pub const SECURE_BOOT_UNKNOWN: u8 = 0;
    pub const SECURE_BOOT_DISABLED: u8 = 1;
    pub const SECURE_BOOT_ENABLED: u8 = 2;

    /// The all-zero record.
    pub fn zero() -> (r: Self)
        ensures
            r == boot_info_v1_zero(),
    {
        NovaBootInfoV1 {
            magic: 0,
            version: 0,
            flags: 0,
            firmware_vendor_ptr: 0,
            firmware_revision: 0,
            secure_boot_state: 0,
            boot_source: BootSource::Unknown,
            current_el: 0,
            reserved0: 0,
            memory_map_ptr: 0,
            memory_map_entries: 0,
            memory_map_desc_size: 0,
            config_tables_ptr: 0,
            config_table_count: 0,
            reserved1: 0,
            acpi_rsdp_ptr: 0,
            dtb_ptr: 0,
            smbios_ptr: 0,
            framebuffer_base: 0,
            framebuffer_width: 0,
            framebuffer_height: 0,
            framebuffer_stride: 0,
            framebuffer_format: FramebufferFormat::Unknown,
            init_capsule_ptr: 0,
            init_capsule_len: 0,
            kernel_image_hash_ptr: 0,
            loader_log_ptr: 0,
            verification_info_ptr: 0,
        }
    }

    /// A record with magic and version set and everything else zero.
    pub fn new() -> (r: Self)
        ensures
            r == (NovaBootInfoV1 { magic: NOVA_BOOT_INFO_MAGIC, version: 1, ..boot_info_v1_zero() }),
    {
        let mut info = Self::zero();
        info.magic = NOVA_BOOT_INFO_MAGIC;
        info.version = 1;
        info
    }

    /// The all-zero record.
    pub fn empty() -> (r: Self)
        ensures
            r == boot_info_v1_zero(),
    {
        Self::zero()
    }

    pub open spec fn spec_is_valid(&self) -> bool {
        self.magic == NOVA_BOOT_INFO_MAGIC && self.version == 1
    }

    pub fn is_valid(&self) -> (r: bool)
        ensures
            r == self.spec_is_valid(),
    {
        self.magic == NOVA_BOOT_INFO_MAGIC && self.version == 1
    }

    pub open spec fn spec_has_flag(&self, flag: u32) -> bool {
        self.flags & flag != 0
    }

    pub fn has_flag(&self, flag: u32) -> (r: bool)
        ensures
            r == self.spec_has_flag(flag),
    {
        (self.flags & flag) != 0
    }

    /// Sets the bits of `flag`; a set flag reads back as set.
    pub fn set_flag(&mut self, flag: u32)
        ensures
            *final(self) == (NovaBootInfoV1 { flags: old(self).flags | flag, ..*old(self) }),
            flag != 0 ==> final(self).spec_has_flag(flag),
    {
        let old_flags = self.flags;
        self.flags = self.flags | flag;
        proof {
            let f = old_flags;
            assert(flag != 0 ==> (f | flag) & flag != 0) by (bit_vector);
        }
    }

    pub open spec fn spec_framebuffer_present(&self) -> bool {
        self.framebuffer_base != 0 && self.framebuffer_width != 0 && self.framebuffer_height != 0
    }

    pub fn framebuffer_present(&self) -> (r: bool)
        ensures
            r == self.spec_framebuffer_present(),
    {
        self.framebuffer_base != 0 && self.framebuffer_width != 0 && self.framebuffer_height != 0
    }

    pub open spec fn spec_memory_map_present(&self) -> bool {
        self.memory_map_ptr != 0 && self.memory_map_entries != 0 && self.memory_map_desc_size != 0
    }

    pub fn memory_map_present(&self) -> (r: bool)
        ensures
            r == self.spec_memory_map_present(),
    {
        self.memory_map_ptr != 0 && self.memory_map_entries != 0 && self.memory_map_desc_size != 0
    }

    /// Bytes of the memory map: entries times descriptor size.
    pub fn memory_map_byte_len(&self) -> (r: usize)
        requires
            self.memory_map_entries * self.memory_map_desc_size <= usize::MAX,
        ensures
            r == self.memory_map_entries * self.memory_map_desc_size,
    {
        proof {
            vstd::arithmetic::mul::lemma_mul_upper_bound(
                self.memory_map_entries as int,
                u32::MAX as int,
                self.memory_map_desc_size as int,
                u32::MAX as int,
            );
        }
        let product = (self.memory_map_entries as u64) * (self.memory_map_desc_size as u64);
        product as usize
    }

    pub open spec fn spec_secure_boot_enabled(&self) -> bool {
        self.secure_boot_state == 2
    }

    pub fn secure_boot_enabled(&self) -> (r: bool)
        ensures
            r == self.spec_secure_boot_enabled(),
    {
        self.secure_boot_state == 2
    }

    /// Firmware facts of the record.
    pub fn firmware(&self) -> (r: FirmwareInfo)
        ensures
            r == (FirmwareInfo { secure_boot: self.spec_secure_boot_enabled(), firmware_revision: self.firmware_revision, boot_source: self.boot_source }),
    {
        FirmwareInfo {
            secure_boot: self.secure_boot_enabled(),
            firmware_revision: self.firmware_revision,
            boot_source: self.boot_source,
        }
    }

    pub open spec fn spec_memory(&self) -> MemoryInfo {
        MemoryInfo {
            kernel_window_base: self.memory_map_ptr,
            kernel_window_size: (self.memory_map_entries * self.memory_map_desc_size) as u64,
            user_window_base: self.config_tables_ptr,
            user_window_size: self.config_table_count as u64,
            usable_base: self.init_capsule_ptr,
            usable_limit: self.init_capsule_len,
            reserved_bytes: self.loader_log_ptr,
            region_count: self.memory_map_entries,
        }
    }

    /// The memory windows the record describes.
    pub fn memory(&self) -> (r: MemoryInfo)
        ensures
            r == self.spec_memory(),
            r.kernel_window_size == self.memory_map_entries * self.memory_map_desc_size,
    {
        proof {
            vstd::arithmetic::mul::lemma_mul_upper_bound(
                self.memory_map_entries as int,
                u32::MAX as int,
                self.memory_map_desc_size as int,
                u32::MAX as int,
            );
        }
        MemoryInfo {
            kernel_window_base: self.memory_map_ptr,
            kernel_window_size: (self.memory_map_entries as u64) * (self.memory_map_desc_size as u64),
            user_window_base: self.config_tables_ptr,
            user_window_size: self.config_table_count as u64,
            usable_base: self.init_capsule_ptr,
            usable_limit: self.init_capsule_len,
            reserved_bytes: self.loader_log_ptr,
            region_count: self.memory_map_entries,
        }
    }

    /// The framebuffer the record describes.
    pub fn framebuffer(&self) -> (r: FramebufferInfo)
        ensures
            r == (FramebufferInfo { base: self.framebuffer_base, width: self.framebuffer_width, height: self.framebuffer_height, stride: self.framebuffer_stride, format: self.framebuffer_format }),
    {
        FramebufferInfo {
            base: self.framebuffer_base,
            width: self.framebuffer_width,
            height: self.framebuffer_height,
            stride: self.framebuffer_stride,
            format: self.framebuffer_format,
        }
    }

    pub open spec fn spec_summary(&self) -> BootSummary {
        BootSummary {
            secure_boot: self.spec_secure_boot_enabled(),
            framebuffer_present: self.spec_framebuffer_present(),
            memory_map_entries: self.memory_map_entries,
        }
    }

    /// The short summary of the record.
    pub fn summary(&self) -> (r: BootSummary)
        ensures
            r == self.spec_summary(),
    {
        BootSummary {
            secure_boot: self.secure_boot_enabled(),
            framebuffer_present: self.framebuffer_present(),
            memory_map_entries: self.memory_map_entries,
        }
    }
}

/// The kernel's one-line view of the boot record.
#[derive(Clone, Copy, Debug, PartialEq, Eq, Structural)]
pub struct BootSummary {
    pub secure_boot: bool,
    pub framebuffer_present: bool,
    pub memory_map_entries: u32,
}

impl BootSummary {
    pub fn empty() -> (r: Self)
        ensures
            r == (BootSummary { secure_boot: false, framebuffer_present: false, memory_map_entries: 0 }),
    {
        BootSummary { secure_boot: false, framebuffer_present: false, memory_map_entries: 0 }
    }

    /// A human-readable line: the framebuffer is mentioned first, then secure
    /// boot, then the memory map.
    pub fn describe(self) -> (r: &'static str)
        ensures
            self.framebuffer_present ==> r@ == "boot info parsed; framebuffer observed"@,
            !self.framebuffer_present && self.secure_boot ==> r@ == "boot info parsed; secure boot observed"@,
            !self.framebuffer_present && !self.secure_boot && self.memory_map_entries != 0 ==> r@ == "boot info parsed; memory map observed"@,
            !self.framebuffer_present && !self.secure_boot && self.memory_map_entries == 0 ==> r@ == "boot info parsed"@,
    {
        if self.framebuffer_present {
            "boot info parsed; framebuffer observed"
        } else if self.secure_boot {
            "boot info parsed; secure boot observed"
        } else if self.memory_map_entries != 0 {
            "boot info parsed; memory map observed"
        } else {
            "boot info parsed"
        }
    }
}

/// Firmware facts.
#[derive(Clone, Copy, Debug, PartialEq, Eq, Structural)]
pub struct FirmwareInfo {
    pub secure_boot: bool,
    pub firmware_revision: u32,
    pub boot_source: BootSource,
}

/// Memory windows derived from BootInfo v1.
#[derive(Clone, Copy, Debug, PartialEq, Eq, Structural)]
pub struct MemoryInfo {
    pub kernel_window_base: u64,
    pub kernel_window_size: u64,
    pub user_window_base: u64,
    pub user_window_size: u64,
    pub usable_base: u64,
    pub usable_limit: u64,
    pub reserved_bytes: u64,
    pub region_count: u32,
}

/// Framebuffer facts.
#[derive(Clone, Copy, Debug, PartialEq, Eq, Structural)]
pub struct FramebufferInfo {
    pub base: u64,
    pub width: u32,
    pub height: u32,
    pub stride: u32,
    pub format: FramebufferFormat,
}

} // verus!
