//! What the loader and the observatory make of what UEFI firmware reports:
//! graphics pixel formats, configuration tables, the `SecureBoot` variable
//! and page counts.
use vstd::prelude::*;
use crate::bootinfo::{FramebufferFormat, NovaBootInfoV1};
use crate::loader::EFI_PAGE_SIZE;

verus! {

/// The pixel formats a graphics output mode can report.
#[derive(Clone, Copy, Debug, PartialEq, Eq, Structural)]
pub enum GopPixelFormat {
    Rgb,
    Bgr,
    Bitmask,
    BltOnly,
}

/// The framebuffer format a graphics mode hands to the kernel: the two
/// byte orders it can draw in, and unknown for the rest.
pub fn pixel_format_code(format: GopPixelFormat) -> (r: FramebufferFormat)
    ensures
        r == (match format {
            GopPixelFormat::Rgb => FramebufferFormat::Rgbx8888,
            GopPixelFormat::Bgr => FramebufferFormat::Bgrx8888,
            _ => FramebufferFormat::Unknown,
        }),
{
    match format {
        GopPixelFormat::Rgb => FramebufferFormat::Rgbx8888,
        GopPixelFormat::Bgr => FramebufferFormat::Bgrx8888,
        GopPixelFormat::Bitmask => FramebufferFormat::Unknown,
        GopPixelFormat::BltOnly => FramebufferFormat::Unknown,
    }
}

pub open spec fn spec_pixel_format_name(format: GopPixelFormat) -> Seq<char> {
    match format {
        GopPixelFormat::Rgb => "rgb"@,
        GopPixelFormat::Bgr => "bgr"@,
        GopPixelFormat::Bitmask => "bitmask"@,
        GopPixelFormat::BltOnly => "blt-only"@,
    }
}

/// The observatory's name of a pixel format.
pub fn pixel_format_name(format: GopPixelFormat) -> (r: &'static str)
    ensures
        r@ == spec_pixel_format_name(format),
{
    match format {
        GopPixelFormat::Rgb => "rgb",
        GopPixelFormat::Bgr => "bgr",
        GopPixelFormat::Bitmask => "bitmask",
        GopPixelFormat::BltOnly => "blt-only",
    }
}

/// The configuration tables the loader looks for, by their GUIDs.
#[derive(Clone, Copy, Debug, PartialEq, Eq, Structural)]
pub enum ConfigTableKind {
    Acpi,
    Acpi2,
    Smbios,
    Smbios3,
    DeviceTree,
    Other,
}

/// Where the ACPI, device-tree and SMBIOS tables are, and the BootInfo
/// flags that say which were found.
#[derive(Clone, Copy, Debug, PartialEq, Eq, Structural)]
pub struct ConfigTableScan {
    pub acpi_rsdp_ptr: u64,
    pub dtb_ptr: u64,
    pub smbios_ptr: u64,
    pub flags: u32,
}

/// The address of the last table of `tables[..n]` that `pick` accepts, or 0.
pub open spec fn last_table_address(tables: Seq<(ConfigTableKind, u64)>, n: int, pick: spec_fn(ConfigTableKind) -> bool) -> u64
    decreases n,
{
    if n <= 0 {
        0
    } else if pick(tables[n - 1].0) {
        tables[n - 1].1
    } else {
        last_table_address(tables, n - 1, pick)
    }
}

/// Whether one of `tables[..n]` is accepted by `pick`.
pub open spec fn has_table(tables: Seq<(ConfigTableKind, u64)>, n: int, pick: spec_fn(ConfigTableKind) -> bool) -> bool {
    exists|i: int| 0 <= i < n && #[trigger] pick(tables[i].0)
}

pub open spec fn is_acpi() -> spec_fn(ConfigTableKind) -> bool {
    |k: ConfigTableKind| k == ConfigTableKind::Acpi || k == ConfigTableKind::Acpi2
}

pub open spec fn is_smbios() -> spec_fn(ConfigTableKind) -> bool {
    |k: ConfigTableKind| k == ConfigTableKind::Smbios || k == ConfigTableKind::Smbios3
}

pub open spec fn is_device_tree() -> spec_fn(ConfigTableKind) -> bool {
    |k: ConfigTableKind| k == ConfigTableKind::DeviceTree
}

/// What scanning the first `n` tables gives.
pub open spec fn spec_scan(tables: Seq<(ConfigTableKind, u64)>, n: int) -> ConfigTableScan {
    ConfigTableScan {
        acpi_rsdp_ptr: last_table_address(tables, n, is_acpi()),
        dtb_ptr: last_table_address(tables, n, is_device_tree()),
        smbios_ptr: last_table_address(tables, n, is_smbios()),
        flags: (if has_table(tables, n, is_acpi()) { NovaBootInfoV1::FLAG_HAS_ACPI_RSDP } else { 0u32 }) | (if has_table(
            tables,
            n,
            is_smbios(),
        ) {
            NovaBootInfoV1::FLAG_HAS_SMBIOS
        } else {
            0u32
        }) | (if has_table(tables, n, is_device_tree()) { NovaBootInfoV1::FLAG_HAS_DTB } else { 0u32 }),
    }
}

/// Scans the firmware's configuration tables: the last ACPI (1.0 or 2.0),
/// SMBIOS (2 or 3) and device-tree table found gives that table's address,
/// and each kind found sets its BootInfo flag.
pub fn scan_config_tables(tables: &[(ConfigTableKind, u64)]) -> (r: ConfigTableScan)
    ensures
        r == spec_scan(tables@, tables@.len() as int),
{
    let mut acpi: u64 = 0;
    let mut dtb: u64 = 0;
    let mut smbios: u64 = 0;
    let mut has_acpi = false;
    let mut has_smbios = false;
    let mut has_dtb = false;
    let mut i: usize = 0;
    while i < tables.len()
        invariant
            0 <= i <= tables@.len(),
            acpi == last_table_address(tables@, i as int, is_acpi()),
            dtb == last_table_address(tables@, i as int, is_device_tree()),
            smbios == last_table_address(tables@, i as int, is_smbios()),
            has_acpi == has_table(tables@, i as int, is_acpi()),
            has_smbios == has_table(tables@, i as int, is_smbios()),
            has_dtb == has_table(tables@, i as int, is_device_tree()),
        decreases tables@.len() - i,
    {
        let (kind, address) = tables[i];
        let ghost n = i as int;
        if kind == ConfigTableKind::Acpi || kind == ConfigTableKind::Acpi2 {
            acpi = address;
            has_acpi = true;
        }
        if kind == ConfigTableKind::Smbios || kind == ConfigTableKind::Smbios3 {
            smbios = address;
            has_smbios = true;
        }
        if kind == ConfigTableKind::DeviceTree {
            dtb = address;
            has_dtb = true;
        }
        proof {
            assert(is_acpi()(tables@[n].0) ==> has_table(tables@, n + 1, is_acpi()));
            assert(is_smbios()(tables@[n].0) ==> has_table(tables@, n + 1, is_smbios()));
            assert(is_device_tree()(tables@[n].0) ==> has_table(tables@, n + 1, is_device_tree()));
            assert(has_table(tables@, n, is_acpi()) ==> has_table(tables@, n + 1, is_acpi()));
            assert(has_table(tables@, n, is_smbios()) ==> has_table(tables@, n + 1, is_smbios()));
            assert(has_table(tables@, n, is_device_tree()) ==> has_table(tables@, n + 1, is_device_tree()));
        }
        i = i + 1;
    }
    let mut flags: u32 = 0;
    if has_acpi {
        flags = flags | NovaBootInfoV1::FLAG_HAS_ACPI_RSDP;
    }
    if has_smbios {
        flags = flags | NovaBootInfoV1::FLAG_HAS_SMBIOS;
    }
    if has_dtb {
        flags = flags | NovaBootInfoV1::FLAG_HAS_DTB;
    }
    proof {
        let a = if has_acpi { 1u32 } else { 0u32 };
        let s = if has_smbios { 4u32 } else { 0u32 };
        let d = if has_dtb { 2u32 } else { 0u32 };
        assert(flags == a | s | d) by (bit_vector)
            requires
                flags == (if d != 0 { (if s != 0 { (if a != 0 { 0u32 | 1u32 } else { 0u32 }) | 4u32 } else {
                    (if a != 0 { 0u32 | 1u32 } else { 0u32 })
                }) | 2u32 } else {
                    (if s != 0 { (if a != 0 { 0u32 | 1u32 } else { 0u32 }) | 4u32 } else {
                        (if a != 0 { 0u32 | 1u32 } else { 0u32 })
                    })
                }),
                a == 0 || a == 1,
                s == 0 || s == 4,
                d == 0 || d == 2,
        ;
    }
    ConfigTableScan { acpi_rsdp_ptr: acpi, dtb_ptr: dtb, smbios_ptr: smbios, flags }
}

/// The BootInfo secure-boot state from the `SecureBoot` variable: unknown
/// when it could not be read, disabled when its first byte is zero (or it
/// is empty), enabled otherwise.
pub fn secure_boot_state_from_variable(value: Option<&[u8]>) -> (r: u8)
    ensures
        r == (match value {
            None => NovaBootInfoV1::SECURE_BOOT_UNKNOWN,
            Some(v) => if v@.len() == 0 || v@[0] == 0 {
                NovaBootInfoV1::SECURE_BOOT_DISABLED
            } else {
                NovaBootInfoV1::SECURE_BOOT_ENABLED
            },
        }),
{
    match value {
        None => NovaBootInfoV1::SECURE_BOOT_UNKNOWN,
        Some(v) => {
            if v.len() == 0 || v[0] == 0 {
                NovaBootInfoV1::SECURE_BOOT_DISABLED
            } else {
                NovaBootInfoV1::SECURE_BOOT_ENABLED
            }
        },
    }
}

/// The number of EFI pages that hold `byte_len` bytes, and at least one.
pub fn page_count(byte_len: usize) -> (r: usize)
    ensures
        r == (if byte_len == 0 { 1 } else { (byte_len + EFI_PAGE_SIZE - 1) / (EFI_PAGE_SIZE as int) }),
        r * EFI_PAGE_SIZE >= byte_len,
{
    let bytes = if byte_len == 0 { 1 } else { byte_len };
    let r = bytes / EFI_PAGE_SIZE + if bytes % EFI_PAGE_SIZE == 0 { 0 } else { 1 };
    assert(r == (bytes + EFI_PAGE_SIZE - 1) / (EFI_PAGE_SIZE as int)) by (nonlinear_arith)
        requires
            r == bytes / 4096 + if bytes % 4096 == 0 { 0int } else { 1int },
            EFI_PAGE_SIZE == 4096,
            bytes >= 1,
    ;
    assert(r * EFI_PAGE_SIZE >= byte_len) by (nonlinear_arith)
        requires
            r == bytes / 4096 + if bytes % 4096 == 0 { 0int } else { 1int },
            EFI_PAGE_SIZE == 4096,
            bytes >= byte_len,
    ;
    r
}

} // verus!
