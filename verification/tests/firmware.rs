use novaos::bootinfo::{FramebufferFormat, NovaBootInfoV1};
use novaos::firmware::{
    page_count, pixel_format_code, pixel_format_name, scan_config_tables, secure_boot_state_from_variable,
    ConfigTableKind, GopPixelFormat,
};

#[test]
fn pixel_formats_map_to_framebuffer_formats_and_names() {
    assert_eq!(pixel_format_code(GopPixelFormat::Rgb), FramebufferFormat::Rgbx8888);
    assert_eq!(pixel_format_code(GopPixelFormat::Bgr), FramebufferFormat::Bgrx8888);
    assert_eq!(pixel_format_code(GopPixelFormat::Bitmask), FramebufferFormat::Unknown);
    assert_eq!(pixel_format_code(GopPixelFormat::BltOnly), FramebufferFormat::Unknown);
    assert_eq!(pixel_format_name(GopPixelFormat::BltOnly), "blt-only");
    assert_eq!(pixel_format_name(GopPixelFormat::Bgr), "bgr");
}

#[test]
fn config_table_scan_keeps_the_last_of_each_kind() {
    let tables = [
        (ConfigTableKind::Acpi, 0x1000),
        (ConfigTableKind::Other, 0x2000),
        (ConfigTableKind::Smbios3, 0x3000),
        (ConfigTableKind::Acpi2, 0x4000),
    ];
    let scan = scan_config_tables(&tables);
    assert_eq!(scan.acpi_rsdp_ptr, 0x4000);
    assert_eq!(scan.smbios_ptr, 0x3000);
    assert_eq!(scan.dtb_ptr, 0);
    assert_eq!(scan.flags, NovaBootInfoV1::FLAG_HAS_ACPI_RSDP | NovaBootInfoV1::FLAG_HAS_SMBIOS);

    let scan = scan_config_tables(&[(ConfigTableKind::DeviceTree, 0x5000)]);
    assert_eq!(scan.dtb_ptr, 0x5000);
    assert_eq!(scan.flags, NovaBootInfoV1::FLAG_HAS_DTB);
    assert_eq!(scan_config_tables(&[]).flags, 0);
}

#[test]
fn secure_boot_variable_decides_the_state() {
    assert_eq!(secure_boot_state_from_variable(None), NovaBootInfoV1::SECURE_BOOT_UNKNOWN);
    assert_eq!(secure_boot_state_from_variable(Some(&[0])), NovaBootInfoV1::SECURE_BOOT_DISABLED);
    assert_eq!(secure_boot_state_from_variable(Some(&[])), NovaBootInfoV1::SECURE_BOOT_DISABLED);
    assert_eq!(secure_boot_state_from_variable(Some(&[1, 0])), NovaBootInfoV1::SECURE_BOOT_ENABLED);
}

#[test]
fn page_count_rounds_up_and_never_returns_zero() {
    assert_eq!(page_count(0), 1);
    assert_eq!(page_count(1), 1);
    assert_eq!(page_count(4096), 1);
    assert_eq!(page_count(4097), 2);
    assert_eq!(page_count(3 * 4096), 3);
}
