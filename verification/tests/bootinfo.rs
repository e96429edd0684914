use novaos::bootinfo::{
    BootSource, BootSummary, FramebufferFormat, NovaBootInfoV1, NOVA_BOOT_INFO_V1_FRAMEBUFFER_BASE_OFFSET,
    NOVA_BOOT_INFO_V1_SIZE, NOVA_BOOT_INFO_V1_VERIFICATION_INFO_PTR_OFFSET,
};

#[test]
fn boot_info_layout_matches_c_header() {
    assert_eq!(NOVA_BOOT_INFO_V1_SIZE, 152);
    assert_eq!(NOVA_BOOT_INFO_V1_FRAMEBUFFER_BASE_OFFSET, 88);
    assert_eq!(NOVA_BOOT_INFO_V1_VERIFICATION_INFO_PTR_OFFSET, 144);
}

#[test]
fn boot_info_new_is_valid() {
    let info = NovaBootInfoV1::new();
    assert!(info.is_valid());
    assert!(!NovaBootInfoV1::empty().is_valid());
}

#[test]
fn memory_map_helpers_report_expected_state() {
    let mut info = NovaBootInfoV1::new();
    assert!(!info.memory_map_present());
    assert_eq!(info.memory_map_byte_len(), 0);

    info.memory_map_ptr = 0x1000;
    info.memory_map_entries = 4;
    info.memory_map_desc_size = 48;

    assert!(info.memory_map_present());
    assert_eq!(info.memory_map_byte_len(), 192);
}

#[test]
fn enums_match_public_abi_values() {
    assert_eq!(BootSource::Usb.as_raw(), 1);
    assert_eq!(BootSource::BootOption.as_raw(), 2);
    assert_eq!(BootSource::Pxe.as_raw(), 3);
    assert_eq!(BootSource::InternalNvme.as_raw(), 4);
    assert_eq!(FramebufferFormat::Rgbx8888.as_raw(), 1);
    assert_eq!(FramebufferFormat::Bgrx8888.as_raw(), 2);
}

#[test]
fn boot_info_flags_and_summary_read_back() {
    let mut info = NovaBootInfoV1::new();
    assert!(!info.has_flag(NovaBootInfoV1::FLAG_HAS_DTB));
    info.set_flag(NovaBootInfoV1::FLAG_HAS_DTB);
    assert!(info.has_flag(NovaBootInfoV1::FLAG_HAS_DTB));
    assert!(!info.has_flag(NovaBootInfoV1::FLAG_HAS_SMBIOS));
    info.secure_boot_state = NovaBootInfoV1::SECURE_BOOT_ENABLED;
    assert!(info.secure_boot_enabled());
    assert_eq!(info.summary().describe(), "boot info parsed; secure boot observed");
    info.framebuffer_base = 0x8000_0000;
    info.framebuffer_width = 1;
    info.framebuffer_height = 1;
    assert!(info.framebuffer_present());
    assert_eq!(info.summary().describe(), "boot info parsed; framebuffer observed");
    assert_eq!(BootSummary::empty().describe(), "boot info parsed");
    assert_eq!(info.framebuffer().base, 0x8000_0000);
    assert!(info.firmware().secure_boot);
}
