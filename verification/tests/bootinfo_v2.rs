use novaos::bootinfo::{BootSource, FramebufferFormat};
use novaos::bootinfo_v2::{
    NovaBootInfoV2, NovaBootstrapFrameArenaDescriptorV1, NovaBootstrapPayloadDescriptorV1,
    NovaBootstrapUserWindowDescriptorV1, NovaDisplayPathDescriptorV1, NovaFramebufferDescriptorV1,
    NovaNetworkSeedV1, NovaStorageSeedV1, NOVA_BOOTSTRAP_FRAME_ARENA_DESCRIPTOR_V1_SIZE,
    NOVA_BOOTSTRAP_PAYLOAD_DESCRIPTOR_V1_SIZE, NOVA_BOOTSTRAP_USER_WINDOW_DESCRIPTOR_V1_SIZE,
    NOVA_BOOT_INFO_V2_ACCEL_SEEDS_PTR_OFFSET, NOVA_BOOT_INFO_V2_BOOTSTRAP_FRAME_ARENA_OFFSET,
    NOVA_BOOT_INFO_V2_BOOTSTRAP_PAYLOAD_OFFSET, NOVA_BOOT_INFO_V2_BOOTSTRAP_USER_WINDOW_OFFSET,
    NOVA_BOOT_INFO_V2_CPU_ARCH_OFFSET, NOVA_BOOT_INFO_V2_FIRMWARE_VENDOR_PTR_OFFSET,
    NOVA_BOOT_INFO_V2_FRAMEBUFFER_OFFSET, NOVA_BOOT_INFO_V2_INIT_CAPSULE_PTR_OFFSET, NOVA_BOOT_INFO_V2_SIZE,
    NOVA_DISPLAY_PATH_DESCRIPTOR_V1_SIZE, NOVA_FRAMEBUFFER_DESCRIPTOR_V1_SIZE, NOVA_NETWORK_SEED_V1_SIZE,
    NOVA_STORAGE_SEED_V1_SIZE,
};
use novaos::fabric::{CpuArchitecture, MemoryTopologyClass, PlatformClass};

#[test]
fn boot_info_v2_layout_matches_c_header() {
    assert_eq!(NOVA_FRAMEBUFFER_DESCRIPTOR_V1_SIZE, 24);
    assert_eq!(NOVA_DISPLAY_PATH_DESCRIPTOR_V1_SIZE, 16);
    assert_eq!(NOVA_STORAGE_SEED_V1_SIZE, 16);
    assert_eq!(NOVA_NETWORK_SEED_V1_SIZE, 16);
    assert_eq!(NOVA_BOOTSTRAP_PAYLOAD_DESCRIPTOR_V1_SIZE, 40);
    assert_eq!(NOVA_BOOTSTRAP_USER_WINDOW_DESCRIPTOR_V1_SIZE, 32);
    assert_eq!(NOVA_BOOTSTRAP_FRAME_ARENA_DESCRIPTOR_V1_SIZE, 24);
    assert_eq!(NOVA_BOOT_INFO_V2_SIZE, 368);

    assert_eq!(NOVA_BOOT_INFO_V2_CPU_ARCH_OFFSET, 16);
    assert_eq!(NOVA_BOOT_INFO_V2_FIRMWARE_VENDOR_PTR_OFFSET, 32);
    assert_eq!(NOVA_BOOT_INFO_V2_FRAMEBUFFER_OFFSET, 120);
    assert_eq!(NOVA_BOOT_INFO_V2_ACCEL_SEEDS_PTR_OFFSET, 192);
    assert_eq!(NOVA_BOOT_INFO_V2_INIT_CAPSULE_PTR_OFFSET, 208);
    assert_eq!(NOVA_BOOT_INFO_V2_BOOTSTRAP_PAYLOAD_OFFSET, 272);
    assert_eq!(NOVA_BOOT_INFO_V2_BOOTSTRAP_USER_WINDOW_OFFSET, 312);
    assert_eq!(NOVA_BOOT_INFO_V2_BOOTSTRAP_FRAME_ARENA_OFFSET, 344);
}

#[test]
fn boot_info_v2_defaults_match_portable_contract() {
    let info = NovaBootInfoV2::new();

    assert!(info.is_valid());
    assert_eq!(info.cpu_arch, CpuArchitecture::Unknown);
    assert_eq!(info.platform_class, PlatformClass::Unknown);
    assert_eq!(info.memory_topology_class, MemoryTopologyClass::Unknown);
    assert_eq!(info.boot_source, BootSource::Unknown);
    assert_eq!(info.framebuffer.format, FramebufferFormat::Unknown);
    assert!(info.bootstrap_payload.is_empty());
    assert!(info.bootstrap_user_window.is_empty());
    assert!(info.bootstrap_frame_arena.is_empty());
    assert!(!info.memory_map_present());
    assert!(!info.framebuffer_present());
}

#[test]
fn boot_info_v2_empty_is_invalid_and_presence_helpers_track_fields() {
    let empty = NovaBootInfoV2::empty();
    assert!(!empty.is_valid());
    assert_eq!(empty.magic, 0);
    let mut info = NovaBootInfoV2::new();
    assert_eq!(info.magic, NovaBootInfoV2::MAGIC);
    assert_eq!(info.version, NovaBootInfoV2::VERSION);
    info.memory_map_ptr = 0x1000;
    info.memory_map_entries = 2;
    info.memory_map_desc_size = 48;
    assert!(info.memory_map_present());
    info.framebuffer = NovaFramebufferDescriptorV1 { base: 0x8000_0000, width: 640, height: 480, stride: 640, format: FramebufferFormat::Bgrx8888 };
    assert!(info.framebuffer_present());
    assert_eq!(NovaFramebufferDescriptorV1::empty().base, 0);
    assert_eq!(NovaDisplayPathDescriptorV1::empty().device_path_len, 0);
    assert_eq!(NovaStorageSeedV1::empty().flags, 0);
    assert_eq!(NovaNetworkSeedV1::empty().device_path_ptr, 0);
    info.bootstrap_frame_arena.base = 3;
    assert!(!info.is_valid());
}

#[test]
fn bootstrap_payload_descriptor_requires_coherent_ranges() {
    let empty = NovaBootstrapPayloadDescriptorV1::empty();
    assert!(empty.is_valid());

    let partial = NovaBootstrapPayloadDescriptorV1 { image_ptr: 0x1000, ..NovaBootstrapPayloadDescriptorV1::empty() };
    assert!(!partial.is_valid());

    let valid = NovaBootstrapPayloadDescriptorV1 {
        image_ptr: 0x1000,
        image_len: 0x80,
        load_base: 0x1030,
        load_size: 0x40,
        entry_point: 0x1030,
    };
    assert!(valid.is_valid());

    let invalid_entry = NovaBootstrapPayloadDescriptorV1 { entry_point: 0x1080, ..valid };
    assert!(!invalid_entry.is_valid());

    let overflowing = NovaBootstrapPayloadDescriptorV1 { image_ptr: u64::MAX, ..valid };
    assert!(!overflowing.is_valid());
}

#[test]
fn bootstrap_user_window_descriptor_requires_page_aligned_window_and_stack() {
    let empty = NovaBootstrapUserWindowDescriptorV1::empty();
    assert!(empty.is_valid());

    let valid = NovaBootstrapUserWindowDescriptorV1 {
        base: 0x4000_0000,
        len: 0x20_000,
        stack_size: 0x8000,
        page_size: NovaBootstrapUserWindowDescriptorV1::PAGE_SIZE_4K,
        flags: 0,
    };
    assert!(valid.is_valid());

    assert!(!NovaBootstrapUserWindowDescriptorV1 { base: 0x4000_0001, ..valid }.is_valid());
    assert!(!NovaBootstrapUserWindowDescriptorV1 { stack_size: 0x40_000, ..valid }.is_valid());
    assert!(!NovaBootstrapUserWindowDescriptorV1 { page_size: 16 * 1024, ..valid }.is_valid());
    assert!(!NovaBootstrapUserWindowDescriptorV1 { flags: 1, ..valid }.is_valid());
}

#[test]
fn bootstrap_frame_arena_descriptor_requires_page_aligned_arena() {
    let empty = NovaBootstrapFrameArenaDescriptorV1::empty();
    assert!(empty.is_valid());

    let valid = NovaBootstrapFrameArenaDescriptorV1 {
        base: 0x9000_0000,
        len: 0x20_000,
        page_size: NovaBootstrapFrameArenaDescriptorV1::PAGE_SIZE_4K,
        flags: 0,
    };
    assert!(valid.is_valid());

    assert!(!NovaBootstrapFrameArenaDescriptorV1 { base: 0x9000_0001, ..valid }.is_valid());
    assert!(!NovaBootstrapFrameArenaDescriptorV1 { len: 0x20_001, ..valid }.is_valid());
    assert!(!NovaBootstrapFrameArenaDescriptorV1 { page_size: 16 * 1024, ..valid }.is_valid());
    assert!(!NovaBootstrapFrameArenaDescriptorV1 { flags: 1, ..valid }.is_valid());
}
