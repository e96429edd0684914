use novaos::boot_contract::{
    prepare_bringup, resolve_boot_info, resolve_boot_info_v2, resolve_kernel_image_digest, resolve_memory_map,
    resolve_optional_boot_info_v2, resolve_verification_info, BootRecordMemory, BootstrapTaskLaunchPlan,
};
use novaos::bootinfo::{BootSource, FramebufferFormat, NovaBootInfoV1};
use novaos::bootinfo_v2::{NovaBootInfoV2, NovaBootstrapFrameArenaDescriptorV1};
use novaos::digest::{sha256_digest_bytes, NovaImageDigestV1};
use novaos::fabric::{CpuArchitecture, MemoryTopologyClass, PlatformClass};
use novaos::init_capsule::{
    encode_init_capsule_service_name, InitCapsuleImage, NovaInitCapsuleCapabilityV1, NovaInitCapsuleHeaderV1,
};
use novaos::payload::{NovaPayloadEntryAbi, NovaPayloadHeaderV1, NovaPayloadKind};
use novaos::verification::NovaVerificationInfoV1;

const MEMORY_MAP_PTR: u64 = 0x4000_0000;
const DIGEST_PTR: u64 = 0x4100_0000;
const VERIFICATION_PTR: u64 = 0x4200_0000;
const CAPSULE_PTR: u64 = 0x4300_0000;

#[test]
fn resolve_boot_info_rejects_invalid_marker() {
    let info = NovaBootInfoV1::empty();
    assert!(resolve_boot_info(Some(&info)).is_none());
    assert!(resolve_boot_info(None).is_none());
}

#[test]
fn resolve_boot_info_accepts_valid_marker() {
    let info = NovaBootInfoV1::new();
    let resolved = resolve_boot_info(Some(&info)).expect("boot info");
    assert!(resolved.is_valid());
}

#[test]
fn resolve_boot_info_v2_rejects_invalid_marker() {
    let info = NovaBootInfoV2::empty();
    assert!(resolve_boot_info_v2(Some(&info)).is_none());
}

#[test]
fn resolve_boot_info_v2_accepts_valid_marker() {
    let info = NovaBootInfoV2::new();
    let resolved = resolve_boot_info_v2(Some(&info)).expect("boot info v2");
    assert!(resolved.is_valid());
}

#[test]
fn resolve_optional_boot_info_v2_accepts_null_sidecar() {
    assert_eq!(resolve_optional_boot_info_v2(None), Some(None));
}

#[test]
fn resolve_optional_boot_info_v2_rejects_invalid_sidecar() {
    let invalid = NovaBootInfoV2::empty();
    assert_eq!(resolve_optional_boot_info_v2(Some(&invalid)), None);
    let valid = NovaBootInfoV2::new();
    assert_eq!(resolve_optional_boot_info_v2(Some(&valid)), Some(Some(&valid)));
}

#[test]
fn prepare_bringup_rejects_invalid_boot_info() {
    let info = NovaBootInfoV1::empty();
    assert!(prepare_bringup(&info, None, &BootRecordMemory::empty()).is_none());
}

#[test]
fn prepare_bringup_rejects_missing_memory_map() {
    let info = NovaBootInfoV1::new();
    assert!(prepare_bringup(&info, None, &BootRecordMemory::empty()).is_none());
}

#[test]
fn prepare_bringup_tracks_boot_summary_and_memory_windows() {
    let digest = NovaImageDigestV1::sha256([0x11; 32]);
    let init_capsule = build_init_capsule();
    let mut verification = NovaVerificationInfoV1::new();
    verification.stage1_image_size = 128;
    verification.kernel_image_size = 4096;
    verification.set_flag(NovaVerificationInfoV1::FLAG_STAGE1_PAYLOAD_PRESENT);
    verification.set_flag(NovaVerificationInfoV1::FLAG_STAGE1_PAYLOAD_VERIFIED);
    verification.set_flag(NovaVerificationInfoV1::FLAG_KERNEL_PAYLOAD_PRESENT);
    verification.set_flag(NovaVerificationInfoV1::FLAG_KERNEL_PAYLOAD_VERIFIED);
    verification.set_flag(NovaVerificationInfoV1::FLAG_KERNEL_DIGEST_PRESENT);
    verification.set_flag(NovaVerificationInfoV1::FLAG_KERNEL_DIGEST_VERIFIED);
    let (info, info_v2) = build_boot_info_pair(&init_capsule);
    let memory = BootRecordMemory {
        kernel_image_digest: Some(digest),
        verification_info: Some(verification),
        init_capsule: init_capsule.clone(),
    };

    let bringup = prepare_bringup(&info, Some(&info_v2), &memory).expect("bringup");

    assert!(bringup.boot_summary.framebuffer_present);
    let v2 = bringup.boot_info_v2.expect("boot info v2");
    let init_capsule_summary = bringup.init_capsule.expect("init capsule");
    assert_eq!(v2.cpu_arch, 1);
    assert_eq!(v2.platform_class, 1);
    assert_eq!(v2.memory_topology_class, 1);
    assert_eq!(v2.boot_source, BootSource::Usb);
    assert!(v2.framebuffer_present);
    assert_eq!(v2.storage_seed_count, 2);
    assert_eq!(v2.network_seed_count, 1);
    assert_eq!(v2.accel_seed_count, 1);
    assert_eq!(bringup.memory_map_bytes, 192);
    assert!(bringup.kernel_image_digest_present);
    assert!(bringup.verification_info_present);
    assert!(bringup.stage1_payload_verified);
    assert!(bringup.kernel_payload_verified);
    assert_eq!(bringup.boot_summary.memory_map_entries, 4);
    assert_eq!(bringup.page_tables.kernel_base, MEMORY_MAP_PTR);
    assert_eq!(bringup.page_tables.kernel_size, 4 * 48);
    assert_eq!(bringup.page_tables.user_base, 0x2000);
    assert_eq!(bringup.page_tables.user_size, 3);
    assert_eq!(bringup.page_tables.user_stack_size, 0);
    assert_eq!(bringup.allocator.usable_base, CAPSULE_PTR);
    assert_eq!(bringup.allocator.usable_limit, 64);
    assert_eq!(bringup.allocator.reserved_bytes, 0x5000);
    assert_eq!(bringup.allocator.bootstrap_el0_arena_base, 0x9000_0000);
    assert_eq!(bringup.allocator.bootstrap_el0_arena_size, 0x20_000);
    assert_eq!(init_capsule_summary.service_name(), "initd");
    assert_eq!(init_capsule_summary.requested_capabilities, NovaInitCapsuleCapabilityV1::BootLog.as_raw());
    assert!(!init_capsule_summary.has_payload());
    assert!(!init_capsule_summary.payload_body_present);
    assert_eq!(init_capsule_summary.launch_plan(), None);
}

#[test]
fn prepare_bringup_tracks_embedded_bootstrap_task_payload() {
    let digest = NovaImageDigestV1::sha256([0x33; 32]);
    let init_capsule = build_init_capsule_with_payload();
    let mut verification = NovaVerificationInfoV1::new();
    verification.set_flag(NovaVerificationInfoV1::FLAG_STAGE1_PAYLOAD_PRESENT);
    verification.set_flag(NovaVerificationInfoV1::FLAG_STAGE1_PAYLOAD_VERIFIED);
    verification.set_flag(NovaVerificationInfoV1::FLAG_KERNEL_PAYLOAD_PRESENT);
    verification.set_flag(NovaVerificationInfoV1::FLAG_KERNEL_PAYLOAD_VERIFIED);
    verification.kernel_image_size = 4096;
    let (info, info_v2) = build_boot_info_pair(&init_capsule);
    let memory = BootRecordMemory {
        kernel_image_digest: Some(digest),
        verification_info: Some(verification),
        init_capsule: init_capsule.clone(),
    };

    let bringup = prepare_bringup(&info, Some(&info_v2), &memory).expect("bringup");
    let init_capsule_summary = bringup.init_capsule.expect("init capsule");

    assert!(init_capsule_summary.has_payload());
    assert!(init_capsule_summary.payload_descriptor_from_boot_info_v2);
    assert_eq!(init_capsule_summary.payload_image_base, CAPSULE_PTR + 64);
    assert_eq!(init_capsule_summary.payload_image_size, init_capsule.len() as u64 - 64);
    assert_eq!(init_capsule_summary.payload_load_size, 4);
    assert_eq!(init_capsule_summary.payload_entry_point, init_capsule_summary.payload_load_base);
    assert_eq!(
        init_capsule_summary.launch_plan(),
        Some(BootstrapTaskLaunchPlan {
            service_name: encode_init_capsule_service_name("initd").expect("service name"),
            image_base: init_capsule_summary.payload_image_base,
            image_size: init_capsule_summary.payload_image_size,
            load_base: init_capsule_summary.payload_load_base,
            load_size: 4,
            entry_point: init_capsule_summary.payload_entry_point,
        })
    );
    assert_eq!(init_capsule_summary.launch_plan().expect("plan").service_name(), "initd");
}

#[test]
fn prepare_bringup_reads_payload_from_capsule_without_sidecar_descriptor() {
    let init_capsule = build_init_capsule_with_payload();
    let (info, _) = build_boot_info_pair(&init_capsule);
    let memory = BootRecordMemory { kernel_image_digest: None, verification_info: None, init_capsule: init_capsule.clone() };

    let bringup = prepare_bringup(&info, None, &memory).expect("bringup");
    let summary = bringup.init_capsule.expect("init capsule");
    assert!(!summary.payload_descriptor_from_boot_info_v2);
    assert_eq!(summary.payload_image_base, CAPSULE_PTR + 64);
    assert_eq!(summary.payload_image_size, 92);
    assert_eq!(summary.payload_load_base, CAPSULE_PTR + 64 + 88);
    assert_eq!(summary.payload_load_size, 4);
    assert_eq!(summary.payload_entry_point, CAPSULE_PTR + 64 + 88);
    assert!(!bringup.kernel_image_digest_present);
    assert!(!bringup.verification_info_present);
    assert!(bringup.boot_info_v2.is_none());
    let state = summary.task_state();
    assert_eq!(state.bootstrap_capabilities, NovaInitCapsuleCapabilityV1::BootLog.as_raw());
}

#[test]
fn prepare_bringup_rejects_mismatched_bootstrap_payload_sidecar() {
    let init_capsule = build_init_capsule_with_payload();
    let (info, mut info_v2) = build_boot_info_pair(&init_capsule);
    info_v2.bootstrap_payload.image_len -= 1;
    let memory = BootRecordMemory { kernel_image_digest: None, verification_info: None, init_capsule };

    assert!(prepare_bringup(&info, Some(&info_v2), &memory).is_none());
}

#[test]
fn prepare_bringup_rejects_mismatched_boot_info_v2_sidecar() {
    let init_capsule = build_init_capsule();
    let (info, mut info_v2) = build_boot_info_pair(&init_capsule);
    info_v2.config_table_count += 1;
    let memory = BootRecordMemory { kernel_image_digest: None, verification_info: None, init_capsule };

    assert!(prepare_bringup(&info, Some(&info_v2), &memory).is_none());
}

#[test]
fn prepare_bringup_rejects_truncated_init_capsule() {
    let init_capsule = build_init_capsule();
    let (mut info, _) = build_boot_info_pair(&init_capsule);
    info.init_capsule_len = 32;
    let memory = BootRecordMemory { kernel_image_digest: None, verification_info: None, init_capsule: init_capsule[..32].to_vec() };
    assert!(prepare_bringup(&info, None, &memory).is_none());
}

#[test]
fn prepare_bringup_accepts_missing_init_capsule() {
    let init_capsule = build_init_capsule();
    let (mut info, _) = build_boot_info_pair(&init_capsule);
    info.init_capsule_ptr = 0;
    info.init_capsule_len = 0;
    let bringup = prepare_bringup(&info, None, &BootRecordMemory::empty()).expect("bringup");
    assert!(bringup.init_capsule.is_none());
}

#[test]
fn resolve_memory_map_rejects_missing_window() {
    let info = NovaBootInfoV1::new();
    assert!(resolve_memory_map(&info).is_none());
    let init_capsule = build_init_capsule();
    let (info, _) = build_boot_info_pair(&init_capsule);
    assert_eq!(resolve_memory_map(&info), Some((MEMORY_MAP_PTR, 192)));
}

#[test]
fn resolve_kernel_image_digest_rejects_missing_pointer() {
    let info = NovaBootInfoV1::new();
    assert!(resolve_kernel_image_digest(&info, None).is_none());
    let mut flagged = NovaBootInfoV1::new();
    flagged.set_flag(NovaBootInfoV1::FLAG_HAS_KERNEL_IMAGE_DIGEST);
    assert!(resolve_kernel_image_digest(&flagged, None).is_none());
    let digest = NovaImageDigestV1::sha256([7; 32]);
    assert_eq!(resolve_kernel_image_digest(&flagged, Some(digest)), Some(digest));
}

#[test]
fn resolve_verification_info_rejects_missing_pointer() {
    let info = NovaBootInfoV1::new();
    assert!(resolve_verification_info(&info, None).is_none());
    let mut flagged = NovaBootInfoV1::new();
    flagged.set_flag(NovaBootInfoV1::FLAG_HAS_VERIFICATION_INFO);
    assert!(resolve_verification_info(&flagged, Some(NovaVerificationInfoV1::zero())).is_none());
    let record = NovaVerificationInfoV1::new();
    assert_eq!(resolve_verification_info(&flagged, Some(record)), Some(record));
}

fn build_boot_info_pair(init_capsule: &[u8]) -> (NovaBootInfoV1, NovaBootInfoV2) {
    let mut info = NovaBootInfoV1::new();
    info.firmware_vendor_ptr = 0x1111;
    info.firmware_revision = 42;
    info.secure_boot_state = NovaBootInfoV1::SECURE_BOOT_ENABLED;
    info.boot_source = BootSource::Usb;
    info.current_el = 2;
    info.memory_map_ptr = MEMORY_MAP_PTR;
    info.memory_map_entries = 4;
    info.memory_map_desc_size = 48;
    info.config_tables_ptr = 0x2000;
    info.config_table_count = 3;
    info.acpi_rsdp_ptr = 0x2100;
    info.dtb_ptr = 0x2200;
    info.smbios_ptr = 0x2300;
    info.init_capsule_ptr = CAPSULE_PTR;
    info.init_capsule_len = init_capsule.len() as u64;
    info.loader_log_ptr = 0x5000;
    info.framebuffer_base = 0x6000;
    info.framebuffer_width = 1920;
    info.framebuffer_height = 1080;
    info.framebuffer_stride = 1920;
    info.framebuffer_format = FramebufferFormat::Rgbx8888;
    info.set_flag(NovaBootInfoV1::FLAG_HAS_FRAMEBUFFER);
    info.set_flag(NovaBootInfoV1::FLAG_HAS_KERNEL_IMAGE_DIGEST);
    info.set_flag(NovaBootInfoV1::FLAG_HAS_VERIFICATION_INFO);
    info.kernel_image_hash_ptr = DIGEST_PTR;
    info.verification_info_ptr = VERIFICATION_PTR;

    let mut info_v2 = NovaBootInfoV2::new();
    info_v2.cpu_arch = CpuArchitecture::Arm64;
    info_v2.platform_class = PlatformClass::SparkUma;
    info_v2.memory_topology_class = MemoryTopologyClass::Uma;
    info_v2.firmware_vendor_ptr = info.firmware_vendor_ptr;
    info_v2.firmware_revision = info.firmware_revision;
    info_v2.secure_boot_state = info.secure_boot_state;
    info_v2.boot_source = info.boot_source;
    info_v2.current_el = info.current_el;
    info_v2.memory_map_ptr = info.memory_map_ptr;
    info_v2.memory_map_entries = info.memory_map_entries;
    info_v2.memory_map_desc_size = info.memory_map_desc_size;
    info_v2.config_tables_ptr = info.config_tables_ptr;
    info_v2.config_table_count = info.config_table_count;
    info_v2.acpi_rsdp_ptr = info.acpi_rsdp_ptr;
    info_v2.dtb_ptr = info.dtb_ptr;
    info_v2.smbios_ptr = info.smbios_ptr;
    info_v2.framebuffer.base = info.framebuffer_base;
    info_v2.framebuffer.width = info.framebuffer_width;
    info_v2.framebuffer.height = info.framebuffer_height;
    info_v2.framebuffer.stride = info.framebuffer_stride;
    info_v2.framebuffer.format = info.framebuffer_format;
    info_v2.storage_seed_count = 2;
    info_v2.network_seed_count = 1;
    info_v2.accel_seed_count = 1;
    info_v2.init_capsule_ptr = info.init_capsule_ptr;
    info_v2.init_capsule_len = info.init_capsule_len;
    info_v2.loader_log_ptr = info.loader_log_ptr;
    info_v2.kernel_image_hash_ptr = info.kernel_image_hash_ptr;
    info_v2.bootstrap_frame_arena = NovaBootstrapFrameArenaDescriptorV1 {
        base: 0x9000_0000,
        len: 0x20_000,
        page_size: NovaBootstrapFrameArenaDescriptorV1::PAGE_SIZE_4K,
        flags: 0,
    };
    if let Some(capsule) = InitCapsuleImage::parse(init_capsule) {
        if let Some(payload) = capsule.bootstrap_service_payload() {
            let image = payload.image_bytes();
            let image_base = CAPSULE_PTR + 64;
            info_v2.bootstrap_payload.image_ptr = image_base;
            info_v2.bootstrap_payload.image_len = image.len() as u64;
            info_v2.bootstrap_payload.load_base = payload.load_base(image_base);
            info_v2.bootstrap_payload.load_size = payload.load_size();
            info_v2.bootstrap_payload.entry_point = payload.entry_addr(image_base);
        }
    }

    (info, info_v2)
}

fn build_init_capsule() -> Vec<u8> {
    let header = NovaInitCapsuleHeaderV1::new(
        encode_init_capsule_service_name("initd").expect("service name"),
        NovaInitCapsuleCapabilityV1::BootLog.as_raw(),
        0,
        0,
    );
    header.to_bytes()
}

fn build_init_capsule_with_payload() -> Vec<u8> {
    let payload_body = [0x11u8, 0x22, 0x33, 0x44];
    let payload_header = NovaPayloadHeaderV1::new_flat_binary(
        NovaPayloadKind::Service,
        NovaPayloadEntryAbi::BootstrapTaskV1,
        (88 + payload_body.len()) as u32,
        sha256_digest_bytes(&payload_body),
    );
    let mut payload = payload_header.to_bytes();
    payload.extend_from_slice(&payload_body);

    let mut header = NovaInitCapsuleHeaderV1::new(
        encode_init_capsule_service_name("initd").expect("service name"),
        NovaInitCapsuleCapabilityV1::BootLog.as_raw(),
        0,
        0,
    );
    header.total_size = (64 + payload.len()) as u32;
    let mut image = header.to_bytes();
    image.extend_from_slice(&payload);
    image
}
