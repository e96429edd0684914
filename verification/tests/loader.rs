use novaos::bootinfo::{FramebufferFormat, NovaBootInfoV1};
use novaos::bootinfo_v2::{NovaNetworkSeedV1, NovaStorageSeedV1};
use novaos::digest::sha256_digest_bytes;
use novaos::fabric::{AccelTransport, CpuArchitecture, MemoryTopologyClass, PlatformClass};
use novaos::init_capsule::{
    encode_init_capsule_service_name, InitCapsuleImage, NovaInitCapsuleCapabilityV1, NovaInitCapsuleHeaderV1,
};
use novaos::loader::{
    align_up_bootstrap_user_window, build_accel_seed_v2, build_kernel_image_digest, build_boot_info_v2_draft, build_bootstrap_payload_descriptor,
    build_bootstrap_user_window_descriptor, memory_map_reserve_len, validate_boot_info_v2, BootInfoV2SeedLayout,
    BootInfoV2Sidecars, LoaderPlan, PayloadRegion, StagedRecord,
};
use novaos::loader_report::build_loader_log;
use novaos::payload::{NovaPayloadEntryAbi, NovaPayloadHeaderV1, NovaPayloadKind};

const CAPSULE_ADDR: u64 = 0x6000_0000;

fn build_init_capsule_with_payload() -> Vec<u8> {
    let payload_body = [0x11u8, 0x22, 0x33, 0x44];
    let payload_header = NovaPayloadHeaderV1::new_flat_binary(
        NovaPayloadKind::Service,
        NovaPayloadEntryAbi::BootstrapTaskV1,
        (88 + payload_body.len()) as u32,
        sha256_digest_bytes(&payload_body),
    );
    let mut payload = payload_header.to_bytes();
    payload.extend_from_slice(&payload_body);
    let mut header = NovaInitCapsuleHeaderV1::new(
        encode_init_capsule_service_name("initd").expect("service name"),
        NovaInitCapsuleCapabilityV1::BootLog.as_raw(),
        0,
        0,
    );
    header.total_size = (64 + payload.len()) as u32;
    let mut image = header.to_bytes();
    image.extend_from_slice(&payload);
    image
}

fn no_sidecars<'a>() -> BootInfoV2Sidecars<'a> {
    BootInfoV2Sidecars {
        display_path: None,
        display_path_addr: 0,
        storage_seeds: None,
        storage_seeds_addr: 0,
        network_seeds: None,
        network_seeds_addr: 0,
        accel_seed: None,
        accel_seed_addr: 0,
        init_capsule: None,
        init_capsule_addr: 0,
    }
}

#[test]
fn memory_map_reserve_len_adds_descriptor_headroom() {
    assert_eq!(memory_map_reserve_len(4096, 48), 4096 + (48 * 8));
}

#[test]
fn accel_seed_v2_matches_spark_uma_lane() {
    let seed = build_accel_seed_v2();
    assert_eq!(seed.transport, AccelTransport::Integrated);
    assert!(seed.platform_ready());
}

#[test]
fn boot_info_v2_draft_tracks_current_loader_basics() {
    let mut plan = LoaderPlan::unknown();
    plan.boot_info = NovaBootInfoV1::new();
    plan.boot_info.firmware_revision = 7;
    plan.boot_info.current_el = 2;
    plan.boot_info.memory_map_ptr = 0x1000;
    plan.boot_info.memory_map_entries = 4;
    plan.boot_info.memory_map_desc_size = 48;
    plan.boot_info.config_tables_ptr = 0x2000;
    plan.boot_info.config_table_count = 3;
    plan.boot_info.acpi_rsdp_ptr = 0x3000;
    plan.boot_info.framebuffer_base = 0x4000;
    plan.boot_info.framebuffer_width = 1920;
    plan.boot_info.framebuffer_height = 1080;
    plan.boot_info.framebuffer_stride = 1920;
    plan.boot_info.framebuffer_format = FramebufferFormat::Rgbx8888;
    plan.boot_info.init_capsule_ptr = 0x5000;
    plan.boot_info.init_capsule_len = 64;
    plan.boot_info.kernel_image_hash_ptr = 0x6000;
    plan.boot_info.loader_log_ptr = 0x7000;
    plan.loader_log = Some(PayloadRegion { path: "loader.log", base: 0x7000, len: 32 });

    let seeds = BootInfoV2SeedLayout {
        display_path_ptr: 0x7100,
        display_path_len: 16,
        display_path_flags: 1,
        storage_seeds_ptr: 0x7200,
        storage_seed_count: 2,
        network_seeds_ptr: 0x7300,
        network_seed_count: 1,
        accel_seeds_ptr: 0x8000,
        accel_seed_count: 1,
        ..BootInfoV2SeedLayout::empty()
    };
    let info = build_boot_info_v2_draft(&plan, &seeds);
    assert!(info.is_valid());
    assert_eq!(info.cpu_arch, CpuArchitecture::Arm64);
    assert_eq!(info.platform_class, PlatformClass::SparkUma);
    assert_eq!(info.memory_topology_class, MemoryTopologyClass::Uma);
    assert_eq!(info.memory_map_ptr, 0x1000);
    assert_eq!(info.loader_log_len, 32);
    assert_eq!(info.display_path.device_path_ptr, 0x7100);
    assert_eq!(info.display_path.device_path_len, 16);
    assert_eq!(info.display_path.flags, 1);
    assert_eq!(info.storage_seeds_ptr, 0x7200);
    assert_eq!(info.storage_seed_count, 2);
    assert_eq!(info.network_seeds_ptr, 0x7300);
    assert_eq!(info.network_seed_count, 1);
    assert_eq!(info.accel_seeds_ptr, 0x8000);
    assert_eq!(info.accel_seed_count, 1);
    assert!(info.bootstrap_user_window.is_empty());
    assert!(info.framebuffer_present());
}

#[test]
fn bootstrap_payload_descriptor_tracks_embedded_bootstrap_image() {
    let init_capsule = build_init_capsule_with_payload();
    let descriptor = build_bootstrap_payload_descriptor(Some(init_capsule.as_slice()), CAPSULE_ADDR);
    let capsule = InitCapsuleImage::parse(init_capsule.as_slice()).expect("capsule");
    let payload = capsule.bootstrap_service_payload().expect("bootstrap payload");
    let image = payload.image_bytes();
    let image_base = CAPSULE_ADDR + 64;

    assert_eq!(descriptor.image_ptr, image_base);
    assert_eq!(descriptor.image_len, image.len() as u64);
    assert_eq!(descriptor.load_base, payload.load_base(image_base));
    assert_eq!(descriptor.load_size, payload.load_size());
    assert_eq!(descriptor.entry_point, payload.entry_addr(image_base));
    assert!(build_bootstrap_payload_descriptor(None, CAPSULE_ADDR).is_empty());
    assert!(build_bootstrap_payload_descriptor(Some(&[1, 2, 3]), CAPSULE_ADDR).is_empty());
}

#[test]
fn bootstrap_user_window_descriptor_tracks_payload_window_policy() {
    let init_capsule = build_init_capsule_with_payload();
    let payload = build_bootstrap_payload_descriptor(Some(init_capsule.as_slice()), CAPSULE_ADDR);
    let user_window = build_bootstrap_user_window_descriptor(payload);

    assert!(user_window.is_valid());
    assert!(!user_window.is_empty());
    assert_eq!(user_window.base, 0x4000_0000);
    assert_eq!(user_window.len, 0x20_000);
    assert_eq!(user_window.stack_size, 0x8000);
    assert_eq!(user_window.page_size, 4096);

    let info = build_boot_info_v2_draft(
        &LoaderPlan::unknown(),
        &BootInfoV2SeedLayout { bootstrap_payload: payload, bootstrap_user_window: user_window, ..BootInfoV2SeedLayout::empty() },
    );
    assert!(info.is_valid());
    assert_eq!(info.bootstrap_user_window, user_window);

    let inferred_info = build_boot_info_v2_draft(
        &LoaderPlan::unknown(),
        &BootInfoV2SeedLayout { bootstrap_payload: payload, ..BootInfoV2SeedLayout::empty() },
    );
    assert_eq!(inferred_info.bootstrap_user_window, user_window);
}

#[test]
fn bootstrap_user_window_grows_past_the_minimum_for_large_payloads() {
    let mut payload = build_bootstrap_payload_descriptor(Some(build_init_capsule_with_payload().as_slice()), CAPSULE_ADDR);
    payload.image_len = 0x40_000;
    payload.load_size = 0x30_001;
    let window = build_bootstrap_user_window_descriptor(payload);
    assert_eq!(window.len, 0x31_000 + 0x4000 + 0x8000);
    assert_eq!(align_up_bootstrap_user_window(1), Some(4096));
    assert_eq!(align_up_bootstrap_user_window(4096), Some(4096));
    assert_eq!(align_up_bootstrap_user_window(u64::MAX - 100), None);
}

#[test]
fn validate_boot_info_v2_requires_matching_platform_ready_seed() {
    let seed = build_accel_seed_v2();
    let display_path = b"PciRoot(0x0)/Pci(0x1,0x0)";
    let init_capsule = build_init_capsule_with_payload();
    let storage_seeds = [NovaStorageSeedV1 { device_path_ptr: 0x9000, device_path_len: 12, flags: 1 }];
    let network_seeds = [NovaNetworkSeedV1 { device_path_ptr: 0xA000, device_path_len: 12, flags: 1 }];
    let sidecars = BootInfoV2Sidecars {
        display_path: Some(display_path),
        display_path_addr: 0x7100,
        storage_seeds: Some(&storage_seeds),
        storage_seeds_addr: 0x7200,
        network_seeds: Some(&network_seeds),
        network_seeds_addr: 0x7300,
        accel_seed: Some(&seed),
        accel_seed_addr: 0x8000,
        init_capsule: Some(init_capsule.as_slice()),
        init_capsule_addr: CAPSULE_ADDR,
    };
    let mut info = build_boot_info_v2_draft(
        &LoaderPlan::unknown(),
        &BootInfoV2SeedLayout {
            display_path_ptr: 0x7100,
            display_path_len: display_path.len() as u32,
            display_path_flags: 1,
            storage_seeds_ptr: 0x7200,
            storage_seed_count: 1,
            network_seeds_ptr: 0x7300,
            network_seed_count: 1,
            accel_seeds_ptr: 0x8000,
            accel_seed_count: 1,
            bootstrap_payload: build_bootstrap_payload_descriptor(Some(init_capsule.as_slice()), CAPSULE_ADDR),
            ..BootInfoV2SeedLayout::empty()
        },
    );
    assert!(validate_boot_info_v2(&info, &sidecars));

    info.accel_seeds_ptr = 0;
    assert!(!validate_boot_info_v2(&info, &sidecars));
}

#[test]
fn validate_boot_info_v2_rejects_seed_without_device_path() {
    let storage_seeds = [
        NovaStorageSeedV1 { device_path_ptr: 0x9000, device_path_len: 12, flags: 1 },
        NovaStorageSeedV1 { device_path_ptr: 0, device_path_len: 12, flags: 1 },
    ];
    let info = build_boot_info_v2_draft(
        &LoaderPlan::unknown(),
        &BootInfoV2SeedLayout { storage_seeds_ptr: 0x7200, storage_seed_count: 2, ..BootInfoV2SeedLayout::empty() },
    );
    let mut sidecars = no_sidecars();
    sidecars.storage_seeds = Some(&storage_seeds);
    sidecars.storage_seeds_addr = 0x7200;
    assert!(!validate_boot_info_v2(&info, &sidecars));
    sidecars.storage_seeds = Some(&storage_seeds[..1]);
    let info = build_boot_info_v2_draft(
        &LoaderPlan::unknown(),
        &BootInfoV2SeedLayout { storage_seeds_ptr: 0x7200, storage_seed_count: 1, ..BootInfoV2SeedLayout::empty() },
    );
    assert!(validate_boot_info_v2(&info, &sidecars));
}

#[test]
fn validate_boot_info_v2_rejects_missing_display_path_bytes() {
    let info = build_boot_info_v2_draft(
        &LoaderPlan::unknown(),
        &BootInfoV2SeedLayout { display_path_ptr: 0x1234, display_path_len: 8, ..BootInfoV2SeedLayout::empty() },
    );
    assert!(!validate_boot_info_v2(&info, &no_sidecars()));
}

#[test]
fn validate_boot_info_v2_requires_bootstrap_payload_bytes_when_descriptor_present() {
    let seed = build_accel_seed_v2();
    let init_capsule = build_init_capsule_with_payload();
    let info = build_boot_info_v2_draft(
        &LoaderPlan::unknown(),
        &BootInfoV2SeedLayout {
            accel_seeds_ptr: 0x8000,
            accel_seed_count: 1,
            bootstrap_payload: build_bootstrap_payload_descriptor(Some(init_capsule.as_slice()), CAPSULE_ADDR),
            ..BootInfoV2SeedLayout::empty()
        },
    );
    let mut sidecars = no_sidecars();
    sidecars.accel_seed = Some(&seed);
    sidecars.accel_seed_addr = 0x8000;
    assert!(!validate_boot_info_v2(&info, &sidecars));
}

#[test]
fn validate_boot_info_v2_rejects_mismatched_bootstrap_payload_descriptor() {
    let seed = build_accel_seed_v2();
    let init_capsule = build_init_capsule_with_payload();
    let mut info = build_boot_info_v2_draft(
        &LoaderPlan::unknown(),
        &BootInfoV2SeedLayout {
            accel_seeds_ptr: 0x8000,
            accel_seed_count: 1,
            bootstrap_payload: build_bootstrap_payload_descriptor(Some(init_capsule.as_slice()), CAPSULE_ADDR),
            ..BootInfoV2SeedLayout::empty()
        },
    );
    let mut sidecars = no_sidecars();
    sidecars.accel_seed = Some(&seed);
    sidecars.accel_seed_addr = 0x8000;
    sidecars.init_capsule = Some(init_capsule.as_slice());
    sidecars.init_capsule_addr = CAPSULE_ADDR;
    assert!(validate_boot_info_v2(&info, &sidecars));
    info.bootstrap_payload.entry_point += 4;
    assert!(!validate_boot_info_v2(&info, &sidecars));
}

#[test]
fn structured_handoff_report_tracks_v2_and_payload_readiness() {
    let init_capsule = build_init_capsule_with_payload();
    let mut plan = LoaderPlan::unknown();
    plan.boot_info = NovaBootInfoV1::new();
    plan.boot_info.firmware_revision = 7;
    plan.boot_info.current_el = 2;
    plan.boot_info.framebuffer_base = 0x4000;
    plan.boot_info.framebuffer_width = 1920;
    plan.boot_info.framebuffer_height = 1080;
    plan.boot_info.framebuffer_stride = 1920;
    plan.boot_info.framebuffer_format = FramebufferFormat::Rgbx8888;
    let payload = build_bootstrap_payload_descriptor(Some(init_capsule.as_slice()), CAPSULE_ADDR);
    plan.boot_info_v2_draft = build_boot_info_v2_draft(
        &plan,
        &BootInfoV2SeedLayout {
            display_path_ptr: 0x7100,
            display_path_len: 16,
            display_path_flags: 1,
            storage_seeds_ptr: 0x7200,
            storage_seed_count: 2,
            network_seeds_ptr: 0x7300,
            network_seed_count: 1,
            accel_seeds_ptr: 0x8000,
            accel_seed_count: 1,
            bootstrap_payload: payload,
            bootstrap_user_window: build_bootstrap_user_window_descriptor(payload),
        },
    );
    plan.boot_info_v2 = Some(PayloadRegion { path: "bootinfo_v2", base: 0x7100, len: 128 });
    plan.stage1_image = Some(PayloadRegion { path: "stage1.bin", base: 0x8100, len: 4096 });
    plan.kernel_image = Some(PayloadRegion { path: "kernel.bin", base: 0x9100, len: 8192 });
    plan.loader_log = Some(PayloadRegion { path: "loader.log", base: 0xA100, len: 96 });

    let report = plan.structured_handoff_report(true);
    assert!(report.contains("report_kind=novaaa64_loader_handoff_report"));
    assert!(report.contains("stage1_plan_ready=true"));
    assert!(report.contains("boot_info_v2_valid=true"));
    assert!(report.contains("boot_info_v2_bootstrap_payload_present=true"));
    assert!(report.contains("boot_info_v2_bootstrap_user_window_present=true"));
    assert!(report.contains("boot_info_v2_bootstrap_user_window_base=0x40000000"));
    assert!(report.contains("boot_info_v2_bootstrap_user_window_size=131072"));
    assert!(report.contains("boot_info_v2_bootstrap_user_stack_size=32768"));
    assert!(report.contains("framebuffer_present=true"));
    assert!(report.contains("boot_info_v2.present=true"));
    assert!(report.contains("stage1_image.present=true"));
    assert!(report.contains("kernel_image.present=true"));
    assert!(report.contains("loader_log.present=true"));
}

#[test]
fn handoff_report_lists_each_region_in_order() {
    let mut plan = LoaderPlan::unknown();
    plan.kernel_image = Some(PayloadRegion { path: "kernel.bin", base: 0x9100, len: 8192 });
    let report = plan.structured_handoff_report(false);
    assert!(report.starts_with("report_kind=novaaa64_loader_handoff_report\nreport_version=1\nstage1_plan_ready=false\n"));
    assert!(report.contains("boot_info_magic=0x4e4f5641424f4f54\nboot_info_version=1\n"));
    assert!(report.contains("framebuffer_present=false\n"));
    assert!(report.contains(
        "kernel_image.present=true\nkernel_image.path=kernel.bin\nkernel_image.base=0x9100\nkernel_image.len=8192\n"
    ));
    assert!(report.ends_with("init_capsule.present=false\nloader_log.present=false\n"));
    assert!(report.contains("acpi_rsdp_ptr=0x0\n"));
}

#[test]
fn loader_summary_describes_plan_and_regions() {
    let mut plan = LoaderPlan::unknown();
    plan.boot_info.framebuffer_width = 1920;
    plan.boot_info.framebuffer_height = 1080;
    plan.boot_info.framebuffer_stride = 1920;
    plan.boot_info.framebuffer_format = FramebufferFormat::Rgbx8888;
    plan.loader_log = Some(PayloadRegion { path: "loader.log", base: 0xA100, len: 96 });
    let summary = plan.summary();
    assert!(summary.starts_with("NovaOS stage0 loader\nboot_info_magic=0x"));
    assert!(summary.contains("framebuffer=1920x1080 stride=1920 format=1\n"));
    assert!(summary.contains("boot_info_v2=false\n"));
    assert!(summary.ends_with("loader_log=true path=loader.log base=0xa100 len=96\n"));
}

#[test]
fn loader_log_records_the_draft_and_staging() {
    let mut plan = LoaderPlan::unknown();
    plan.kernel_image = Some(PayloadRegion { path: "kernel.bin", base: 0x9100, len: 8192 });
    plan.boot_info.config_table_count = 3;
    let log = build_loader_log(&plan);
    assert!(log.starts_with("NovaOS stage0 log\nflags=0x0\nconfig_tables=3\nmemory_map_entries=0\nbootinfo_v2_valid=true\n"));
    assert!(log.contains("bootinfo_v2_display_path=false\n"));
    assert!(log.ends_with(
        "kernel_image_digest=false\nverification_info=false\nmemory_map_storage=false\nstage1_plan_storage=false\nstage1=false\nkernel=true\ninit_capsule=false\n"
    ));
}

#[test]
fn kernel_image_digest_is_built_only_for_non_empty_images() {
    assert!(build_kernel_image_digest(&[]).is_none());
    let digest = build_kernel_image_digest(b"abc").expect("digest");
    assert!(digest.is_valid());
    assert_eq!(digest.bytes, sha256_digest_bytes(b"abc"));
    assert_eq!(digest.bytes[0], 0xba);
}

#[test]
fn record_staged_points_the_boot_info_at_each_region() {
    let mut plan = LoaderPlan::unknown();
    let capsule = PayloadRegion { path: "init.capsule", base: 0x6000_0000, len: 160 };
    plan.record_staged(StagedRecord::InitCapsule, capsule);
    assert_eq!(plan.boot_info.init_capsule_ptr, 0x6000_0000);
    assert_eq!(plan.boot_info.init_capsule_len, 160);
    assert_eq!(plan.boot_info.flags, 0);
    plan.record_staged(StagedRecord::KernelImageDigest, PayloadRegion { path: "kernel.digest", base: 0x7000, len: 48 });
    plan.record_staged(StagedRecord::LoaderLog, PayloadRegion { path: "loader.log", base: 0x8000, len: 96 });
    plan.record_staged(StagedRecord::MemoryMap, PayloadRegion { path: "memory_map", base: 0x9000, len: 4096 });
    assert_eq!(plan.boot_info.kernel_image_hash_ptr, 0x7000);
    assert_eq!(plan.boot_info.loader_log_ptr, 0x8000);
    assert_eq!(plan.boot_info.memory_map_ptr, 0x9000);
    assert_eq!(
        plan.boot_info.flags,
        NovaBootInfoV1::FLAG_HAS_KERNEL_IMAGE_DIGEST | NovaBootInfoV1::FLAG_HAS_LOADER_LOG
    );
    assert_eq!(plan.loader_log.map(|r| r.len), Some(96));
    assert_eq!(plan.init_capsule.map(|r| r.base), Some(0x6000_0000));
}

#[test]
fn unknown_plan_summary_starts_from_a_fresh_record() {
    let summary = LoaderPlan::unknown().summary();
    assert!(summary.starts_with(
        "NovaOS stage0 loader\nboot_info_magic=0x4e4f5641424f4f54\nboot_info_version=1\nflags=0x0\nboot_info_v2_magic=0x32424f4f5441564e\n"
    ));
    assert!(summary.contains("boot_info_v2_valid=true\n"));
    assert!(summary.contains("framebuffer=0x0 stride=0 format=0\n"));
    assert!(summary.ends_with("init_capsule=false\nloader_log=false\n"));
    let report = LoaderPlan::unknown().structured_handoff_report(true);
    assert!(report.starts_with("report_kind=novaaa64_loader_handoff_report\nreport_version=1\nstage1_plan_ready=true\nboot_info_valid=true\n"));
    assert!(report.contains("framebuffer_present=false\n"));
}
