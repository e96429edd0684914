use novaos::fabric::{AccelTopologyHint, AccelTransport, MemoryTopologyClass};
use novaos::observe::{
    accel_topology_name, accel_transport_name, build_accel_seed_drafts, memory_topology_name, merge_seed_path,
    BootObservation, FramebufferObservation, SeedPathObservation,
};

const EMPTY_REPORT: &str = "report_kind=spark_observatory_v2_seed_report\n\
report_version=1\n\
firmware_vendor=unknown\n\
firmware_revision=0\n\
config_tables=0\n\
memory_map_entries=0\n\
memory_map_desc_size=0\n\
conventional_pages=0\n\
loaded_image_path=unknown\n\
loaded_image_path_known=false\n\
storage_filesystem_handles=0\n\
storage_block_handles=0\n\
network_handles=0\n\
secure_boot_enabled=unknown\n\
setup_mode=unknown\n\
acpi_rsdp=absent\n\
dtb=absent\n\
smbios=absent\n\
framebuffer=absent\n\
display_seed_count=0\n\
storage_seed_count=0\n\
network_seed_count=0\n\
accel_seed_draft_count=0\n";

#[test]
fn collect_off_firmware_observes_nothing() {
    let observation = BootObservation::collect();
    assert_eq!(observation, BootObservation::default());
    assert_eq!(observation.structured_report(), EMPTY_REPORT);
}

#[test]
fn structured_report_lists_seeds_and_drafts() {
    let mut observation = BootObservation::default();
    observation.firmware_vendor = Some(String::from("EDK II"));
    observation.firmware_revision = 0x10000;
    observation.secure_boot_enabled = Some(true);
    observation.setup_mode = Some(0);
    observation.table_presence.acpi_rsdp = Some(0x7fe0_0000);
    observation.framebuffer = Some(FramebufferObservation {
        base: 0x8000_0000,
        width: 1280,
        height: 800,
        stride: 1280,
        pixel_format: "bgr",
    });
    merge_seed_path(&mut observation.display_paths, String::from("PciRoot(0x0)/Pci(0x2,0x0)"), 1);
    merge_seed_path(&mut observation.storage_seeds, String::from("PciRoot(0x0)/Pci(0x4,0x0)"), 1);
    merge_seed_path(&mut observation.storage_seeds, String::from("PciRoot(0x0)/Pci(0x4,0x0)"), 2);
    observation.accel_seed_drafts = build_accel_seed_drafts(&observation);

    let report = observation.structured_report();
    assert!(report.contains("firmware_vendor=EDK II\nfirmware_revision=65536\n"));
    assert!(report.contains("secure_boot_enabled=true\nsetup_mode=0\nacpi_rsdp=0x7fe00000\ndtb=absent\n"));
    assert!(report.contains(
        "framebuffer.base=0x80000000\nframebuffer.width=1280\nframebuffer.height=800\nframebuffer.stride=1280\nframebuffer.format=bgr\n"
    ));
    assert!(report.contains(
        "display_seed_count=1\ndisplay_seed[0].device_path=PciRoot(0x0)/Pci(0x2,0x0)\ndisplay_seed[0].flags=0x1\n"
    ));
    assert!(report.contains(
        "storage_seed_count=1\nstorage_seed[0].device_path=PciRoot(0x0)/Pci(0x4,0x0)\nstorage_seed[0].flags=0x3\n"
    ));
    assert!(report.contains("network_seed_count=0\naccel_seed_draft_count=1\n"));
    assert!(report.ends_with(
        "accel_seed_draft[0].source=spark_gop_anchor\n\
accel_seed_draft[0].transport=integrated\n\
accel_seed_draft[0].topology_hint=uma\n\
accel_seed_draft[0].memory_topology=uma\n\
accel_seed_draft[0].platform_ready=true\n\
accel_seed_draft[0].vendor_id=0\n\
accel_seed_draft[0].device_id=0\n\
accel_seed_draft[0].class_code=0x0\n\
accel_seed_draft[0].raw_device_path=PciRoot(0x0)/Pci(0x2,0x0)\n"
    ));
}

#[test]
fn summary_lines_report_counts_and_framebuffer() {
    let mut observation = BootObservation::default();
    observation.loaded_image_path = Some(String::from("\\EFI\\BOOT\\BOOTAA64.EFI"));
    observation.loaded_image_path_known = true;
    observation.framebuffer = Some(FramebufferObservation {
        base: 0x4000,
        width: 1920,
        height: 1080,
        stride: 1920,
        pixel_format: "rgb",
    });
    let summary = observation.summary_lines();
    assert!(summary.starts_with("firmware_vendor=unknown\nfirmware_revision=0\n"));
    assert!(summary.contains("loaded_image_path_known=true\nloaded_image_path=\\EFI\\BOOT\\BOOTAA64.EFI\n"));
    assert!(summary.contains("display_seed_count=0\nstorage_seed_count=0\nnetwork_seed_count=0\naccel_seed_draft_count=0\n"));
    assert!(summary.ends_with("smbios=absent\nframebuffer base=0x4000 1920x1080 stride=1920 format=rgb\n"));
    assert!(BootObservation::default().summary_lines().ends_with("framebuffer=unavailable\n"));
}

#[test]
fn merge_seed_path_unions_flags_of_a_known_path() {
    let mut list = Vec::new();
    merge_seed_path(&mut list, String::from("a"), 1);
    merge_seed_path(&mut list, String::from("b"), 1);
    merge_seed_path(&mut list, String::from("a"), 2);
    assert_eq!(
        list,
        vec![
            SeedPathObservation { device_path: String::from("a"), flags: 3 },
            SeedPathObservation { device_path: String::from("b"), flags: 1 },
        ]
    );
}

#[test]
fn accel_drafts_fall_back_to_the_lane_without_a_display() {
    let drafts = build_accel_seed_drafts(&BootObservation::default());
    assert_eq!(drafts.len(), 1);
    assert_eq!(drafts[0].source, "spark_lane_draft");
    assert_eq!(drafts[0].raw_device_path, None);
    assert_eq!(drafts[0].seed.transport, AccelTransport::Integrated);
    assert_eq!(drafts[0].seed.topology_hint, AccelTopologyHint::Uma);
    assert_eq!(drafts[0].seed.memory_topology, MemoryTopologyClass::Uma);
    assert_eq!(drafts[0].seed.vendor_id, 0);
}

#[test]
fn observatory_names_match_report_vocabulary() {
    assert_eq!(accel_transport_name(AccelTransport::Pci), "pci");
    assert_eq!(accel_transport_name(AccelTransport::Fabric), "fabric");
    assert_eq!(accel_topology_name(AccelTopologyHint::Partitionable), "partitionable");
    assert_eq!(memory_topology_name(MemoryTopologyClass::Nvlink), "nvlink");
    assert_eq!(memory_topology_name(MemoryTopologyClass::Unknown), "unknown");
}

#[test]
fn config_tables_mark_what_the_scan_found() {
    let mut observation = BootObservation::default();
    let scan = novaos::firmware::ConfigTableScan {
        acpi_rsdp_ptr: 0x8000,
        dtb_ptr: 0x9000,
        smbios_ptr: 0,
        flags: novaos::bootinfo::NovaBootInfoV1::FLAG_HAS_ACPI_RSDP | novaos::bootinfo::NovaBootInfoV1::FLAG_HAS_DTB,
    };
    observation.record_config_tables(5, scan);
    assert_eq!(observation.config_table_count, 5);
    assert_eq!(observation.table_presence.acpi_rsdp, Some(0x8000));
    assert_eq!(observation.table_presence.dtb, Some(0x9000));
    assert_eq!(observation.table_presence.smbios, None);
    assert!(observation.flags.acpi_rsdp_present);
    assert!(observation.flags.dtb_present);
    assert!(!observation.flags.smbios_present);
    assert!(!observation.flags.secure_boot_known);
}

#[test]
fn conventional_pages_sum_or_overflow() {
    assert_eq!(novaos::observe::checked_page_total(&[]), Some(0));
    assert_eq!(novaos::observe::checked_page_total(&[3, 4, 5]), Some(12));
    assert_eq!(novaos::observe::checked_page_total(&[u64::MAX, 1]), None);
    assert_eq!(novaos::observe::checked_page_total(&[u64::MAX - 1, 1]), Some(u64::MAX));
}
