use novaos::bootinfo::NovaBootInfoV1;
use novaos::bootinfo_v2::NovaBootInfoV2;
use novaos::digest::{sha256_digest_bytes, NovaImageDigestV1};
use novaos::loader::{
    build_verification_info, kernel_image_digest_matches, LoaderBuffers, LoaderError, LoaderHandoff, LoaderPlan,
    StagedBytes,
};
use novaos::payload::{NovaPayloadEntryAbi, NovaPayloadHeaderV1, NovaPayloadKind};
use novaos::stage1::{Stage1Plan, Stage1Status};
use novaos::verification::NovaVerificationInfoV1;

fn payload(kind: NovaPayloadKind, abi: NovaPayloadEntryAbi, body: &[u8]) -> Vec<u8> {
    let header = NovaPayloadHeaderV1::new_flat_binary(kind, abi, (88 + body.len()) as u32, sha256_digest_bytes(body));
    let mut image = header.to_bytes();
    image.extend_from_slice(body);
    image
}

fn staged_buffers() -> LoaderBuffers {
    let stage1 = payload(NovaPayloadKind::Stage1, NovaPayloadEntryAbi::Stage1Plan, &[9, 9]);
    let kernel = payload(NovaPayloadKind::Kernel, NovaPayloadEntryAbi::BootInfoV2Sidecar, &[1, 2, 3, 4]);
    let digest = NovaImageDigestV1::from_bytes_sha256(&kernel);
    let mut buffers = LoaderBuffers::empty();
    buffers.stage1_image = Some(StagedBytes { addr: 0x4000_0000, bytes: stage1 });
    buffers.kernel_image = Some(StagedBytes { addr: 0x4100_0000, bytes: kernel });
    buffers.kernel_image_digest = Some(digest);
    buffers.verification_info = build_verification_info(&buffers);
    buffers.stage1_plan = Some((0x4200_0000, Stage1Plan::empty()));
    buffers.memory_map = Some(StagedBytes { addr: 0x4300_0000, bytes: vec![0; 64] });
    let mut boot_info = NovaBootInfoV1::new();
    boot_info.set_flag(NovaBootInfoV1::FLAG_HAS_KERNEL_IMAGE_DIGEST);
    boot_info.set_flag(NovaBootInfoV1::FLAG_HAS_VERIFICATION_INFO);
    buffers.boot_info = Some((0x4400_0000, boot_info));
    buffers
}

#[test]
fn loader_handoff_accepts_a_consistent_staging() {
    let handoff = LoaderHandoff { plan: LoaderPlan::unknown(), buffers: staged_buffers() };
    assert_eq!(handoff.validate(), Ok(()));
    let verification = handoff.buffers.verification_info.expect("verification");
    assert!(verification.stage1_payload_verified());
    assert!(verification.kernel_payload_verified());
    assert!(verification.kernel_digest_verified());
}

#[test]
fn loader_handoff_reports_missing_pieces_in_order() {
    let handoff = LoaderHandoff::prepare(LoaderPlan::unknown());
    assert_eq!(handoff.validate(), Err(LoaderError::MissingStage1Image));
    let mut invalid = LoaderPlan::unknown();
    invalid.boot_info = NovaBootInfoV1::empty();
    assert_eq!(LoaderHandoff::prepare(invalid).validate(), Err(LoaderError::InvalidBootInfo));

    let mut buffers = staged_buffers();
    buffers.memory_map = None;
    assert_eq!(LoaderHandoff { plan: LoaderPlan::unknown(), buffers }.validate(), Err(LoaderError::MissingMemoryMapStorage));

    let mut buffers = staged_buffers();
    buffers.boot_info = None;
    assert_eq!(LoaderHandoff { plan: LoaderPlan::unknown(), buffers }.validate(), Err(LoaderError::MissingBootInfoStorage));
}

#[test]
fn loader_handoff_rejects_a_digest_of_another_kernel() {
    let mut buffers = staged_buffers();
    buffers.kernel_image_digest = Some(NovaImageDigestV1::from_bytes_sha256(b"wrong"));
    assert_eq!(LoaderHandoff { plan: LoaderPlan::unknown(), buffers }.validate(), Err(LoaderError::InvalidKernelImageDigest));
    assert!(!kernel_image_digest_matches(&[], &NovaImageDigestV1::from_bytes_sha256(&[])));
}

#[test]
fn loader_handoff_rejects_a_stale_verification_record() {
    let mut buffers = staged_buffers();
    let mut stale = buffers.verification_info.expect("verification");
    stale.stage1_image_size += 1;
    buffers.verification_info = Some(stale);
    assert_eq!(LoaderHandoff { plan: LoaderPlan::unknown(), buffers }.validate(), Err(LoaderError::InvalidVerificationInfo));
}

#[test]
fn loader_handoff_passes_on_stage1_refusals() {
    let mut buffers = staged_buffers();
    let mut boot_info = buffers.boot_info.expect("boot info").1;
    boot_info.flags = 0;
    buffers.boot_info = Some((0x4400_0000, boot_info));
    assert_eq!(
        LoaderHandoff { plan: LoaderPlan::unknown(), buffers }.validate(),
        Err(LoaderError::Stage1(Stage1Status::InvalidVerificationInfo))
    );
}

#[test]
fn loader_handoff_checks_the_staged_sidecar() {
    let mut buffers = staged_buffers();
    buffers.boot_info_v2 = Some((0x4500_0000, NovaBootInfoV2::new()));
    assert_eq!(LoaderHandoff { plan: LoaderPlan::unknown(), buffers }.validate(), Ok(()));
    let mut buffers = staged_buffers();
    let mut v2 = NovaBootInfoV2::new();
    v2.accel_seed_count = 1;
    v2.accel_seeds_ptr = 0x9000;
    buffers.boot_info_v2 = Some((0x4500_0000, v2));
    assert_eq!(LoaderHandoff { plan: LoaderPlan::unknown(), buffers }.validate(), Err(LoaderError::InvalidBootInfoV2));
}

#[test]
fn verification_record_tracks_what_was_staged() {
    let mut buffers = LoaderBuffers::empty();
    let record = build_verification_info(&buffers).expect("record");
    assert_eq!(record, NovaVerificationInfoV1::new());
    buffers.init_capsule = Some(StagedBytes { addr: 0x5000, bytes: vec![0; 64] });
    let record = build_verification_info(&buffers).expect("record");
    assert!(record.has_flag(NovaVerificationInfoV1::FLAG_INIT_CAPSULE_PRESENT));
    assert!(!record.has_flag(NovaVerificationInfoV1::FLAG_KERNEL_PAYLOAD_PRESENT));
}

#[test]
fn final_memory_map_lands_in_both_boot_records() {
    let mut buffers = staged_buffers();
    buffers.boot_info_v2 = Some((0x4500_0000, NovaBootInfoV2::new()));
    let mut handoff = LoaderHandoff { plan: LoaderPlan::unknown(), buffers };
    handoff.record_final_memory_map(12, 48, 0x4300_0000);
    assert_eq!(handoff.plan.boot_info.memory_map_entries, 12);
    assert_eq!(handoff.plan.boot_info.memory_map_desc_size, 48);
    assert_eq!(handoff.plan.boot_info.memory_map_ptr, 0x4300_0000);
    let (addr, record) = handoff.buffers.boot_info.expect("boot info");
    assert_eq!(addr, 0x4400_0000);
    assert_eq!(record, handoff.plan.boot_info);
    let (addr_v2, record_v2) = handoff.buffers.boot_info_v2.expect("boot info v2");
    assert_eq!(addr_v2, 0x4500_0000);
    assert_eq!(record_v2.memory_map_entries, 12);
    assert_eq!(record_v2.memory_map_desc_size, 48);
    assert_eq!(record_v2.memory_map_ptr, 0x4300_0000);
    assert_eq!(handoff.plan.boot_info_v2_draft, record_v2);

    let mut bare = LoaderHandoff::prepare(LoaderPlan::unknown());
    let draft = bare.plan.boot_info_v2_draft;
    bare.record_final_memory_map(3, 40, 0x1000);
    assert_eq!(bare.plan.boot_info.memory_map_entries, 3);
    assert!(bare.buffers.boot_info.is_none());
    assert_eq!(bare.plan.boot_info_v2_draft, draft);
}
