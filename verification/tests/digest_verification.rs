use novaos::digest::{sha256_digest_bytes, NovaDigestAlgorithm, NovaImageDigestV1, NOVA_IMAGE_DIGEST_V1_SIZE};
use novaos::verification::{NovaVerificationInfoV1, NOVA_VERIFICATION_INFO_V1_SIZE};

#[test]
fn image_digest_layout_is_stable() {
    assert_eq!(NOVA_IMAGE_DIGEST_V1_SIZE, 48);
}

#[test]
fn sha256_digest_is_valid() {
    let digest = NovaImageDigestV1::sha256([0xA5; 32]);
    assert!(digest.is_valid());
    assert_eq!(digest.algorithm, NovaDigestAlgorithm::Sha256);
    assert_eq!(digest.byte_len, 32);
}

#[test]
fn sha256_digest_bytes_matches_object_helper() {
    let bytes = sha256_digest_bytes(b"nova");
    let digest = NovaImageDigestV1::from_bytes_sha256(b"nova");
    assert_eq!(digest.bytes, bytes);
}

#[test]
fn sha256_digest_bytes_matches_known_vector() {
    let empty = sha256_digest_bytes(b"");
    assert_eq!(empty[..4], [0xe3, 0xb0, 0xc4, 0x42]);
    let abc = sha256_digest_bytes(b"abc");
    assert_eq!(abc[..4], [0xba, 0x78, 0x16, 0xbf]);
    assert_eq!(NovaDigestAlgorithm::from_raw(1), Some(NovaDigestAlgorithm::Sha256));
    assert_eq!(NovaDigestAlgorithm::from_raw(2), None);
}

#[test]
fn verification_info_layout_is_stable() {
    assert_eq!(NOVA_VERIFICATION_INFO_V1_SIZE, 32);
}

#[test]
fn verification_info_requires_consistent_flags() {
    let mut info = NovaVerificationInfoV1::new();
    info.set_flag(NovaVerificationInfoV1::FLAG_KERNEL_DIGEST_VERIFIED);
    assert!(!info.is_valid());

    let mut info = NovaVerificationInfoV1::new();
    info.stage1_image_size = 64;
    info.kernel_image_size = 128;
    info.set_flag(NovaVerificationInfoV1::FLAG_STAGE1_PAYLOAD_PRESENT);
    info.set_flag(NovaVerificationInfoV1::FLAG_STAGE1_PAYLOAD_VERIFIED);
    info.set_flag(NovaVerificationInfoV1::FLAG_KERNEL_PAYLOAD_PRESENT);
    info.set_flag(NovaVerificationInfoV1::FLAG_KERNEL_PAYLOAD_VERIFIED);
    info.set_flag(NovaVerificationInfoV1::FLAG_KERNEL_DIGEST_PRESENT);
    info.set_flag(NovaVerificationInfoV1::FLAG_KERNEL_DIGEST_VERIFIED);
    assert!(info.is_valid());
    assert!(info.kernel_digest_verified());
    assert!(info.stage1_payload_verified());
    assert!(info.kernel_payload_verified());
}

#[test]
fn verification_info_requires_sizes_for_present_payloads() {
    let mut info = NovaVerificationInfoV1::new();
    info.set_flag(NovaVerificationInfoV1::FLAG_STAGE1_PAYLOAD_PRESENT);
    assert!(!info.is_valid());
    info.stage1_image_size = 1;
    assert!(info.is_valid());
}
