use novaos::digest::{sha256_digest_bytes, NovaImageDigestV1};
use novaos::payload::{
    parse_payload_header, NovaPayloadEntryAbi, NovaPayloadHeaderV1, NovaPayloadKind, NovaPayloadLoadMode,
    PayloadImage, NOVA_PAYLOAD_HEADER_V1_SIZE,
};

fn wrap(header: &NovaPayloadHeaderV1, image_len: usize, body_offset: usize, body: &[u8]) -> Vec<u8> {
    let mut image = vec![0u8; image_len];
    image[..NOVA_PAYLOAD_HEADER_V1_SIZE].copy_from_slice(&header.to_bytes());
    image[body_offset..body_offset + body.len()].copy_from_slice(body);
    image
}

#[test]
fn payload_header_layout_is_stable() {
    assert_eq!(NOVA_PAYLOAD_HEADER_V1_SIZE, 88);
    let header = NovaPayloadHeaderV1::new_flat_binary(NovaPayloadKind::Kernel, NovaPayloadEntryAbi::BootInfo, 92, [7; 32]);
    assert_eq!(header.to_bytes().len(), 88);
}

#[test]
fn payload_image_parses_valid_wrapped_binary() {
    let body = [1u8, 2, 3, 4];
    let header_len = NOVA_PAYLOAD_HEADER_V1_SIZE;
    let image_len = header_len + body.len();
    let header = NovaPayloadHeaderV1::new_flat_binary(
        NovaPayloadKind::Kernel,
        NovaPayloadEntryAbi::BootInfoV2Sidecar,
        image_len as u32,
        sha256_digest_bytes(&body),
    );
    let image = wrap(&header, image_len, header_len, &body);

    let parsed = PayloadImage::parse_kind(image.as_slice(), NovaPayloadKind::Kernel).expect("payload");

    assert_eq!(parsed.header(), header);
    assert_eq!(parsed.entry_abi(), NovaPayloadEntryAbi::BootInfoV2Sidecar);
    assert_eq!(parsed.load_mode(), NovaPayloadLoadMode::FlatBinary);
    assert_eq!(parsed.body(), body);
    assert_eq!(parsed.entry_addr(0x2000), 0x2000 + header_len as u64);
    assert_eq!(parsed.load_base(0x2000), 0x2000 + header_len as u64);
    assert_eq!(parsed.load_size(), 4);
}

#[test]
fn payload_image_parses_padded_flat_binary() {
    let body = [5u8, 6, 7, 8];
    let load_offset = 2048usize;
    let image_len = load_offset + body.len();
    let header = NovaPayloadHeaderV1::new_flat_binary_with_offsets(
        NovaPayloadKind::Kernel,
        NovaPayloadEntryAbi::BootInfoV2Sidecar,
        image_len as u32,
        load_offset as u32,
        load_offset as u32,
        sha256_digest_bytes(&body),
    );
    let image = wrap(&header, image_len, load_offset, &body);

    let parsed = PayloadImage::parse_kind(image.as_slice(), NovaPayloadKind::Kernel).expect("payload");

    assert_eq!(parsed.header(), header);
    assert_eq!(parsed.body(), body);
    assert_eq!(parsed.entry_addr(0x4000), 0x4000 + load_offset as u64);
    assert_eq!(parsed.load_base(0x4000), 0x4000 + load_offset as u64);
    assert_eq!(parsed.load_size(), body.len() as u64);
}

#[test]
fn service_payload_parses_valid_wrapped_binary() {
    let body = [9u8, 8, 7, 6];
    let image_len = NOVA_PAYLOAD_HEADER_V1_SIZE + body.len();
    let header = NovaPayloadHeaderV1::new_flat_binary(
        NovaPayloadKind::Service,
        NovaPayloadEntryAbi::BootstrapTaskV1,
        image_len as u32,
        sha256_digest_bytes(&body),
    );
    let image = wrap(&header, image_len, NOVA_PAYLOAD_HEADER_V1_SIZE, &body);

    let parsed = PayloadImage::parse_kind_abi(image.as_slice(), NovaPayloadKind::Service, NovaPayloadEntryAbi::BootstrapTaskV1)
        .expect("service payload");

    assert_eq!(parsed.header(), header);
    assert_eq!(parsed.entry_abi(), NovaPayloadEntryAbi::BootstrapTaskV1);
    assert_eq!(parsed.kind(), NovaPayloadKind::Service);
    assert_eq!(parsed.body(), body);
}

#[test]
fn payload_image_rejects_wrong_kind() {
    let body = [0u8; 4];
    let image_len = NOVA_PAYLOAD_HEADER_V1_SIZE + body.len();
    let header = NovaPayloadHeaderV1::new_flat_binary(
        NovaPayloadKind::Stage1,
        NovaPayloadEntryAbi::Stage1Plan,
        image_len as u32,
        sha256_digest_bytes(&body),
    );
    let image = wrap(&header, image_len, NOVA_PAYLOAD_HEADER_V1_SIZE, &body);

    assert!(PayloadImage::parse_kind(image.as_slice(), NovaPayloadKind::Kernel).is_none());
}

#[test]
fn payload_image_rejects_digest_mismatch() {
    let body = [1u8, 2, 3, 4];
    let image_len = NOVA_PAYLOAD_HEADER_V1_SIZE + body.len();
    let header = NovaPayloadHeaderV1::new_flat_binary(
        NovaPayloadKind::Kernel,
        NovaPayloadEntryAbi::BootInfoV2Sidecar,
        image_len as u32,
        [0xFF; 32],
    );
    let image = wrap(&header, image_len, NOVA_PAYLOAD_HEADER_V1_SIZE, &body);

    assert!(PayloadImage::parse(image.as_slice()).is_none());
    assert!(PayloadImage::parse_structure(image.as_slice()).is_some());
}

#[test]
fn payload_image_matches_full_image_digest() {
    let body = [9u8, 8, 7, 6];
    let image_len = NOVA_PAYLOAD_HEADER_V1_SIZE + body.len();
    let header = NovaPayloadHeaderV1::new_flat_binary(
        NovaPayloadKind::Kernel,
        NovaPayloadEntryAbi::BootInfoV2Sidecar,
        image_len as u32,
        sha256_digest_bytes(&body),
    );
    let image = wrap(&header, image_len, NOVA_PAYLOAD_HEADER_V1_SIZE, &body);

    let parsed = PayloadImage::parse(image.as_slice()).expect("payload");
    let digest = NovaImageDigestV1::from_bytes_sha256(image.as_slice());

    assert!(parsed.image_digest_matches(&digest));
    assert!(!parsed.image_digest_matches(&NovaImageDigestV1::sha256([0; 32])));
}

#[test]
fn payload_image_rejects_wrong_entry_abi() {
    let body = [3u8, 2, 1, 0];
    let image_len = NOVA_PAYLOAD_HEADER_V1_SIZE + body.len();
    let header = NovaPayloadHeaderV1::new_flat_binary(
        NovaPayloadKind::Kernel,
        NovaPayloadEntryAbi::Stage1Plan,
        image_len as u32,
        sha256_digest_bytes(&body),
    );
    let image = wrap(&header, image_len, NOVA_PAYLOAD_HEADER_V1_SIZE, &body);

    assert!(PayloadImage::parse_kind_abi(image.as_slice(), NovaPayloadKind::Kernel, NovaPayloadEntryAbi::BootInfoV2Sidecar)
        .is_none());
}

#[test]
fn payload_header_rejects_truncated_and_length_mismatch() {
    let body = [1u8, 2];
    let image_len = NOVA_PAYLOAD_HEADER_V1_SIZE + body.len();
    let header = NovaPayloadHeaderV1::new_flat_binary(NovaPayloadKind::Kernel, NovaPayloadEntryAbi::BootInfo, image_len as u32, sha256_digest_bytes(&body));
    let image = wrap(&header, image_len, NOVA_PAYLOAD_HEADER_V1_SIZE, &body);
    assert!(parse_payload_header(&image[..87]).is_none());
    assert_eq!(parse_payload_header(&image), Some(header));
    assert!(PayloadImage::parse(&image[..image_len - 1]).is_none());
}

#[test]
fn payload_enums_cover_service_bootstrap_contract() {
    assert_eq!(NovaPayloadKind::Stage1.as_raw(), 1);
    assert_eq!(NovaPayloadKind::Kernel.as_raw(), 2);
    assert_eq!(NovaPayloadKind::Service.as_raw(), 3);
    assert_eq!(NovaPayloadEntryAbi::Stage1Plan.as_raw(), 1);
    assert_eq!(NovaPayloadEntryAbi::BootInfo.as_raw(), 2);
    assert_eq!(NovaPayloadEntryAbi::BootInfoV2Sidecar.as_raw(), 3);
    assert_eq!(NovaPayloadEntryAbi::BootstrapTaskV1.as_raw(), 4);
}
