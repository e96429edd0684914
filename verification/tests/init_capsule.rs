use novaos::digest::sha256_digest_bytes;
use novaos::init_capsule::{
    decode_init_capsule_service_name, encode_init_capsule_service_name, parse_init_capsule_header,
    InitCapsuleImage, NovaInitCapsuleCapabilityV1, NovaInitCapsuleHeaderV1, NOVA_INIT_CAPSULE_HEADER_V1_SIZE,
    NOVA_INIT_CAPSULE_KNOWN_CAPABILITIES_V1, NOVA_INIT_CAPSULE_SERVICE_NAME_LEN,
    NOVA_INIT_CAPSULE_SERVICE_NAME_OFFSET,
};
use novaos::payload::{NovaPayloadEntryAbi, NovaPayloadHeaderV1, NovaPayloadKind, NOVA_PAYLOAD_HEADER_V1_SIZE};

#[test]
fn init_capsule_layout_matches_c_header() {
    assert_eq!(NOVA_INIT_CAPSULE_HEADER_V1_SIZE, 64);
    assert_eq!(NOVA_INIT_CAPSULE_SERVICE_NAME_OFFSET, 40);
    let name = encode_init_capsule_service_name("initd").expect("name");
    let header = NovaInitCapsuleHeaderV1::new(name, 1, 2, 3);
    let bytes = header.to_bytes();
    assert_eq!(bytes.len(), 64);
    assert_eq!(&bytes[40..45], b"initd");
    assert_eq!(parse_init_capsule_header(&bytes), Some(header));
}

#[test]
fn service_name_encoding_requires_valid_bootstrap_name() {
    assert!(encode_init_capsule_service_name("").is_none());
    assert!(encode_init_capsule_service_name("initd").is_some());
    assert!(encode_init_capsule_service_name("initd/worker").is_none());
    assert!(encode_init_capsule_service_name("abcdefghijklmnopq").is_none());
    assert_eq!(
        decode_init_capsule_service_name(&encode_init_capsule_service_name("initd").expect("name")),
        Some("initd")
    );
}

#[test]
fn service_name_decoding_rejects_gaps_and_bad_bytes() {
    let mut field = [0u8; 16];
    assert_eq!(decode_init_capsule_service_name(&field), None);
    field[0] = b'a';
    field[2] = b'b';
    assert_eq!(decode_init_capsule_service_name(&field), None);
    field[2] = 0;
    field[1] = b'A';
    assert_eq!(decode_init_capsule_service_name(&field), None);
    let full = *b"abcdefghijklmnop";
    assert_eq!(decode_init_capsule_service_name(&full), Some("abcdefghijklmnop"));
    assert_eq!(
        encode_init_capsule_service_name("a.b-c_9").map(|f| f[..7].to_vec()),
        Some(b"a.b-c_9".to_vec())
    );
}

fn header_only_capsule(caps: u64) -> Vec<u8> {
    let service_name = encode_init_capsule_service_name("initd").expect("service name");
    NovaInitCapsuleHeaderV1::new(service_name, caps, 1, 0).to_bytes()
}

#[test]
fn init_capsule_image_parses_header_only_capsule() {
    let image = header_only_capsule(NovaInitCapsuleCapabilityV1::BootLog.as_raw());

    let capsule = InitCapsuleImage::parse(image.as_slice()).expect("capsule");
    assert_eq!(capsule.service_name(), "initd");
    assert_eq!(capsule.requested_capabilities(), NovaInitCapsuleCapabilityV1::BootLog.as_raw());
    assert_eq!(capsule.endpoint_slots(), 1);
    assert_eq!(capsule.shared_memory_regions(), 0);
    assert!(capsule.body().is_empty());
    assert!(capsule.bootstrap_service_payload().is_none());
}

#[test]
fn init_capsule_parses_embedded_bootstrap_service_payload() {
    let service_name = encode_init_capsule_service_name("initd").expect("service name");
    let payload_body = [0x41u8, 0x42, 0x43, 0x44];
    let payload_header = NovaPayloadHeaderV1::new_flat_binary(
        NovaPayloadKind::Service,
        NovaPayloadEntryAbi::BootstrapTaskV1,
        (NOVA_PAYLOAD_HEADER_V1_SIZE + payload_body.len()) as u32,
        sha256_digest_bytes(&payload_body),
    );
    let mut payload = payload_header.to_bytes();
    payload.extend_from_slice(&payload_body);

    let mut header = NovaInitCapsuleHeaderV1::new(service_name, NovaInitCapsuleCapabilityV1::BootLog.as_raw(), 1, 0);
    header.total_size = (NOVA_INIT_CAPSULE_HEADER_V1_SIZE + payload.len()) as u32;
    let mut image = header.to_bytes();
    image.extend_from_slice(&payload);

    let capsule = InitCapsuleImage::parse(image.as_slice()).expect("capsule");
    let embedded = capsule.bootstrap_service_payload().expect("embedded payload");
    assert_eq!(embedded.kind(), NovaPayloadKind::Service);
    assert_eq!(embedded.entry_abi(), NovaPayloadEntryAbi::BootstrapTaskV1);
    assert_eq!(embedded.body(), payload_body);
}

#[test]
fn init_capsule_rejects_unknown_capability_bits() {
    let image = header_only_capsule(NOVA_INIT_CAPSULE_KNOWN_CAPABILITIES_V1 | (1 << 12));
    assert!(InitCapsuleImage::parse(&image).is_none());
}

#[test]
fn init_capsule_rejects_invalid_embedded_payload_body() {
    let service_name = encode_init_capsule_service_name("initd").expect("service name");
    let mut header = NovaInitCapsuleHeaderV1::new(service_name, NovaInitCapsuleCapabilityV1::BootLog.as_raw(), 0, 0);
    let invalid_body = [1u8, 2, 3, 4];
    header.total_size = (NOVA_INIT_CAPSULE_HEADER_V1_SIZE + invalid_body.len()) as u32;
    let mut image = header.to_bytes();
    image.extend_from_slice(&invalid_body);

    assert!(InitCapsuleImage::parse(image.as_slice()).is_none());
}

#[test]
fn init_capsule_rejects_length_mismatch_and_short_input() {
    let image = header_only_capsule(1);
    assert!(InitCapsuleImage::parse(&image[..63]).is_none());
    let mut longer = image.clone();
    longer.push(0);
    assert!(InitCapsuleImage::parse(&longer).is_none());
    let mut bad_magic = image.clone();
    bad_magic[0] ^= 1;
    assert!(InitCapsuleImage::parse(&bad_magic).is_none());
}

#[test]
fn init_capsule_constants_cover_current_contract() {
    assert_eq!(NOVA_INIT_CAPSULE_SERVICE_NAME_LEN, 16);
    assert_eq!(NovaInitCapsuleCapabilityV1::BootLog.as_raw(), 1);
    assert_eq!(NovaInitCapsuleCapabilityV1::Yield.as_raw(), 2);
    assert_eq!(NovaInitCapsuleCapabilityV1::EndpointBootstrap.as_raw(), 4);
    assert_eq!(NovaInitCapsuleCapabilityV1::SharedMemoryBootstrap.as_raw(), 8);
}
