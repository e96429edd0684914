//! The init capsule: a 64-byte header that names the first service and its
//! bootstrap budget, optionally followed by that service's payload image.
use vstd::prelude::*;
use vstd::string::StringSliceAdditionalSpecFns;
use vstd::utf8::{codepoint_width_1, decode_utf8, encode_utf8_decode_utf8, leading_bits_width_1, valid_utf8};
use crate::bytes::{
    le_u32_at, le_u32_bytes, le_u64_at, le_u64_bytes, lemma_u32_field, lemma_u32_round_trip,
    lemma_u64_field, lemma_u64_round_trip, push_bytes, push_u32_le, push_u64_le, read_array16,
    read_u32_le, read_u64_le,
};
use crate::payload::{payload_accepts, NovaPayloadEntryAbi, NovaPayloadKind, PayloadImage};

verus! {

pub const NOVA_INIT_CAPSULE_SERVICE_NAME_LEN: usize = 16;
pub const NOVA_INIT_CAPSULE_KNOWN_CAPABILITIES_V1: u64 = 0xF;
/// Encoded size of [`NovaInitCapsuleHeaderV1`].
pub const NOVA_INIT_CAPSULE_HEADER_V1_SIZE: usize = 64;
/// Offset of the service name in the encoded header.
pub const NOVA_INIT_CAPSULE_SERVICE_NAME_OFFSET: usize = 40;

/// Capabilities a capsule may ask the kernel for.
#[derive(Clone, Copy, Debug, PartialEq, Eq, Structural)]
pub enum NovaInitCapsuleCapabilityV1 {
    BootLog,
    Yield,
    EndpointBootstrap,
    SharedMemoryBootstrap,
}

impl NovaInitCapsuleCapabilityV1 {
    pub open spec fn spec_raw(self) -> u64 {
        match self {
            NovaInitCapsuleCapabilityV1::BootLog => 1,
            NovaInitCapsuleCapabilityV1::Yield => 2,
            NovaInitCapsuleCapabilityV1::EndpointBootstrap => 4,
            NovaInitCapsuleCapabilityV1::SharedMemoryBootstrap => 8,
        }
    }

    /// The capability's bit.
    pub fn as_raw(self) -> (r: u64)
        ensures
            r == self.spec_raw(),
    {
        match self {
            NovaInitCapsuleCapabilityV1::BootLog => 1,
            NovaInitCapsuleCapabilityV1::Yield => 2,
            NovaInitCapsuleCapabilityV1::EndpointBootstrap => 4,
            NovaInitCapsuleCapabilityV1::SharedMemoryBootstrap => 8,
        }
    }
}

// ---------------------------------------------------------------------------
// Service names
// ---------------------------------------------------------------------------

/// A byte allowed in a service name: lower-case ASCII letter, digit, `_`,
/// `-` or `.`.
pub open spec fn is_service_name_byte(b: u8) -> bool {
    (97 <= b <= 122) || (48 <= b <= 57) || b == 95 || b == 45 || b == 46
}

/// `b` is a 16-byte name field holding a name of `n` bytes followed by zeros.
pub open spec fn service_name_split(b: Seq<u8>, n: int) -> bool {
    &&& b.len() == 16
    &&& 1 <= n <= 16
    &&& forall|i: int| 0 <= i < n ==> is_service_name_byte(#[trigger] b[i])
    &&& forall|i: int| n <= i < 16 ==> #[trigger] b[i] == 0
}

/// The length of the name a valid field holds.
pub open spec fn service_name_len(b: Seq<u8>) -> int {
    choose|n: int| service_name_split(b, n)
}

/// The name a valid field holds, as text.
pub open spec fn service_name_text(b: Seq<u8>) -> Seq<char> {
    decode_utf8(b.subrange(0, service_name_len(b)))
}

/// A valid field holds a name of exactly one length.
pub proof fn lemma_service_name_split_unique(b: Seq<u8>, n1: int, n2: int)
    requires
        service_name_split(b, n1),
        service_name_split(b, n2),
    ensures
        n1 == n2,
{
    if n1 < n2 {
        assert(b[n1] == 0);
        assert(is_service_name_byte(b[n1]));
    } else if n2 < n1 {
        assert(b[n2] == 0);
        assert(is_service_name_byte(b[n2]));
    }
}

/// `b` is a valid 16-byte name field.
pub open spec fn service_name_valid(b: Seq<u8>) -> bool {
    exists|n: int| service_name_split(b, n)
}

/// `name` can be stored in a name field: 1 to 16 allowed bytes.
pub open spec fn service_name_encodable(name: Seq<u8>) -> bool {
    &&& 1 <= name.len() <= 16
    &&& forall|i: int| 0 <= i < name.len() ==> is_service_name_byte(#[trigger] name[i])
}

/// The name field that stores `name`: its bytes, then zeros up to 16.
pub open spec fn padded_service_name(name: Seq<u8>) -> Seq<u8> {
    name + Seq::new((16 - name.len()) as nat, |i: int| 0u8)
}

fn is_valid_service_name_byte(byte: u8) -> (r: bool)
    ensures
        r == is_service_name_byte(byte),
{
    (byte >= 97 && byte <= 122) || (byte >= 48 && byte <= 57) || byte == 95 || byte == 45 || byte == 46
}

/// ASCII bytes are valid UTF-8.
proof fn lemma_ascii_valid_utf8(b: Seq<u8>)
    requires
        forall|i: int| 0 <= i < b.len() ==> #[trigger] b[i] <= 0x7f,
    ensures
        valid_utf8(b),
    decreases b.len(),
{
    if b.len() > 0 {
        let x = b[0];
        assert(x & 0x7f <= 0x7f) by (bit_vector);
        assert(codepoint_width_1(x) == leading_bits_width_1(x));
        let rest = b.subrange(1, b.len() as int);
        assert forall|i: int| 0 <= i < rest.len() implies #[trigger] rest[i] <= 0x7f by {
            assert(rest[i] == b[i + 1]);
        }
        lemma_ascii_valid_utf8(rest);
    }
}

/// `core::str::from_utf8`: the bytes as a string slice exactly when they are
/// valid UTF-8, and the slice then holds exactly those bytes.
#[verifier::external_body]
fn str_from_utf8<'a>(bytes: &'a [u8]) -> (r: Option<&'a str>)
    ensures
        r is Some <==> valid_utf8(bytes@),
        r matches Some(s) ==> s.spec_bytes() == bytes@,
{
    core::str::from_utf8(bytes).ok()
}

/// Encodes a service name into a 16-byte name field.
pub fn encode_init_capsule_service_name(name: &str) -> (r: Option<[u8; 16]>)
    ensures
        r is Some <==> service_name_encodable(name.spec_bytes()),
        r matches Some(e) ==> e@ == padded_service_name(name.spec_bytes()),
{
    let bytes = name.as_bytes();
    if bytes.len() == 0 || bytes.len() > NOVA_INIT_CAPSULE_SERVICE_NAME_LEN {
        return None;
    }
    let mut encoded = [0u8; 16];
    let mut index: usize = 0;
    while index < bytes.len()
        invariant
            0 <= index <= bytes@.len(),
            1 <= bytes@.len() <= 16,
            bytes@ == name.spec_bytes(),
            encoded@.len() == 16,
            forall|i: int| 0 <= i < index ==> is_service_name_byte(#[trigger] bytes@[i]),
            forall|i: int| 0 <= i < index ==> #[trigger] encoded@[i] == bytes@[i],
            forall|i: int| index <= i < 16 ==> #[trigger] encoded@[i] == 0,
        decreases bytes@.len() - index,
    {
        let byte = bytes[index];
        if !is_valid_service_name_byte(byte) {
            return None;
        }
        encoded[index] = byte;
        index = index + 1;
    }
    assert(encoded@ =~= padded_service_name(bytes@));
    Some(encoded)
}

/// Decodes a 16-byte name field: the allowed bytes before the first zero,
/// with only zeros after it.
pub fn decode_init_capsule_service_name(bytes: &[u8; 16]) -> (r: Option<&str>)
    ensures
        r is Some <==> service_name_valid(bytes@),
        r matches Some(s) ==> service_name_split(bytes@, s.spec_bytes().len() as int)
            && s.spec_bytes() == bytes@.subrange(0, s.spec_bytes().len() as int)
            && s.spec_bytes().len() == service_name_len(bytes@)
            && s@ == service_name_text(bytes@),
{
    let mut len: usize = 0;
    let mut saw_terminator = false;
    while len < 16
        invariant_except_break
            0 <= len <= 16,
            !saw_terminator,
            forall|i: int| 0 <= i < len ==> is_service_name_byte(#[trigger] bytes@[i]),
        invariant
            bytes@.len() == 16,
        ensures
            0 <= len <= 16,
            forall|i: int| 0 <= i < len ==> is_service_name_byte(#[trigger] bytes@[i]),
            saw_terminator ==> len < 16 && bytes@[len as int] == 0,
            !saw_terminator ==> len == 16,
        decreases 16 - len,
    {
        let byte = bytes[len];
        if byte == 0 {
            saw_terminator = true;
            break;
        }
        if !is_valid_service_name_byte(byte) {
            assert forall|n: int| !service_name_split(bytes@, n) by {
                if service_name_split(bytes@, n) {
                    if len < n {
                        assert(is_service_name_byte(bytes@[len as int]));
                    } else {
                        assert(bytes@[len as int] == 0);
                    }
                }
            }
            return None;
        }
        len = len + 1;
    }
    if len == 0 {
        assert forall|n: int| !service_name_split(bytes@, n) by {
            if service_name_split(bytes@, n) {
                assert(is_service_name_byte(bytes@[0]));
            }
        }
        return None;
    }
    if saw_terminator {
        let mut j: usize = len + 1;
        while j < 16
            invariant
                bytes@.len() == 16,
                1 <= len < 16,
                len + 1 <= j <= 16,
                bytes@[len as int] == 0,
                forall|i: int| 0 <= i < len ==> is_service_name_byte(#[trigger] bytes@[i]),
                forall|i: int| len < i < j ==> #[trigger] bytes@[i] == 0,
            decreases 16 - j,
        {
            if bytes[j] != 0 {
                assert forall|n: int| !service_name_split(bytes@, n) by {
                    if service_name_split(bytes@, n) {
                        if n <= len {
                            assert(bytes@[j as int] == 0);
                        } else {
                            assert(is_service_name_byte(bytes@[len as int]));
                        }
                    }
                }
                return None;
            }
            j = j + 1;
        }
    }
    assert(service_name_split(bytes@, len as int));
    let prefix = vstd::slice::slice_subrange(bytes.as_slice(), 0, len);
    proof {
        assert forall|i: int| 0 <= i < prefix@.len() implies #[trigger] prefix@[i] <= 0x7f by {
            assert(prefix@[i] == bytes@[i]);
        }
        lemma_ascii_valid_utf8(prefix@);
    }
    let r = str_from_utf8(prefix);
    proof {
        if let Some(text) = r {
            lemma_service_name_split_unique(bytes@, len as int, service_name_len(bytes@));
            encode_utf8_decode_utf8(text@);
        }
    }
    r
}

/// What decoding gives back of an encoding: the field that stores an
/// encodable name decodes to exactly that name, and every valid field is the
/// stored form of the name it decodes to.
pub proof fn lemma_service_name_round_trip(name: Seq<u8>, field: Seq<u8>, n: int)
    ensures
        service_name_encodable(name) ==> service_name_split(padded_service_name(name), name.len() as int)
            && padded_service_name(name).subrange(0, name.len() as int) == name,
        service_name_split(field, n) ==> service_name_encodable(field.subrange(0, n))
            && padded_service_name(field.subrange(0, n)) == field,
{
    if service_name_encodable(name) {
        let p = padded_service_name(name);
        assert forall|i: int| 0 <= i < name.len() implies is_service_name_byte(#[trigger] p[i]) by {
            assert(p[i] == name[i]);
        }
        assert(p.subrange(0, name.len() as int) =~= name);
    }
    if service_name_split(field, n) {
        let pre = field.subrange(0, n);
        assert forall|i: int| 0 <= i < pre.len() implies is_service_name_byte(#[trigger] pre[i]) by {
            assert(pre[i] == field[i]);
        }
        assert(padded_service_name(pre) =~= field);
    }
}

// ---------------------------------------------------------------------------
// The header
// ---------------------------------------------------------------------------

/// The init capsule header.
#[derive(Clone, Copy, Debug, PartialEq, Eq)]
pub struct NovaInitCapsuleHeaderV1 {
    pub magic: u64,
    pub version: u32,
    pub header_size: u32,
    pub total_size: u32,
    pub flags: u32,
    pub requested_capabilities: u64,
    pub endpoint_slots: u32,
    pub shared_memory_regions: u32,
    pub service_name: [u8; 16],
    pub reserved: [u8; 8],
}

/// The little-endian encoding of a header.
pub open spec fn capsule_header_encoding(h: NovaInitCapsuleHeaderV1) -> Seq<u8> {
    le_u64_bytes(h.magic) + le_u32_bytes(h.version) + le_u32_bytes(h.header_size) + le_u32_bytes(h.total_size)
        + le_u32_bytes(h.flags) + le_u64_bytes(h.requested_capabilities) + le_u32_bytes(h.endpoint_slots)
        + le_u32_bytes(h.shared_memory_regions) + h.service_name@ + h.reserved@
}

/// The header fields stored in the first 64 bytes of `b`.
pub open spec fn capsule_header_matches_bytes(h: NovaInitCapsuleHeaderV1, b: Seq<u8>) -> bool {
    &&& b.len() >= 64
    &&& h.magic == le_u64_at(b, 0)
    &&& h.version == le_u32_at(b, 8)
    &&& h.header_size == le_u32_at(b, 12)
    &&& h.total_size == le_u32_at(b, 16)
    &&& h.flags == le_u32_at(b, 20)
    &&& h.requested_capabilities == le_u64_at(b, 24)
    &&& h.endpoint_slots == le_u32_at(b, 32)
    &&& h.shared_memory_regions == le_u32_at(b, 36)
    &&& h.service_name@ == b.subrange(40, 56)
    &&& h.reserved@ == b.subrange(56, 64)
}

/// `b` starts with a valid header whose total size is the length of `b`.
pub open spec fn capsule_structure_ok(b: Seq<u8>) -> bool {
    &&& b.len() >= 64
    &&& le_u64_at(b, 0) == NovaInitCapsuleHeaderV1::MAGIC
    &&& le_u32_at(b, 8) == NovaInitCapsuleHeaderV1::VERSION
    &&& le_u32_at(b, 12) == 64
    &&& le_u32_at(b, 16) >= le_u32_at(b, 12)
    &&& le_u32_at(b, 20) == 0
    &&& le_u64_at(b, 24) & !NOVA_INIT_CAPSULE_KNOWN_CAPABILITIES_V1 == 0
    &&& service_name_valid(b.subrange(40, 56))
    &&& le_u32_at(b, 16) as int == b.len()
}

/// What follows the header.
pub open spec fn capsule_body(b: Seq<u8>) -> Seq<u8> {
    b.subrange(64, b.len() as int)
}

/// `p` is a payload image of a service booted through the bootstrap-task ABI.
pub open spec fn service_payload_accepts(p: Seq<u8>) -> bool {
    &&& payload_accepts(p)
    &&& le_u32_at(p, 12) == NovaPayloadKind::Service.spec_raw()
    &&& le_u32_at(p, 36) == NovaPayloadEntryAbi::BootstrapTaskV1.spec_raw()
}

/// `b` is a capsule that `InitCapsuleImage::parse` accepts: a valid header,
/// and a body that is empty or a bootstrap service payload.
pub open spec fn capsule_accepts(b: Seq<u8>) -> bool {
    &&& capsule_structure_ok(b)
    &&& (capsule_body(b).len() == 0 || service_payload_accepts(capsule_body(b)))
}

impl NovaInitCapsuleHeaderV1 {
    pub const MAGIC: u64 = 0x5449_4E49_4156_4F4E;
    pub const VERSION: u32 = 1;

    pub open spec fn spec_is_valid(&self) -> bool {
        &&& self.magic == Self::MAGIC
        &&& self.version == Self::VERSION
        &&& self.header_size == 64
        &&& self.total_size >= self.header_size
        &&& self.flags == 0
        &&& self.requested_capabilities & !NOVA_INIT_CAPSULE_KNOWN_CAPABILITIES_V1 == 0
        &&& service_name_valid(self.service_name@)
    }

    /// A header-only capsule for the named service and its budget.
    pub fn new(service_name: [u8; 16], requested_capabilities: u64, endpoint_slots: u32, shared_memory_regions: u32) -> (r: Self)
        ensures
            r.magic == Self::MAGIC,
            r.version == Self::VERSION,
            r.header_size == 64,
            r.total_size == 64,
            r.flags == 0,
            r.requested_capabilities == requested_capabilities,
            r.endpoint_slots == endpoint_slots,
            r.shared_memory_regions == shared_memory_regions,
            r.service_name == service_name,
            r.reserved@ == Seq::new(8, |i: int| 0u8),
    {
        let r = NovaInitCapsuleHeaderV1 {
            magic: Self::MAGIC,
            version: Self::VERSION,
            header_size: 64,
            total_size: 64,
            flags: 0,
            requested_capabilities,
            endpoint_slots,
            shared_memory_regions,
            service_name,
            reserved: [0u8; 8],
        };
        assert(r.reserved@ =~= Seq::new(8, |i: int| 0u8));
        r
    }

    /// Magic, version, size, flags, capability bits and name all check out.
    pub fn is_valid(&self) -> (r: bool)
        ensures
            r == self.spec_is_valid(),
    {
        self.magic == Self::MAGIC && self.version == Self::VERSION && self.header_size == 64
            && self.total_size >= self.header_size && self.flags == 0
            && (self.requested_capabilities & !NOVA_INIT_CAPSULE_KNOWN_CAPABILITIES_V1) == 0
            && decode_init_capsule_service_name(&self.service_name).is_some()
    }

    /// Whether the capsule is `image_len` bytes long.
    pub fn matches_image_len(&self, image_len: usize) -> (r: bool)
        ensures
            r == (self.total_size as int == image_len as int),
    {
        self.total_size as u64 == image_len as u64
    }

    /// The 64-byte little-endian encoding of the header.
    pub fn to_bytes(&self) -> (r: Vec<u8>)
        ensures
            r@ == capsule_header_encoding(*self),
            r@.len() == 64,
    {
        let mut out: Vec<u8> = Vec::new();
        push_u64_le(&mut out, self.magic);
        push_u32_le(&mut out, self.version);
        push_u32_le(&mut out, self.header_size);
        push_u32_le(&mut out, self.total_size);
        push_u32_le(&mut out, self.flags);
        push_u64_le(&mut out, self.requested_capabilities);
        push_u32_le(&mut out, self.endpoint_slots);
        push_u32_le(&mut out, self.shared_memory_regions);
        push_bytes(&mut out, &self.service_name);
        push_bytes(&mut out, &self.reserved);
        proof {
            lemma_capsule_header_encoding_len(*self);
        }
        out
    }
}

/// Decodes the header at the start of `bytes`.
pub fn parse_init_capsule_header(bytes: &[u8]) -> (r: Option<NovaInitCapsuleHeaderV1>)
    ensures
        r is Some <==> bytes@.len() >= 64,
        r matches Some(h) ==> capsule_header_matches_bytes(h, bytes@),
{
    if bytes.len() < NOVA_INIT_CAPSULE_HEADER_V1_SIZE {
        return None;
    }
    let name16 = read_array16(bytes, 40);
    let mut reserved = [0u8; 8];
    let mut i: usize = 0;
    while i < 8
        invariant
            0 <= i <= 8,
            bytes@.len() >= 64,
            reserved@.len() == 8,
            forall|j: int| 0 <= j < i ==> reserved@[j] == bytes@[56 + j],
        decreases 8 - i,
    {
        reserved[i] = bytes[56 + i];
        i = i + 1;
    }
    assert(reserved@ =~= bytes@.subrange(56, 64));
    Some(NovaInitCapsuleHeaderV1 {
        magic: read_u64_le(bytes, 0),
        version: read_u32_le(bytes, 8),
        header_size: read_u32_le(bytes, 12),
        total_size: read_u32_le(bytes, 16),
        flags: read_u32_le(bytes, 20),
        requested_capabilities: read_u64_le(bytes, 24),
        endpoint_slots: read_u32_le(bytes, 32),
        shared_memory_regions: read_u32_le(bytes, 36),
        service_name: name16,
        reserved,
    })
}

/// The encoding of a header is 64 bytes long.
pub proof fn lemma_capsule_header_encoding_len(h: NovaInitCapsuleHeaderV1)
    ensures
        capsule_header_encoding(h).len() == 64,
{
    lemma_u64_round_trip(h.magic);
    lemma_u32_round_trip(h.version);
    lemma_u32_round_trip(h.header_size);
    lemma_u32_round_trip(h.total_size);
    lemma_u32_round_trip(h.flags);
    lemma_u64_round_trip(h.requested_capabilities);
    lemma_u32_round_trip(h.endpoint_slots);
    lemma_u32_round_trip(h.shared_memory_regions);
}

/// Bytes that start with the encoding of a header hold that header.
pub proof fn lemma_capsule_header_encoding_decodes(h: NovaInitCapsuleHeaderV1, b: Seq<u8>)
    requires
        b.len() >= 64,
        b.subrange(0, 64) == capsule_header_encoding(h),
    ensures
        capsule_header_encoding(h).len() == 64,
        capsule_header_matches_bytes(h, b),
{
    lemma_u64_round_trip(h.magic);
    lemma_u32_round_trip(h.version);
    lemma_u32_round_trip(h.header_size);
    lemma_u32_round_trip(h.total_size);
    lemma_u32_round_trip(h.flags);
    lemma_u64_round_trip(h.requested_capabilities);
    lemma_u32_round_trip(h.endpoint_slots);
    lemma_u32_round_trip(h.shared_memory_regions);
    let p0 = le_u64_bytes(h.magic);
    let p1 = p0 + le_u32_bytes(h.version);
    let p2 = p1 + le_u32_bytes(h.header_size);
    let p3 = p2 + le_u32_bytes(h.total_size);
    let p4 = p3 + le_u32_bytes(h.flags);
    let p5 = p4 + le_u64_bytes(h.requested_capabilities);
    let p6 = p5 + le_u32_bytes(h.endpoint_slots);
    let p7 = p6 + le_u32_bytes(h.shared_memory_regions);
    let p8 = p7 + h.service_name@;
    let enc = capsule_header_encoding(h);
    assert(enc == p8 + h.reserved@);
    assert(enc.len() == 64);
    let b64 = b.subrange(0, 64);
    assert(b64.subrange(0, 64) =~= enc);
    assert(enc.subrange(0, 8) =~= p0);
    lemma_u64_field(b, enc, 0, h.magic);
    assert(enc.subrange(8, 12) =~= le_u32_bytes(h.version));
    lemma_u32_field(b, enc, 8, h.version);
    assert(enc.subrange(12, 16) =~= le_u32_bytes(h.header_size));
    lemma_u32_field(b, enc, 12, h.header_size);
    assert(enc.subrange(16, 20) =~= le_u32_bytes(h.total_size));
    lemma_u32_field(b, enc, 16, h.total_size);
    assert(enc.subrange(20, 24) =~= le_u32_bytes(h.flags));
    lemma_u32_field(b, enc, 20, h.flags);
    assert(enc.subrange(24, 32) =~= le_u64_bytes(h.requested_capabilities));
    lemma_u64_field(b, enc, 24, h.requested_capabilities);
    assert(enc.subrange(32, 36) =~= le_u32_bytes(h.endpoint_slots));
    lemma_u32_field(b, enc, 32, h.endpoint_slots);
    assert(enc.subrange(36, 40) =~= le_u32_bytes(h.shared_memory_regions));
    lemma_u32_field(b, enc, 36, h.shared_memory_regions);
    assert(b.subrange(40, 56) =~= h.service_name@) by {
        assert(b.subrange(40, 56) =~= enc.subrange(40, 56));
        assert(enc.subrange(40, 56) =~= h.service_name@);
    }
    assert(b.subrange(56, 64) =~= h.reserved@) by {
        assert(b.subrange(56, 64) =~= enc.subrange(56, 64));
        assert(enc.subrange(56, 64) =~= h.reserved@);
    }
}

// ---------------------------------------------------------------------------
// The image
// ---------------------------------------------------------------------------

/// A parsed init capsule borrowed from its bytes.
#[derive(Clone, Copy, Debug, PartialEq, Eq)]
pub struct InitCapsuleImage<'a> {
    header: NovaInitCapsuleHeaderV1,
    bytes: &'a [u8],
}

impl<'a> InitCapsuleImage<'a> {
    /// The header the capsule was parsed with.
    pub closed spec fn header_spec(&self) -> NovaInitCapsuleHeaderV1 {
        self.header
    }

    /// The bytes of the whole capsule.
    pub closed spec fn bytes_spec(&self) -> Seq<u8> {
        self.bytes@
    }

    /// The capsule's header is the valid header at the start of its bytes,
    /// which the parser accepts.
    pub open spec fn wf(&self) -> bool {
        &&& capsule_header_matches_bytes(self.header_spec(), self.bytes_spec())
        &&& capsule_accepts(self.bytes_spec())
        &&& self.header_spec().spec_is_valid()
    }

    /// Parses a capsule: a valid header whose total size is the byte length,
    /// and a body that is empty or a bootstrap service payload.
    pub fn parse(bytes: &'a [u8]) -> (r: Option<Self>)
        ensures
            r is Some <==> capsule_accepts(bytes@),
            r matches Some(img) ==> img.wf() && img.bytes_spec() == bytes@,
    {
        let header = match parse_init_capsule_header(bytes) {
            Some(h) => h,
            None => return None,
        };
        if !header.is_valid() || !header.matches_image_len(bytes.len()) {
            return None;
        }
        let image = InitCapsuleImage { header, bytes };
        if image.has_valid_body() {
            Some(image)
        } else {
            None
        }
    }

    /// The header.
    pub fn header(&self) -> (r: NovaInitCapsuleHeaderV1)
        ensures
            r == self.header_spec(),
    {
        self.header
    }

    /// The service name the capsule carries.
    pub fn service_name(&self) -> (r: &str)
        requires
            self.wf(),
        ensures
            service_name_split(self.header_spec().service_name@, r.spec_bytes().len() as int),
            r.spec_bytes() == self.header_spec().service_name@.subrange(0, r.spec_bytes().len() as int),
    {
        match decode_init_capsule_service_name(&self.header.service_name) {
            Some(name) => name,
            None => "",
        }
    }

    /// The capability bits the service asks for.
    pub fn requested_capabilities(&self) -> (r: u64)
        ensures
            r == self.header_spec().requested_capabilities,
    {
        self.header.requested_capabilities
    }

    /// How many endpoint slots the service asks for.
    pub fn endpoint_slots(&self) -> (r: u32)
        ensures
            r == self.header_spec().endpoint_slots,
    {
        self.header.endpoint_slots
    }

    /// How many shared-memory regions the service asks for.
    pub fn shared_memory_regions(&self) -> (r: u32)
        ensures
            r == self.header_spec().shared_memory_regions,
    {
        self.header.shared_memory_regions
    }

    /// What follows the header.
    pub fn body(&self) -> (r: &'a [u8])
        requires
            self.wf(),
        ensures
            r@ == capsule_body(self.bytes_spec()),
    {
        vstd::slice::slice_subrange(self.bytes, 64, self.bytes.len())
    }

    /// The embedded bootstrap service payload, where the body is not empty.
    pub fn bootstrap_service_payload(&self) -> (r: Option<PayloadImage<'a>>)
        requires
            self.wf(),
        ensures
            r is Some <==> capsule_body(self.bytes_spec()).len() != 0,
            r matches Some(p) ==> p.wf() && p.bytes_spec() == capsule_body(self.bytes_spec())
                && p.header_spec().kind == NovaPayloadKind::Service
                && p.header_spec().entry_abi == NovaPayloadEntryAbi::BootstrapTaskV1,
    {
        let body = self.body();
        if body.len() == 0 {
            return None;
        }
        PayloadImage::parse_kind_abi(body, NovaPayloadKind::Service, NovaPayloadEntryAbi::BootstrapTaskV1)
    }

    fn has_valid_body(&self) -> (r: bool)
        requires
            capsule_header_matches_bytes(self.header, self.bytes@),
            self.header.spec_is_valid(),
            self.header.total_size as int == self.bytes@.len(),
        ensures
            r == capsule_accepts(self.bytes@),
    {
        let body = vstd::slice::slice_subrange(self.bytes, 64, self.bytes.len());
        if body.len() == 0 {
            return true;
        }
        PayloadImage::parse_kind_abi(body, NovaPayloadKind::Service, NovaPayloadEntryAbi::BootstrapTaskV1).is_some()
    }
}

/// What parsing gives back of a write: bytes that start with the encoding of
/// a valid header whose total size is their length, followed by an empty body
/// or a bootstrap service payload, form a capsule that the parser accepts with
/// that header.
pub proof fn lemma_capsule_round_trip(h: NovaInitCapsuleHeaderV1, b: Seq<u8>)
    requires
        h.spec_is_valid(),
        h.total_size as int == b.len(),
        b.len() >= 64,
        b.subrange(0, 64) == capsule_header_encoding(h),
        b.len() == 64 || service_payload_accepts(b.subrange(64, b.len() as int)),
    ensures
        capsule_accepts(b),
        capsule_header_matches_bytes(h, b),
{
    lemma_capsule_header_encoding_decodes(h, b);
}

} // verus!
