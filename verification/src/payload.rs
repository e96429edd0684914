//! Nova Payload v1: the typed wrapper around `stage1.bin`, `kernel.bin` and
//! bootstrap service images.  An image is an 88-byte little-endian header,
//! optional padding and a flat binary body whose SHA-256 the header carries.
use vstd::prelude::*;
use crate::bytes::{
    le_u32_at, le_u32_bytes, le_u64_at, le_u64_bytes, lemma_u32_round_trip, lemma_u64_round_trip,
    push_bytes, push_u32_le, push_u64_le, read_array32, read_u32_le, read_u64_le,
};
use crate::digest::{NovaDigestAlgorithm, NovaImageDigestV1, sha256_spec, sha256_digest_bytes, digest_bytes_equal};

verus! {

/// Encoded size of `NovaPayloadHeaderV1`.
pub const NOVA_PAYLOAD_HEADER_V1_SIZE: usize = 88;
/// Magic value of `NovaPayloadHeaderV1`.
pub const NOVA_PAYLOAD_MAGIC: u64 = 0x3159_4150_4156_4F4E;

/// What a payload image carries.
#[derive(Clone, Copy, Debug, PartialEq, Eq, Structural)]
pub enum NovaPayloadKind {
    Stage1,
    Kernel,
    Service,
}

impl NovaPayloadKind {
    pub open spec fn spec_raw(self) -> u32 {
        match self {
            NovaPayloadKind::Stage1 => 1,
            NovaPayloadKind::Kernel => 2,
            NovaPayloadKind::Service => 3,
        }
    }

    /// The ABI value of the kind.
    pub fn as_raw(self) -> (r: u32)
        ensures
            r == self.spec_raw(),
    {
        match self {
            NovaPayloadKind::Stage1 => 1,
            NovaPayloadKind::Kernel => 2,
            NovaPayloadKind::Service => 3,
        }
    }

    pub open spec fn spec_from_raw(raw: u32) -> Option<NovaPayloadKind> {
        if raw == 1 {
            Some(NovaPayloadKind::Stage1)
        } else if raw == 2 {
            Some(NovaPayloadKind::Kernel)
        } else if raw == 3 {
            Some(NovaPayloadKind::Service)
        } else {
            None
        }
    }

    /// Decodes an ABI value.
    pub fn from_raw(raw: u32) -> (r: Option<NovaPayloadKind>)
        ensures
            r == Self::spec_from_raw(raw),
    {
        if raw == 1 {
            Some(NovaPayloadKind::Stage1)
        } else if raw == 2 {
            Some(NovaPayloadKind::Kernel)
        } else if raw == 3 {
            Some(NovaPayloadKind::Service)
        } else {
            None
        }
    }
}

/// The entry ABI a payload expects.
#[derive(Clone, Copy, Debug, PartialEq, Eq, Structural)]
pub enum NovaPayloadEntryAbi {
    Stage1Plan,
    BootInfo,
    BootInfoV2Sidecar,
    BootstrapTaskV1,
}

impl NovaPayloadEntryAbi {
    pub open spec fn spec_raw(self) -> u32 {
        match self {
            NovaPayloadEntryAbi::Stage1Plan => 1,
            NovaPayloadEntryAbi::BootInfo => 2,
            NovaPayloadEntryAbi::BootInfoV2Sidecar => 3,
            NovaPayloadEntryAbi::BootstrapTaskV1 => 4,
        }
    }

    /// The ABI value of the entry ABI.
    pub fn as_raw(self) -> (r: u32)
        ensures
            r == self.spec_raw(),
    {
        match self {
            NovaPayloadEntryAbi::Stage1Plan => 1,
            NovaPayloadEntryAbi::BootInfo => 2,
            NovaPayloadEntryAbi::BootInfoV2Sidecar => 3,
            NovaPayloadEntryAbi::BootstrapTaskV1 => 4,
        }
    }

    pub open spec fn spec_from_raw(raw: u32) -> Option<NovaPayloadEntryAbi> {
        if raw == 1 {
            Some(NovaPayloadEntryAbi::Stage1Plan)
        } else if raw == 2 {
            Some(NovaPayloadEntryAbi::BootInfo)
        } else if raw == 3 {
            Some(NovaPayloadEntryAbi::BootInfoV2Sidecar)
        } else if raw == 4 {
            Some(NovaPayloadEntryAbi::BootstrapTaskV1)
        } else {
            None
        }
    }

    /// Decodes an ABI value.
    pub fn from_raw(raw: u32) -> (r: Option<NovaPayloadEntryAbi>)
        ensures
            r == Self::spec_from_raw(raw),
    {
        if raw == 1 {
            Some(NovaPayloadEntryAbi::Stage1Plan)
        } else if raw == 2 {
            Some(NovaPayloadEntryAbi::BootInfo)
        } else if raw == 3 {
            Some(NovaPayloadEntryAbi::BootInfoV2Sidecar)
        } else if raw == 4 {
            Some(NovaPayloadEntryAbi::BootstrapTaskV1)
        } else {
            None
        }
    }
}

/// How the loader places the body.
#[derive(Clone, Copy, Debug, PartialEq, Eq, Structural)]
pub enum NovaPayloadLoadMode {
    FlatBinary,
}

impl NovaPayloadLoadMode {
    pub open spec fn spec_raw(self) -> u32 {
        1
    }

    /// The ABI value of the load mode.
    pub fn as_raw(self) -> (r: u32)
        ensures
            r == self.spec_raw(),
    {
        1
    }

    pub open spec fn spec_from_raw(raw: u32) -> Option<NovaPayloadLoadMode> {
        if raw == 1 {
            Some(NovaPayloadLoadMode::FlatBinary)
        } else {
            None
        }
    }

    /// Decodes an ABI value.
    pub fn from_raw(raw: u32) -> (r: Option<NovaPayloadLoadMode>)
        ensures
            r == Self::spec_from_raw(raw),
    {
        if raw == 1 {
            Some(NovaPayloadLoadMode::FlatBinary)
        } else {
            None
        }
    }
}

/// The typed payload header.
#[derive(Clone, Copy, Debug, PartialEq, Eq)]
pub struct NovaPayloadHeaderV1 {
    pub magic: u64,
    pub version: u32,
    pub kind: NovaPayloadKind,
    pub header_size: u32,
    pub image_size: u32,
    pub load_offset: u32,
    pub load_size: u32,
    pub entry_offset: u32,
    pub entry_abi: NovaPayloadEntryAbi,
    pub load_mode: NovaPayloadLoadMode,
    pub flags: u32,
    pub body_digest_algorithm: NovaDigestAlgorithm,
    pub body_digest_len: u32,
    pub body_digest: [u8; 32],
}

/// The header fields stored in the first 88 bytes of `b` (little-endian).
pub open spec fn header_matches_bytes(h: NovaPayloadHeaderV1, b: Seq<u8>) -> bool {
    &&& b.len() >= 88
    &&& h.magic == le_u64_at(b, 0)
    &&& h.version == le_u32_at(b, 8)
    &&& h.kind.spec_raw() == le_u32_at(b, 12)
    &&& h.header_size == le_u32_at(b, 16)
    &&& h.image_size == le_u32_at(b, 20)
    &&& h.load_offset == le_u32_at(b, 24)
    &&& h.load_size == le_u32_at(b, 28)
    &&& h.entry_offset == le_u32_at(b, 32)
    &&& h.entry_abi.spec_raw() == le_u32_at(b, 36)
    &&& h.load_mode.spec_raw() == le_u32_at(b, 40)
    &&& h.flags == le_u32_at(b, 44)
    &&& h.body_digest_algorithm.spec_raw() == le_u32_at(b, 48)
    &&& h.body_digest_len == le_u32_at(b, 52)
    &&& h.body_digest@ == b.subrange(56, 88)
}

/// Field-level validity of the raw header in the first 88 bytes of `b`:
/// magic, version and size, a load window inside the image whose entry lies
/// in the loaded body, no flags, a SHA-256 body digest, and known kind, entry
/// ABI and load mode.
pub open spec fn raw_header_valid(b: Seq<u8>) -> bool {
    let header_size = le_u32_at(b, 16);
    let image_size = le_u32_at(b, 20);
    let load_offset = le_u32_at(b, 24);
    let load_size = le_u32_at(b, 28);
    let entry_offset = le_u32_at(b, 32);
    &&& b.len() >= 88
    &&& le_u64_at(b, 0) == NOVA_PAYLOAD_MAGIC
    &&& le_u32_at(b, 8) == 1
    &&& header_size == 88
    &&& image_size >= header_size
    &&& le_u32_at(b, 40) == 1
    &&& load_offset >= header_size
    &&& load_size as int == image_size - load_offset
    &&& entry_offset >= load_offset
    &&& (entry_offset as int) < load_offset + load_size
    &&& le_u32_at(b, 44) == 0
    &&& le_u32_at(b, 48) == 1
    &&& le_u32_at(b, 52) == 32
    &&& 1 <= le_u32_at(b, 12) <= 3
    &&& 1 <= le_u32_at(b, 36) <= 4
}

/// `b` holds a structurally valid payload image: a valid header whose image
/// size is the length of `b`.
pub open spec fn payload_structure_ok(b: Seq<u8>) -> bool {
    &&& raw_header_valid(b)
    &&& le_u32_at(b, 20) as int == b.len()
}

/// The loaded body of a structurally valid image.
pub open spec fn payload_body(b: Seq<u8>) -> Seq<u8> {
    b.subrange(le_u32_at(b, 24) as int, le_u32_at(b, 24) + le_u32_at(b, 28))
}

/// `b` is an image that `PayloadImage::parse` accepts: structurally valid and
/// carrying the SHA-256 of its body.
pub open spec fn payload_accepts(b: Seq<u8>) -> bool {
    &&& payload_structure_ok(b)
    &&& sha256_spec(payload_body(b)) == b.subrange(56, 88)
}

/// The little-endian encoding of a header.
pub open spec fn header_encoding(h: NovaPayloadHeaderV1) -> Seq<u8> {
    le_u64_bytes(h.magic) + le_u32_bytes(h.version) + le_u32_bytes(h.kind.spec_raw())
        + le_u32_bytes(h.header_size) + le_u32_bytes(h.image_size) + le_u32_bytes(h.load_offset)
        + le_u32_bytes(h.load_size) + le_u32_bytes(h.entry_offset) + le_u32_bytes(
        h.entry_abi.spec_raw(),
    ) + le_u32_bytes(h.load_mode.spec_raw()) + le_u32_bytes(h.flags) + le_u32_bytes(
        h.body_digest_algorithm.spec_raw(),
    ) + le_u32_bytes(h.body_digest_len) + h.body_digest@
}

impl NovaPayloadHeaderV1 {
    pub const MAGIC: u64 = 0x3159_4150_4156_4F4E;
    pub const VERSION: u32 = 1;

    /// A flat-binary header whose body starts right after the header.
    pub fn new_flat_binary(
        kind: NovaPayloadKind,
        entry_abi: NovaPayloadEntryAbi,
        image_size: u32,
        body_digest: [u8; 32],
    ) -> (r: Self)
        requires
            image_size >= 88,
        ensures
            r == Self::spec_new(kind, entry_abi, image_size, 88, 88, body_digest),
    {
        Self::new_flat_binary_with_offsets(kind, entry_abi, image_size, 88, 88, body_digest)
    }

    pub open spec fn spec_new(
        kind: NovaPayloadKind,
        entry_abi: NovaPayloadEntryAbi,
        image_size: u32,
        load_offset: u32,
        entry_offset: u32,
        body_digest: [u8; 32],
    ) -> Self {
        NovaPayloadHeaderV1 {
            magic: NOVA_PAYLOAD_MAGIC,
            version: 1,
            kind,
            header_size: 88,
            image_size,
            load_offset,
            load_size: (image_size - load_offset) as u32,
            entry_offset,
            entry_abi,
            load_mode: NovaPayloadLoadMode::FlatBinary,
            flags: 0,
            body_digest_algorithm: NovaDigestAlgorithm::Sha256,
            body_digest_len: 32,
            body_digest,
        }
    }

    /// A flat-binary header with an explicit load offset (for padded bodies)
    /// and entry offset.
    pub fn new_flat_binary_with_offsets(
        kind: NovaPayloadKind,
        entry_abi: NovaPayloadEntryAbi,
        image_size: u32,
        load_offset: u32,
        entry_offset: u32,
        body_digest: [u8; 32],
    ) -> (r: Self)
        requires
            load_offset <= image_size,
        ensures
            r == Self::spec_new(kind, entry_abi, image_size, load_offset, entry_offset, body_digest),
    {
        NovaPayloadHeaderV1 {
            magic: NOVA_PAYLOAD_MAGIC,
            version: 1,
            kind,
            header_size: 88,
            image_size,
            load_offset,
            load_size: image_size - load_offset,
            entry_offset,
            entry_abi,
            load_mode: NovaPayloadLoadMode::FlatBinary,
            flags: 0,
            body_digest_algorithm: NovaDigestAlgorithm::Sha256,
            body_digest_len: 32,
            body_digest,
        }
    }

    /// Header validity: magic, version and size, a load window inside the
    /// image whose entry lies in the loaded body, and a 32-byte digest.
    pub open spec fn spec_is_valid(&self) -> bool {
        &&& self.magic == NOVA_PAYLOAD_MAGIC
        &&& self.version == 1
        &&& self.header_size == 88
        &&& self.image_size >= self.header_size
        &&& self.load_offset >= self.header_size
        &&& self.load_size as int == self.image_size - self.load_offset
        &&& self.entry_offset >= self.load_offset
        &&& (self.entry_offset as int) < self.load_offset + self.load_size
        &&& self.body_digest_len == 32
    }

    pub fn is_valid(&self) -> (r: bool)
        ensures
            r == self.spec_is_valid(),
    {
        self.magic == NOVA_PAYLOAD_MAGIC && self.version == 1 && self.header_size == 88
            && self.image_size >= self.header_size && self.load_offset >= self.header_size
            && self.load_offset <= self.image_size && self.load_size == self.image_size
            - self.load_offset && self.entry_offset >= self.load_offset && (self.entry_offset
            as u64) < (self.load_offset as u64) + (self.load_size as u64) && self.body_digest_len
            == 32
    }

    pub fn matches_image_len(&self, image_len: usize) -> (r: bool)
        ensures
            r == (self.image_size as int == image_len as int),
    {
        self.image_size as u64 == image_len as u64
    }

    /// The 88-byte little-endian encoding of the header.
    pub fn to_bytes(&self) -> (r: Vec<u8>)
        ensures
            r@ == header_encoding(*self),
            r@.len() == 88,
    {
        let mut out: Vec<u8> = Vec::new();
        push_u64_le(&mut out, self.magic);
        push_u32_le(&mut out, self.version);
        push_u32_le(&mut out, self.kind.as_raw());
        push_u32_le(&mut out, self.header_size);
        push_u32_le(&mut out, self.image_size);
        push_u32_le(&mut out, self.load_offset);
        push_u32_le(&mut out, self.load_size);
        push_u32_le(&mut out, self.entry_offset);
        push_u32_le(&mut out, self.entry_abi.as_raw());
        push_u32_le(&mut out, self.load_mode.as_raw());
        push_u32_le(&mut out, self.flags);
        push_u32_le(&mut out, self.body_digest_algorithm.as_raw());
        push_u32_le(&mut out, self.body_digest_len);
        push_bytes(&mut out, &self.body_digest);
        proof {
            lemma_header_encoding_len(*self);
        }
        out
    }
}

/// The encoding of a header is 88 bytes long.
pub proof fn lemma_header_encoding_len(h: NovaPayloadHeaderV1)
    ensures
        header_encoding(h).len() == 88,
{
    lemma_u64_round_trip(h.magic);
    lemma_u32_round_trip(h.version);
    lemma_u32_round_trip(h.kind.spec_raw());
    lemma_u32_round_trip(h.header_size);
    lemma_u32_round_trip(h.image_size);
    lemma_u32_round_trip(h.load_offset);
    lemma_u32_round_trip(h.load_size);
    lemma_u32_round_trip(h.entry_offset);
    lemma_u32_round_trip(h.entry_abi.spec_raw());
    lemma_u32_round_trip(h.load_mode.spec_raw());
    lemma_u32_round_trip(h.flags);
    lemma_u32_round_trip(h.body_digest_algorithm.spec_raw());
    lemma_u32_round_trip(h.body_digest_len);
}


/// Reads and checks the raw header at the start of `bytes`, then decodes its
/// kind, entry ABI, load mode and digest algorithm.
pub fn parse_payload_header(bytes: &[u8]) -> (r: Option<NovaPayloadHeaderV1>)
    ensures
        r is Some <==> raw_header_valid(bytes@),
        r matches Some(h) ==> header_matches_bytes(h, bytes@) && h.spec_is_valid(),
{
    if bytes.len() < 88 {
        return None;
    }
    let magic = read_u64_le(bytes, 0);
    let version = read_u32_le(bytes, 8);
    let kind_raw = read_u32_le(bytes, 12);
    let header_size = read_u32_le(bytes, 16);
    let image_size = read_u32_le(bytes, 20);
    let load_offset = read_u32_le(bytes, 24);
    let load_size = read_u32_le(bytes, 28);
    let entry_offset = read_u32_le(bytes, 32);
    let entry_abi_raw = read_u32_le(bytes, 36);
    let load_mode_raw = read_u32_le(bytes, 40);
    let flags = read_u32_le(bytes, 44);
    let algorithm_raw = read_u32_le(bytes, 48);
    let digest_len = read_u32_le(bytes, 52);
    if !(magic == NOVA_PAYLOAD_MAGIC && version == 1 && header_size == 88
        && image_size >= header_size && load_mode_raw == 1 && load_offset >= header_size
        && load_offset <= image_size && load_size == image_size - load_offset && entry_offset
        >= load_offset && (entry_offset as u64) < (load_offset as u64) + (load_size as u64)
        && flags == 0 && algorithm_raw == 1 && digest_len == 32) {
        return None;
    }
    let kind = match NovaPayloadKind::from_raw(kind_raw) {
        Some(kind) => kind,
        None => return None,
    };
    let entry_abi = match NovaPayloadEntryAbi::from_raw(entry_abi_raw) {
        Some(entry_abi) => entry_abi,
        None => return None,
    };
    let body_digest = read_array32(bytes, 56);
    Some(
        NovaPayloadHeaderV1 {
            magic,
            version,
            kind,
            header_size,
            image_size,
            load_offset,
            load_size,
            entry_offset,
            entry_abi,
            load_mode: NovaPayloadLoadMode::FlatBinary,
            flags,
            body_digest_algorithm: NovaDigestAlgorithm::Sha256,
            body_digest_len: digest_len,
            body_digest,
        },
    )
}

/// A parsed and digest-checked payload image borrowed from its bytes.
#[derive(Clone, Copy, Debug, PartialEq, Eq)]
pub struct PayloadImage<'a> {
    header: NovaPayloadHeaderV1,
    bytes: &'a [u8],
}

impl<'a> PayloadImage<'a> {
    /// The header the image was parsed with.
    pub closed spec fn header_spec(&self) -> NovaPayloadHeaderV1 {
        self.header
    }

    /// The bytes of the whole image.
    pub closed spec fn bytes_spec(&self) -> Seq<u8> {
        self.bytes@
    }

    /// The image's header is the valid header encoded at the start of its
    /// bytes, and its image size is the length of the bytes.
    pub open spec fn wf(&self) -> bool {
        &&& header_matches_bytes(self.header_spec(), self.bytes_spec())
        &&& payload_structure_ok(self.bytes_spec())
        &&& self.header_spec().spec_is_valid()
    }

    /// Parses a structurally valid image without checking the body digest.
    pub fn parse_structure(bytes: &'a [u8]) -> (r: Option<Self>)
        ensures
            r is Some <==> payload_structure_ok(bytes@),
            r matches Some(img) ==> img.wf() && img.bytes_spec() == bytes@,
    {
        let header = match parse_payload_header(bytes) {
            Some(header) => header,
            None => return None,
        };
        if !header.matches_image_len(bytes.len()) {
            return None;
        }
        Some(PayloadImage { header, bytes })
    }

    /// Parses an image: a valid header, an image size equal to the byte
    /// length, and a body whose SHA-256 matches the header's digest.
    pub fn parse(bytes: &'a [u8]) -> (r: Option<Self>)
        ensures
            r is Some <==> payload_accepts(bytes@),
            r matches Some(img) ==> img.wf() && img.bytes_spec() == bytes@,
    {
        let image = match Self::parse_structure(bytes) {
            Some(image) => image,
            None => return None,
        };
        if image.body_digest_matches() {
            Some(image)
        } else {
            None
        }
    }

    /// Parses an image of the given kind.
    pub fn parse_kind(bytes: &'a [u8], kind: NovaPayloadKind) -> (r: Option<Self>)
        ensures
            r is Some <==> (payload_accepts(bytes@) && le_u32_at(bytes@, 12) == kind.spec_raw()),
            r matches Some(img) ==> img.wf() && img.bytes_spec() == bytes@ && img.header_spec().kind
                == kind,
    {
        let image = match Self::parse(bytes) {
            Some(image) => image,
            None => return None,
        };
        if image.kind() == kind {
            Some(image)
        } else {
            None
        }
    }

    /// Parses an image of the given kind and entry ABI.
    pub fn parse_kind_abi(
        bytes: &'a [u8],
        kind: NovaPayloadKind,
        entry_abi: NovaPayloadEntryAbi,
    ) -> (r: Option<Self>)
        ensures
            r is Some <==> (payload_accepts(bytes@) && le_u32_at(bytes@, 12) == kind.spec_raw()
                && le_u32_at(bytes@, 36) == entry_abi.spec_raw()),
            r matches Some(img) ==> img.wf() && img.bytes_spec() == bytes@ && img.header_spec().kind
                == kind && img.header_spec().entry_abi == entry_abi,
    {
        let image = match Self::parse_kind(bytes, kind) {
            Some(image) => image,
            None => return None,
        };
        if image.entry_abi() == entry_abi {
            Some(image)
        } else {
            None
        }
    }

    pub fn header(&self) -> (r: NovaPayloadHeaderV1)
        ensures
            r == self.header_spec(),
    {
        self.header
    }

    pub fn kind(&self) -> (r: NovaPayloadKind)
        ensures
            r == self.header_spec().kind,
    {
        self.header.kind
    }

    pub fn entry_abi(&self) -> (r: NovaPayloadEntryAbi)
        ensures
            r == self.header_spec().entry_abi,
    {
        self.header.entry_abi
    }

    pub fn load_mode(&self) -> (r: NovaPayloadLoadMode)
        ensures
            r == self.header_spec().load_mode,
    {
        self.header.load_mode
    }

    /// The loaded body.
    pub fn body(&self) -> (r: &'a [u8])
        requires
            self.wf(),
        ensures
            r@ == payload_body(self.bytes_spec()),
    {
        self.load_bytes()
    }

    /// The whole image.
    pub fn image_bytes(&self) -> (r: &'a [u8])
        ensures
            r@ == self.bytes_spec(),
    {
        self.bytes
    }

    /// Where the entry point lands when the image sits at `image_base`.
    pub fn entry_addr(&self, image_base: u64) -> (r: u64)
        requires
            image_base + self.header_spec().entry_offset <= u64::MAX,
        ensures
            r == image_base + self.header_spec().entry_offset,
    {
        image_base + self.header.entry_offset as u64
    }

    /// Where the body lands when the image sits at `image_base`.
    pub fn load_base(&self, image_base: u64) -> (r: u64)
        requires
            image_base + self.header_spec().load_offset <= u64::MAX,
        ensures
            r == image_base + self.header_spec().load_offset,
    {
        image_base + self.header.load_offset as u64
    }

    pub fn load_size(&self) -> (r: u64)
        ensures
            r == self.header_spec().load_size,
    {
        self.header.load_size as u64
    }

    /// The loaded body.
    pub fn load_bytes(&self) -> (r: &'a [u8])
        requires
            self.wf(),
        ensures
            r@ == payload_body(self.bytes_spec()),
    {
        let start = self.header.load_offset as usize;
        let end = start + self.header.load_size as usize;
        vstd::slice::slice_subrange(self.bytes, start, end)
    }

    /// Whether the body's SHA-256 equals the header's body digest.
    pub fn body_digest_matches(&self) -> (r: bool)
        requires
            self.wf(),
        ensures
            r == (sha256_spec(payload_body(self.bytes_spec())) == self.header_spec().body_digest@),
    {
        let computed = sha256_digest_bytes(self.load_bytes());
        digest_bytes_equal(&computed, &self.header.body_digest)
    }

    /// Whether `digest` is a valid record holding the SHA-256 of the whole image.
    pub fn image_digest_matches(&self, digest: &NovaImageDigestV1) -> (r: bool)
        ensures
            r == (digest.spec_is_valid() && sha256_spec(self.bytes_spec()) == digest.bytes@),
    {
        if !digest.is_valid() {
            return false;
        }
        let computed = sha256_digest_bytes(self.bytes);
        digest_bytes_equal(&computed, &digest.bytes)
    }
}


proof fn lemma_field_u32(b: Seq<u8>, enc: Seq<u8>, off: int, x: u32)
    requires
        enc.len() == 88,
        b.len() >= 88,
        b.subrange(0, 88) == enc,
        0 <= off,
        off + 4 <= 88,
        enc.subrange(off, off + 4) == le_u32_bytes(x),
    ensures
        le_u32_at(b, off) == x,
{
    assert(b.subrange(off, off + 4) =~= enc.subrange(off, off + 4));
    lemma_u32_round_trip(x);
}

proof fn lemma_field_u64(b: Seq<u8>, enc: Seq<u8>, x: u64)
    requires
        enc.len() == 88,
        b.len() >= 88,
        b.subrange(0, 88) == enc,
        enc.subrange(0, 8) == le_u64_bytes(x),
    ensures
        le_u64_at(b, 0) == x,
{
    assert(b.subrange(0, 8) =~= enc.subrange(0, 8));
    lemma_u64_round_trip(x);
}

/// Decoding gives back what encoding wrote: bytes that start with the
/// encoding of a header hold exactly that header's fields.
pub proof fn lemma_header_encoding_decodes(h: NovaPayloadHeaderV1, b: Seq<u8>)
    requires
        b.len() >= 88,
        b.subrange(0, 88) == header_encoding(h),
    ensures
        header_matches_bytes(h, b),
{
    let enc = header_encoding(h);
    lemma_header_encoding_len(h);
    lemma_u64_round_trip(h.magic);
    lemma_u32_round_trip(h.version);
    lemma_u32_round_trip(h.kind.spec_raw());
    lemma_u32_round_trip(h.header_size);
    lemma_u32_round_trip(h.image_size);
    lemma_u32_round_trip(h.load_offset);
    lemma_u32_round_trip(h.load_size);
    lemma_u32_round_trip(h.entry_offset);
    lemma_u32_round_trip(h.entry_abi.spec_raw());
    lemma_u32_round_trip(h.load_mode.spec_raw());
    lemma_u32_round_trip(h.flags);
    lemma_u32_round_trip(h.body_digest_algorithm.spec_raw());
    lemma_u32_round_trip(h.body_digest_len);
    let p0 = le_u64_bytes(h.magic);
    let p1 = p0 + le_u32_bytes(h.version);
    let p2 = p1 + le_u32_bytes(h.kind.spec_raw());
    let p3 = p2 + le_u32_bytes(h.header_size);
    let p4 = p3 + le_u32_bytes(h.image_size);
    let p5 = p4 + le_u32_bytes(h.load_offset);
    let p6 = p5 + le_u32_bytes(h.load_size);
    let p7 = p6 + le_u32_bytes(h.entry_offset);
    let p8 = p7 + le_u32_bytes(h.entry_abi.spec_raw());
    let p9 = p8 + le_u32_bytes(h.load_mode.spec_raw());
    let p10 = p9 + le_u32_bytes(h.flags);
    let p11 = p10 + le_u32_bytes(h.body_digest_algorithm.spec_raw());
    let p12 = p11 + le_u32_bytes(h.body_digest_len);
    assert(enc == p12 + h.body_digest@);
    assert(p0.len() == 8);
    assert(p1.len() == 12);
    assert(p2.len() == 16);
    assert(p3.len() == 20);
    assert(p4.len() == 24);
    assert(p5.len() == 28);
    assert(p6.len() == 32);
    assert(p7.len() == 36);
    assert(p8.len() == 40);
    assert(p9.len() == 44);
    assert(p10.len() == 48);
    assert(p11.len() == 52);
    assert(p12.len() == 56);
    assert(enc.subrange(56, 88) =~= h.body_digest@);
    assert(b.subrange(56, 88) =~= enc.subrange(56, 88));
    assert(enc.subrange(52, 56) =~= le_u32_bytes(h.body_digest_len));
    lemma_field_u32(b, enc, 52, h.body_digest_len);
    assert(enc.subrange(48, 52) =~= le_u32_bytes(h.body_digest_algorithm.spec_raw()));
    lemma_field_u32(b, enc, 48, h.body_digest_algorithm.spec_raw());
    assert(enc.subrange(44, 48) =~= le_u32_bytes(h.flags));
    lemma_field_u32(b, enc, 44, h.flags);
    assert(enc.subrange(40, 44) =~= le_u32_bytes(h.load_mode.spec_raw()));
    lemma_field_u32(b, enc, 40, h.load_mode.spec_raw());
    assert(enc.subrange(36, 40) =~= le_u32_bytes(h.entry_abi.spec_raw()));
    lemma_field_u32(b, enc, 36, h.entry_abi.spec_raw());
    assert(enc.subrange(32, 36) =~= le_u32_bytes(h.entry_offset));
    lemma_field_u32(b, enc, 32, h.entry_offset);
    assert(enc.subrange(28, 32) =~= le_u32_bytes(h.load_size));
    lemma_field_u32(b, enc, 28, h.load_size);
    assert(enc.subrange(24, 28) =~= le_u32_bytes(h.load_offset));
    lemma_field_u32(b, enc, 24, h.load_offset);
    assert(enc.subrange(20, 24) =~= le_u32_bytes(h.image_size));
    lemma_field_u32(b, enc, 20, h.image_size);
    assert(enc.subrange(16, 20) =~= le_u32_bytes(h.header_size));
    lemma_field_u32(b, enc, 16, h.header_size);
    assert(enc.subrange(12, 16) =~= le_u32_bytes(h.kind.spec_raw()));
    lemma_field_u32(b, enc, 12, h.kind.spec_raw());
    assert(enc.subrange(8, 12) =~= le_u32_bytes(h.version));
    lemma_field_u32(b, enc, 8, h.version);
    assert(enc.subrange(0, 8) =~= le_u64_bytes(h.magic));
    lemma_field_u64(b, enc, h.magic);
}

/// What parsing gives back of a write: an image made of the encoding of a
/// valid header whose image size is the image length, followed by anything,
/// is structurally valid and decodes to that header; when the header's digest
/// is the SHA-256 of the loaded body, `PayloadImage::parse` accepts it.
pub proof fn lemma_payload_round_trip(h: NovaPayloadHeaderV1, b: Seq<u8>)
    requires
        h.spec_is_valid(),
        h.flags == 0,
        h.image_size as int == b.len(),
        b.len() >= 88,
        b.subrange(0, 88) == header_encoding(h),
    ensures
        payload_structure_ok(b),
        header_matches_bytes(h, b),
        payload_body(b) == b.subrange(h.load_offset as int, h.load_offset + h.load_size),
        sha256_spec(payload_body(b)) == h.body_digest@ ==> payload_accepts(b),
{
    lemma_header_encoding_decodes(h, b);
}

} // verus!
