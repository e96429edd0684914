//! Image digests (SHA-256) carried through the boot chain.
use vstd::prelude::*;

verus! {

/// The SHA-256 digest of a byte sequence, as the `sha2` crate computes it.
pub uninterp spec fn sha256_spec(data: Seq<u8>) -> Seq<u8>;

/// Calls `sha2::Sha256::digest` (through the `sha2::Digest` trait) and
/// converts the 32-byte output array.  Trusted: the result is the SHA-256
/// digest of `bytes`, named by `sha256_spec`; a SHA-256 digest is 32 bytes.
#[verifier::external_body]
fn sha256_call(bytes: &[u8]) -> (out: [u8; 32])
    ensures
        out@ == sha256_spec(bytes@),
        out@.len() == 32,
{
    <sha2::Sha256 as sha2::Digest>::digest(bytes).into()
}

/// Digest algorithms that the boot chain understands.
#[derive(Clone, Copy, Debug, PartialEq, Eq, Structural)]
pub enum NovaDigestAlgorithm {
    Sha256,
}

impl NovaDigestAlgorithm {
    /// The ABI value of the algorithm.
    pub open spec fn spec_raw(self) -> u32 {
        match self {
            NovaDigestAlgorithm::Sha256 => 1,
        }
    }

    /// The ABI value of the algorithm.
    pub fn as_raw(self) -> (r: u32)
        ensures
            r == self.spec_raw(),
    {
        match self {
            NovaDigestAlgorithm::Sha256 => 1,
        }
    }

    pub open spec fn spec_from_raw(raw: u32) -> Option<NovaDigestAlgorithm> {
        if raw == 1 {
            Some(NovaDigestAlgorithm::Sha256)
        } else {
            None
        }
    }

    /// Decodes an ABI value.
    pub fn from_raw(raw: u32) -> (r: Option<NovaDigestAlgorithm>)
        ensures
            r == Self::spec_from_raw(raw),
    {
        if raw == 1 {
            Some(NovaDigestAlgorithm::Sha256)
        } else {
            None
        }
    }
}

/// A typed image digest record.
#[derive(Clone, Copy, Debug, PartialEq, Eq)]
pub struct NovaImageDigestV1 {
    pub magic: u64,
    pub algorithm: NovaDigestAlgorithm,
    pub byte_len: u32,
    pub bytes: [u8; 32],
}

pub const NOVA_IMAGE_DIGEST_MAGIC: u64 = 0x3154_5347_444D_564E;

/// Length in bytes of the encoded digest record.
pub const NOVA_IMAGE_DIGEST_V1_SIZE: usize = 48;

impl NovaImageDigestV1 {
    pub const MAGIC: u64 = 0x3154_5347_444D_564E;

    /// A digest record holding a SHA-256 value.
    pub fn sha256(bytes: [u8; 32]) -> (r: Self)
        ensures
            r.magic == NOVA_IMAGE_DIGEST_MAGIC,
            r.algorithm == NovaDigestAlgorithm::Sha256,
            r.byte_len == 32,
            r.bytes == bytes,
    {
        NovaImageDigestV1 { magic: NOVA_IMAGE_DIGEST_MAGIC, algorithm: NovaDigestAlgorithm::Sha256, byte_len: 32, bytes }
    }

    /// The digest record of the SHA-256 of `bytes`.
    pub fn from_bytes_sha256(bytes: &[u8]) -> (r: Self)
        ensures
            r.magic == NOVA_IMAGE_DIGEST_MAGIC,
            r.algorithm == NovaDigestAlgorithm::Sha256,
            r.byte_len == 32,
            r.bytes@ == sha256_spec(bytes@),
    {
        Self::sha256(sha256_digest_bytes(bytes))
    }

    pub open spec fn spec_is_valid(&self) -> bool {
        &&& self.magic == NOVA_IMAGE_DIGEST_MAGIC
        &&& self.algorithm == NovaDigestAlgorithm::Sha256
        &&& self.byte_len == 32
    }

    /// A record is valid when it carries the magic, the SHA-256 algorithm and
    /// a length that matches the 32 digest bytes.
    pub fn is_valid(&self) -> (r: bool)
        ensures
            r == self.spec_is_valid(),
    {
        self.magic == NOVA_IMAGE_DIGEST_MAGIC && self.algorithm.as_raw() == 1 && self.byte_len == 32
    }
}

/// The SHA-256 digest of `bytes`.
pub fn sha256_digest_bytes(bytes: &[u8]) -> (out: [u8; 32])
    ensures
        out@ == sha256_spec(bytes@),
        out@.len() == 32,
{
    sha256_call(bytes)
}

/// Byte-wise equality of two digests.
pub fn digest_bytes_equal(a: &[u8; 32], b: &[u8; 32]) -> (r: bool)
    ensures
        r == (a@ == b@),
{
    let mut i: usize = 0;
    while i < 32
        invariant
            0 <= i <= 32,
            a@.len() == 32,
            b@.len() == 32,
            forall|j: int| 0 <= j < i ==> a@[j] == b@[j],
        decreases 32 - i,
    {
        if a[i] != b[i] {
            return false;
        }
        i = i + 1;
    }
    assert(a@ =~= b@);
    true
}

} // verus!
