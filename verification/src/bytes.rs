//! Little-endian field access for the fixed-layout boot records.
use vstd::prelude::*;
use vstd::bytes::{
    spec_u32_from_le_bytes, spec_u32_to_le_bytes, spec_u64_from_le_bytes, spec_u64_to_le_bytes,
    u32_from_le_bytes, u32_to_le_bytes, u64_from_le_bytes, u64_to_le_bytes,
};

verus! {

/// The little-endian `u32` stored at `off` in `s`.
pub open spec fn le_u32_at(s: Seq<u8>, off: int) -> u32 {
    spec_u32_from_le_bytes(s.subrange(off, off + 4))
}

/// The little-endian `u64` stored at `off` in `s`.
pub open spec fn le_u64_at(s: Seq<u8>, off: int) -> u64 {
    spec_u64_from_le_bytes(s.subrange(off, off + 8))
}

/// The little-endian encoding of a `u32`.
pub open spec fn le_u32_bytes(x: u32) -> Seq<u8> {
    spec_u32_to_le_bytes(x)
}

/// The little-endian encoding of a `u64`.
pub open spec fn le_u64_bytes(x: u64) -> Seq<u8> {
    spec_u64_to_le_bytes(x)
}

/// Reads a little-endian `u32` at `off`.
pub fn read_u32_le(bytes: &[u8], off: usize) -> (r: u32)
    requires
        off + 4 <= bytes@.len(),
    ensures
        r == le_u32_at(bytes@, off as int),
{
    let _len = bytes.len();
    u32_from_le_bytes(vstd::slice::slice_subrange(bytes, off, off + 4))
}

/// Reads a little-endian `u64` at `off`.
pub fn read_u64_le(bytes: &[u8], off: usize) -> (r: u64)
    requires
        off + 8 <= bytes@.len(),
    ensures
        r == le_u64_at(bytes@, off as int),
{
    let _len = bytes.len();
    u64_from_le_bytes(vstd::slice::slice_subrange(bytes, off, off + 8))
}

/// Copies the 32 bytes at `off`.
pub fn read_array32(bytes: &[u8], off: usize) -> (r: [u8; 32])
    requires
        off + 32 <= bytes@.len(),
    ensures
        r@ == bytes@.subrange(off as int, off + 32),
{
    let _len = bytes.len();
    let mut out = [0u8; 32];
    let mut i: usize = 0;
    while i < 32
        invariant
            0 <= i <= 32,
            off + 32 <= bytes@.len(),
            bytes@.len() <= usize::MAX,
            out@.len() == 32,
            forall|j: int| 0 <= j < i ==> out@[j] == bytes@[off + j],
        decreases 32 - i,
    {
        out[i] = bytes[off + i];
        i = i + 1;
    }
    assert(out@ =~= bytes@.subrange(off as int, off + 32));
    out
}

/// Copies the 16 bytes at `off`.
pub fn read_array16(bytes: &[u8], off: usize) -> (r: [u8; 16])
    requires
        off + 16 <= bytes@.len(),
    ensures
        r@ == bytes@.subrange(off as int, off + 16),
{
    let _len = bytes.len();
    let mut out = [0u8; 16];
    let mut i: usize = 0;
    while i < 16
        invariant
            0 <= i <= 16,
            off + 16 <= bytes@.len(),
            bytes@.len() <= usize::MAX,
            out@.len() == 16,
            forall|j: int| 0 <= j < i ==> out@[j] == bytes@[off + j],
        decreases 16 - i,
    {
        out[i] = bytes[off + i];
        i = i + 1;
    }
    assert(out@ =~= bytes@.subrange(off as int, off + 16));
    out
}

/// Appends the little-endian encoding of `x`.
pub fn push_u32_le(out: &mut Vec<u8>, x: u32)
    ensures
        final(out)@ == old(out)@ + le_u32_bytes(x),
{
    let mut b = u32_to_le_bytes(x);
    out.append(&mut b);
}

/// Appends the little-endian encoding of `x`.
pub fn push_u64_le(out: &mut Vec<u8>, x: u64)
    ensures
        final(out)@ == old(out)@ + le_u64_bytes(x),
{
    let mut b = u64_to_le_bytes(x);
    out.append(&mut b);
}

/// Appends every byte of `bytes`.
pub fn push_bytes(out: &mut Vec<u8>, bytes: &[u8])
    ensures
        final(out)@ == old(out)@ + bytes@,
{
    let ghost start = out@;
    let mut i: usize = 0;
    while i < bytes.len()
        invariant
            0 <= i <= bytes@.len(),
            out@ == start + bytes@.subrange(0, i as int),
        decreases bytes@.len() - i,
    {
        out.push(bytes[i]);
        i = i + 1;
        assert(out@ =~= start + bytes@.subrange(0, i as int));
    }
    assert(bytes@.subrange(0, bytes@.len() as int) =~= bytes@);
}

/// Round trip of the `u32` encoding.
pub proof fn lemma_u32_round_trip(x: u32)
    ensures
        le_u32_bytes(x).len() == 4,
        spec_u32_from_le_bytes(le_u32_bytes(x)) == x,
{
    vstd::bytes::lemma_auto_spec_u32_to_from_le_bytes();
    assert(spec_u32_to_le_bytes(x).len() == 4);
}

/// Round trip of the `u64` encoding.
pub proof fn lemma_u64_round_trip(x: u64)
    ensures
        le_u64_bytes(x).len() == 8,
        spec_u64_from_le_bytes(le_u64_bytes(x)) == x,
{
    vstd::bytes::lemma_auto_spec_u64_to_from_le_bytes();
    assert(spec_u64_to_le_bytes(x).len() == 8);
}


/// A `u32` field written at `off` of an encoding reads back from any bytes
/// that start with that encoding.
pub proof fn lemma_u32_field(b: Seq<u8>, enc: Seq<u8>, off: int, x: u32)
    requires
        enc.len() <= b.len(),
        b.subrange(0, enc.len() as int) == enc,
        0 <= off,
        off + 4 <= enc.len(),
        enc.subrange(off, off + 4) == le_u32_bytes(x),
    ensures
        le_u32_at(b, off) == x,
{
    assert(b.subrange(off, off + 4) =~= enc.subrange(off, off + 4));
    lemma_u32_round_trip(x);
}

/// A `u64` field written at `off` of an encoding reads back from any bytes
/// that start with that encoding.
pub proof fn lemma_u64_field(b: Seq<u8>, enc: Seq<u8>, off: int, x: u64)
    requires
        enc.len() <= b.len(),
        b.subrange(0, enc.len() as int) == enc,
        0 <= off,
        off + 8 <= enc.len(),
        enc.subrange(off, off + 8) == le_u64_bytes(x),
    ensures
        le_u64_at(b, off) == x,
{
    assert(b.subrange(off, off + 8) =~= enc.subrange(off, off + 8));
    lemma_u64_round_trip(x);
}

} // verus!
