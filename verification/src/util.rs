//! Big-endian integer encodings used in frames, and byte-buffer helpers.
use vstd::prelude::*;

verus! {

/// The four big-endian bytes of `v`.
pub open spec fn be32(v: u32) -> Seq<u8> {
    seq![(v >> 24u32) as u8, (v >> 16u32) as u8, (v >> 8u32) as u8, v as u8]
}

/// The big-endian value of four bytes.
pub open spec fn be32_value(b0: u8, b1: u8, b2: u8, b3: u8) -> u32 {
    ((b0 as u32) << 24u32) | ((b1 as u32) << 16u32) | ((b2 as u32) << 8u32) | (b3 as u32)
}

/// The three big-endian bytes of the low 24 bits of `v`.
pub open spec fn be24(v: u32) -> Seq<u8> {
    seq![(v >> 16u32) as u8, (v >> 8u32) as u8, v as u8]
}

/// The big-endian value of three bytes.
pub open spec fn be24_value(b0: u8, b1: u8, b2: u8) -> u32 {
    ((b0 as u32) << 16u32) | ((b1 as u32) << 8u32) | (b2 as u32)
}

/// The two big-endian bytes of `v`.
pub open spec fn be16(v: u16) -> Seq<u8> {
    seq![(v >> 8u16) as u8, v as u8]
}

/// The big-endian value of two bytes.
pub open spec fn be16_value(b0: u8, b1: u8) -> u16 {
    ((b0 as u16) << 8u16) | (b1 as u16)
}

/// Reading back the four bytes of `v` gives `v`.
pub proof fn lemma_be32_roundtrip(v: u32)
    ensures
        be32_value(be32(v)[0], be32(v)[1], be32(v)[2], be32(v)[3]) == v,
{
    let b0 = (v >> 24u32) as u8;
    let b1 = (v >> 16u32) as u8;
    let b2 = (v >> 8u32) as u8;
    let b3 = v as u8;
    assert(((b0 as u32) << 24u32) | ((b1 as u32) << 16u32) | ((b2 as u32) << 8u32) | (b3 as u32)
        == v) by (bit_vector)
        requires
            b0 == (v >> 24u32) as u8,
            b1 == (v >> 16u32) as u8,
            b2 == (v >> 8u32) as u8,
            b3 == v as u8,
    ;
}

/// Reading back the three bytes of `v` gives `v` when `v` fits in 24 bits.
pub proof fn lemma_be24_roundtrip(v: u32)
    requires
        v < 0x100_0000,
    ensures
        be24_value(be24(v)[0], be24(v)[1], be24(v)[2]) == v,
{
    let b0 = (v >> 16u32) as u8;
    let b1 = (v >> 8u32) as u8;
    let b2 = v as u8;
    assert(((b0 as u32) << 16u32) | ((b1 as u32) << 8u32) | (b2 as u32) == v) by (bit_vector)
        requires
            v < 0x100_0000,
            b0 == (v >> 16u32) as u8,
            b1 == (v >> 8u32) as u8,
            b2 == v as u8,
    ;
}

/// Reading back the two bytes of `v` gives `v`.
pub proof fn lemma_be16_roundtrip(v: u16)
    ensures
        be16_value(be16(v)[0], be16(v)[1]) == v,
{
    let b0 = (v >> 8u16) as u8;
    let b1 = v as u8;
    assert(((b0 as u16) << 8u16) | (b1 as u16) == v) by (bit_vector)
        requires
            b0 == (v >> 8u16) as u8,
            b1 == v as u8,
    ;
}

/// Reads a big-endian u32 from the first four bytes.
pub fn from_u32_bytes(bytes: &[u8]) -> (r: u32)
    requires
        bytes@.len() >= 4,
    ensures
        r == be32_value(bytes@[0], bytes@[1], bytes@[2], bytes@[3]),
{
    ((bytes[0] as u32) << 24u32) | ((bytes[1] as u32) << 16u32) | ((bytes[2] as u32) << 8u32)
        | (bytes[3] as u32)
}

/// Reads a big-endian 24-bit integer from the first three bytes.
pub fn from_u24_bytes(bytes: &[u8]) -> (r: u32)
    requires
        bytes@.len() >= 3,
    ensures
        r == be24_value(bytes@[0], bytes@[1], bytes@[2]),
        r < 0x100_0000,
{
    let b0 = bytes[0];
    let b1 = bytes[1];
    let b2 = bytes[2];
    assert(((b0 as u32) << 16u32) | ((b1 as u32) << 8u32) | (b2 as u32) < 0x100_0000)
        by (bit_vector);
    ((b0 as u32) << 16u32) | ((b1 as u32) << 8u32) | (b2 as u32)
}

/// Reads a big-endian u16 from the first two bytes.
pub fn from_u16_bytes(bytes: &[u8]) -> (r: u16)
    requires
        bytes@.len() >= 2,
    ensures
        r == be16_value(bytes@[0], bytes@[1]),
{
    ((bytes[0] as u16) << 8u16) | (bytes[1] as u16)
}

/// The big-endian bytes of `v`.
pub fn to_u32_bytes(v: u32) -> (r: Vec<u8>)
    ensures
        r@ == be32(v),
{
    let mut r: Vec<u8> = Vec::new();
    r.push((v >> 24u32) as u8);
    r.push((v >> 16u32) as u8);
    r.push((v >> 8u32) as u8);
    r.push(v as u8);
    proof {
        assert(r@ =~= be32(v));
    }
    r
}

/// The big-endian bytes of the low 24 bits of `v`.
pub fn to_u24_bytes(v: u32) -> (r: Vec<u8>)
    ensures
        r@ == be24(v),
{
    let mut r: Vec<u8> = Vec::new();
    r.push((v >> 16u32) as u8);
    r.push((v >> 8u32) as u8);
    r.push(v as u8);
    proof {
        assert(r@ =~= be24(v));
    }
    r
}

/// Appends a copy of `src` to `out`.
pub fn push_all(out: &mut Vec<u8>, src: &[u8])
    ensures
        final(out)@ == old(out)@ + src@,
{
    let mut i: usize = 0;
    while i < src.len()
        invariant
            i <= src@.len(),
            out@ == old(out)@ + src@.subrange(0, i as int),
        decreases src@.len() - i,
    {
        out.push(src[i]);
        i = i + 1;
        proof {
            assert(src@.subrange(0, i as int) =~= src@.subrange(0, i - 1).push(src@[i - 1]));
        }
    }
    proof {
        assert(src@.subrange(0, src@.len() as int) =~= src@);
    }
}

/// A copy of the bytes `src[start..end]`.
pub fn copy_range(src: &[u8], start: usize, end: usize) -> (r: Vec<u8>)
    requires
        start <= end <= src@.len(),
    ensures
        r@ == src@.subrange(start as int, end as int),
{
    let mut r: Vec<u8> = Vec::new();
    let mut i: usize = start;
    while i < end
        invariant
            start <= i <= end <= src@.len(),
            r@ == src@.subrange(start as int, i as int),
        decreases end - i,
    {
        r.push(src[i]);
        i = i + 1;
        proof {
            assert(src@.subrange(start as int, i as int) =~= src@.subrange(start as int, i - 1).push(
                src@[i - 1],
            ));
        }
    }
    r
}

} // verus!
