//! Fixed-width integer fields of the wire format: big-endian and
//! little-endian views of byte sequences, and the executable readers and
//! writers that match them.

use vstd::prelude::*;

verus! {

/// The value of a 2-byte big-endian field.
pub open spec fn be16(s: Seq<u8>) -> int {
    s[0] * 0x100 + s[1]
}

/// The value of a 3-byte big-endian field.
pub open spec fn be24(s: Seq<u8>) -> int {
    s[0] * 0x10000 + s[1] * 0x100 + s[2]
}

/// The value of a 4-byte big-endian field.
pub open spec fn be32(s: Seq<u8>) -> int {
    s[0] * 0x1000000 + s[1] * 0x10000 + s[2] * 0x100 + s[3]
}

/// The value of a 4-byte little-endian field.
pub open spec fn le32(s: Seq<u8>) -> int {
    s[3] * 0x1000000 + s[2] * 0x10000 + s[1] * 0x100 + s[0]
}

/// The value of an 8-byte big-endian field.
pub open spec fn be64(s: Seq<u8>) -> int {
    s[0] * 0x100000000000000 + s[1] * 0x1000000000000 + s[2] * 0x10000000000
        + s[3] * 0x100000000 + s[4] * 0x1000000 + s[5] * 0x10000 + s[6] * 0x100 + s[7]
}

/// The 2-byte big-endian encoding of `v`.
pub open spec fn u16_to_be(v: u16) -> Seq<u8> {
    seq![(v / 0x100) as u8, (v % 0x100) as u8]
}

/// The 3-byte big-endian encoding of `v`, which must fit in 24 bits.
pub open spec fn u24_to_be(v: u32) -> Seq<u8> {
    seq![(v / 0x10000) as u8, ((v / 0x100) % 0x100) as u8, (v % 0x100) as u8]
}

/// The 4-byte big-endian encoding of `v`.
pub open spec fn u32_to_be(v: u32) -> Seq<u8> {
    seq![
        (v / 0x1000000) as u8,
        ((v / 0x10000) % 0x100) as u8,
        ((v / 0x100) % 0x100) as u8,
        (v % 0x100) as u8,
    ]
}

/// The 4-byte little-endian encoding of `v`.
pub open spec fn u32_to_le(v: u32) -> Seq<u8> {
    seq![
        (v % 0x100) as u8,
        ((v / 0x100) % 0x100) as u8,
        ((v / 0x10000) % 0x100) as u8,
        (v / 0x1000000) as u8,
    ]
}

/// The 8-byte big-endian encoding of `v`.
pub open spec fn u64_to_be(v: u64) -> Seq<u8> {
    seq![
        (v / 0x100000000000000) as u8,
        ((v / 0x1000000000000) % 0x100) as u8,
        ((v / 0x10000000000) % 0x100) as u8,
        ((v / 0x100000000) % 0x100) as u8,
        ((v / 0x1000000) % 0x100) as u8,
        ((v / 0x10000) % 0x100) as u8,
        ((v / 0x100) % 0x100) as u8,
        (v % 0x100) as u8,
    ]
}

/// A 2-byte big-endian field holds exactly the value it was written from.
pub proof fn lemma_be16_round_trip(v: u16)
    ensures
        be16(u16_to_be(v)) == v,
{
}

/// An 8-byte big-endian field holds exactly the value it was written from.
pub proof fn lemma_be64_round_trip(v: u64)
    ensures
        be64(u64_to_be(v)) == v,
{
    assert(v == (v / 0x100000000000000) * 0x100000000000000 + ((v / 0x1000000000000) % 0x100)
        * 0x1000000000000 + ((v / 0x10000000000) % 0x100) * 0x10000000000 + ((v / 0x100000000)
        % 0x100) * 0x100000000 + ((v / 0x1000000) % 0x100) * 0x1000000 + ((v / 0x10000) % 0x100)
        * 0x10000 + ((v / 0x100) % 0x100) * 0x100 + v % 0x100) by (bit_vector);
    assert(v / 0x100000000000000 < 0x100);
}

/// A 3-byte big-endian field holds exactly the value it was written from.
pub proof fn lemma_be24_round_trip(v: u32)
    requires
        v < 0x1000000,
    ensures
        be24(u24_to_be(v)) == v,
{
}

/// A 4-byte big-endian field holds exactly the value it was written from.
pub proof fn lemma_be32_round_trip(v: u32)
    ensures
        be32(u32_to_be(v)) == v,
{
}

/// A 4-byte little-endian field holds exactly the value it was written from.
pub proof fn lemma_le32_round_trip(v: u32)
    ensures
        le32(u32_to_le(v)) == v,
{
}

/// Reads the 2-byte big-endian field at `pos`.
pub fn get_be_u16(buf: &Vec<u8>, pos: usize) -> (v: u16)
    requires
        pos + 2 <= buf.len(),
    ensures
        v == be16(buf@.subrange(pos as int, pos + 2)),
{
    let b0: u16 = buf[pos] as u16;
    let b1: u16 = buf[pos + 1] as u16;
    b0 * 0x100 + b1
}

/// Reads the 3-byte big-endian field at `pos`.
pub fn get_be_u24(buf: &Vec<u8>, pos: usize) -> (v: u32)
    requires
        pos + 3 <= buf.len(),
    ensures
        v == be24(buf@.subrange(pos as int, pos + 3)),
        v < 0x1000000,
{
    let b0: u32 = buf[pos] as u32;
    let b1: u32 = buf[pos + 1] as u32;
    let b2: u32 = buf[pos + 2] as u32;
    b0 * 0x10000 + b1 * 0x100 + b2
}

/// Reads the 4-byte big-endian field at `pos`.
pub fn get_be_u32(buf: &Vec<u8>, pos: usize) -> (v: u32)
    requires
        pos + 4 <= buf.len(),
    ensures
        v == be32(buf@.subrange(pos as int, pos + 4)),
{
    let b0: u32 = buf[pos] as u32;
    let b1: u32 = buf[pos + 1] as u32;
    let b2: u32 = buf[pos + 2] as u32;
    let b3: u32 = buf[pos + 3] as u32;
    b0 * 0x1000000 + b1 * 0x10000 + b2 * 0x100 + b3
}

/// Reads the 4-byte little-endian field at `pos`.
pub fn get_le_u32(buf: &Vec<u8>, pos: usize) -> (v: u32)
    requires
        pos + 4 <= buf.len(),
    ensures
        v == le32(buf@.subrange(pos as int, pos + 4)),
{
    let b0: u32 = buf[pos] as u32;
    let b1: u32 = buf[pos + 1] as u32;
    let b2: u32 = buf[pos + 2] as u32;
    let b3: u32 = buf[pos + 3] as u32;
    b3 * 0x1000000 + b2 * 0x10000 + b1 * 0x100 + b0
}

/// Reads the 8-byte big-endian field at `pos`.
pub fn get_be_u64(buf: &Vec<u8>, pos: usize) -> (v: u64)
    requires
        pos + 8 <= buf.len(),
    ensures
        v == be64(buf@.subrange(pos as int, pos + 8)),
{
    let b0: u64 = buf[pos] as u64;
    let b1: u64 = buf[pos + 1] as u64;
    let b2: u64 = buf[pos + 2] as u64;
    let b3: u64 = buf[pos + 3] as u64;
    let b4: u64 = buf[pos + 4] as u64;
    let b5: u64 = buf[pos + 5] as u64;
    let b6: u64 = buf[pos + 6] as u64;
    let b7: u64 = buf[pos + 7] as u64;
    b0 * 0x100000000000000 + b1 * 0x1000000000000 + b2 * 0x10000000000 + b3 * 0x100000000 + b4
        * 0x1000000 + b5 * 0x10000 + b6 * 0x100 + b7
}

/// Compares a byte vector with a byte slice.
pub fn bytes_eq(a: &Vec<u8>, b: &[u8]) -> (r: bool)
    ensures
        r == (a@ == b@),
{
    if a.len() != b.len() {
        proof {
            assert(a@.len() != b@.len());
        }
        return false;
    }
    let mut i: usize = 0;
    while i < a.len()
        invariant
            i <= a.len(),
            a.len() == b.len(),
            forall|j: int| 0 <= j < i ==> a@[j] == b@[j],
        decreases a.len() - i,
    {
        if a[i] != b[i] {
            return false;
        }
        i = i + 1;
    }
    proof {
        assert(a@ =~= b@);
    }
    true
}

/// Appends a copy of `src[start..end]`.
pub fn push_slice_range(out: &mut Vec<u8>, src: &Vec<u8>, start: usize, end: usize)
    requires
        start <= end <= src.len(),
    ensures
        final(out)@ == old(out)@ + src@.subrange(start as int, end as int),
{
    let mut i: usize = start;
    while i < end
        invariant
            start <= i <= end <= src.len(),
            out@ =~= old(out)@ + src@.subrange(start as int, i as int),
        decreases end - i,
    {
        out.push(src[i]);
        proof {
            assert(out@ =~= old(out)@ + src@.subrange(start as int, i + 1));
        }
        i = i + 1;
    }
}

/// Appends a copy of the whole slice `src`.
pub fn push_slice(out: &mut Vec<u8>, src: &[u8])
    ensures
        final(out)@ == old(out)@ + src@,
{
    let mut i: usize = 0;
    while i < src.len()
        invariant
            i <= src.len(),
            out@ =~= old(out)@ + src@.subrange(0, i as int),
        decreases src.len() - i,
    {
        out.push(src[i]);
        proof {
            assert(out@ =~= old(out)@ + src@.subrange(0, i + 1));
        }
        i = i + 1;
    }
    proof {
        assert(src@.subrange(0, src@.len() as int) =~= src@);
    }
}

/// Copies a byte vector.
pub fn copy_vec(src: &Vec<u8>) -> (r: Vec<u8>)
    ensures
        r@ == src@,
{
    let mut v: Vec<u8> = Vec::new();
    push_slice_range(&mut v, src, 0, src.len());
    proof {
        assert(src@.subrange(0, src@.len() as int) =~= src@);
    }
    v
}

/// Appends the 2-byte big-endian encoding of `v`.
pub fn push_be_u16(out: &mut Vec<u8>, v: u16)
    ensures
        final(out)@ == old(out)@ + u16_to_be(v),
{
    out.push((v / 0x100) as u8);
    out.push((v % 0x100) as u8);
    proof {
        assert(out@ =~= old(out)@ + u16_to_be(v));
    }
}

/// Appends the 3-byte big-endian encoding of `v`, which must fit in 24 bits.
pub fn push_be_u24(out: &mut Vec<u8>, v: u32)
    requires
        v < 0x1000000,
    ensures
        final(out)@ == old(out)@ + u24_to_be(v),
{
    out.push((v / 0x10000) as u8);
    out.push(((v / 0x100) % 0x100) as u8);
    out.push((v % 0x100) as u8);
    proof {
        assert(out@ =~= old(out)@ + u24_to_be(v));
    }
}

/// Appends the 4-byte big-endian encoding of `v`.
pub fn push_be_u32(out: &mut Vec<u8>, v: u32)
    ensures
        final(out)@ == old(out)@ + u32_to_be(v),
{
    out.push((v / 0x1000000) as u8);
    out.push(((v / 0x10000) % 0x100) as u8);
    out.push(((v / 0x100) % 0x100) as u8);
    out.push((v % 0x100) as u8);
    proof {
        assert(out@ =~= old(out)@ + u32_to_be(v));
    }
}

/// Appends the 4-byte little-endian encoding of `v`.
pub fn push_le_u32(out: &mut Vec<u8>, v: u32)
    ensures
        final(out)@ == old(out)@ + u32_to_le(v),
{
    out.push((v % 0x100) as u8);
    out.push(((v / 0x100) % 0x100) as u8);
    out.push(((v / 0x10000) % 0x100) as u8);
    out.push((v / 0x1000000) as u8);
    proof {
        assert(out@ =~= old(out)@ + u32_to_le(v));
    }
}

/// Appends the 8-byte big-endian encoding of `v`.
pub fn push_be_u64(out: &mut Vec<u8>, v: u64)
    ensures
        final(out)@ == old(out)@ + u64_to_be(v),
{
    out.push((v / 0x100000000000000) as u8);
    out.push(((v / 0x1000000000000) % 0x100) as u8);
    out.push(((v / 0x10000000000) % 0x100) as u8);
    out.push(((v / 0x100000000) % 0x100) as u8);
    out.push(((v / 0x1000000) % 0x100) as u8);
    out.push(((v / 0x10000) % 0x100) as u8);
    out.push(((v / 0x100) % 0x100) as u8);
    out.push((v % 0x100) as u8);
    proof {
        assert(out@ =~= old(out)@ + u64_to_be(v));
    }
}

} // verus!
