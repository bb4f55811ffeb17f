//! Byte-level building blocks shared by every table: byte sums, the ACPI
//! checksum rule, and little-endian field encoding.
use vstd::bytes::{
    spec_u16_to_le_bytes, spec_u64_from_le_bytes, spec_u32_to_le_bytes, spec_u64_to_le_bytes,
    u16_to_le_bytes, u32_to_le_bytes, u64_to_le_bytes,
};
use vstd::prelude::*;

verus! {

/// Sum of all the bytes of `s`, as an unbounded integer.
pub open spec fn byte_sum(s: Seq<u8>) -> nat
    decreases s.len(),
{
    if s.len() == 0 {
        0
    } else {
        byte_sum(s.drop_last()) + s.last() as nat
    }
}

/// Sum of all the bytes of all the buffers of `bufs`.
pub open spec fn bufs_sum(bufs: Seq<Seq<u8>>) -> nat
    decreases bufs.len(),
{
    if bufs.len() == 0 {
        0
    } else {
        bufs_sum(bufs.drop_last()) + byte_sum(bufs.last())
    }
}

/// The byte that brings a running byte sum `total` to 0 modulo 256.
pub open spec fn checksum_byte(total: nat) -> u8 {
    ((256 - total % 256) % 256) as u8
}

/// A finished table passes the ACPI checksum: its bytes add up to 0 modulo 256.
pub open spec fn checksum_valid(s: Seq<u8>) -> bool {
    byte_sum(s) % 256 == 0
}

/// The byte sum of a concatenation is the sum of the byte sums.
pub proof fn lemma_byte_sum_concat(a: Seq<u8>, b: Seq<u8>)
    ensures
        byte_sum(a + b) == byte_sum(a) + byte_sum(b),
    decreases b.len(),
{
    if b.len() == 0 {
        assert(a + b =~= a);
    } else {
        lemma_byte_sum_concat(a, b.drop_last());
        assert((a + b).drop_last() =~= a + b.drop_last());
    }
}

/// The byte sum of two buffers is the sum of their byte sums.
pub proof fn lemma_bufs_sum_two(a: Seq<u8>, b: Seq<u8>)
    ensures
        bufs_sum(seq![a, b]) == byte_sum(a) + byte_sum(b),
{
    reveal_with_fuel(bufs_sum, 3);
    assert(seq![a, b].drop_last() =~= seq![a]);
    assert(seq![a].drop_last() =~= Seq::<Seq<u8>>::empty());
}

/// The byte sum of one buffer is its own byte sum.
pub proof fn lemma_bufs_sum_one(a: Seq<u8>)
    ensures
        bufs_sum(seq![a]) == byte_sum(a),
{
    reveal_with_fuel(bufs_sum, 2);
    assert(seq![a].drop_last() =~= Seq::<Seq<u8>>::empty());
}

/// A single byte sums to itself.
pub proof fn lemma_byte_sum_single(c: u8)
    ensures
        byte_sum(seq![c]) == c,
{
    reveal_with_fuel(byte_sum, 2);
    assert(seq![c].drop_last() =~= Seq::<u8>::empty());
}

/// Setting the checksum byte of an image whose other bytes sum to `rest`
/// makes the whole image pass the checksum.
pub proof fn lemma_checksum_byte_closes(rest: nat)
    ensures
        (rest + checksum_byte(rest) as nat) % 256 == 0,
{
}

/// Little-endian bytes of a 16-bit field.
pub open spec fn le16(x: u16) -> Seq<u8> {
    spec_u16_to_le_bytes(x)
}

/// Little-endian bytes of a 32-bit field.
pub open spec fn le32(x: u32) -> Seq<u8> {
    spec_u32_to_le_bytes(x)
}

/// Little-endian bytes of a 64-bit field.
pub open spec fn le64(x: u64) -> Seq<u8> {
    spec_u64_to_le_bytes(x)
}

/// The encodings have the width of their integer type.
pub proof fn lemma_le_lengths()
    ensures
        forall|x: u16| #[trigger] le16(x).len() == 2,
        forall|x: u32| #[trigger] le32(x).len() == 4,
        forall|x: u64| #[trigger] le64(x).len() == 8,
{
    vstd::bytes::lemma_auto_spec_u16_to_from_le_bytes();
    vstd::bytes::lemma_auto_spec_u32_to_from_le_bytes();
    vstd::bytes::lemma_auto_spec_u64_to_from_le_bytes();
}

/// The little-endian 64-bit value stored at byte offset `off` of `s`.
pub open spec fn u64_at(s: Seq<u8>, off: int) -> u64 {
    spec_u64_from_le_bytes(s.subrange(off, off + 8))
}

/// The little-endian bytes of each value of `xs`, one after another.
pub open spec fn le64_concat(xs: Seq<u64>) -> Seq<u8>
    decreases xs.len(),
{
    if xs.len() == 0 {
        Seq::empty()
    } else {
        le64_concat(xs.drop_last()) + le64(xs.last())
    }
}

/// Each value of `xs` can be read back from its own 8 bytes of the encoding.
pub proof fn lemma_le64_concat(xs: Seq<u64>)
    ensures
        le64_concat(xs).len() == 8 * xs.len(),
        forall|j: int| 0 <= j < xs.len() ==> #[trigger] u64_at(le64_concat(xs), 8 * j) == xs[j],
    decreases xs.len(),
{
    lemma_le_lengths();
    vstd::bytes::lemma_auto_spec_u64_to_from_le_bytes();
    if xs.len() > 0 {
        lemma_le64_concat(xs.drop_last());
        let p = le64_concat(xs.drop_last());
        let c = le64_concat(xs);
        assert forall|j: int| 0 <= j < xs.len() implies #[trigger] u64_at(c, 8 * j) == xs[j] by {
            if j < xs.len() - 1 {
                assert(c.subrange(8 * j, 8 * j + 8) =~= p.subrange(8 * j, 8 * j + 8));
                assert(u64_at(p, 8 * j) == xs.drop_last()[j]);
            } else {
                assert(c.subrange(8 * j, 8 * j + 8) =~= le64(xs.last()));
            }
        }
    }
}

/// Reading inside the second part of a concatenation reads that part.
pub proof fn lemma_u64_at_shift(a: Seq<u8>, b: Seq<u8>, off: int)
    requires
        0 <= off,
        off + 8 <= b.len(),
    ensures
        u64_at(a + b, a.len() + off) == u64_at(b, off),
{
    assert((a + b).subrange(a.len() + off, a.len() + off + 8) =~= b.subrange(off, off + 8));
}

/// Reading a value back from its own encoding gives the value.
pub proof fn lemma_u64_at_le64(prefix: Seq<u8>, x: u64, suffix: Seq<u8>)
    ensures
        u64_at(prefix + le64(x) + suffix, prefix.len() as int) == x,
{
    lemma_le_lengths();
    vstd::bytes::lemma_auto_spec_u64_to_from_le_bytes();
    let s = prefix + le64(x) + suffix;
    assert(s.subrange(prefix.len() as int, prefix.len() as int + 8) =~= le64(x));
}

/// Appends the bytes of `s` to `v`.
pub fn push_slice(v: &mut Vec<u8>, s: &[u8])
    ensures
        final(v)@ == old(v)@ + s@,
{
    let ghost v0 = v@;
    let mut i: usize = 0;
    while i < s.len()
        invariant
            i <= s@.len(),
            v@ == v0 + s@.subrange(0, i as int),
        decreases s@.len() - i,
    {
        v.push(s[i]);
        i = i + 1;
        assert(v@ =~= v0 + s@.subrange(0, i as int));
    }
    assert(s@.subrange(0, s@.len() as int) =~= s@);
}

/// Appends the little-endian bytes of `x` to `v`.
pub fn push_u16(v: &mut Vec<u8>, x: u16)
    ensures
        final(v)@ == old(v)@ + le16(x),
{
    let b = u16_to_le_bytes(x);
    push_slice(v, b.as_slice());
}

/// Appends the little-endian bytes of `x` to `v`.
pub fn push_u32(v: &mut Vec<u8>, x: u32)
    ensures
        final(v)@ == old(v)@ + le32(x),
{
    let b = u32_to_le_bytes(x);
    push_slice(v, b.as_slice());
}

/// Appends the little-endian bytes of `x` to `v`.
pub fn push_u64(v: &mut Vec<u8>, x: u64)
    ensures
        final(v)@ == old(v)@ + le64(x),
{
    let b = u64_to_le_bytes(x);
    push_slice(v, b.as_slice());
}

/// Computes the ACPI checksum of a list of buffers: the byte that, added to
/// every byte of every buffer, makes the total 0 modulo 256.
pub fn checksum(buf: &[&[u8]]) -> (r: u8)
    ensures
        r == checksum_byte(bufs_sum(buf@.map_values(|b: &[u8]| b@))),
        (bufs_sum(buf@.map_values(|b: &[u8]| b@)) + r as nat) % 256 == 0,
{
    let ghost bufs = buf@.map_values(|b: &[u8]| b@);
    let mut acc: u8 = 0;
    let mut i: usize = 0;
    while i < buf.len()
        invariant
            i <= buf@.len(),
            bufs == buf@.map_values(|b: &[u8]| b@),
            acc as nat == bufs_sum(bufs.subrange(0, i as int)) % 256,
        decreases buf@.len() - i,
    {
        let b: &[u8] = buf[i];
        let ghost before = bufs_sum(bufs.subrange(0, i as int));
        let mut j: usize = 0;
        while j < b.len()
            invariant
                j <= b@.len(),
                acc as nat == (before + byte_sum(b@.subrange(0, j as int))) % 256,
            decreases b@.len() - j,
        {
            assert(b@.subrange(0, j + 1 as int).drop_last() =~= b@.subrange(0, j as int));
            acc = acc.wrapping_add(b[j]);
            j = j + 1;
        }
        assert(b@.subrange(0, b@.len() as int) =~= b@);
        assert(bufs.subrange(0, i + 1 as int).drop_last() =~= bufs.subrange(0, i as int));
        i = i + 1;
    }
    assert(bufs.subrange(0, buf@.len() as int) =~= bufs);
    (255 - acc).wrapping_add(1)
}

} // verus!
