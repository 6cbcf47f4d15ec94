//! Byte-level encoding helpers: little-endian and big-endian reads and
//! writes over byte vectors, and sequence surgery (copying a range,
//! overwriting a range, appending, zero fill).

use vstd::prelude::*;

verus! {

// ---------------------------------------------------------------------------
// Values read out of byte sequences
// ---------------------------------------------------------------------------

/// The 32-bit little-endian value stored at `s[i..i+4]`.
pub open spec fn le32_val(s: Seq<u8>, i: int) -> int {
    s[i] + 0x100 * s[i + 1] + 0x1_0000 * s[i + 2] + 0x100_0000 * s[i + 3]
}

/// The 64-bit little-endian value stored at `s[i..i+8]`.
pub open spec fn le64_val(s: Seq<u8>, i: int) -> int {
    s[i] + 0x100 * s[i + 1] + 0x1_0000 * s[i + 2] + 0x100_0000 * s[i + 3]
        + 0x1_0000_0000 * s[i + 4] + 0x100_0000_0000 * s[i + 5]
        + 0x1_0000_0000_0000 * s[i + 6] + 0x100_0000_0000_0000 * s[i + 7]
}

/// The 128-bit big-endian value stored at `s[i..i+16]`.
pub open spec fn be128_val(s: Seq<u8>, i: int) -> int {
    0x100_0000_0000_0000_0000_0000_0000_0000 * s[i]
        + 0x1_0000_0000_0000_0000_0000_0000_0000 * s[i + 1]
        + 0x100_0000_0000_0000_0000_0000_0000 * s[i + 2]
        + 0x1_0000_0000_0000_0000_0000_0000 * s[i + 3]
        + 0x100_0000_0000_0000_0000_0000 * s[i + 4]
        + 0x1_0000_0000_0000_0000_0000 * s[i + 5]
        + 0x100_0000_0000_0000_0000 * s[i + 6]
        + 0x1_0000_0000_0000_0000 * s[i + 7]
        + 0x100_0000_0000_0000 * s[i + 8]
        + 0x1_0000_0000_0000 * s[i + 9]
        + 0x100_0000_0000 * s[i + 10]
        + 0x1_0000_0000 * s[i + 11]
        + 0x100_0000 * s[i + 12]
        + 0x1_0000 * s[i + 13]
        + 0x100 * s[i + 14]
        + s[i + 15]
}

// ---------------------------------------------------------------------------
// Serialized forms of values
// ---------------------------------------------------------------------------

/// The two little-endian bytes of a 16-bit value.
pub open spec fn le16_bytes(v: u16) -> Seq<u8> {
    seq![(v % 0x100) as u8, (v / 0x100) as u8]
}

/// The four little-endian bytes of a 32-bit value.
pub open spec fn le32_bytes(v: u32) -> Seq<u8> {
    seq![
        (v % 0x100) as u8,
        ((v / 0x100) % 0x100) as u8,
        ((v / 0x1_0000) % 0x100) as u8,
        (v / 0x100_0000) as u8,
    ]
}

/// The four big-endian bytes of a 32-bit value.
pub open spec fn be32_bytes(v: u32) -> Seq<u8> {
    seq![
        (v / 0x100_0000) as u8,
        ((v / 0x1_0000) % 0x100) as u8,
        ((v / 0x100) % 0x100) as u8,
        (v % 0x100) as u8,
    ]
}

/// The eight big-endian bytes of a 64-bit value.
pub open spec fn be64_bytes(v: u64) -> Seq<u8> {
    seq![
        (v / 0x100_0000_0000_0000) as u8,
        ((v / 0x1_0000_0000_0000) % 0x100) as u8,
        ((v / 0x100_0000_0000) % 0x100) as u8,
        ((v / 0x1_0000_0000) % 0x100) as u8,
        ((v / 0x100_0000) % 0x100) as u8,
        ((v / 0x1_0000) % 0x100) as u8,
        ((v / 0x100) % 0x100) as u8,
        (v % 0x100) as u8,
    ]
}

/// The sixteen big-endian bytes of a 128-bit value.
pub open spec fn be128_bytes(v: u128) -> Seq<u8> {
    seq![
        (v / 0x100_0000_0000_0000_0000_0000_0000_0000) as u8,
        ((v / 0x1_0000_0000_0000_0000_0000_0000_0000) % 0x100) as u8,
        ((v / 0x100_0000_0000_0000_0000_0000_0000) % 0x100) as u8,
        ((v / 0x1_0000_0000_0000_0000_0000_0000) % 0x100) as u8,
        ((v / 0x100_0000_0000_0000_0000_0000) % 0x100) as u8,
        ((v / 0x1_0000_0000_0000_0000_0000) % 0x100) as u8,
        ((v / 0x100_0000_0000_0000_0000) % 0x100) as u8,
        ((v / 0x1_0000_0000_0000_0000) % 0x100) as u8,
        ((v / 0x100_0000_0000_0000) % 0x100) as u8,
        ((v / 0x1_0000_0000_0000) % 0x100) as u8,
        ((v / 0x100_0000_0000) % 0x100) as u8,
        ((v / 0x1_0000_0000) % 0x100) as u8,
        ((v / 0x100_0000) % 0x100) as u8,
        ((v / 0x1_0000) % 0x100) as u8,
        ((v / 0x100) % 0x100) as u8,
        (v % 0x100) as u8,
    ]
}

/// A run of `n` zero bytes.
pub open spec fn zero_bytes(n: int) -> Seq<u8> {
    Seq::new(n as nat, |i: int| 0u8)
}

/// `s` with the range starting at `off` replaced by `p`; everything else
/// keeps its old value.
pub open spec fn overwrite(s: Seq<u8>, off: int, p: Seq<u8>) -> Seq<u8> {
    Seq::new(s.len(), |k: int| if off <= k < off + p.len() { p[k - off] } else { s[k] })
}

// ---------------------------------------------------------------------------
// Executable reads
// ---------------------------------------------------------------------------

/// Read the 32-bit little-endian value at `v[i..i+4]`.
pub fn read_u32_le(v: &Vec<u8>, i: usize) -> (r: u32)
    requires
        i + 4 <= v@.len(),
    ensures
        r == le32_val(v@, i as int),
{
    let _len = v.len();
    (v[i] as u32) + 0x100 * (v[i + 1] as u32) + 0x1_0000 * (v[i + 2] as u32)
        + 0x100_0000 * (v[i + 3] as u32)
}

/// Read the 64-bit little-endian value at `v[i..i+8]`.
pub fn read_u64_le(v: &Vec<u8>, i: usize) -> (r: u64)
    requires
        i + 8 <= v@.len(),
    ensures
        r == le64_val(v@, i as int),
{
    let _len = v.len();
    (v[i] as u64) + 0x100 * (v[i + 1] as u64) + 0x1_0000 * (v[i + 2] as u64)
        + 0x100_0000 * (v[i + 3] as u64) + 0x1_0000_0000 * (v[i + 4] as u64)
        + 0x100_0000_0000 * (v[i + 5] as u64) + 0x1_0000_0000_0000 * (v[i + 6] as u64)
        + 0x100_0000_0000_0000 * (v[i + 7] as u64)
}

/// Read the 128-bit big-endian value at `v[i..i+16]`.
pub fn read_u128_be(v: &Vec<u8>, i: usize) -> (r: u128)
    requires
        i + 16 <= v@.len(),
    ensures
        r == be128_val(v@, i as int),
{
    let _len = v.len();
    0x100_0000_0000_0000_0000_0000_0000_0000 * (v[i] as u128)
        + 0x1_0000_0000_0000_0000_0000_0000_0000 * (v[i + 1] as u128)
        + 0x100_0000_0000_0000_0000_0000_0000 * (v[i + 2] as u128)
        + 0x1_0000_0000_0000_0000_0000_0000 * (v[i + 3] as u128)
        + 0x100_0000_0000_0000_0000_0000 * (v[i + 4] as u128)
        + 0x1_0000_0000_0000_0000_0000 * (v[i + 5] as u128)
        + 0x100_0000_0000_0000_0000 * (v[i + 6] as u128)
        + 0x1_0000_0000_0000_0000 * (v[i + 7] as u128)
        + 0x100_0000_0000_0000 * (v[i + 8] as u128)
        + 0x1_0000_0000_0000 * (v[i + 9] as u128)
        + 0x100_0000_0000 * (v[i + 10] as u128)
        + 0x1_0000_0000 * (v[i + 11] as u128)
        + 0x100_0000 * (v[i + 12] as u128)
        + 0x1_0000 * (v[i + 13] as u128)
        + 0x100 * (v[i + 14] as u128)
        + (v[i + 15] as u128)
}

// ---------------------------------------------------------------------------
// Executable writes (appending serialized values to a vector)
// ---------------------------------------------------------------------------

/// Append the two little-endian bytes of `v` to `out`.
pub fn push_u16_le(out: &mut Vec<u8>, v: u16)
    ensures
        final(out)@ == old(out)@ + le16_bytes(v),
{
    out.push((v % 0x100) as u8);
    out.push((v / 0x100) as u8);
    assert(out@ =~= old(out)@ + le16_bytes(v));
}

/// Append the four little-endian bytes of `v` to `out`.
pub fn push_u32_le(out: &mut Vec<u8>, v: u32)
    ensures
        final(out)@ == old(out)@ + le32_bytes(v),
{
    out.push((v % 0x100) as u8);
    out.push(((v / 0x100) % 0x100) as u8);
    out.push(((v / 0x1_0000) % 0x100) as u8);
    out.push((v / 0x100_0000) as u8);
    assert(out@ =~= old(out)@ + le32_bytes(v));
}

/// Append the four big-endian bytes of `v` to `out`.
pub fn push_u32_be(out: &mut Vec<u8>, v: u32)
    ensures
        final(out)@ == old(out)@ + be32_bytes(v),
{
    out.push((v / 0x100_0000) as u8);
    out.push(((v / 0x1_0000) % 0x100) as u8);
    out.push(((v / 0x100) % 0x100) as u8);
    out.push((v % 0x100) as u8);
    assert(out@ =~= old(out)@ + be32_bytes(v));
}

/// Append the eight big-endian bytes of `v` to `out`.
pub fn push_u64_be(out: &mut Vec<u8>, v: u64)
    ensures
        final(out)@ == old(out)@ + be64_bytes(v),
{
    out.push((v / 0x100_0000_0000_0000) as u8);
    out.push(((v / 0x1_0000_0000_0000) % 0x100) as u8);
    out.push(((v / 0x100_0000_0000) % 0x100) as u8);
    out.push(((v / 0x1_0000_0000) % 0x100) as u8);
    out.push(((v / 0x100_0000) % 0x100) as u8);
    out.push(((v / 0x1_0000) % 0x100) as u8);
    out.push(((v / 0x100) % 0x100) as u8);
    out.push((v % 0x100) as u8);
    assert(out@ =~= old(out)@ + be64_bytes(v));
}

/// The sixteen big-endian bytes of a 128-bit value, as a fresh vector.
pub fn u128_to_be_vec(v: u128) -> (r: Vec<u8>)
    ensures
        r@ == be128_bytes(v),
{
    let mut out: Vec<u8> = Vec::new();
    out.push((v / 0x100_0000_0000_0000_0000_0000_0000_0000) as u8);
    out.push(((v / 0x1_0000_0000_0000_0000_0000_0000_0000) % 0x100) as u8);
    out.push(((v / 0x100_0000_0000_0000_0000_0000_0000) % 0x100) as u8);
    out.push(((v / 0x1_0000_0000_0000_0000_0000_0000) % 0x100) as u8);
    out.push(((v / 0x100_0000_0000_0000_0000_0000) % 0x100) as u8);
    out.push(((v / 0x1_0000_0000_0000_0000_0000) % 0x100) as u8);
    out.push(((v / 0x100_0000_0000_0000_0000) % 0x100) as u8);
    out.push(((v / 0x1_0000_0000_0000_0000) % 0x100) as u8);
    out.push(((v / 0x100_0000_0000_0000) % 0x100) as u8);
    out.push(((v / 0x1_0000_0000_0000) % 0x100) as u8);
    out.push(((v / 0x100_0000_0000) % 0x100) as u8);
    out.push(((v / 0x1_0000_0000) % 0x100) as u8);
    out.push(((v / 0x100_0000) % 0x100) as u8);
    out.push(((v / 0x1_0000) % 0x100) as u8);
    out.push(((v / 0x100) % 0x100) as u8);
    out.push((v % 0x100) as u8);
    assert(out@ =~= be128_bytes(v));
    out
}

/// The eight big-endian bytes of a 64-bit value, as a fresh vector.
pub fn u64_to_be_vec(v: u64) -> (r: Vec<u8>)
    ensures
        r@ == be64_bytes(v),
{
    let mut out: Vec<u8> = Vec::new();
    push_u64_be(&mut out, v);
    assert(out@ =~= be64_bytes(v));
    out
}

// ---------------------------------------------------------------------------
// Sequence surgery
// ---------------------------------------------------------------------------

/// A fresh vector of `n` zero bytes.
pub fn zeros(n: usize) -> (r: Vec<u8>)
    ensures
        r@ == zero_bytes(n as int),
{
    let r = vec![0u8; n];
    assert(r@ =~= zero_bytes(n as int));
    r
}

/// Append `n` zero bytes to `out`.
pub fn push_zeros(out: &mut Vec<u8>, n: usize)
    ensures
        final(out)@ == old(out)@ + zero_bytes(n as int),
{
    let z = zeros(n);
    append_bytes(out, &z);
    assert(out@ =~= old(out)@ + zero_bytes(n as int));
}

/// Append all of `src` to `dst`.
pub fn append_bytes(dst: &mut Vec<u8>, src: &Vec<u8>)
    ensures
        final(dst)@ == old(dst)@ + src@,
{
    dst.extend_from_slice(src.as_slice());
    assert(dst@ =~= old(dst)@ + src@);
}

/// Copy `src[start..start+len]` into a fresh vector.
pub fn copy_range(src: &Vec<u8>, start: usize, len: usize) -> (r: Vec<u8>)
    requires
        start + len <= src@.len(),
    ensures
        r@ == src@.subrange(start as int, start + len),
{
    let total = src.len();
    let mut out: Vec<u8> = Vec::new();
    let mut i: usize = 0;
    while i < len
        invariant
            total == src@.len(),
            start + len <= total,
            i <= len,
            out@ == src@.subrange(start as int, start + i),
        decreases len - i,
    {
        out.push(src[start + i]);
        assert(out@ =~= src@.subrange(start as int, start + i + 1));
        i = i + 1;
    }
    out
}

/// Overwrite `dst[off..off+src.len()]` with `src`, leaving the rest alone.
pub fn write_at(dst: &mut Vec<u8>, off: usize, src: &Vec<u8>)
    requires
        off + src@.len() <= old(dst)@.len(),
    ensures
        final(dst)@ == overwrite(old(dst)@, off as int, src@),
{
    let len = src.len();
    let dlen = dst.len();
    let mut i: usize = 0;
    while i < len
        invariant
            len == src@.len(),
            dlen == dst@.len(),
            off + len <= dst@.len(),
            dst@.len() == old(dst)@.len(),
            i <= len,
            forall|k: int|
                0 <= k < dst@.len() && !(off <= k < off + i) ==> dst@[k] == old(dst)@[k],
            forall|k: int| 0 <= k < i ==> dst@[off + k] == src@[k],
        decreases len - i,
    {
        dst.set(off + i, src[i]);
        i = i + 1;
    }
    assert(dst@ =~= overwrite(old(dst)@, off as int, src@));
}

} // verus!
