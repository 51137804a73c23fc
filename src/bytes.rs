//! Big-endian integer layouts and small byte-buffer helpers.

use vstd::prelude::*;

verus! {

/// The two big-endian bytes of `v`.
pub open spec fn be16(v: u16) -> Seq<u8> {
    seq![(v >> 8u16) as u8, v as u8]
}

/// The four big-endian bytes of `v`.
pub open spec fn be32(v: u32) -> Seq<u8> {
    seq![(v >> 24u32) as u8, (v >> 16u32) as u8, (v >> 8u32) as u8, v as u8]
}

/// The eight big-endian bytes of `v`.
pub open spec fn be64(v: u64) -> Seq<u8> {
    seq![
        (v >> 56u64) as u8,
        (v >> 48u64) as u8,
        (v >> 40u64) as u8,
        (v >> 32u64) as u8,
        (v >> 24u64) as u8,
        (v >> 16u64) as u8,
        (v >> 8u64) as u8,
        v as u8,
    ]
}

/// The value of the two big-endian bytes of `b` starting at `i`.
pub open spec fn read_be16(b: Seq<u8>, i: int) -> u16 {
    ((b[i] as u16) << 8u16) | (b[i + 1] as u16)
}

/// The value of the four big-endian bytes of `b` starting at `i`.
pub open spec fn read_be32(b: Seq<u8>, i: int) -> u32 {
    ((b[i] as u32) << 24u32) | ((b[i + 1] as u32) << 16u32) | ((b[i + 2] as u32) << 8u32) | (
    b[i + 3] as u32)
}

/// The value of the eight big-endian bytes of `b` starting at `i`.
pub open spec fn read_be64(b: Seq<u8>, i: int) -> u64 {
    ((b[i] as u64) << 56u64) | ((b[i + 1] as u64) << 48u64) | ((b[i + 2] as u64) << 40u64) | ((
    b[i + 3] as u64) << 32u64) | ((b[i + 4] as u64) << 24u64) | ((b[i + 5] as u64) << 16u64) | ((
    b[i + 6] as u64) << 8u64) | (b[i + 7] as u64)
}

/// Reading back the bytes of `be16(v)` gives `v`.
pub proof fn lemma_be16_round_trip(v: u16, pre: Seq<u8>, post: Seq<u8>)
    ensures
        read_be16(pre + be16(v) + post, pre.len() as int) == v,
{
    let b = pre + be16(v) + post;
    let i = pre.len() as int;
    assert(b[i] == (v >> 8u16) as u8 && b[i + 1] == v as u8);
    assert((((((v >> 8u16) as u8) as u16) << 8u16) | ((v as u8) as u16)) == v) by (bit_vector);
}

/// Reading back the bytes of `be32(v)` gives `v`.
pub proof fn lemma_be32_round_trip(v: u32, pre: Seq<u8>, post: Seq<u8>)
    ensures
        read_be32(pre + be32(v) + post, pre.len() as int) == v,
{
    let b = pre + be32(v) + post;
    let i = pre.len() as int;
    assert(b[i] == (v >> 24u32) as u8 && b[i + 1] == (v >> 16u32) as u8 && b[i + 2] == (v
        >> 8u32) as u8 && b[i + 3] == v as u8);
    assert((((((v >> 24u32) as u8) as u32) << 24u32) | ((((v >> 16u32) as u8) as u32) << 16u32)
        | ((((v >> 8u32) as u8) as u32) << 8u32) | ((v as u8) as u32)) == v) by (bit_vector);
}

/// Reading back the bytes of `be64(v)` gives `v`.
pub proof fn lemma_be64_round_trip(v: u64, pre: Seq<u8>, post: Seq<u8>)
    ensures
        read_be64(pre + be64(v) + post, pre.len() as int) == v,
{
    let b = pre + be64(v) + post;
    let i = pre.len() as int;
    assert(b[i] == (v >> 56u64) as u8 && b[i + 1] == (v >> 48u64) as u8 && b[i + 2] == (v
        >> 40u64) as u8 && b[i + 3] == (v >> 32u64) as u8 && b[i + 4] == (v >> 24u64) as u8
        && b[i + 5] == (v >> 16u64) as u8 && b[i + 6] == (v >> 8u64) as u8 && b[i + 7]
        == v as u8);
    assert((((((v >> 56u64) as u8) as u64) << 56u64) | ((((v >> 48u64) as u8) as u64) << 48u64)
        | ((((v >> 40u64) as u8) as u64) << 40u64) | ((((v >> 32u64) as u8) as u64) << 32u64)
        | ((((v >> 24u64) as u8) as u64) << 24u64) | ((((v >> 16u64) as u8) as u64) << 16u64)
        | ((((v >> 8u64) as u8) as u64) << 8u64) | ((v as u8) as u64)) == v) by (bit_vector);
}

/// Appends every byte of `b` to `out`.
pub fn push_all(out: &mut Vec<u8>, b: &[u8])
    ensures
        final(out)@ == old(out)@ + b@,
{
    let mut i: usize = 0;
    while i < b.len()
        invariant
            i <= b@.len(),
            out@ == old(out)@ + b@.subrange(0, i as int),
        decreases b@.len() - i,
    {
        out.push(b[i]);
        i = i + 1;
        assert(b@.subrange(0, i as int) == b@.subrange(0, i - 1) + seq![b@[i - 1]]);
    }
    assert(b@.subrange(0, b@.len() as int) == b@);
}

/// Appends the big-endian bytes of `v` to `out`.
pub fn push_be16(out: &mut Vec<u8>, v: u16)
    ensures
        final(out)@ == old(out)@ + be16(v),
{
    out.push((v >> 8u16) as u8);
    out.push(v as u8);
    assert(out@ =~= old(out)@ + be16(v));
}

/// Appends the big-endian bytes of `v` to `out`.
pub fn push_be32(out: &mut Vec<u8>, v: u32)
    ensures
        final(out)@ == old(out)@ + be32(v),
{
    out.push((v >> 24u32) as u8);
    out.push((v >> 16u32) as u8);
    out.push((v >> 8u32) as u8);
    out.push(v as u8);
    assert(out@ =~= old(out)@ + be32(v));
}

/// Appends the big-endian bytes of `v` to `out`.
pub fn push_be64(out: &mut Vec<u8>, v: u64)
    ensures
        final(out)@ == old(out)@ + be64(v),
{
    out.push((v >> 56u64) as u8);
    out.push((v >> 48u64) as u8);
    out.push((v >> 40u64) as u8);
    out.push((v >> 32u64) as u8);
    out.push((v >> 24u64) as u8);
    out.push((v >> 16u64) as u8);
    out.push((v >> 8u64) as u8);
    out.push(v as u8);
    assert(out@ =~= old(out)@ + be64(v));
}

/// Reads the big-endian `u16` at `i`.
pub fn get_be16(b: &[u8], i: usize) -> (r: u16)
    requires
        i + 2 <= b@.len(),
    ensures
        r == read_be16(b@, i as int),
{
    ((b[i] as u16) << 8u16) | (b[i + 1] as u16)
}

/// Reads the big-endian `u32` at `i`.
pub fn get_be32(b: &[u8], i: usize) -> (r: u32)
    requires
        i + 4 <= b@.len(),
    ensures
        r == read_be32(b@, i as int),
{
    ((b[i] as u32) << 24u32) | ((b[i + 1] as u32) << 16u32) | ((b[i + 2] as u32) << 8u32) | (b[i
        + 3] as u32)
}

/// Reads the big-endian `u64` at `i`.
pub fn get_be64(b: &[u8], i: usize) -> (r: u64)
    requires
        i + 8 <= b@.len(),
    ensures
        r == read_be64(b@, i as int),
{
    ((b[i] as u64) << 56u64) | ((b[i + 1] as u64) << 48u64) | ((b[i + 2] as u64) << 40u64) | ((b[i
        + 3] as u64) << 32u64) | ((b[i + 4] as u64) << 24u64) | ((b[i + 5] as u64) << 16u64) | ((b[i
        + 6] as u64) << 8u64) | (b[i + 7] as u64)
}

/// Copies the `N` bytes of `b` starting at `i` into an array.
pub fn get_array<const N: usize>(b: &[u8], i: usize) -> (r: [u8; N])
    requires
        i + N <= b@.len(),
    ensures
        r@ == b@.subrange(i as int, i + N),
{
    let mut r = [0u8; N];
    let len = b.len();
    let mut k: usize = 0;
    while k < N
        invariant
            k <= N,
            i + N <= b@.len(),
            len == b@.len(),
            r@.len() == N,
            forall|j: int| 0 <= j < k ==> r@[j] == b@[i + j],
        decreases N - k,
    {
        r[k] = b[i + k];
        k = k + 1;
    }
    assert(r@ =~= b@.subrange(i as int, i + N));
    r
}

} // verus!
