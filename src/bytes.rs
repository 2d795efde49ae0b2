use vstd::prelude::*;

verus! {

/// The little-endian bytes of a 64-bit word.
pub open spec fn u64_le_bytes(x: u64) -> Seq<u8> {
    seq![
        x as u8,
        (x >> 8u64) as u8,
        (x >> 16u64) as u8,
        (x >> 24u64) as u8,
        (x >> 32u64) as u8,
        (x >> 40u64) as u8,
        (x >> 48u64) as u8,
        (x >> 56u64) as u8,
    ]
}

/// The 64-bit word whose little-endian bytes are the first eight of `b`.
pub open spec fn u64_from_le(b: Seq<u8>) -> u64 {
    (b[0] as u64) | ((b[1] as u64) << 8u64) | ((b[2] as u64) << 16u64) | ((b[3] as u64)
        << 24u64) | ((b[4] as u64) << 32u64) | ((b[5] as u64) << 40u64) | ((b[6] as u64)
        << 48u64) | ((b[7] as u64) << 56u64)
}

/// The two's-complement little-endian bytes of a signed 64-bit word.
pub open spec fn i64_le_bytes(v: i64) -> Seq<u8> {
    u64_le_bytes(v as u64)
}

/// The signed 64-bit word whose little-endian bytes are the first eight of `b`.
pub open spec fn i64_from_le(b: Seq<u8>) -> i64 {
    u64_from_le(b) as i64
}

pub proof fn lemma_u64_le_round_trip(x: u64)
    ensures
        u64_le_bytes(x).len() == 8,
        u64_from_le(u64_le_bytes(x)) == x,
{
    let b = u64_le_bytes(x);
    assert(((x as u8) as u64) | ((((x >> 8u64) as u8) as u64) << 8u64) | ((((x >> 16u64) as u8)
        as u64) << 16u64) | ((((x >> 24u64) as u8) as u64) << 24u64) | ((((x >> 32u64) as u8)
        as u64) << 32u64) | ((((x >> 40u64) as u8) as u64) << 40u64) | ((((x >> 48u64) as u8)
        as u64) << 48u64) | ((((x >> 56u64) as u8) as u64) << 56u64) == x) by (bit_vector);
}

pub proof fn lemma_i64_le_round_trip(v: i64)
    ensures
        i64_le_bytes(v).len() == 8,
        i64_from_le(i64_le_bytes(v)) == v,
{
    lemma_u64_le_round_trip(v as u64);
    assert(((v as u64) as i64) == v) by (bit_vector);
}

/// Appends the little-endian bytes of `v`.
pub fn push_i64_le(out: &mut Vec<u8>, v: i64)
    ensures
        final(out)@ == old(out)@ + i64_le_bytes(v),
{
    let x: u64 = v as u64;
    out.push(x as u8);
    out.push((x >> 8u64) as u8);
    out.push((x >> 16u64) as u8);
    out.push((x >> 24u64) as u8);
    out.push((x >> 32u64) as u8);
    out.push((x >> 40u64) as u8);
    out.push((x >> 48u64) as u8);
    out.push((x >> 56u64) as u8);
    assert(final(out)@ =~= old(out)@ + i64_le_bytes(v));
}

/// Reads the signed little-endian word stored at `start`.
pub fn read_i64_le(data: &[u8], start: usize) -> (r: i64)
    requires
        start + 8 <= data@.len(),
    ensures
        r == i64_from_le(data@.subrange(start as int, start + 8)),
{
    let ghost b = data@.subrange(start as int, start + 8);
    let x: u64 = (data[start] as u64) | ((data[start + 1] as u64) << 8u64) | ((data[start + 2]
        as u64) << 16u64) | ((data[start + 3] as u64) << 24u64) | ((data[start + 4] as u64)
        << 32u64) | ((data[start + 5] as u64) << 40u64) | ((data[start + 6] as u64) << 48u64)
        | ((data[start + 7] as u64) << 56u64);
    assert(x == u64_from_le(b));
    x as i64
}

/// Appends all bytes of `src`.
pub fn push_all(out: &mut Vec<u8>, src: &Vec<u8>)
    ensures
        final(out)@ == old(out)@ + src@,
{
    let mut i: usize = 0;
    while i < src.len()
        invariant
            0 <= i <= src@.len(),
            out@ == old(out)@ + src@.subrange(0, i as int),
        decreases src@.len() - i,
    {
        out.push(src[i]);
        i = i + 1;
        assert(out@ =~= old(out)@ + src@.subrange(0, i as int));
    }
    assert(src@.subrange(0, src@.len() as int) =~= src@);
}

} // verus!
