//! Deterministic encodings for primitive scalar values: the 128-bit
//! unsigned magnitude as a fixed 16-byte big-endian array.

use vstd::prelude::*;

verus! {

/// The big-endian bytes of a 64-bit value, most significant first.
pub open spec fn spec_be8(n: u64) -> Seq<u8> {
    seq![
        (n >> 56) as u8,
        (n >> 48) as u8,
        (n >> 40) as u8,
        (n >> 32) as u8,
        (n >> 24) as u8,
        (n >> 16) as u8,
        (n >> 8) as u8,
        n as u8,
    ]
}

/// The big-endian bytes of a 128-bit value: the high half, then the low half.
pub open spec fn spec_be16(n: u128) -> Seq<u8> {
    spec_be8((n >> 64) as u64) + spec_be8(n as u64)
}

/// The 64-bit value read back from 8 big-endian bytes.
pub open spec fn spec_read_be8(s: Seq<u8>) -> u64
    recommends
        s.len() == 8,
{
    (((s[0] as u64) << 56) | ((s[1] as u64) << 48) | ((s[2] as u64) << 40)
        | ((s[3] as u64) << 32) | ((s[4] as u64) << 24) | ((s[5] as u64) << 16)
        | ((s[6] as u64) << 8) | (s[7] as u64)) as u64
}

/// The 128-bit value read back from 16 big-endian bytes.
pub open spec fn spec_read_be16(s: Seq<u8>) -> u128
    recommends
        s.len() == 16,
{
    (((spec_read_be8(s.subrange(0, 8)) as u128) << 64)
        | (spec_read_be8(s.subrange(8, 16)) as u128)) as u128
}

fn push_be8(buf: &mut Vec<u8>, n: u64)
    ensures
        final(buf)@ == old(buf)@ + spec_be8(n),
{
    buf.push((n >> 56) as u8);
    buf.push((n >> 48) as u8);
    buf.push((n >> 40) as u8);
    buf.push((n >> 32) as u8);
    buf.push((n >> 24) as u8);
    buf.push((n >> 16) as u8);
    buf.push((n >> 8) as u8);
    buf.push(n as u8);
    assert(buf@ =~= old(buf)@ + spec_be8(n));
}

/// Encode a 128-bit magnitude as exactly 16 big-endian bytes.
pub fn encode_uint128(n: u128) -> (r: Vec<u8>)
    ensures
        r@ == spec_be16(n),
        r@.len() == 16,
{
    let mut buf: Vec<u8> = Vec::new();
    push_be8(&mut buf, (n >> 64) as u64);
    push_be8(&mut buf, n as u64);
    assert(buf@ =~= spec_be16(n));
    buf
}

fn read_be8(s: &Vec<u8>, start: usize) -> (r: u64)
    requires
        start + 8 <= s@.len(),
    ensures
        r == spec_read_be8(s@.subrange(start as int, start as int + 8)),
{
    let _len = s.len();
    let r = ((s[start] as u64) << 56) | ((s[start + 1] as u64) << 48)
        | ((s[start + 2] as u64) << 40) | ((s[start + 3] as u64) << 32)
        | ((s[start + 4] as u64) << 24) | ((s[start + 5] as u64) << 16)
        | ((s[start + 6] as u64) << 8) | (s[start + 7] as u64);
    assert(s@.subrange(start as int, start as int + 8)[0] == s@[start as int]);
    r
}

/// Decode 16 big-endian bytes back into the 128-bit magnitude they encode.
pub fn decode_uint128(s: &Vec<u8>) -> (r: u128)
    requires
        s@.len() == 16,
    ensures
        r == spec_read_be16(s@),
{
    let hi = read_be8(s, 0);
    let lo = read_be8(s, 8);
    ((hi as u128) << 64) | (lo as u128)
}

proof fn lemma_be8_read(n: u64)
    ensures
        spec_read_be8(spec_be8(n)) == n,
{
    assert((((((n >> 56) as u8) as u64) << 56) | ((((n >> 48) as u8) as u64) << 48)
        | ((((n >> 40) as u8) as u64) << 40) | ((((n >> 32) as u8) as u64) << 32)
        | ((((n >> 24) as u8) as u64) << 24) | ((((n >> 16) as u8) as u64) << 16)
        | ((((n >> 8) as u8) as u64) << 8) | ((n as u8) as u64)) == n) by (bit_vector);
}

/// The 128-bit scalar encoding is exact and reversible: reading the 16-byte
/// big-endian array back yields the value that was encoded.
pub proof fn lemma_uint128_round_trip(n: u128)
    ensures
        spec_be16(n).len() == 16,
        spec_read_be16(spec_be16(n)) == n,
{
    let hi = (n >> 64) as u64;
    let lo = n as u64;
    assert(spec_be16(n).subrange(0, 8) =~= spec_be8(hi));
    assert(spec_be16(n).subrange(8, 16) =~= spec_be8(lo));
    lemma_be8_read(hi);
    lemma_be8_read(lo);
    assert(((((n >> 64) as u64) as u128) << 64) | (((n as u64) as u128)) == n) by (bit_vector);
}

} // verus!
