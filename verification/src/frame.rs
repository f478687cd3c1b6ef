//! Framing of companion messages: each message travels as a 4-byte
//! little-endian length followed by its payload.

use vstd::prelude::*;

verus! {

/// The number that four little-endian bytes stand for.
pub open spec fn le_u32_value(b: Seq<u8>) -> int {
    b[0] as int + 256 * (b[1] as int) + 65536 * (b[2] as int) + 16777216 * (b[3] as int)
}

/// The four little-endian bytes of `n`.
pub open spec fn le_u32_bytes(n: u32) -> Seq<u8> {
    seq![(n & 0xff) as u8, ((n >> 8u32) & 0xff) as u8, ((n >> 16u32) & 0xff) as u8, ((n >> 24u32) & 0xff) as u8]
}

/// The length header of a payload of `len` bytes: the length as `u32`, little-endian.
pub fn encode_frame_len(len: usize) -> (h: [u8; 4])
    ensures
        h@ == le_u32_bytes(len as u32),
{
    let n = len as u32;
    let h = [(n & 0xff) as u8, ((n >> 8u32) & 0xff) as u8, ((n >> 16u32) & 0xff) as u8, ((n >> 24u32) & 0xff) as u8];
    assert(h@ =~= le_u32_bytes(n));
    h
}

/// The payload length that a header announces.
pub fn decode_frame_len(h: [u8; 4]) -> (n: u32)
    ensures
        n as int == le_u32_value(h@),
{
    let b0 = h[0] as u32;
    let b1 = h[1] as u32;
    let b2 = h[2] as u32;
    let b3 = h[3] as u32;
    b0 + 256 * b1 + 65536 * b2 + 16777216 * b3
}

/// A whole frame: the length header followed by the payload.
pub fn frame_message(payload: &[u8]) -> (f: Vec<u8>)
    ensures
        f@ == le_u32_bytes(payload@.len() as u32) + payload@,
{
    let h = encode_frame_len(payload.len());
    let mut f: Vec<u8> = Vec::new();
    f.push(h[0]);
    f.push(h[1]);
    f.push(h[2]);
    f.push(h[3]);
    let n = payload.len();
    let mut i: usize = 0;
    while i < n
        invariant
            n == payload@.len(),
            0 <= i <= n,
            h@ == le_u32_bytes(n as u32),
            f@ == h@ + payload@.take(i as int),
        decreases n - i,
    {
        f.push(payload[i]);
        assert(payload@.take(i + 1) =~= payload@.take(i as int).push(payload@[i as int]));
        assert(f@ =~= h@ + payload@.take(i + 1));
        i = i + 1;
    }
    assert(payload@.take(n as int) =~= payload@);
    assert(h@.len() == 4);
    assert(f@ =~= le_u32_bytes(payload@.len() as u32) + payload@);
    f
}

proof fn lemma_bytes_value(n: u32)
    ensures
        (n & 0xff) as int + 256 * (((n >> 8u32) & 0xff) as int) + 65536 * (((n >> 16u32) & 0xff) as int)
            + 16777216 * (((n >> 24u32) & 0xff) as int) == n as int,
{
    assert((n & 0xff) + 256 * ((n >> 8u32) & 0xff) + 65536 * ((n >> 16u32) & 0xff) + 16777216 * ((n >> 24u32) & 0xff) == n) by (bit_vector);
}

/// Reading a length header back gives the length that was written.
pub proof fn lemma_frame_len_roundtrip(n: u32)
    ensures
        le_u32_value(le_u32_bytes(n)) == n as int,
{
    lemma_bytes_value(n);
    assert(((n & 0xff) as u8) as int == (n & 0xff) as int) by (bit_vector);
    assert((((n >> 8u32) & 0xff) as u8) as int == ((n >> 8u32) & 0xff) as int) by (bit_vector);
    assert((((n >> 16u32) & 0xff) as u8) as int == ((n >> 16u32) & 0xff) as int) by (bit_vector);
    assert((((n >> 24u32) & 0xff) as u8) as int == ((n >> 24u32) & 0xff) as int) by (bit_vector);
}

} // verus!
