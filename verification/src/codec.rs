//! Big-endian encoding of stream offsets, as they are stored in the database.

use vstd::prelude::*;

verus! {

/// Number of bytes of an encoded offset.
pub const OFFSET_LEN: usize = 8;

/// The big-endian bytes of `x`, most significant byte first.
pub open spec fn be_bytes(x: u64) -> Seq<u8> {
    seq![
        (x >> 56u64) as u8,
        (x >> 48u64) as u8,
        (x >> 40u64) as u8,
        (x >> 32u64) as u8,
        (x >> 24u64) as u8,
        (x >> 16u64) as u8,
        (x >> 8u64) as u8,
        x as u8,
    ]
}

/// The number whose big-endian bytes are `b0 .. b7`.
pub open spec fn from_be8(b0: u8, b1: u8, b2: u8, b3: u8, b4: u8, b5: u8, b6: u8, b7: u8) -> u64 {
    ((b0 as u64) << 56u64) | ((b1 as u64) << 48u64) | ((b2 as u64) << 40u64) | ((b3 as u64)
        << 32u64) | ((b4 as u64) << 24u64) | ((b5 as u64) << 16u64) | ((b6 as u64) << 8u64) | (
    b7 as u64)
}

/// The number that an eight-byte big-endian sequence stands for.
pub open spec fn from_be_bytes(b: Seq<u8>) -> u64
    recommends
        b.len() == 8,
{
    from_be8(b[0], b[1], b[2], b[3], b[4], b[5], b[6], b[7])
}

/// The offset that stored bytes stand for: `None` unless there are exactly eight of them.
pub open spec fn decoded(b: Seq<u8>) -> Option<u64> {
    if b.len() == 8 {
        Some(from_be_bytes(b))
    } else {
        None
    }
}

/// Encodes `offset` as its eight big-endian bytes.
pub fn encode_offset(offset: u64) -> (bytes: Vec<u8>)
    ensures
        bytes@ == be_bytes(offset),
{
    let mut bytes: Vec<u8> = Vec::new();
    bytes.push((offset >> 56u64) as u8);
    bytes.push((offset >> 48u64) as u8);
    bytes.push((offset >> 40u64) as u8);
    bytes.push((offset >> 32u64) as u8);
    bytes.push((offset >> 24u64) as u8);
    bytes.push((offset >> 16u64) as u8);
    bytes.push((offset >> 8u64) as u8);
    bytes.push(offset as u8);
    assert(bytes@ =~= be_bytes(offset));
    bytes
}

/// Decodes stored bytes into an offset; `None` when they are not exactly eight bytes long.
pub fn decode_offset(bytes: &[u8]) -> (r: Option<u64>)
    ensures
        r == decoded(bytes@),
{
    if bytes.len() != OFFSET_LEN {
        return None;
    }
    let v: u64 = ((bytes[0] as u64) << 56u64) | ((bytes[1] as u64) << 48u64) | ((bytes[2] as u64)
        << 40u64) | ((bytes[3] as u64) << 32u64) | ((bytes[4] as u64) << 24u64) | ((
    bytes[5] as u64) << 16u64) | ((bytes[6] as u64) << 8u64) | (bytes[7] as u64);
    Some(v)
}

/// Decoding the encoding of an offset gives the offset back.
pub proof fn lemma_decode_encode(x: u64)
    ensures
        be_bytes(x).len() == 8,
        decoded(be_bytes(x)) == Some(x),
{
    let b = be_bytes(x);
    assert(from_be8(
        (x >> 56u64) as u8,
        (x >> 48u64) as u8,
        (x >> 40u64) as u8,
        (x >> 32u64) as u8,
        (x >> 24u64) as u8,
        (x >> 16u64) as u8,
        (x >> 8u64) as u8,
        x as u8,
    ) == x) by (bit_vector);
}

/// Every eight-byte value is the encoding of the offset it decodes to.
pub proof fn lemma_encode_decode(b: Seq<u8>)
    requires
        b.len() == 8,
    ensures
        be_bytes(from_be_bytes(b)) == b,
{
    let (b0, b1, b2, b3, b4, b5, b6, b7) = (b[0], b[1], b[2], b[3], b[4], b[5], b[6], b[7]);
    let x = from_be8(b0, b1, b2, b3, b4, b5, b6, b7);
    assert(x == from_be8(b0, b1, b2, b3, b4, b5, b6, b7) ==> {
        &&& (x >> 56u64) as u8 == b0
        &&& (x >> 48u64) as u8 == b1
        &&& (x >> 40u64) as u8 == b2
        &&& (x >> 32u64) as u8 == b3
        &&& (x >> 24u64) as u8 == b4
        &&& (x >> 16u64) as u8 == b5
        &&& (x >> 8u64) as u8 == b6
        &&& x as u8 == b7
    }) by (bit_vector);
    assert(be_bytes(x) =~= b);
}

/// Two offsets with the same encoding are equal.
pub proof fn lemma_encoding_injective(x: u64, y: u64)
    requires
        be_bytes(x) == be_bytes(y),
    ensures
        x == y,
{
    lemma_decode_encode(x);
    lemma_decode_encode(y);
}

} // verus!
