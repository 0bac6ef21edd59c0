//! Fixed-width integer encodings used on the wire and in persistent storage.
use vstd::prelude::*;

verus! {

/// The four bytes of `x`, least significant first.
pub open spec fn le_bytes(x: u32) -> Seq<u8> {
    seq![
        (x % 0x100) as u8,
        ((x / 0x100) % 0x100) as u8,
        ((x / 0x1_0000) % 0x100) as u8,
        (x / 0x100_0000) as u8,
    ]
}

/// The number whose little-endian encoding starts `s`; `s` holds at least four bytes.
pub open spec fn le_value(s: Seq<u8>) -> int
    recommends
        s.len() >= 4,
{
    s[0] + 0x100 * s[1] + 0x1_0000 * s[2] + 0x100_0000 * s[3]
}

/// The number whose big-endian encoding starts `s`; `s` holds at least four bytes.
pub open spec fn be_value(s: Seq<u8>) -> int
    recommends
        s.len() >= 4,
{
    s[3] + 0x100 * s[2] + 0x1_0000 * s[1] + 0x100_0000 * s[0]
}

/// Decoding a little-endian encoding gives the number back.
pub proof fn lemma_le_round_trip(x: u32)
    ensures
        le_bytes(x).len() == 4,
        le_value(le_bytes(x)) == x,
{
}

/// Encoding a decoded little-endian word gives the bytes back.
pub proof fn lemma_le_bytes_of_value(s: Seq<u8>)
    requires
        s.len() == 4,
    ensures
        0 <= le_value(s) <= u32::MAX,
        le_bytes(le_value(s) as u32) == s,
{
    let v = le_value(s);
    let upper = s[1] + 0x100 * s[2] + 0x1_0000 * s[3];
    let top = s[2] + 0x100 * s[3];
    assert(v == s[0] + 0x100 * upper);
    assert(upper == s[1] + 0x100 * top);
    assert(v % 0x100 == s[0] && v / 0x100 == upper);
    assert(upper % 0x100 == s[1] && upper / 0x100 == top);
    assert(top % 0x100 == s[2] && top / 0x100 == s[3]);
    assert(v / 0x1_0000 == top);
    assert(v / 0x100_0000 == s[3]);
    assert(le_bytes(v as u32) =~= s);
}

/// Encodes `x` as four bytes, least significant first.
pub fn u32_to_le_bytes(x: u32) -> (bytes: [u8; 4])
    ensures
        bytes@ == le_bytes(x),
{
    let bytes = [
        (x % 0x100) as u8,
        ((x / 0x100) % 0x100) as u8,
        ((x / 0x1_0000) % 0x100) as u8,
        (x / 0x100_0000) as u8,
    ];
    assert(bytes@ =~= le_bytes(x));
    bytes
}

/// Decodes four bytes, least significant first.
pub fn u32_from_le_bytes(bytes: [u8; 4]) -> (x: u32)
    ensures
        x == le_value(bytes@),
{
    bytes[0] as u32 + 0x100 * (bytes[1] as u32) + 0x1_0000 * (bytes[2] as u32) + 0x100_0000 * (
    bytes[3] as u32)
}

/// Decodes four bytes, most significant first.
pub fn u32_from_be_bytes(bytes: [u8; 4]) -> (x: u32)
    ensures
        x == be_value(bytes@),
{
    bytes[3] as u32 + 0x100 * (bytes[2] as u32) + 0x1_0000 * (bytes[1] as u32) + 0x100_0000 * (
    bytes[0] as u32)
}

} // verus!
