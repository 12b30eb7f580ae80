//! Fixed-width integer encodings in big- and little-endian byte order.

use vstd::prelude::*;

verus! {

/// Big-endian bytes of a 16-bit value.
pub open spec fn be16(n: u16) -> Seq<u8> {
    seq![(n / 256) as u8, (n % 256) as u8]
}

/// Big-endian bytes of a 32-bit value.
pub open spec fn be32(n: u32) -> Seq<u8> {
    seq![(n / 16777216) as u8, ((n / 65536) % 256) as u8, ((n / 256) % 256) as u8, (n % 256) as u8]
}

/// Little-endian bytes of a 32-bit value.
pub open spec fn le32(n: u32) -> Seq<u8> {
    seq![(n % 256) as u8, ((n / 256) % 256) as u8, ((n / 65536) % 256) as u8, (n / 16777216) as u8]
}

/// The 16-bit value of two big-endian bytes.
pub open spec fn from_be16(b: Seq<u8>) -> u16 {
    (b[0] * 256 + b[1]) as u16
}

/// The 32-bit value of four big-endian bytes.
pub open spec fn from_be32(b: Seq<u8>) -> u32 {
    (b[0] * 16777216 + b[1] * 65536 + b[2] * 256 + b[3]) as u32
}

/// A run of `n` zero bytes.
pub open spec fn zeros(n: nat) -> Seq<u8> {
    Seq::new(n, |i: int| 0u8)
}

/// Decoding big-endian bytes gives back the encoded 16-bit value.
pub proof fn lemma_be16_roundtrip(n: u16)
    ensures
        from_be16(be16(n)) == n,
{
    assert((n / 256) * 256 + n % 256 == n) by (nonlinear_arith);
}

/// Decoding big-endian bytes gives back the encoded 32-bit value.
pub proof fn lemma_be32_roundtrip(n: u32)
    ensures
        from_be32(be32(n)) == n,
{
    let a = n / 16777216;
    let b = (n / 65536) % 256;
    let c = (n / 256) % 256;
    let d = n % 256;
    assert(a * 16777216 + b * 65536 + c * 256 + d == n) by (nonlinear_arith)
        requires
            a == n / 16777216,
            b == (n / 65536) % 256,
            c == (n / 256) % 256,
            d == n % 256,
    ;
}

/// Big-endian bytes of a 16-bit value.
pub fn be16_bytes(n: u16) -> (r: [u8; 2])
    ensures
        r@ == be16(n),
{
    let r = [(n / 256) as u8, (n % 256) as u8];
    assert(r@ =~= be16(n));
    r
}

/// Big-endian bytes of a 32-bit value.
pub fn be32_bytes(n: u32) -> (r: [u8; 4])
    ensures
        r@ == be32(n),
{
    let r = [(n / 16777216) as u8, ((n / 65536) % 256) as u8, ((n / 256) % 256) as u8, (n % 256) as u8];
    assert(r@ =~= be32(n));
    r
}

/// Little-endian bytes of a 32-bit value.
pub fn le32_bytes(n: u32) -> (r: [u8; 4])
    ensures
        r@ == le32(n),
{
    let r = [(n % 256) as u8, ((n / 256) % 256) as u8, ((n / 65536) % 256) as u8, (n / 16777216) as u8];
    assert(r@ =~= le32(n));
    r
}

/// The 16-bit value of two big-endian bytes.
pub fn read_be16(b0: u8, b1: u8) -> (r: u16)
    ensures
        r == from_be16(seq![b0, b1]),
{
    (b0 as u16) * 256 + (b1 as u16)
}

/// The 32-bit value of four big-endian bytes.
pub fn read_be32(b0: u8, b1: u8, b2: u8, b3: u8) -> (r: u32)
    ensures
        r == from_be32(seq![b0, b1, b2, b3]),
{
    (b0 as u32) * 16777216 + (b1 as u32) * 65536 + (b2 as u32) * 256 + (b3 as u32)
}

} // verus!
