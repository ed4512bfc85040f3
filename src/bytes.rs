//! Byte orders of multi-byte fields.
use vstd::prelude::*;

verus! {

/// A 16-bit word as two bytes, most significant first.
pub open spec fn be16(v: u16) -> Seq<u8> {
    seq![(v / 256) as u8, (v % 256) as u8]
}

/// The 16-bit word that two bytes give, most significant first.
pub open spec fn be16_value(hi: u8, lo: u8) -> u16 {
    (hi as int * 256 + lo as int) as u16
}

/// A 32-bit word as four bytes, most significant first.
pub open spec fn be32(v: u32) -> Seq<u8> {
    seq![
        (v / 0x100_0000) as u8,
        ((v / 0x1_0000) % 256) as u8,
        ((v / 256) % 256) as u8,
        (v % 256) as u8,
    ]
}

/// The low 24 bits of a word as three bytes, most significant first.
pub open spec fn be24(v: int) -> Seq<u8> {
    seq![((v / 0x1_0000) % 256) as u8, ((v / 256) % 256) as u8, (v % 256) as u8]
}

/// Splits a 16-bit word into two bytes, most significant first.
pub fn u16_to_be(v: u16) -> (r: [u8; 2])
    ensures
        r@ == be16(v),
{
    let r = [(v / 256) as u8, (v % 256) as u8];
    assert(r@ =~= be16(v));
    r
}

/// Joins two bytes, most significant first, into a 16-bit word.
pub fn u16_from_be(hi: u8, lo: u8) -> (r: u16)
    ensures
        r == be16_value(hi, lo),
        be16(r) == seq![hi, lo],
{
    let r = hi as u16 * 256 + lo as u16;
    assert(be16(r) =~= seq![hi, lo]);
    r
}

/// Splits a 32-bit word into four bytes, most significant first.
pub fn u32_to_be(v: u32) -> (r: [u8; 4])
    ensures
        r@ == be32(v),
{
    let r = [
        (v / 0x100_0000) as u8,
        ((v / 0x1_0000) % 256) as u8,
        ((v / 256) % 256) as u8,
        (v % 256) as u8,
    ];
    assert(r@ =~= be32(v));
    r
}

/// Splits a word below 2^24 into three bytes, most significant first.
pub fn u24_to_be(v: u32) -> (r: [u8; 3])
    requires
        v < 0x100_0000,
    ensures
        r@ == be24(v as int),
{
    let r = [(v / 0x1_0000) as u8, (v / 256 % 256) as u8, (v % 256) as u8];
    assert(r@ =~= be24(v as int));
    r
}

} // verus!
