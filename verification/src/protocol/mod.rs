//! The protocol v2 wire codec and controller, with the little-endian
//! byte-pair helpers both share.

use vstd::prelude::*;

pub mod v2;

verus! {

/// The low byte of a 16-bit value.
pub open spec fn lo(x: u16) -> u8 {
    (x % 256) as u8
}

/// The high byte of a 16-bit value.
pub open spec fn hi(x: u16) -> u8 {
    (x / 256) as u8
}

/// The 16-bit value carried little-endian by a low and a high byte.
pub open spec fn word(l: u8, h: u8) -> u16 {
    (l + 256 * h) as u16
}

/// Every 16-bit value is the word of its own low and high bytes, and a
/// word built from any two bytes splits back into exactly those bytes.
pub proof fn lemma_word_bytes(x: u16, l: u8, h: u8)
    ensures
        word(lo(x), hi(x)) == x,
        lo(word(l, h)) == l,
        hi(word(l, h)) == h,
{
    assert(x % 256 + 256 * (x / 256) == x) by (nonlinear_arith);
    assert((l + 256 * h) % 256 == l as int) by (nonlinear_arith)
        requires
            l < 256,
    ;
    assert((l + 256 * h) / 256 == h as int) by (nonlinear_arith)
        requires
            l < 256,
    ;
}

/// Joins a low and a high byte into the 16-bit value they carry
/// little-endian.
pub fn pack(l: u8, h: u8) -> (r: u16)
    ensures
        r == word(l, h),
{
    l as u16 + 256 * (h as u16)
}

/// Splits a 16-bit value into its low and high bytes.
pub fn unpack(x: u16) -> (r: (u8, u8))
    ensures
        r.0 == lo(x),
        r.1 == hi(x),
{
    ((x % 256) as u8, (x / 256) as u8)
}

} // verus!
