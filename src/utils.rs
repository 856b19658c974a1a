//! Byte and word helpers shared by the register file and the memory bus.
use vstd::prelude::*;

verus! {

/// The high byte of a 16-bit value.
pub open spec fn hi(v: u16) -> u8 {
    (v / 256) as u8
}

/// The low byte of a 16-bit value.
pub open spec fn lo(v: u16) -> u8 {
    (v % 256) as u8
}

/// The 16-bit value whose high byte is `h` and low byte is `l`.
pub open spec fn word(h: u8, l: u8) -> u16 {
    (h as int * 256 + l as int) as u16
}

/// `source` with bit `index` replaced by `val`.
pub open spec fn with_bit(source: u8, index: u8, val: bool) -> u8 {
    if val {
        source | (1u8 << index)
    } else {
        source & !(1u8 << index)
    }
}

/// Whether bit `index` of `v` is set.
pub open spec fn bit_of(v: u8, index: u8) -> bool {
    (v >> index) & 1 == 1
}

/// Splits a 16-bit value into its high and low bytes.
pub fn split_u16(to_split: u16) -> (r: (u8, u8))
    ensures
        r.0 == hi(to_split),
        r.1 == lo(to_split),
{
    let h = (to_split >> 8) as u8;
    let l = (to_split & 0xFF) as u8;
    assert(h == hi(to_split) && l == lo(to_split)) by (bit_vector)
        requires
            h == (to_split >> 8) as u8,
            l == (to_split & 0xFF) as u8,
    ;
    (h, l)
}

/// Merges a high byte and a low byte into one 16-bit value.
pub fn merge_u8s(h: u8, l: u8) -> (r: u16)
    ensures
        r == word(h, l),
{
    let r = ((h as u16) << 8) | (l as u16);
    assert(r == word(h, l)) by (bit_vector)
        requires
            r == ((h as u16) << 8) | (l as u16),
    ;
    r
}

/// Sets bit `index` of `source` to `val`, leaving the other bits as they are.
pub fn set_bit(source: u8, index: u8, val: bool) -> (r: u8)
    requires
        index < 8,
    ensures
        r == with_bit(source, index, val),
{
    let mask: u8 = 1u8 << index;
    if val {
        source | mask
    } else {
        source & !mask
    }
}

/// Splitting a word and merging its bytes gives the word back, and merging
/// two bytes and splitting the result gives the bytes back.
pub proof fn lemma_word_round_trip(v: u16, h: u8, l: u8)
    ensures
        word(hi(v), lo(v)) == v,
        hi(word(h, l)) == h,
        lo(word(h, l)) == l,
{
}

} // verus!
