//! Value composition: how two one-byte register reads are combined,
//! most-significant byte first, into one 16-bit raw reading, and how a
//! reading splits back into its two bytes.

use vstd::prelude::*;

verus! {

/// The 16-bit raw reading made of an upper and a lower register byte: the
/// upper byte in the high eight bits, the lower byte in the low eight bits.
pub open spec fn combine16(upper: u8, lower: u8) -> u16 {
    ((upper as u16) << 8) | (lower as u16)
}

/// The high eight bits of a 16-bit reading: the byte of the upper register.
pub open spec fn hi8(v: u16) -> u8 {
    (v >> 8) as u8
}

/// The low eight bits of a 16-bit reading: the byte of the lower register.
pub open spec fn lo8(v: u16) -> u8 {
    (v & 0xFF) as u8
}

/// Composing two bytes and splitting the result gives the bytes back, and
/// the composition is exactly `upper * 256 + lower` — so every byte pair,
/// including `(0x00, 0x00)` and `(0xFF, 0xFF)`, maps to exactly one reading.
pub proof fn lemma_combine16_parts(upper: u8, lower: u8)
    ensures
        hi8(combine16(upper, lower)) == upper,
        lo8(combine16(upper, lower)) == lower,
        combine16(upper, lower) == upper * 256 + lower,
{
    assert(((((upper as u16) << 8) | (lower as u16)) >> 8) as u8 == upper) by (bit_vector);
    assert(((((upper as u16) << 8) | (lower as u16)) & 0xFF) as u8 == lower) by (bit_vector);
    assert((((upper as u16) << 8) | (lower as u16)) == (upper as u16) * 256 + (lower as u16))
        by (bit_vector);
}

/// Splitting a 16-bit reading and composing the two bytes again gives the
/// reading back: a reading determines its register bytes and the bytes
/// determine the reading.
pub proof fn lemma_combine16_split(v: u16)
    ensures
        combine16(hi8(v), lo8(v)) == v,
{
    assert(((((v >> 8) as u8) as u16) << 8 | (((v & 0xFF) as u8) as u16)) == v) by (bit_vector);
}

} // verus!
