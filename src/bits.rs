//! Sub-byte fields: extraction of a bit range from a packed byte.
use vstd::prelude::*;

verus! {

/// A mask of the `width` lowest bits.
pub open spec fn low_mask(width: u8) -> u8 {
    ((1u16 << width) - 1) as u8
}

/// The field of `width` bits starting at bit `offset` of `v`.
pub open spec fn field_bits(v: u8, offset: u8, width: u8) -> u8 {
    (v >> offset) & low_mask(width)
}

/// `v` with the field of `width` bits at `offset` replaced by the low bits of `x`.
pub open spec fn with_field(v: u8, offset: u8, width: u8, x: u8) -> u8 {
    (v & !((low_mask(width) << offset) as u8)) | (((x & low_mask(width)) << offset) as u8)
}

/// Two bit ranges of one byte that share no bit.
pub open spec fn disjoint_fields(o1: u8, w1: u8, o2: u8, w2: u8) -> bool {
    o1 + w1 <= o2 || o2 + w2 <= o1
}

/// A bit range that lies inside one byte.
pub open spec fn valid_field(offset: u8, width: u8) -> bool {
    1 <= width <= 7 && offset + width <= 8
}

/// Extracts the field of `width` bits starting at bit `offset`:
/// `(value >> offset) & ((1 << width) - 1)`.
pub fn extract_bits(value: u8, offset: u8, width: u8) -> (r: u8)
    requires
        valid_field(offset, width),
    ensures
        r == field_bits(value, offset, width),
        r < (1u16 << width),
{
    assert(1 <= width <= 7 ==> 1 <= (1u16 << width) < 256) by (bit_vector);
    let mask: u8 = ((1u16 << width) - 1) as u8;
    let r = (value >> offset) & mask;
    assert(1 <= width <= 7 ==> field_bits(value, offset, width) < (1u16 << width)) by (bit_vector);
    r
}

/// Bit-field independence: rewriting one field of a byte, whatever the new
/// value, leaves every field that shares no bit with it unchanged.
pub proof fn lemma_sibling_field_unchanged(v: u8, o1: u8, w1: u8, o2: u8, w2: u8, x: u8)
    by (bit_vector)
    requires
        valid_field(o1, w1),
        valid_field(o2, w2),
        disjoint_fields(o1, w1, o2, w2),
    ensures
        field_bits(with_field(v, o2, w2, x), o1, w1) == field_bits(v, o1, w1),
        field_bits(with_field(v, o2, w2, x), o2, w2) == x & low_mask(w2),
{
}

} // verus!
