//! Single bits and bit fields inside a 32-bit register word.
//!
//! A field is named by the position of its lowest bit (`shift`) and by how
//! many bits it spans (`width`). Everything the register model does to a word
//! is one of the four operations here; the lemmas state how a write is seen
//! by a later read of the same or of another bit or field.

use vstd::prelude::*;

verus! {

/// Whether bit `pos` of `word` is set.
pub open spec fn bit_is_set(word: u32, pos: u32) -> bool {
    word & (1u32 << pos) != 0
}

/// `word` with bit `pos` set to `value` and every other bit kept.
pub open spec fn with_bit(word: u32, pos: u32, value: bool) -> u32 {
    if value {
        word | (1u32 << pos)
    } else {
        word & !(1u32 << pos)
    }
}

/// The `width` lowest bits set, all others clear.
pub open spec fn low_mask(width: u32) -> u32 {
    !(0xffff_ffffu32 << width)
}

/// The value of the field of `width` bits that starts at bit `shift`.
pub open spec fn field(word: u32, shift: u32, width: u32) -> u32 {
    (word >> shift) & low_mask(width)
}

/// `word` with the field of `width` bits at `shift` replaced by the low
/// `width` bits of `value`, and every bit outside the field kept.
pub open spec fn with_field(word: u32, shift: u32, width: u32, value: u32) -> u32 {
    (word & !(low_mask(width) << shift)) | ((value & low_mask(width)) << shift)
}

/// Reads bit `pos` of `word`.
pub fn get_bit(word: u32, pos: u32) -> (set: bool)
    requires
        pos < 32,
    ensures
        set == bit_is_set(word, pos),
{
    word & (1u32 << pos) != 0
}

/// Writes `value` into bit `pos` of `word`.
pub fn set_bit(word: u32, pos: u32, value: bool) -> (out: u32)
    requires
        pos < 32,
    ensures
        out == with_bit(word, pos, value),
{
    if value {
        word | (1u32 << pos)
    } else {
        word & !(1u32 << pos)
    }
}

/// Reads the field of `width` bits at `shift`.
pub fn get_field(word: u32, shift: u32, width: u32) -> (value: u32)
    requires
        0 < width,
        shift + width <= 32,
        width < 32,
    ensures
        value == field(word, shift, width),
{
    (word >> shift) & !(0xffff_ffffu32 << width)
}

/// Writes the low `width` bits of `value` into the field at `shift`.
pub fn set_field(word: u32, shift: u32, width: u32, value: u32) -> (out: u32)
    requires
        0 < width,
        shift + width <= 32,
        width < 32,
    ensures
        out == with_field(word, shift, width, value),
{
    let mask: u32 = !(0xffff_ffffu32 << width);
    (word & !(mask << shift)) | ((value & mask) << shift)
}

/// The masks of the field widths that the timer's registers use.
pub proof fn lemma_low_mask_values()
    ensures
        low_mask(1) == 0x1,
        low_mask(2) == 0x3,
        low_mask(3) == 0x7,
        low_mask(4) == 0xf,
        low_mask(8) == 0xff,
        low_mask(16) == 0xffff,
{
    assert(low_mask(1) == 0x1) by (bit_vector);
    assert(low_mask(2) == 0x3) by (bit_vector);
    assert(low_mask(3) == 0x7) by (bit_vector);
    assert(low_mask(4) == 0xf) by (bit_vector);
    assert(low_mask(8) == 0xff) by (bit_vector);
    assert(low_mask(16) == 0xffff) by (bit_vector);
}

/// A masked value is never above the mask, and a value that is not above a
/// mask of low bits is kept whole by it.
pub proof fn lemma_mask_keeps_small_value(value: u32, width: u32)
    requires
        width < 32,
    ensures
        value & low_mask(width) <= low_mask(width),
        value <= low_mask(width) ==> value & low_mask(width) == value,
{
    assert(value & low_mask(width) <= low_mask(width)) by (bit_vector);
    assert(value <= low_mask(width) ==> value & low_mask(width) == value) by (bit_vector)
        requires
            width < 32,
    ;
}

/// A bit reads back as it was written.
pub proof fn lemma_bit_reads_back(word: u32, pos: u32, value: bool)
    requires
        pos < 32,
    ensures
        bit_is_set(with_bit(word, pos, value), pos) == value,
{
    assert(bit_is_set(with_bit(word, pos, value), pos) == value) by (bit_vector)
        requires
            pos < 32,
    ;
}

/// Writing one bit changes no other bit.
pub proof fn lemma_bit_keeps_other_bit(word: u32, pos: u32, value: bool, other: u32)
    requires
        pos < 32,
        other < 32,
        pos != other,
    ensures
        bit_is_set(with_bit(word, pos, value), other) == bit_is_set(word, other),
{
    assert(bit_is_set(with_bit(word, pos, value), other) == bit_is_set(word, other))
        by (bit_vector)
        requires
            pos < 32,
            other < 32,
            pos != other,
    ;
}

/// Writing one bit changes no field that lies beside it.
pub proof fn lemma_bit_keeps_field(word: u32, pos: u32, value: bool, shift: u32, width: u32)
    requires
        pos < 32,
        shift + width <= 32,
        pos < shift || shift + width <= pos,
    ensures
        field(with_bit(word, pos, value), shift, width) == field(word, shift, width),
{
    assert(field(with_bit(word, pos, value), shift, width) == field(word, shift, width))
        by (bit_vector)
        requires
            pos < 32,
            shift + width <= 32,
            pos < shift || shift + width <= pos,
    ;
}

/// A field reads back as the low `width` bits of what was written.
pub proof fn lemma_field_reads_back(word: u32, shift: u32, width: u32, value: u32)
    requires
        shift + width <= 32,
    ensures
        field(with_field(word, shift, width, value), shift, width) == value & low_mask(width),
{
    assert(field(with_field(word, shift, width, value), shift, width) == value & low_mask(width))
        by (bit_vector)
        requires
            shift + width <= 32,
    ;
}

/// Writing a field changes no bit that lies beside it.
pub proof fn lemma_field_keeps_bit(word: u32, shift: u32, width: u32, value: u32, pos: u32)
    requires
        pos < 32,
        shift + width <= 32,
        pos < shift || shift + width <= pos,
    ensures
        bit_is_set(with_field(word, shift, width, value), pos) == bit_is_set(word, pos),
{
    assert(bit_is_set(with_field(word, shift, width, value), pos) == bit_is_set(word, pos))
        by (bit_vector)
        requires
            pos < 32,
            shift + width <= 32,
            pos < shift || shift + width <= pos,
    ;
}

/// Writing a field changes no field that does not overlap it.
pub proof fn lemma_field_keeps_other_field(
    word: u32,
    shift: u32,
    width: u32,
    value: u32,
    other_shift: u32,
    other_width: u32,
)
    requires
        shift + width <= 32,
        other_shift + other_width <= 32,
        shift + width <= other_shift || other_shift + other_width <= shift,
    ensures
        field(with_field(word, shift, width, value), other_shift, other_width) == field(
            word,
            other_shift,
            other_width,
        ),
{
    assert(field(with_field(word, shift, width, value), other_shift, other_width) == field(
        word,
        other_shift,
        other_width,
    )) by (bit_vector)
        requires
            shift + width <= 32,
            other_shift + other_width <= 32,
            shift + width <= other_shift || other_shift + other_width <= shift,
    ;
}

/// A field is never above its mask.
pub proof fn lemma_field_bounded(word: u32, shift: u32, width: u32)
    ensures
        field(word, shift, width) <= low_mask(width),
{
    assert(field(word, shift, width) <= low_mask(width)) by (bit_vector);
}

} // verus!
