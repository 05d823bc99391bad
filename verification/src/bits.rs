//! Bits of bytes and words, and what masks and shifts mean as arithmetic.

use vstd::prelude::*;

verus! {

/// The array of `N` zero bytes.
pub open spec fn zeros<const N: usize>() -> [u8; N] {
    vstd::array::spec_array_fill_for_copy_type::<u8, N>(0u8)
}

/// Whether bit `position` (0 is the least significant) of `value` is 1.
pub open spec fn bit_is_set(value: u8, position: u8) -> bool {
    (value & (1u8 << position)) != 0
}

/// Return boolean state of a bit in a byte.
#[verifier::when_used_as_spec(bit_is_set)]
pub fn is_bit_set(value: u8, position: u8) -> (set: bool)
    requires
        position < 8,
    ensures
        set == bit_is_set(value, position),
{
    (value & (1u8 << position)) != 0
}

/// Masks of a byte, as arithmetic.
pub proof fn lemma_mask_arith(value: u8)
    by (bit_vector)
    ensures
        value & 0x0F == value % 16,
        value & 0x03 == value % 4,
        (value & 0x80 == 0x80) == (value >= 128),
        (value & 0x01 == 0x01) == (value % 2 == 1),
{
}

/// Right shifts of a byte, as arithmetic.
pub proof fn lemma_shift_right_arith(value: u8)
    by (bit_vector)
    ensures
        value >> 1 == value / 2,
        value >> 7 == value / 128,
{
}

/// A left shift of a byte by one, as arithmetic: the bit pushed out is lost.
pub proof fn lemma_shift_left_arith(value: u8)
    by (bit_vector)
    ensures
        value << 1 == (value * 2) % 256,
{
}

/// Swapping the two nibbles of a byte, as arithmetic.
pub proof fn lemma_swap_arith(value: u8)
    by (bit_vector)
    ensures
        (value >> 4) | (value << 4) == (value % 16) * 16 + value / 16,
{
}

/// A word is its high byte times 256 plus its low byte.
pub proof fn lemma_word_arith(word: u16)
    by (bit_vector)
    ensures
        (word >> 8) as u8 == word / 256,
        (word & 0xFF) as u8 == word % 256,
{
}

/// Joining two bytes with a shift and an or is `high * 256 + low`.
pub proof fn lemma_join_arith(high: u8, low: u8)
    by (bit_vector)
    ensures
        ((high as u16) << 8) | (low as u16) == high * 256 + low,
{
}

/// Shifting a byte left by one and filling bit 0, as arithmetic.
pub proof fn lemma_rotate_left_arith(value: u8, low: u8)
    by (bit_vector)
    requires
        low <= 1,
    ensures
        (value << 1) | low == (value * 2) % 256 + low,
{
}

/// Shifting a byte right by one and filling bit 7, as arithmetic.
pub proof fn lemma_rotate_right_arith(value: u8, high: u8)
    by (bit_vector)
    requires
        high == 0 || high == 0x80,
    ensures
        (value >> 1) | high == value / 2 + high,
{
}

/// The sign bit of a byte kept while the byte is shifted right, as arithmetic.
pub proof fn lemma_shift_right_signed_arith(value: u8)
    by (bit_vector)
    ensures
        (value >> 1) | (value & 0x80) == value / 2 + (value / 128) * 128,
{
}

/// The low twelve bits of a word, as arithmetic.
pub proof fn lemma_low_twelve_arith(word: u16)
    by (bit_vector)
    ensures
        word & 0x0FFF == word % 4096,
{
}

} // verus!
