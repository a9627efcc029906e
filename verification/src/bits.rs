//! Bit operations on bytes, related to the arithmetic they stand for.

use vstd::prelude::*;

verus! {

/// Bit 7 of a byte is set exactly when the byte is at least 128.
pub proof fn lemma_sign_bit(value: u8)
    by (bit_vector)
    ensures
        (value & 0x80 != 0) <==> value >= 0x80,
{
}

/// Bit 0 of a byte is set exactly when the byte is odd.
pub proof fn lemma_low_bit(value: u8)
    by (bit_vector)
    ensures
        (value & 0x01 != 0) <==> value % 2 == 1,
{
}

/// Shifting a byte left by one doubles it and drops what does not fit.
pub proof fn lemma_shift_left(value: u8)
    by (bit_vector)
    ensures
        value << 1 == (value * 2) % 0x100,
        (value << 1) | 1 == (value * 2) % 0x100 + 1,
{
}

/// Shifting a byte right by one halves it; bit 7 of the result is free.
pub proof fn lemma_shift_right(value: u8)
    by (bit_vector)
    ensures
        value >> 1 == value / 2,
        (value >> 1) | 0x80 == value / 2 + 0x80,
{
}

} // verus!
