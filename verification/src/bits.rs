//! Bits of bytes and words, in terms of arithmetic.
//!
//! The models say which bits are set by division and remainder; the
//! executable code masks and shifts. The lemmas here show that the two agree.

use vstd::prelude::*;

verus! {

/// Whether the bit of `value` that `mask` names is set. `mask` has one bit
/// set.
pub open spec fn bit_set(value: u8, mask: u8) -> bool {
    (value / mask) % 2 == 1
}

/// The single bits of a byte, and its low nibble.
pub proof fn lemma_byte_bits(value: u8)
    by (bit_vector)
    ensures
        (value & 0x01 != 0) == bit_set(value, 0x01),
        (value & 0x02 != 0) == bit_set(value, 0x02),
        (value & 0x04 != 0) == bit_set(value, 0x04),
        (value & 0x08 != 0) == bit_set(value, 0x08),
        (value & 0x10 != 0) == bit_set(value, 0x10),
        (value & 0x20 != 0) == bit_set(value, 0x20),
        (value & 0x40 != 0) == bit_set(value, 0x40),
        (value & 0x80 != 0) == bit_set(value, 0x80),
        value & 0x0F == value % 16,
{
}

/// The low bits of a byte, and a byte with its high nibble set.
pub proof fn lemma_byte_masks(value: u8)
    by (bit_vector)
    ensures
        value & 0x01 == value % 2,
        value & 0x03 == value % 4,
        value & 0x0F == value % 16,
        value & 0x1F == value % 32,
        value & 0x7F == value % 128,
        value | 0xF0 == 0xF0 + value % 16,
{
}

/// Two fields of bits put together: a byte above five bits, a byte above
/// eight bits, one bit above the low byte of a number, and bit 8 of a
/// number above a byte.
pub proof fn lemma_word_fields(low: u16, high: u16, bank: u16)
    by (bit_vector)
    requires
        low < 256,
        high < 256,
    ensures
        low < 32 ==> (high << 5) | low == high * 32 + low,
        (high << 8) | low == high * 256 + low,
        ((high & 0x01) << 8) | (bank & 0x00FF) == (high % 2) * 256 + bank % 256,
        (bank & 0x0100) | low == ((bank / 256) % 2) * 256 + low,
        (bank & 0x0100 == 0) == ((bank / 256) % 2 == 0),
{
}

} // verus!
