//! Single bits and nibbles of a register byte.

use vstd::arithmetic::power2::lemma2_to64;
use vstd::arithmetic::power2::pow2;
use vstd::prelude::*;

verus! {

/// The bit of `value` at `position`, as 0 or 1.
pub open spec fn bit_of(value: u8, position: u8) -> u8 {
    (value >> position) & 1
}

/// Extracts the bit of `value` at `position` (0 is the least significant).
pub fn bit(value: u8, position: u8) -> (r: u8)
    requires
        position < 8,
    ensures
        r == bit_of(value, position),
        r == 0 || r == 1,
        r == (value as int / pow2(position as nat) as int) % 2,
{
    let r: u8 = (value >> position) & 1;
    proof {
        lemma_bit_is_binary_digit(value, position);
    }
    r
}

/// A bit is the binary digit of its position: the value divided by two to
/// the power of the position, modulo two.
pub proof fn lemma_bit_is_binary_digit(value: u8, position: u8)
    requires
        position < 8,
    ensures
        bit_of(value, position) == 0 || bit_of(value, position) == 1,
        bit_of(value, position) == (value as int / pow2(position as nat) as int) % 2,
{
    lemma2_to64();
    assert(((value >> position) & 1) == 0 || ((value >> position) & 1) == 1) by (bit_vector);
    assert(position == 0 ==> ((value >> position) & 1) == (value / 1) % 2) by (bit_vector);
    assert(position == 1 ==> ((value >> position) & 1) == (value / 2) % 2) by (bit_vector);
    assert(position == 2 ==> ((value >> position) & 1) == (value / 4) % 2) by (bit_vector);
    assert(position == 3 ==> ((value >> position) & 1) == (value / 8) % 2) by (bit_vector);
    assert(position == 4 ==> ((value >> position) & 1) == (value / 16) % 2) by (bit_vector);
    assert(position == 5 ==> ((value >> position) & 1) == (value / 32) % 2) by (bit_vector);
    assert(position == 6 ==> ((value >> position) & 1) == (value / 64) % 2) by (bit_vector);
    assert(position == 7 ==> ((value >> position) & 1) == (value / 128) % 2) by (bit_vector);
}

/// The high four bits of a byte, as a number below 16.
pub open spec fn high_nibble_of(value: u8) -> u8 {
    value >> 4
}

/// The low four bits of a byte, as a number below 16.
pub open spec fn low_nibble_of(value: u8) -> u8 {
    value & 0x0f
}

/// Extracts the high four bits of a byte.
pub fn high_nibble(value: u8) -> (r: u8)
    ensures
        r == high_nibble_of(value),
        r == value / 16,
{
    proof {
        lemma_nibbles(value);
    }
    value >> 4
}

/// Extracts the low four bits of a byte.
pub fn low_nibble(value: u8) -> (r: u8)
    ensures
        r == low_nibble_of(value),
        r == value % 16,
{
    proof {
        lemma_nibbles(value);
    }
    value & 0x0f
}

/// The two nibbles of a byte are its quotient and remainder by 16.
pub proof fn lemma_nibbles(value: u8)
    ensures
        high_nibble_of(value) == value / 16,
        low_nibble_of(value) == value % 16,
{
    assert(value >> 4 == value / 16) by (bit_vector);
    assert(value & 0x0f == value % 16) by (bit_vector);
}

} // verus!
