//! Reading and changing single bits of a byte.
//!
//! Positions count from the least significant bit, which is position 0, up to
//! the most significant bit at position 7.

use vstd::arithmetic::power2::pow2;
use vstd::bits::lemma_u8_shr_is_div;
use vstd::prelude::*;

verus! {

/// Highest position that names a bit of a byte.
pub const MAX_POSITION: u8 = 7;

/// A position names a bit of a byte exactly when it is at most 7.
pub open spec fn valid_position(position: u8) -> bool {
    position <= MAX_POSITION
}

/// The bit of `byte` at `position`, as 0 or 1.
pub open spec fn bit_at(byte: u8, position: u8) -> u8 {
    (byte >> position) & 1u8
}

/// `byte` with the bit at `position` forced to 1.
pub open spec fn with_bit_set(byte: u8, position: u8) -> u8 {
    byte | (1u8 << position)
}

/// `byte` with the bit at `position` forced to 0.
pub open spec fn with_bit_cleared(byte: u8, position: u8) -> u8 {
    byte & !(1u8 << position)
}

/// `byte` with the bit at `position` flipped.
pub open spec fn with_bit_flipped(byte: u8, position: u8) -> u8 {
    byte ^ (1u8 << position)
}

/// The digit that shows the bit of `byte` at `position`.
pub open spec fn bit_char(byte: u8, position: u8) -> char {
    if bit_at(byte, position) == 1 {
        '1'
    } else {
        '0'
    }
}

/// Tells whether `position` names a bit of a byte.
pub fn check_position(position: u8) -> (valid: bool)
    ensures
        valid == valid_position(position),
{
    position <= MAX_POSITION
}

/// Returns the bit of `target` at `position`, as 0 or 1.
pub fn get(target: u8, position: u8) -> (bit: u8)
    requires
        valid_position(position),
    ensures
        bit == bit_at(target, position),
        bit == 0 || bit == 1,
{
    assert(((target >> position) & 1u8) == 0 || ((target >> position) & 1u8) == 1)
        by (bit_vector);
    (target >> position) & 1_u8
}

/// Forces the bit of `target` at `position` to 1 and returns the new byte.
pub fn set(target: &mut u8, position: u8) -> (byte: u8)
    requires
        valid_position(position),
    ensures
        *final(target) == with_bit_set(*old(target), position),
        byte == *final(target),
{
    *target |= 1_u8 << position;
    *target
}

/// Forces the bit of `target` at `position` to 0 and returns the new byte.
pub fn unset(target: &mut u8, position: u8) -> (byte: u8)
    requires
        valid_position(position),
    ensures
        *final(target) == with_bit_cleared(*old(target), position),
        byte == *final(target),
{
    *target &= !(1_u8 << position);
    *target
}

/// Flips the bit of `target` at `position`.
pub fn toggle(target: &mut u8, position: u8)
    requires
        valid_position(position),
    ensures
        *final(target) == with_bit_flipped(*old(target), position),
{
    *target ^= 1_u8 << position;
}

/// Returns the digit, `'0'` or `'1'`, that shows the bit of `target` at
/// `position`.
pub fn as_char(target: u8, position: u8) -> (digit: char)
    requires
        valid_position(position),
    ensures
        digit == bit_char(target, position),
        digit == '1' <==> bit_at(target, position) == 1,
        digit == '0' <==> bit_at(target, position) == 0,
{
    if get(target, position) == 1 {
        '1'
    } else {
        '0'
    }
}

/// A bit is always 0 or 1.
pub proof fn bit_is_zero_or_one(byte: u8, position: u8)
    requires
        valid_position(position),
    ensures
        bit_at(byte, position) == 0 || bit_at(byte, position) == 1,
{
    assert(((byte >> position) & 1u8) == 0 || ((byte >> position) & 1u8) == 1) by (bit_vector);
}

/// The bit at `position` is the binary digit of weight two to the power
/// `position` in the value of the byte.
pub proof fn bit_is_binary_digit(byte: u8, position: u8)
    requires
        valid_position(position),
    ensures
        bit_at(byte, position) == (byte as int / pow2(position as nat) as int) % 2,
{
    let shifted: u8 = byte >> position;
    assert(shifted & 1u8 == shifted % 2) by (bit_vector);
    lemma_u8_shr_is_div(byte, position);
}

/// Reading a bit right after setting it gives 1.
pub proof fn set_then_get(byte: u8, position: u8)
    requires
        valid_position(position),
    ensures
        bit_at(with_bit_set(byte, position), position) == 1,
{
    assert(((byte | (1u8 << position)) >> position) & 1u8 == 1) by (bit_vector)
        requires
            position <= 7,
    ;
}

/// Reading a bit right after unsetting it gives 0.
pub proof fn unset_then_get(byte: u8, position: u8)
    requires
        valid_position(position),
    ensures
        bit_at(with_bit_cleared(byte, position), position) == 0,
{
    assert(((byte & !(1u8 << position)) >> position) & 1u8 == 0) by (bit_vector)
        requires
            position <= 7,
    ;
}

/// Reading a bit right after toggling it gives the opposite of what it was.
pub proof fn toggle_then_get(byte: u8, position: u8)
    requires
        valid_position(position),
    ensures
        bit_at(with_bit_flipped(byte, position), position) == 1 - bit_at(byte, position),
{
    assert(((byte ^ (1u8 << position)) >> position) & 1u8 == 1 - ((byte >> position) & 1u8))
        by (bit_vector)
        requires
            position <= 7,
    ;
}

/// Toggling the same bit twice gives the byte back.
pub proof fn toggle_twice(byte: u8, position: u8)
    requires
        valid_position(position),
    ensures
        with_bit_flipped(with_bit_flipped(byte, position), position) == byte,
{
    assert((byte ^ (1u8 << position)) ^ (1u8 << position) == byte) by (bit_vector);
}

/// Setting, unsetting or toggling the bit at one position leaves the bit at
/// every other position as it was.
pub proof fn other_bits_unchanged(byte: u8, position: u8, other: u8)
    requires
        valid_position(position),
        valid_position(other),
        position != other,
    ensures
        bit_at(with_bit_set(byte, position), other) == bit_at(byte, other),
        bit_at(with_bit_cleared(byte, position), other) == bit_at(byte, other),
        bit_at(with_bit_flipped(byte, position), other) == bit_at(byte, other),
{
    assert(((byte | (1u8 << position)) >> other) & 1u8 == (byte >> other) & 1u8) by (bit_vector)
        requires
            position <= 7,
            other <= 7,
            position != other,
    ;
    assert(((byte & !(1u8 << position)) >> other) & 1u8 == (byte >> other) & 1u8)
        by (bit_vector)
        requires
            position <= 7,
            other <= 7,
            position != other,
    ;
    assert(((byte ^ (1u8 << position)) >> other) & 1u8 == (byte >> other) & 1u8) by (bit_vector)
        requires
            position <= 7,
            other <= 7,
            position != other,
    ;
}

/// Two bytes that agree on all eight bits are the same byte.
pub proof fn equal_bits_equal_bytes(left: u8, right: u8)
    requires
        forall|position: u8|
            valid_position(position) ==> #[trigger] bit_at(left, position) == bit_at(
                right,
                position,
            ),
    ensures
        left == right,
{
    assert(bit_at(left, 0) == bit_at(right, 0));
    assert(bit_at(left, 1) == bit_at(right, 1));
    assert(bit_at(left, 2) == bit_at(right, 2));
    assert(bit_at(left, 3) == bit_at(right, 3));
    assert(bit_at(left, 4) == bit_at(right, 4));
    assert(bit_at(left, 5) == bit_at(right, 5));
    assert(bit_at(left, 6) == bit_at(right, 6));
    assert(bit_at(left, 7) == bit_at(right, 7));
    assert(left == right) by (bit_vector)
        requires
            (left >> 0u8) & 1u8 == (right >> 0u8) & 1u8,
            (left >> 1u8) & 1u8 == (right >> 1u8) & 1u8,
            (left >> 2u8) & 1u8 == (right >> 2u8) & 1u8,
            (left >> 3u8) & 1u8 == (right >> 3u8) & 1u8,
            (left >> 4u8) & 1u8 == (right >> 4u8) & 1u8,
            (left >> 5u8) & 1u8 == (right >> 5u8) & 1u8,
            (left >> 6u8) & 1u8 == (right >> 6u8) & 1u8,
            (left >> 7u8) & 1u8 == (right >> 7u8) & 1u8,
    ;
}

} // verus!
