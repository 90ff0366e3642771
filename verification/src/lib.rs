//! Helpers for working with single bits of an 8-bit byte and for rendering a
//! byte as binary text, written for targets without a runtime.

use vstd::prelude::*;

pub mod bit;

verus! {

/// Number of characters in the binary text of a byte: the prefix `0b` and one
/// digit for each of the eight bits.
pub const REPR_LEN: usize = 10;

/// The character at place `index` of the binary text of `byte`: `'0'` and
/// `'b'` first, then the digits of bits 7 down to 0.
pub open spec fn repr_char(byte: u8, index: int) -> char {
    if index == 0 {
        '0'
    } else if index == 1 {
        'b'
    } else {
        bit::bit_char(byte, (9 - index) as u8)
    }
}

/// The binary text of `byte`: ten characters in the form `0bxxxxxxxx`, most
/// significant bit first.
pub open spec fn repr_spec(byte: u8) -> Seq<char> {
    Seq::new(10, |index: int| repr_char(byte, index))
}

/// Renders `byte` as the ten characters `0bxxxxxxxx`, most significant bit
/// first, ready for printing.
pub fn repr(byte: u8) -> (text: [char; 10])
    ensures
        text@ == repr_spec(byte),
{
    let mut array: [char; 10] = ['\0';10];
    let mut position: u8 = 0;
    while position <= 7
        invariant
            position <= 8,
            forall|p: u8| p < position ==> array@[9 - p] == #[trigger] bit::bit_char(byte, p),
        decreases 8 - position,
    {
        array[(9_u8 - position) as usize] = bit::as_char(byte, position);
        position = position + 1;
    }
    array[1] = 'b';
    array[0] = '0';
    assert(array@ =~= repr_spec(byte));
    array
}

/// The binary text of a byte always has ten characters and starts with `0b`.
pub proof fn repr_shape(byte: u8)
    ensures
        repr_spec(byte).len() == REPR_LEN,
        repr_spec(byte)[0] == '0',
        repr_spec(byte)[1] == 'b',
{
}

/// After the prefix the binary text shows the bits from position 7 down to
/// position 0: the digit of the bit at `position` stands at place
/// `9 - position`.
pub proof fn repr_digit(byte: u8, position: u8)
    requires
        bit::valid_position(position),
    ensures
        repr_spec(byte)[9 - position] == bit::bit_char(byte, position),
{
}

/// The binary text tells the byte: two bytes with the same text are the same
/// byte.
pub proof fn repr_determines_byte(left: u8, right: u8)
    requires
        repr_spec(left) == repr_spec(right),
    ensures
        left == right,
{
    assert forall|position: u8| bit::valid_position(position) implies #[trigger] bit::bit_at(
        left,
        position,
    ) == bit::bit_at(right, position) by {
        repr_digit(left, position);
        repr_digit(right, position);
        bit::bit_is_zero_or_one(left, position);
        bit::bit_is_zero_or_one(right, position);
    }
    bit::equal_bits_equal_bytes(left, right);
}

} // verus!
