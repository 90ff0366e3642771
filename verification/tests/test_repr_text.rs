use bytex::bit;
use bytex::{repr, REPR_LEN};

#[test]
fn repr_of_zero() {
    assert_eq!(repr(0b0000_0000), ['0', 'b', '0', '0', '0', '0', '0', '0', '0', '0']);
}

#[test]
fn repr_of_all_ones() {
    assert_eq!(repr(0b1111_1111), ['0', 'b', '1', '1', '1', '1', '1', '1', '1', '1']);
}

#[test]
fn repr_as_text() {
    let text: String = repr(0b1000_0010).iter().collect();
    assert_eq!(text, "0b10000010");
}

#[test]
fn repr_puts_highest_bit_first() {
    assert_eq!(repr(0b1000_0000), ['0', 'b', '1', '0', '0', '0', '0', '0', '0', '0']);
    assert_eq!(repr(0b0000_0001), ['0', 'b', '0', '0', '0', '0', '0', '0', '0', '1']);
}

#[test]
fn repr_has_prefix_and_digits() {
    for byte in 0..=255u8 {
        let text = repr(byte);
        assert_eq!(text.len(), REPR_LEN);
        assert_eq!(text[0], '0');
        assert_eq!(text[1], 'b');
        for position in 0..8u8 {
            assert_eq!(text[9 - position as usize], bit::as_char(byte, position));
        }
    }
}

#[test]
fn repr_is_the_same_on_every_call() {
    for byte in 0..=255u8 {
        assert_eq!(repr(byte), repr(byte));
    }
}

#[test]
fn repr_differs_between_bytes() {
    for left in 0..=255u8 {
        for right in 0..=255u8 {
            if left != right {
                assert_ne!(repr(left), repr(right));
            }
        }
    }
}

#[test]
fn repr_matches_binary_formatting() {
    for byte in 0..=255u8 {
        let text: String = repr(byte).iter().collect();
        assert_eq!(text, format!("{:#010b}", byte));
    }
}
