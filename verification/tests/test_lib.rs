use bytex::bit;
use bytex::repr;

#[test]
fn test_repr() {
    let x: u8 = 0b1000_0010;

    assert_eq!(['0', 'b', '1', '0', '0', '0', '0', '0', '1', '0'], repr(x));
}

#[test]
fn test_set() {
    let mut x: u8 = 0b0000_0000;

    bit::set(&mut x, 0);
    assert_eq!(x, 0b0000_0001);

    bit::set(&mut x, 7);
    assert_eq!(x, 0b1000_0001);
}

#[test]
fn test_unset() {
    let mut x: u8 = 0b1111_1111;

    bit::unset(&mut x, 0);
    assert_eq!(x, 0b1111_1110);

    bit::unset(&mut x, 7);
    assert_eq!(x, 0b0111_1110);
}

#[test]
fn test_toggle() {
    let mut x: u8 = 0b1000_0001;

    bit::toggle(&mut x, 0);
    assert_eq!(x, 0b1000_0000);

    bit::toggle(&mut x, 7);
    assert_eq!(x, 0b0000_0000);
}

#[test]
fn test_as_char() {
    let x: u8 = 0b1000_0001;
    let mut y: char = bit::as_char(x, 0);

    assert_eq!(y, '1');

    y = bit::as_char(x, 1);
    assert_eq!(y, '0');

    y = bit::as_char(x, 7);
    assert_eq!(y, '1');
}
