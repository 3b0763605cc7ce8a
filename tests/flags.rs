use z80::flags::{reset_bit, set_bit};

#[test]
fn test_set_bit() {
    let res = set_bit(0, 0);
    assert_eq!(0b0000_0001, res);
    let res = set_bit(0, 1);
    assert_eq!(0b0000_0010, res);
    let res = set_bit(0, 2);
    assert_eq!(0b0000_0100, res);
    let res = set_bit(0, 3);
    assert_eq!(0b0000_1000, res);
    let res = set_bit(0, 4);
    assert_eq!(0b0001_0000, res);
    let res = set_bit(0, 5);
    assert_eq!(0b0010_0000, res);
    let res = set_bit(0, 6);
    assert_eq!(0b0100_0000, res);
    let res = set_bit(0, 7);
    assert_eq!(0b1000_0000, res);
}

#[test]
fn test_reset_bit() {
    let res = reset_bit(1, 0);
    assert_eq!(0b0000_0000, res);

    let res = reset_bit(0b1111_1111, 0);
    assert_eq!(0b1111_1110, res);
    let res = reset_bit(0b1111_1111, 1);
    assert_eq!(0b1111_1101, res);
    let res = reset_bit(0b1111_1111, 2);
    assert_eq!(0b1111_1011, res);
    let res = reset_bit(0b1111_1111, 3);
    assert_eq!(0b1111_0111, res);
    let res = reset_bit(0b1111_1111, 4);
    assert_eq!(0b1110_1111, res);
    let res = reset_bit(0b1111_1111, 5);
    assert_eq!(0b1101_1111, res);
    let res = reset_bit(0b1111_1111, 6);
    assert_eq!(0b1011_1111, res);
    let res = reset_bit(0b1111_1111, 7);
    assert_eq!(0b0111_1111, res);
}
