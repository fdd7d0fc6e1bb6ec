//! Tests of the bit-field utility.

use msp430fr2355_hal::bits::{clear_bit, flip_bit, set_bit, test_bit};

#[test]
fn single_bit_updates() {
    assert_eq!(set_bit(0b0000_0000, 3), 0b0000_1000);
    assert_eq!(set_bit(0b0000_1000, 3), 0b0000_1000);
    assert_eq!(clear_bit(0b1111_1111, 0), 0b1111_1110);
    assert_eq!(clear_bit(0b1111_0111, 3), 0b1111_0111);
    assert_eq!(flip_bit(0b0000_0000, 7), 0b1000_0000);
    assert_eq!(flip_bit(0b1000_0000, 7), 0b0000_0000);
}

#[test]
fn bit_tests() {
    assert_eq!(test_bit(0b0010_0000, 5), true);
    assert_eq!(test_bit(0b1101_1111, 5), false);
}
