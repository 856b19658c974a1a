use rustboy::utils::{merge_u8s, set_bit, split_u16};

#[test]
fn split() {
    let to_split: u16 = 0xEAFE;
    let expect_left: u8 = 0xEA;
    let expect_right: u8 = 0xFE;
    let split = split_u16(to_split);
    let left: u8 = split.0;
    let right: u8 = split.1;
    assert_eq!(expect_left, left);
    assert_eq!(expect_right, right);
}

#[test]
fn merge() {
    let to_split: u16 = 0xEAFE;
    let split: (u8, u8) = split_u16(to_split);
    let left: u8 = split.0;
    let right: u8 = split.1;
    let merged: u16 = merge_u8s(left, right);
    assert_eq!(merged, to_split);
}

#[test]
fn set_bit_sets_and_clears_one_bit() {
    assert_eq!(set_bit(0b0000_0000, 3, true), 0b0000_1000);
    assert_eq!(set_bit(0b1111_1111, 3, false), 0b1111_0111);
    assert_eq!(set_bit(0b1000_0000, 7, true), 0b1000_0000);
    assert_eq!(set_bit(0b0000_0001, 0, false), 0b0000_0000);
}
