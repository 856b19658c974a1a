use rustboy::registers::{Registers, REGISTER_A_INDEX, REGISTER_B_INDEX, REGISTER_F_INDEX};

#[test]
fn registers_get_register_logic() {
    let mut r = Registers::new();
    r.f = 0b0010_0000;
    assert!(r.get_flag_at_index(5));
    r.f = 0b1101_1111;
    assert!(!r.get_flag_at_index(5));
}

#[test]
fn registers_set_register_logic_0_1() {
    let mut r = Registers::new();
    r.f = 0b0000_0000;
    r.set_flag_at_index(5, true);
    let expected: u8 = 0b0010_0000;
    assert_eq!(r.f, expected);
}

#[test]
fn registers_set_register_logic_1_1() {
    let mut r = Registers::new();
    r.f = 0b0010_0000;
    r.set_flag_at_index(5, true);
    let expected: u8 = 0b0010_0000;
    assert_eq!(r.f, expected);
}

#[test]
fn registers_set_register_logic_1_0() {
    let mut r = Registers::new();
    r.f = 0b1111_1111;
    r.set_flag_at_index(5, false);
    let expected: u8 = 0b1101_1111;
    assert_eq!(r.f, expected);
}

#[test]
fn registers_set_register_logic_0_0() {
    let mut r = Registers::new();
    r.f = 0b1101_1111;
    println!("{:b}", r.f);
    r.set_flag_at_index(5, false);
    println!("{:b}", r.f);
    let expected: u8 = 0b1101_1111;
    assert_eq!(r.f, expected);
}

#[test]
/// Test getting and setting of
/// all 16 bit registers.
fn registers_get_and_set_16bit_registers() {
    let mut r = Registers::new();
    let expected_a: u8 = 0xEA;
    let expected_b: u8 = 0x9E;
    let expected: u16 = 0xEA9E;

    // AF
    r.a = expected_a;
    r.f = expected_b;
    assert_eq!(r.get_af(), expected);

    // BC
    r.b = expected_a;
    r.c = expected_b;
    assert_eq!(r.get_bc(), expected);

    // DE
    r.d = expected_a;
    r.e = expected_b;
    assert_eq!(r.get_de(), expected);

    // HL
    r.h = expected_a;
    r.l = expected_b;
    assert_eq!(r.get_hl(), expected);

    // PC
    r.set_pc(expected);
    assert_eq!(r.get_pc(), expected);

    // SP
    r.set_sp(expected);
    assert_eq!(r.get_sp(), expected);
}

#[test]
fn power_on_values() {
    let r = Registers::new();
    assert_eq!(r.get_af(), 0x01B0);
    assert_eq!(r.get_bc(), 0x0013);
    assert_eq!(r.get_de(), 0x00D8);
    assert_eq!(r.get_hl(), 0x014D);
    assert_eq!(r.get_sp(), 0xFFFE);
    assert_eq!(r.get_pc(), 0x0100);
    assert!(!r.ime);
}

#[test]
fn pair_round_trip_is_identity() {
    let mut r = Registers::new();
    r.a = 0x12;
    r.f = 0xA0;
    r.b = 0x34;
    r.c = 0x56;
    r.d = 0x78;
    r.e = 0x9A;
    r.h = 0xBC;
    r.l = 0xDE;
    let before = r;
    let v = r.get_bc();
    r.set_bc(v);
    let v = r.get_de();
    r.set_de(v);
    let v = r.get_hl();
    r.set_hl(v);
    let v = r.get_af();
    r.set_af(v);
    assert_eq!(r, before);
}

#[test]
fn set_af_clears_low_nibble_of_f() {
    let mut r = Registers::new();
    r.set_af(0x12FF);
    assert_eq!(r.a, 0x12);
    assert_eq!(r.f, 0xF0);
}

#[test]
fn flag_accessors_touch_one_bit() {
    let mut r = Registers::new();
    r.f = 0x00;
    r.set_flag_z(true);
    assert_eq!(r.f, 0x80);
    r.set_flag_n(true);
    assert_eq!(r.f, 0xC0);
    r.set_flag_h(true);
    assert_eq!(r.f, 0xE0);
    r.set_flag_c(true);
    assert_eq!(r.f, 0xF0);
    r.set_flag_n(false);
    assert_eq!(r.f, 0xB0);
    assert!(r.get_flag_z() && !r.get_flag_n() && r.get_flag_h() && r.get_flag_c());
    r.set_flags(false, true, false, true);
    assert_eq!(r.f, 0x50);
}

#[test]
fn indexed_register_access() {
    let mut r = Registers::new();
    r.set_reg(REGISTER_B_INDEX, 0x42);
    assert_eq!(r.b, 0x42);
    assert_eq!(r.get_reg(REGISTER_B_INDEX), 0x42);
    r.set_reg(REGISTER_A_INDEX, 0x99);
    assert_eq!(r.a, 0x99);
    r.set_reg(REGISTER_F_INDEX, 0xFF);
    assert_eq!(r.f, 0xF0);
}
