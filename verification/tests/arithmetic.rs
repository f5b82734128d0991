//! Register arithmetic: wrapping sums and differences and their flags.

use chip8::machine::Chip8;

fn fresh() -> Chip8 {
    Chip8::new()
}

#[test]
fn add_imm_wraps_to_zero() {
    let mut c = fresh();
    c.registers[3] = 0xFF;
    // 7301: V3 += 0x01
    c.add_to_register(0x7301);
    assert_eq!(c.registers[3], 0x00);
}

#[test]
fn add_imm_plain() {
    let mut c = fresh();
    c.registers[0] = 5;
    c.add_to_register(0x7007);
    assert_eq!(c.registers[0], 12);
}

#[test]
fn add_reg_overflow_sets_carry() {
    let mut c = fresh();
    c.registers[1] = 0xFF;
    c.registers[2] = 0x01;
    // 8124: V1 += V2
    c.add_registers(0x8124);
    assert_eq!(c.registers[1], 0x00);
    assert_eq!(c.registers[15], 1);
}

#[test]
fn add_reg_no_overflow_clears_carry() {
    let mut c = fresh();
    c.registers[1] = 0x10;
    c.registers[2] = 0x20;
    c.registers[15] = 1;
    c.add_registers(0x8124);
    assert_eq!(c.registers[1], 0x30);
    assert_eq!(c.registers[15], 0);
}

#[test]
fn sub_reg_no_borrow() {
    let mut c = fresh();
    c.registers[4] = 10;
    c.registers[5] = 4;
    // 8455: V4 -= V5
    c.subtract_registers(0x8455);
    assert_eq!(c.registers[4], 6);
    assert_eq!(c.registers[15], 1);
}

#[test]
fn sub_reg_borrow_wraps() {
    let mut c = fresh();
    c.registers[4] = 4;
    c.registers[5] = 10;
    c.subtract_registers(0x8455);
    assert_eq!(c.registers[4], 250);
    assert_eq!(c.registers[15], 0);
}

#[test]
fn sub_from_no_borrow() {
    let mut c = fresh();
    c.registers[6] = 3;
    c.registers[7] = 9;
    // 8677: V6 = V7 - V6
    c.subtract_from_register(0x8677);
    assert_eq!(c.registers[6], 6);
    assert_eq!(c.registers[15], 1);
}

#[test]
fn sub_from_borrow_wraps() {
    let mut c = fresh();
    c.registers[6] = 9;
    c.registers[7] = 3;
    c.subtract_from_register(0x8677);
    assert_eq!(c.registers[6], 250);
    assert_eq!(c.registers[15], 0);
}

#[test]
fn shift_right_keeps_low_bit() {
    let mut c = fresh();
    c.registers[2] = 0b1001_0011;
    // 8206
    c.shift_right(0x8206);
    assert_eq!(c.registers[2], 0b0100_1001);
    assert_eq!(c.registers[15], 1);
}

#[test]
fn shift_left_keeps_high_bit() {
    let mut c = fresh();
    c.registers[2] = 0b1001_0011;
    // 820E
    c.shift_left(0x820E);
    assert_eq!(c.registers[2], 0b0010_0110);
    assert_eq!(c.registers[15], 1);
}

#[test]
fn bitwise_ops() {
    let mut c = fresh();
    c.registers[0] = 0b1100;
    c.registers[1] = 0b1010;
    c.binary_or(0x8011);
    assert_eq!(c.registers[0], 0b1110);
    c.registers[0] = 0b1100;
    c.binary_and(0x8012);
    assert_eq!(c.registers[0], 0b1000);
    c.registers[0] = 0b1100;
    c.logical_xor(0x8013);
    assert_eq!(c.registers[0], 0b0110);
}

#[test]
fn set_and_move_registers() {
    let mut c = fresh();
    c.set_register(0x6A5C);
    assert_eq!(c.registers[0xA], 0x5C);
    c.set_x_register(0x80A0);
    assert_eq!(c.registers[0], 0x5C);
}

#[test]
fn randomize_masks_the_byte() {
    let mut c = fresh();
    // C30F with rand = 0xAB keeps only the low nibble
    c.randomize_register(0xC30F, 0xAB);
    assert_eq!(c.registers[3], 0x0B);
    c.randomize_register(0xC300, 0xAB);
    assert_eq!(c.registers[3], 0x00);
}
