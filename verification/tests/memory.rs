//! Construction, reset, program loading, the index register and the memory
//! instructions.

use chip8::machine::Chip8;
use chip8::Chip8Error;

#[test]
fn new_machine_is_initial() {
    let c = Chip8::new();
    assert_eq!(c.pc, 0x200);
    assert_eq!(c.index, 0);
    assert_eq!(c.sp, 0);
    assert_eq!(c.delay_timer, 0);
    assert_eq!(c.sound_timer, 0);
    for i in 0..16 {
        assert_eq!(c.registers[i], 0);
        assert_eq!(c.stack[i], 0);
        assert!(!c.keypad[i]);
    }
    for p in 0..64 * 32 {
        assert!(!c.video[p]);
    }
    // the font: first glyph rows and the last byte
    assert_eq!(&c.memory[0x50..0x55], &[0xF0, 0x90, 0x90, 0x90, 0xF0]);
    assert_eq!(c.memory[0x9F], 0x80);
    // outside the font everything is zero
    assert_eq!(c.memory[0x4F], 0);
    assert_eq!(c.memory[0xA0], 0);
    assert_eq!(c.memory[0xFFF], 0);
}

#[test]
fn load_rom_copies_at_program_start() {
    let mut c = Chip8::new();
    c.pc = 0x300;
    assert_eq!(c.load_rom(&[0xDE, 0xAD, 0xBE, 0xEF]), Ok(()));
    assert_eq!(c.pc, 0x200);
    assert_eq!(&c.memory[0x200..0x204], &[0xDE, 0xAD, 0xBE, 0xEF]);
    assert_eq!(c.memory[0x204], 0);
    // the font is untouched
    assert_eq!(c.memory[0x50], 0xF0);
}

#[test]
fn load_rom_rejects_an_oversized_image() {
    let mut c = Chip8::new();
    let big = vec![0xAAu8; 4096 - 0x200 + 1];
    assert_eq!(c.load_rom(&big), Err(Chip8Error::ProgramTooLarge));
    // nothing was copied
    assert_eq!(c.memory[0x200], 0);
}

#[test]
fn load_rom_accepts_the_largest_image() {
    let mut c = Chip8::new();
    let big = vec![0xAAu8; 4096 - 0x200];
    assert_eq!(c.load_rom(&big), Ok(()));
    assert_eq!(c.memory[0x200], 0xAA);
    assert_eq!(c.memory[0xFFF], 0xAA);
}

#[test]
fn reset_restores_the_initial_state() {
    let mut c = Chip8::new();
    c.load_rom(&[0x12, 0x34]).unwrap();
    c.registers[3] = 9;
    c.index = 0x400;
    c.reset();
    assert_eq!(c.pc, 0x200);
    assert_eq!(c.registers[3], 0);
    assert_eq!(c.index, 0);
    assert_eq!(c.memory[0x200], 0);
    assert_eq!(c.memory[0x50], 0xF0);
}

#[test]
fn set_index_register_takes_the_address() {
    let mut c = Chip8::new();
    c.set_index_register(0xA123);
    assert_eq!(c.index, 0x123);
}

#[test]
fn add_to_index_wraps_at_sixteen_bits() {
    let mut c = Chip8::new();
    c.index = 0xFFFF;
    c.registers[1] = 2;
    // F11E
    c.add_to_index(0xF11E);
    assert_eq!(c.index, 1);
}

#[test]
fn font_index_for_every_digit() {
    let mut c = Chip8::new();
    for d in 0..16u8 {
        c.registers[2] = d;
        c.set_index_to_font(0xF229);
        assert_eq!(c.index, 0x50 + (d as u16) * 5);
    }
}

#[test]
fn store_decimal_digits_of_234() {
    let mut c = Chip8::new();
    c.registers[6] = 234;
    c.index = 0x300;
    // F633
    c.store_decimal_digits(0xF633);
    assert_eq!(&c.memory[0x300..0x303], &[2, 3, 4]);
}

#[test]
fn store_decimal_digits_of_a_single_digit() {
    let mut c = Chip8::new();
    c.registers[6] = 7;
    c.index = 0x300;
    c.store_decimal_digits(0xF633);
    assert_eq!(&c.memory[0x300..0x303], &[0, 0, 7]);
}

#[test]
fn store_then_load_registers_round_trips() {
    let mut c = Chip8::new();
    for i in 0..6u8 {
        c.registers[i as usize] = 10 + i;
    }
    c.index = 0x320;
    // F555: store V0..=V5
    c.store_registers(0xF555);
    assert_eq!(&c.memory[0x320..0x326], &[10, 11, 12, 13, 14, 15]);
    // the byte after the stored range is untouched
    assert_eq!(c.memory[0x326], 0);
    for i in 0..16 {
        c.registers[i] = 0;
    }
    // F565: load V0..=V5
    c.load_registers(0xF565);
    for i in 0..6u8 {
        assert_eq!(c.registers[i as usize], 10 + i);
    }
    // registers above V5 stay cleared
    assert_eq!(c.registers[6], 0);
}

#[test]
fn store_registers_wraps_inside_the_address_space() {
    let mut c = Chip8::new();
    c.registers[0] = 0xAB;
    c.registers[1] = 0xCD;
    c.index = 0xFFF;
    // F155: store V0..=V1 at 0xFFF and (wrapped) 0x000
    c.store_registers(0xF155);
    assert_eq!(c.memory[0xFFF], 0xAB);
    assert_eq!(c.memory[0x000], 0xCD);
}
