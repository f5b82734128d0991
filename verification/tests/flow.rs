//! Control flow: jumps, calls and returns, conditional skips, and the
//! handling of unknown instruction words.

use chip8::machine::{Chip8, Mode};
use chip8::step::StepOutcome;
use chip8::Chip8Error;

#[test]
fn jump_sets_pc() {
    let mut c = Chip8::new();
    c.jump(0x1ABC);
    assert_eq!(c.pc, 0xABC);
}

#[test]
fn jump_with_offset_adds_v0() {
    let mut c = Chip8::new();
    c.registers[0] = 0x10;
    c.jump_with_offset(0xB300);
    assert_eq!(c.pc, 0x310);
}

#[test]
fn call_pushes_return_address() {
    let mut c = Chip8::new();
    c.pc = 0x202;
    assert_eq!(c.call_subroutine(0x2400), Ok(()));
    assert_eq!(c.pc, 0x400);
    assert_eq!(c.sp, 1);
    assert_eq!(c.stack[0], 0x202);
}

#[test]
fn nested_calls_and_returns_restore_pc() {
    let mut c = Chip8::new();
    c.pc = 0x202;
    assert_eq!(c.call_subroutine(0x2300), Ok(()));
    assert_eq!(c.call_subroutine(0x2400), Ok(()));
    assert_eq!(c.call_subroutine(0x2500), Ok(()));
    assert_eq!(c.sp, 3);
    assert_eq!(c.return_from_subroutine(), Ok(()));
    assert_eq!(c.return_from_subroutine(), Ok(()));
    assert_eq!(c.return_from_subroutine(), Ok(()));
    assert_eq!(c.pc, 0x202);
    assert_eq!(c.sp, 0);
    // one return too many: no matching call
    assert_eq!(c.return_from_subroutine(), Err(Chip8Error::StackUnderflow));
    assert_eq!(c.pc, 0x202);
}

#[test]
fn seventeenth_nested_call_overflows() {
    let mut c = Chip8::new();
    for _ in 0..16 {
        assert_eq!(c.call_subroutine(0x2300), Ok(()));
    }
    assert_eq!(c.sp, 16);
    let pc_before = c.pc;
    assert_eq!(c.call_subroutine(0x2400), Err(Chip8Error::StackOverflow));
    assert_eq!(c.pc, pc_before);
    assert_eq!(c.sp, 16);
}

fn step_program(rom: &[u8]) -> Chip8 {
    let mut c = Chip8::new();
    c.load_rom(rom).unwrap();
    c
}

#[test]
fn skip_if_equal_advances_four_when_true() {
    // 3007: skip if V0 == 7
    let mut c = step_program(&[0x30, 0x07, 0x00, 0x00]);
    c.registers[0] = 7;
    assert_eq!(c.step(0), Ok(StepOutcome::Executed));
    assert_eq!(c.pc, 0x204);
}

#[test]
fn skip_if_equal_advances_two_when_false() {
    let mut c = step_program(&[0x30, 0x07, 0x00, 0x00]);
    c.registers[0] = 9;
    assert_eq!(c.step(0), Ok(StepOutcome::Executed));
    assert_eq!(c.pc, 0x202);
}

#[test]
fn skip_if_not_equal_advances_four_when_true() {
    let mut c = step_program(&[0x40, 0x07, 0x00, 0x00]);
    c.registers[0] = 9;
    assert_eq!(c.step(0), Ok(StepOutcome::Executed));
    assert_eq!(c.pc, 0x204);
}

#[test]
fn skip_if_not_equal_advances_two_when_false() {
    let mut c = step_program(&[0x40, 0x07, 0x00, 0x00]);
    c.registers[0] = 7;
    assert_eq!(c.step(0), Ok(StepOutcome::Executed));
    assert_eq!(c.pc, 0x202);
}

#[test]
fn skip_if_registers_equal_advances_four_when_true() {
    // 5120
    let mut c = step_program(&[0x51, 0x20, 0x00, 0x00]);
    c.registers[1] = 3;
    c.registers[2] = 3;
    assert_eq!(c.step(0), Ok(StepOutcome::Executed));
    assert_eq!(c.pc, 0x204);
}

#[test]
fn skip_if_registers_not_equal_advances_two_when_false() {
    // 9120
    let mut c = step_program(&[0x91, 0x20, 0x00, 0x00]);
    c.registers[1] = 3;
    c.registers[2] = 3;
    assert_eq!(c.step(0), Ok(StepOutcome::Executed));
    assert_eq!(c.pc, 0x202);
}

#[test]
fn unknown_word_is_reported_and_inert() {
    let mut c = step_program(&[0xFF, 0xF0]);
    let regs_before = c.registers.clone();
    let video_before = c.video.clone();
    let r = c.step(0);
    assert_eq!(
        r,
        Err(Chip8Error::UnknownInstruction { word: 0xFFF0, at: 0x200 })
    );
    assert_eq!(c.pc, 0x202);
    assert_eq!(c.registers, regs_before);
    assert_eq!(c.video, video_before);
    assert_eq!(c.sp, 0);
    assert_eq!(c.mode, Mode::Running);
}

#[test]
fn return_through_step_surfaces_underflow() {
    // 00EE at 0x200 with an empty stack
    let mut c = step_program(&[0x00, 0xEE]);
    assert_eq!(c.step(0), Err(Chip8Error::StackUnderflow));
    assert_eq!(c.pc, 0x202);
}

#[test]
fn fetch_is_big_endian_and_advances() {
    let mut c = step_program(&[0x12, 0x34]);
    let w = c.get_instruction();
    assert_eq!(w, 0x1234);
    assert_eq!(c.pc, 0x202);
}
