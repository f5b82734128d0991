//! Timers, the scheduler clock, the keypad skips and the wait-for-key
//! suspension.

use chip8::clock::Clock;
use chip8::machine::{Chip8, Mode};
use chip8::step::StepOutcome;

#[test]
fn sixty_ticks_run_a_timer_of_thirty_to_zero_not_below() {
    let mut c = Chip8::new();
    c.delay_timer = 30;
    for _ in 0..60 {
        c.tick_timers();
    }
    assert_eq!(c.delay_timer, 0);
}

#[test]
fn a_timer_at_zero_stays_at_zero() {
    let mut c = Chip8::new();
    c.sound_timer = 0;
    c.tick_timers();
    assert_eq!(c.sound_timer, 0);
}

#[test]
fn both_timers_tick_independently() {
    let mut c = Chip8::new();
    c.delay_timer = 2;
    c.sound_timer = 5;
    c.tick_timers();
    assert_eq!(c.delay_timer, 1);
    assert_eq!(c.sound_timer, 4);
}

#[test]
fn timer_instructions_move_values() {
    let mut c = Chip8::new();
    c.registers[4] = 42;
    c.set_delay_timer(0xF415);
    assert_eq!(c.delay_timer, 42);
    c.set_sound_timer(0xF418);
    assert_eq!(c.sound_timer, 42);
    assert!(c.sound_active());
    c.read_delay_timer(0xF207);
    assert_eq!(c.registers[2], 42);
    c.sound_timer = 0;
    assert!(!c.sound_active());
}

#[test]
fn clock_fires_rates_exactly_over_one_second() {
    let mut clk = Clock::new(700);
    let (steps, ticks) = clk.advance(1_000_000_000);
    assert_eq!(steps, 700);
    assert_eq!(ticks, 60);
    assert_eq!(clk.cpu_accum, 0);
    assert_eq!(clk.timer_accum, 0);
}

#[test]
fn clock_accumulates_fractions_without_drift() {
    let mut clk = Clock::new(3);
    let mut steps_total = 0u64;
    let mut ticks_total = 0u64;
    // 100 deltas of 10 ms make exactly one second
    for _ in 0..100 {
        let (s, t) = clk.advance(10_000_000);
        steps_total += s;
        ticks_total += t;
    }
    assert_eq!(steps_total, 3);
    assert_eq!(ticks_total, 60);
}

#[test]
fn clock_rates_are_independent() {
    let mut clk = Clock::new(1);
    let (steps, ticks) = clk.advance(1_000_000_000);
    assert_eq!(steps, 1);
    assert_eq!(ticks, 60);
}

#[test]
fn skip_if_key_pressed_consults_the_keypad() {
    let mut c = Chip8::new();
    c.load_rom(&[0xE3, 0x9E, 0x00, 0x00, 0xE3, 0xA1]).unwrap();
    c.registers[3] = 0x5;
    c.set_key(5, true);
    assert_eq!(c.step(0), Ok(StepOutcome::Executed));
    assert_eq!(c.pc, 0x204);
    // ExA1 at 0x204: key 5 is pressed, so no skip
    assert_eq!(c.step(0), Ok(StepOutcome::Executed));
    assert_eq!(c.pc, 0x206);
}

#[test]
fn skip_if_key_not_pressed_consults_the_keypad() {
    let mut c = Chip8::new();
    c.load_rom(&[0xE3, 0x9E]).unwrap();
    c.registers[3] = 0x5;
    assert_eq!(c.step(0), Ok(StepOutcome::Executed));
    // key 5 is up: Ex9E does not skip
    assert_eq!(c.pc, 0x202);
}

#[test]
fn wait_key_suspends_until_a_fresh_press() {
    let mut c = Chip8::new();
    // F70A: suspend until a key lands in V7
    c.load_rom(&[0xF7, 0x0A, 0x00, 0x00]).unwrap();
    assert_eq!(c.step(0), Ok(StepOutcome::AwaitingKey));
    // the program counter stays on the instruction itself
    assert_eq!(c.pc, 0x200);
    assert_eq!(c.mode, Mode::AwaitingKey { x: 7 });
    // still nothing pressed
    assert_eq!(c.step(0), Ok(StepOutcome::AwaitingKey));
    c.set_key(0xA, true);
    assert_eq!(c.step(0), Ok(StepOutcome::Executed));
    assert_eq!(c.registers[7], 0xA);
    assert_eq!(c.pc, 0x202);
    assert_eq!(c.mode, Mode::Running);
}

#[test]
fn wait_key_ignores_a_key_held_since_before() {
    let mut c = Chip8::new();
    c.load_rom(&[0xF7, 0x0A]).unwrap();
    c.set_key(2, true);
    // the suspension snapshots key 2 as already down
    assert_eq!(c.step(0), Ok(StepOutcome::AwaitingKey));
    assert_eq!(c.step(0), Ok(StepOutcome::AwaitingKey));
    // released and pressed again: that is a transition
    c.set_key(2, false);
    assert_eq!(c.step(0), Ok(StepOutcome::AwaitingKey));
    c.set_key(2, true);
    assert_eq!(c.step(0), Ok(StepOutcome::Executed));
    assert_eq!(c.registers[7], 2);
}

#[test]
fn wait_key_takes_the_lowest_new_key() {
    let mut c = Chip8::new();
    c.load_rom(&[0xF0, 0x0A]).unwrap();
    assert_eq!(c.step(0), Ok(StepOutcome::AwaitingKey));
    c.set_key(9, true);
    c.set_key(4, true);
    assert_eq!(c.step(0), Ok(StepOutcome::Executed));
    assert_eq!(c.registers[0], 4);
}

#[test]
fn stepping_a_small_program() {
    let mut c = Chip8::new();
    // 6005: V0 = 5; 7003: V0 += 3; A123: I = 0x123
    c.load_rom(&[0x60, 0x05, 0x70, 0x03, 0xA1, 0x23]).unwrap();
    assert_eq!(c.step(0), Ok(StepOutcome::Executed));
    assert_eq!(c.registers[0], 5);
    assert_eq!(c.step(0), Ok(StepOutcome::Executed));
    assert_eq!(c.registers[0], 8);
    assert_eq!(c.step(0), Ok(StepOutcome::Executed));
    assert_eq!(c.index, 0x123);
    assert_eq!(c.pc, 0x206);
}
