//! A verified CHIP-8 virtual machine core: memory, registers, call stack,
//! timers, framebuffer and keypad, with a pure instruction decoder and an
//! executor whose contracts pin down the exact semantics of every opcode.
//!
//! Presentation (window, pixels, key events) is left to the surrounding
//! program; the core only exposes the framebuffer and keypad as plain values.

use vstd::prelude::*;

pub mod clock;
pub mod decode;
pub mod draw;
pub mod exec;
pub mod laws;
pub mod machine;
pub mod step;

verus! {

/// The errors the core can surface to its caller.
///
/// `UnknownInstruction` is non-fatal: the machine state is left untouched
/// apart from the ordinary program-counter advance, and the caller decides
/// whether to continue. `StackOverflow` and `StackUnderflow` signal a
/// malformed program; `ProgramTooLarge` rejects a load entirely.
#[derive(Clone, Copy, Debug, PartialEq, Eq, Structural)]
pub enum Chip8Error {
    UnknownInstruction { word: u16, at: u16 },
    StackOverflow,
    StackUnderflow,
    ProgramTooLarge,
}

} // verus!
