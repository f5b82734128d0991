//! The machine state: memory, registers, index register, program counter,
//! call stack, timers, framebuffer, keypad, and the running / awaiting-key
//! mode, together with construction, reset, program loading, instruction
//! fetch and the 60 Hz timer tick.

use vstd::prelude::*;

use crate::Chip8Error;

verus! {

/// Number of addressable memory bytes.
pub const MEMORY_SIZE: usize = 4096;

/// First address of the program region; also the initial program counter.
pub const PROGRAM_START: usize = 0x200;

/// First address of the 80-byte font region.
pub const FONT_START: usize = 0x050;

/// Framebuffer width in pixels.
pub const SCREEN_WIDTH: usize = 64;

/// Framebuffer height in pixels.
pub const SCREEN_HEIGHT: usize = 32;

/// The two externally visible machine modes: ordinarily the machine runs
/// instruction by instruction; the wait-for-key instruction suspends it
/// until a key press is observed, remembering which register receives the
/// key index.
#[derive(Clone, Copy, Debug, PartialEq, Eq, Structural)]
pub enum Mode {
    Running,
    AwaitingKey { x: u8 },
}

/// One CHIP-8 machine: every piece of state a program can observe.
///
/// The framebuffer is row-major: pixel (x, y) lives at index `y * 64 + x`,
/// `true` meaning lit. The keypad is written by the surrounding input
/// collaborator and only read here. `keys_seen` is the keypad snapshot taken
/// at the latest poll while awaiting a key, so that a key-press transition
/// (not pressed, then pressed) can be recognized.
pub struct Chip8 {
    pub registers: Vec<u8>,
    pub memory: Vec<u8>,
    pub index: u16,
    pub pc: u16,
    pub stack: Vec<u16>,
    pub sp: u8,
    pub delay_timer: u8,
    pub sound_timer: u8,
    pub keypad: Vec<bool>,
    pub video: Vec<bool>,
    pub mode: Mode,
    pub keys_seen: Vec<bool>,
}

impl Chip8 {
    /// Shape of a valid machine: the fixed capacities, a stack pointer within
    /// the 16 stack slots, a program counter and stacked return addresses
    /// inside the 4096-byte address space, and a register index in range
    /// while a key is awaited.
    pub open spec fn wf(&self) -> bool {
        &&& self.registers@.len() == 16
        &&& self.memory@.len() == 4096
        &&& self.stack@.len() == 16
        &&& self.keypad@.len() == 16
        &&& self.video@.len() == 2048
        &&& self.keys_seen@.len() == 16
        &&& self.sp <= 16
        &&& self.pc < 4096
        &&& forall|i: int| 0 <= i < 16 ==> self.stack@[i] < 4096
        &&& match self.mode {
            Mode::Running => true,
            Mode::AwaitingKey { x } => x < 16,
        }
    }

    /// The construction-time state: everything zeroed, the program counter
    /// at the program region, and the font seeded at its region.
    pub open spec fn is_initial(self) -> bool {
        &&& self.index == 0
        &&& self.pc == 0x200
        &&& self.sp == 0
        &&& self.delay_timer == 0
        &&& self.sound_timer == 0
        &&& self.mode == Mode::Running
        &&& forall|i: int| 0 <= i < 16 ==> self.registers@[i] == 0
        &&& forall|i: int| 0 <= i < 16 ==> self.stack@[i] == 0
        &&& forall|i: int| 0 <= i < 16 ==> !self.keypad@[i]
        &&& forall|i: int| 0 <= i < 16 ==> !self.keys_seen@[i]
        &&& forall|i: int| 0 <= i < 2048 ==> !self.video@[i]
        &&& forall|i: int| 0 <= i < 80 ==> self.memory@[0x50 + i] == spec_font()[i]
        &&& forall|a: int| 0 <= a < 4096 && !(0x50 <= a < 0xA0) ==> self.memory@[a] == 0
    }

    /// Build a machine in its construction-time state.
    pub fn new() -> (r: Chip8)
        ensures
            r.wf(),
            r.is_initial(),
    {
        let mut memory: Vec<u8> = filled_bytes(MEMORY_SIZE, 0);
        let font: Vec<u8> = font_table();
        let mut i: usize = 0;
        while i < 80
            invariant
                0 <= i <= 80,
                font@ == spec_font(),
                memory@.len() == 4096,
                forall|j: int| 0 <= j < i ==> memory@[0x50 + j] == spec_font()[j],
                forall|a: int| 0 <= a < 4096 && !(0x50 <= a < 0x50 + i) ==> memory@[a] == 0,
            decreases 80 - i,
        {
            memory[FONT_START + i] = font[i];
            i += 1;
        }
        Chip8 {
            registers: filled_bytes(16, 0),
            memory,
            index: 0,
            pc: 0x200,
            stack: filled_words(16, 0),
            sp: 0,
            delay_timer: 0,
            sound_timer: 0,
            keypad: filled_bools(16, false),
            video: filled_bools(2048, false),
            mode: Mode::Running,
            keys_seen: filled_bools(16, false),
        }
    }

    /// Reinitialize every field to its construction-time value, the font
    /// region included.
    pub fn reset(&mut self)
        ensures
            final(self).wf(),
            final(self).is_initial(),
    {
        *self = Chip8::new();
    }

    /// Copy a program image into memory starting at the program region and
    /// point the program counter there. An image longer than the program
    /// region is rejected whole: nothing is copied.
    pub fn load_rom(&mut self, rom: &[u8]) -> (r: Result<(), Chip8Error>)
        requires
            old(self).wf(),
        ensures
            final(self).wf(),
            rom@.len() > 3584 ==> r == Err::<(), Chip8Error>(Chip8Error::ProgramTooLarge)
                && *final(self) == *old(self),
            rom@.len() <= 3584 ==> {
                &&& r == Ok::<(), Chip8Error>(())
                &&& final(self).pc == 0x200
                &&& forall|i: int| 0 <= i < rom@.len()
                    ==> final(self).memory@[0x200 + i] == rom@[i]
                &&& forall|a: int|
                    0 <= a < 4096 && !(0x200 <= a < 0x200 + rom@.len())
                        ==> final(self).memory@[a] == old(self).memory@[a]
                &&& final(self).registers@ == old(self).registers@
                &&& final(self).index == old(self).index
                &&& final(self).stack@ == old(self).stack@
                &&& final(self).sp == old(self).sp
                &&& final(self).delay_timer == old(self).delay_timer
                &&& final(self).sound_timer == old(self).sound_timer
                &&& final(self).keypad@ == old(self).keypad@
                &&& final(self).video@ == old(self).video@
                &&& final(self).mode == old(self).mode
                &&& final(self).keys_seen@ == old(self).keys_seen@
            },
    {
        if rom.len() > MEMORY_SIZE - PROGRAM_START {
            return Err(Chip8Error::ProgramTooLarge);
        }
        let mut i: usize = 0;
        while i < rom.len()
            invariant
                0 <= i <= rom@.len(),
                rom@.len() <= 3584,
                old(self).wf(),
                self.memory@.len() == 4096,
                forall|j: int| 0 <= j < i ==> self.memory@[0x200 + j] == rom@[j],
                forall|a: int|
                    0 <= a < 4096 && !(0x200 <= a < 0x200 + i)
                        ==> self.memory@[a] == old(self).memory@[a],
                self.registers@ == old(self).registers@,
                self.index == old(self).index,
                self.pc == old(self).pc,
                self.stack@ == old(self).stack@,
                self.sp == old(self).sp,
                self.delay_timer == old(self).delay_timer,
                self.sound_timer == old(self).sound_timer,
                self.keypad@ == old(self).keypad@,
                self.video@ == old(self).video@,
                self.mode == old(self).mode,
                self.keys_seen@ == old(self).keys_seen@,
            decreases rom@.len() - i,
        {
            self.memory[0x200 + i] = rom[i];
            i += 1;
        }
        self.pc = 0x200;
        Ok(())
    }

    /// The 16-bit instruction word at the program counter: the byte at PC as
    /// the high half, the byte at PC+1 (wrapping inside the address space)
    /// as the low half.
    pub open spec fn spec_fetch(self) -> u16 {
        (self.memory@[self.pc as int] * 256 + self.memory@[((self.pc + 1) % 4096) as int]) as u16
    }

    /// Read the instruction word at the program counter, big-endian, and
    /// advance the program counter by 2, wrapping inside the 4096-byte
    /// address space.
    pub fn get_instruction(&mut self) -> (r: u16)
        requires
            old(self).wf(),
        ensures
            final(self).wf(),
            r == old(self).spec_fetch(),
            final(self).pc == (old(self).pc + 2) % 4096,
            final(self).registers@ == old(self).registers@,
            final(self).memory@ == old(self).memory@,
            final(self).index == old(self).index,
            final(self).stack@ == old(self).stack@,
            final(self).sp == old(self).sp,
            final(self).delay_timer == old(self).delay_timer,
            final(self).sound_timer == old(self).sound_timer,
            final(self).keypad@ == old(self).keypad@,
            final(self).video@ == old(self).video@,
            final(self).mode == old(self).mode,
            final(self).keys_seen@ == old(self).keys_seen@,
    {
        let hi: u8 = self.memory[self.pc as usize];
        let lo: u8 = self.memory[((self.pc as usize) + 1) % 4096];
        self.pc = (((self.pc as usize) + 2) % 4096) as u16;
        (hi as u16) * 256 + (lo as u16)
    }

    /// One 60 Hz timer tick: each timer that is above zero goes down by one;
    /// a timer at zero stays at zero. Independent of instruction execution.
    pub fn tick_timers(&mut self)
        ensures
            rel_tick(*old(self), *final(self)),
    {
        if self.delay_timer > 0 {
            self.delay_timer = self.delay_timer - 1;
        }
        if self.sound_timer > 0 {
            self.sound_timer = self.sound_timer - 1;
        }
    }

    /// Record one key's pressed / released state, as the input collaborator
    /// observed it. The core only ever reads the keypad.
    pub fn set_key(&mut self, key: usize, pressed: bool)
        requires
            old(self).wf(),
            key < 16,
        ensures
            final(self).wf(),
            final(self).keypad@ == old(self).keypad@.update(key as int, pressed),
            final(self).registers@ == old(self).registers@,
            final(self).memory@ == old(self).memory@,
            final(self).index == old(self).index,
            final(self).pc == old(self).pc,
            final(self).stack@ == old(self).stack@,
            final(self).sp == old(self).sp,
            final(self).delay_timer == old(self).delay_timer,
            final(self).sound_timer == old(self).sound_timer,
            final(self).video@ == old(self).video@,
            final(self).mode == old(self).mode,
            final(self).keys_seen@ == old(self).keys_seen@,
    {
        self.keypad[key] = pressed;
    }

    /// Whether the pixel at (x, y) is lit; the presentation layer polls this.
    pub fn pixel(&self, x: usize, y: usize) -> (r: bool)
        requires
            self.wf(),
            x < 64,
            y < 32,
        ensures
            r == self.video@[y * 64 + x],
    {
        self.video[y * SCREEN_WIDTH + x]
    }

    /// Whether the audio collaborator should be producing a tone right now.
    pub fn sound_active(&self) -> (r: bool)
        ensures
            r == (self.sound_timer > 0),
    {
        self.sound_timer > 0
    }
}

/// One 60 Hz timer tick: each timer above zero goes down by one, a timer at
/// zero stays at zero, and nothing else moves.
pub open spec fn rel_tick(pre: Chip8, post: Chip8) -> bool {
    &&& post.delay_timer == if pre.delay_timer > 0 {
        (pre.delay_timer - 1) as u8
    } else {
        0u8
    }
    &&& post.sound_timer == if pre.sound_timer > 0 {
        (pre.sound_timer - 1) as u8
    } else {
        0u8
    }
    &&& post.registers@ == pre.registers@
    &&& post.memory@ == pre.memory@
    &&& post.index == pre.index
    &&& post.pc == pre.pc
    &&& post.stack@ == pre.stack@
    &&& post.sp == pre.sp
    &&& post.keypad@ == pre.keypad@
    &&& post.video@ == pre.video@
    &&& post.mode == pre.mode
    &&& post.keys_seen@ == pre.keys_seen@
}

/// The standard 80-byte font: 16 glyphs for the hexadecimal digits, 5 rows
/// each, one row per byte, drawn from the high bit down.
pub open spec fn spec_font() -> Seq<u8> {
    seq![
        0xF0u8, 0x90, 0x90, 0x90, 0xF0,
        0x20, 0x60, 0x20, 0x20, 0x70,
        0xF0, 0x10, 0xF0, 0x80, 0xF0,
        0xF0, 0x10, 0xF0, 0x10, 0xF0,
        0x90, 0x90, 0xF0, 0x10, 0x10,
        0xF0, 0x80, 0xF0, 0x10, 0xF0,
        0xF0, 0x80, 0xF0, 0x90, 0xF0,
        0xF0, 0x10, 0x20, 0x40, 0x40,
        0xF0, 0x90, 0xF0, 0x90, 0xF0,
        0xF0, 0x90, 0xF0, 0x10, 0xF0,
        0xF0, 0x90, 0xF0, 0x90, 0x90,
        0xE0, 0x90, 0xE0, 0x90, 0xE0,
        0xF0, 0x80, 0x80, 0x80, 0xF0,
        0xE0, 0x90, 0x90, 0x90, 0xE0,
        0xF0, 0x80, 0xF0, 0x80, 0xF0,
        0xF0, 0x80, 0xF0, 0x80, 0x80,
    ]
}

/// The font as an executable table, equal to `spec_font`.
fn font_table() -> (f: Vec<u8>)
    ensures
        f@ == spec_font(),
{
    let f: Vec<u8> = vec![
        0xF0u8, 0x90, 0x90, 0x90, 0xF0,
        0x20, 0x60, 0x20, 0x20, 0x70,
        0xF0, 0x10, 0xF0, 0x80, 0xF0,
        0xF0, 0x10, 0xF0, 0x10, 0xF0,
        0x90, 0x90, 0xF0, 0x10, 0x10,
        0xF0, 0x80, 0xF0, 0x10, 0xF0,
        0xF0, 0x80, 0xF0, 0x90, 0xF0,
        0xF0, 0x10, 0x20, 0x40, 0x40,
        0xF0, 0x90, 0xF0, 0x90, 0xF0,
        0xF0, 0x90, 0xF0, 0x10, 0xF0,
        0xF0, 0x90, 0xF0, 0x90, 0x90,
        0xE0, 0x90, 0xE0, 0x90, 0xE0,
        0xF0, 0x80, 0x80, 0x80, 0xF0,
        0xE0, 0x90, 0x90, 0x90, 0xE0,
        0xF0, 0x80, 0xF0, 0x80, 0xF0,
        0xF0, 0x80, 0xF0, 0x80, 0x80,
    ];
    proof {
        assert(f@ =~= spec_font());
    }
    f
}

/// A byte vector of the given length with every element equal to `v`.
fn filled_bytes(n: usize, v: u8) -> (r: Vec<u8>)
    ensures
        r@.len() == n,
        forall|i: int| 0 <= i < n ==> r@[i] == v,
{
    let mut r: Vec<u8> = Vec::new();
    while r.len() < n
        invariant
            r@.len() <= n,
            forall|i: int| 0 <= i < r@.len() ==> r@[i] == v,
        decreases n - r@.len(),
    {
        r.push(v);
    }
    r
}

/// A 16-bit-word vector of the given length with every element equal to `v`.
fn filled_words(n: usize, v: u16) -> (r: Vec<u16>)
    ensures
        r@.len() == n,
        forall|i: int| 0 <= i < n ==> r@[i] == v,
{
    let mut r: Vec<u16> = Vec::new();
    while r.len() < n
        invariant
            r@.len() <= n,
            forall|i: int| 0 <= i < r@.len() ==> r@[i] == v,
        decreases n - r@.len(),
    {
        r.push(v);
    }
    r
}

/// A boolean vector of the given length with every element equal to `v`.
fn filled_bools(n: usize, v: bool) -> (r: Vec<bool>)
    ensures
        r@.len() == n,
        forall|i: int| 0 <= i < n ==> r@[i] == v,
{
    let mut r: Vec<bool> = Vec::new();
    while r.len() < n
        invariant
            r@.len() <= n,
            forall|i: int| 0 <= i < r@.len() ==> r@[i] == v,
        decreases n - r@.len(),
    {
        r.push(v);
    }
    r
}

} // verus!
