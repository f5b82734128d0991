//! Instruction semantics: one method per opcode, each with a contract that
//! pins down the exact effect on the machine state.
//!
//! Every transition relation takes the program counter in effect at execution
//! time (`pc0`) as an explicit parameter rather than reading it from the
//! pre-state: the fetch-decode-execute cycle advances the program counter
//! before executing, so the executing instruction sees the advanced value.

use vstd::prelude::*;

use crate::decode::{op_n, op_nn, op_nnn, op_x, op_y};
use crate::machine::{Chip8, Mode};
use crate::Chip8Error;

verus! {

// ---------------------------------------------------------------------------
// Frame conditions: which fields an instruction leaves untouched. Each frame
// names the fields that MAY change; every other field is equal. The program
// counter is excluded from every frame and constrained by each relation.
// ---------------------------------------------------------------------------

/// Nothing but the program counter may change.
pub open spec fn frame_none(pre: Chip8, post: Chip8) -> bool {
    &&& post.registers@ == pre.registers@
    &&& post.memory@ == pre.memory@
    &&& post.index == pre.index
    &&& post.stack@ == pre.stack@
    &&& post.sp == pre.sp
    &&& post.delay_timer == pre.delay_timer
    &&& post.sound_timer == pre.sound_timer
    &&& post.keypad@ == pre.keypad@
    &&& post.video@ == pre.video@
    &&& post.mode == pre.mode
    &&& post.keys_seen@ == pre.keys_seen@
}

/// Only the registers (and the program counter) may change.
pub open spec fn frame_regs(pre: Chip8, post: Chip8) -> bool {
    &&& post.memory@ == pre.memory@
    &&& post.index == pre.index
    &&& post.stack@ == pre.stack@
    &&& post.sp == pre.sp
    &&& post.delay_timer == pre.delay_timer
    &&& post.sound_timer == pre.sound_timer
    &&& post.keypad@ == pre.keypad@
    &&& post.video@ == pre.video@
    &&& post.mode == pre.mode
    &&& post.keys_seen@ == pre.keys_seen@
}

/// Only the call stack and stack pointer (and the program counter) may change.
pub open spec fn frame_flow(pre: Chip8, post: Chip8) -> bool {
    &&& post.registers@ == pre.registers@
    &&& post.memory@ == pre.memory@
    &&& post.index == pre.index
    &&& post.delay_timer == pre.delay_timer
    &&& post.sound_timer == pre.sound_timer
    &&& post.keypad@ == pre.keypad@
    &&& post.video@ == pre.video@
    &&& post.mode == pre.mode
    &&& post.keys_seen@ == pre.keys_seen@
}

/// Only the index register (and the program counter) may change.
pub open spec fn frame_index(pre: Chip8, post: Chip8) -> bool {
    &&& post.registers@ == pre.registers@
    &&& post.memory@ == pre.memory@
    &&& post.stack@ == pre.stack@
    &&& post.sp == pre.sp
    &&& post.delay_timer == pre.delay_timer
    &&& post.sound_timer == pre.sound_timer
    &&& post.keypad@ == pre.keypad@
    &&& post.video@ == pre.video@
    &&& post.mode == pre.mode
    &&& post.keys_seen@ == pre.keys_seen@
}

/// Only the framebuffer and the registers (and the program counter) may
/// change.
pub open spec fn frame_video_regs(pre: Chip8, post: Chip8) -> bool {
    &&& post.memory@ == pre.memory@
    &&& post.index == pre.index
    &&& post.stack@ == pre.stack@
    &&& post.sp == pre.sp
    &&& post.delay_timer == pre.delay_timer
    &&& post.sound_timer == pre.sound_timer
    &&& post.keypad@ == pre.keypad@
    &&& post.mode == pre.mode
    &&& post.keys_seen@ == pre.keys_seen@
}

/// Only memory (and the program counter) may change.
pub open spec fn frame_memory(pre: Chip8, post: Chip8) -> bool {
    &&& post.registers@ == pre.registers@
    &&& post.index == pre.index
    &&& post.stack@ == pre.stack@
    &&& post.sp == pre.sp
    &&& post.delay_timer == pre.delay_timer
    &&& post.sound_timer == pre.sound_timer
    &&& post.keypad@ == pre.keypad@
    &&& post.video@ == pre.video@
    &&& post.mode == pre.mode
    &&& post.keys_seen@ == pre.keys_seen@
}

/// Only the two timers (and the program counter) may change.
pub open spec fn frame_timers(pre: Chip8, post: Chip8) -> bool {
    &&& post.registers@ == pre.registers@
    &&& post.memory@ == pre.memory@
    &&& post.index == pre.index
    &&& post.stack@ == pre.stack@
    &&& post.sp == pre.sp
    &&& post.keypad@ == pre.keypad@
    &&& post.video@ == pre.video@
    &&& post.mode == pre.mode
    &&& post.keys_seen@ == pre.keys_seen@
}

/// Only the machine mode and the keypad snapshot (and the program counter)
/// may change.
pub open spec fn frame_await(pre: Chip8, post: Chip8) -> bool {
    &&& post.registers@ == pre.registers@
    &&& post.memory@ == pre.memory@
    &&& post.index == pre.index
    &&& post.stack@ == pre.stack@
    &&& post.sp == pre.sp
    &&& post.delay_timer == pre.delay_timer
    &&& post.sound_timer == pre.sound_timer
    &&& post.keypad@ == pre.keypad@
    &&& post.video@ == pre.video@
}

/// Completely untouched state, the program counter standing at `pc0`.
pub open spec fn unchanged_at(pre: Chip8, post: Chip8, pc0: u16) -> bool {
    &&& frame_none(pre, post)
    &&& post.pc == pc0
}

// ---------------------------------------------------------------------------
// Transition relations, one per opcode.
// ---------------------------------------------------------------------------

/// `00E0`: every pixel unlit; nothing else moves.
pub open spec fn rel_clear(pre: Chip8, post: Chip8, pc0: u16) -> bool {
    &&& frame_video_regs(pre, post)
    &&& post.registers@ == pre.registers@
    &&& post.pc == pc0
    &&& post.video@.len() == 2048
    &&& forall|p: int| 0 <= p < 2048 ==> !post.video@[p]
}

/// `00EE` with a non-empty stack: pop the return address into the program
/// counter.
pub open spec fn rel_return_ok(pre: Chip8, post: Chip8) -> bool {
    &&& pre.sp >= 1
    &&& frame_flow(pre, post)
    &&& post.stack@ == pre.stack@
    &&& post.sp == pre.sp - 1
    &&& post.pc == pre.stack@[pre.sp - 1]
}

/// `1nnn`: jump.
pub open spec fn rel_jump(pre: Chip8, post: Chip8, w: u16) -> bool {
    &&& frame_none(pre, post)
    &&& post.pc == op_nnn(w)
}

/// `2nnn` with a free stack slot: push the current program counter, then
/// jump to the call target.
pub open spec fn rel_call_ok(pre: Chip8, post: Chip8, w: u16, pc0: u16) -> bool {
    &&& pre.sp < 16
    &&& frame_flow(pre, post)
    &&& post.stack@ == pre.stack@.update(pre.sp as int, pc0)
    &&& post.sp == pre.sp + 1
    &&& post.pc == op_nnn(w)
}

/// Conditional skip: the program counter moves past the next instruction
/// exactly when `cond` holds, and stays put otherwise.
pub open spec fn rel_skip(pre: Chip8, post: Chip8, pc0: u16, cond: bool) -> bool {
    &&& frame_none(pre, post)
    &&& post.pc == if cond {
        ((pc0 + 2) % 4096) as u16
    } else {
        pc0
    }
}

/// `3xnn`: skip when Vx == nn.
pub open spec fn rel_skip_eq_imm(pre: Chip8, post: Chip8, w: u16, pc0: u16) -> bool {
    rel_skip(pre, post, pc0, pre.registers@[op_x(w) as int] == op_nn(w))
}

/// `4xnn`: skip when Vx != nn.
pub open spec fn rel_skip_ne_imm(pre: Chip8, post: Chip8, w: u16, pc0: u16) -> bool {
    rel_skip(pre, post, pc0, pre.registers@[op_x(w) as int] != op_nn(w))
}

/// `5xy0`: skip when Vx == Vy.
pub open spec fn rel_skip_eq_reg(pre: Chip8, post: Chip8, w: u16, pc0: u16) -> bool {
    rel_skip(
        pre,
        post,
        pc0,
        pre.registers@[op_x(w) as int] == pre.registers@[op_y(w) as int],
    )
}

/// `9xy0`: skip when Vx != Vy.
pub open spec fn rel_skip_ne_reg(pre: Chip8, post: Chip8, w: u16, pc0: u16) -> bool {
    rel_skip(
        pre,
        post,
        pc0,
        pre.registers@[op_x(w) as int] != pre.registers@[op_y(w) as int],
    )
}

/// A register write with everything else fixed: Vx takes `v`.
pub open spec fn rel_set_reg(pre: Chip8, post: Chip8, w: u16, pc0: u16, v: u8) -> bool {
    &&& frame_regs(pre, post)
    &&& post.pc == pc0
    &&& post.registers@ == pre.registers@.update(op_x(w) as int, v)
}

/// A register write together with the flag register: Vx takes `v`, then VF
/// takes `flag` (so VF holds the flag even when x is 15).
pub open spec fn rel_set_reg_flag(
    pre: Chip8,
    post: Chip8,
    w: u16,
    pc0: u16,
    v: u8,
    flag: u8,
) -> bool {
    &&& frame_regs(pre, post)
    &&& post.pc == pc0
    &&& post.registers@ == pre.registers@.update(op_x(w) as int, v).update(15, flag)
}

/// `6xnn`: Vx = nn.
pub open spec fn rel_load_imm(pre: Chip8, post: Chip8, w: u16, pc0: u16) -> bool {
    rel_set_reg(pre, post, w, pc0, op_nn(w))
}

/// `7xnn`: Vx = (Vx + nn) mod 256; the flag register is not touched.
pub open spec fn rel_add_imm(pre: Chip8, post: Chip8, w: u16, pc0: u16) -> bool {
    rel_set_reg(
        pre,
        post,
        w,
        pc0,
        ((pre.registers@[op_x(w) as int] + op_nn(w)) % 256) as u8,
    )
}

/// `8xy0`: Vx = Vy.
pub open spec fn rel_move(pre: Chip8, post: Chip8, w: u16, pc0: u16) -> bool {
    rel_set_reg(pre, post, w, pc0, pre.registers@[op_y(w) as int])
}

/// `8xy1`: Vx = Vx | Vy.
pub open spec fn rel_or(pre: Chip8, post: Chip8, w: u16, pc0: u16) -> bool {
    rel_set_reg(
        pre,
        post,
        w,
        pc0,
        pre.registers@[op_x(w) as int] | pre.registers@[op_y(w) as int],
    )
}

/// `8xy2`: Vx = Vx & Vy.
pub open spec fn rel_and(pre: Chip8, post: Chip8, w: u16, pc0: u16) -> bool {
    rel_set_reg(
        pre,
        post,
        w,
        pc0,
        pre.registers@[op_x(w) as int] & pre.registers@[op_y(w) as int],
    )
}

/// `8xy3`: Vx = Vx ^ Vy.
pub open spec fn rel_xor(pre: Chip8, post: Chip8, w: u16, pc0: u16) -> bool {
    rel_set_reg(
        pre,
        post,
        w,
        pc0,
        pre.registers@[op_x(w) as int] ^ pre.registers@[op_y(w) as int],
    )
}

/// `8xy4`: Vx = (Vx + Vy) mod 256; VF = 1 exactly when the sum overflowed
/// 8 bits. Both operands are read before either register is written.
pub open spec fn rel_add_reg(pre: Chip8, post: Chip8, w: u16, pc0: u16) -> bool {
    let vx = pre.registers@[op_x(w) as int];
    let vy = pre.registers@[op_y(w) as int];
    rel_set_reg_flag(
        pre,
        post,
        w,
        pc0,
        ((vx + vy) % 256) as u8,
        if vx + vy > 255 {
            1u8
        } else {
            0u8
        },
    )
}

/// `8xy5`: Vx = (Vx - Vy) mod 256; VF = 1 exactly when no borrow occurred
/// (Vx >= Vy). Both operands are read before either register is written.
pub open spec fn rel_sub_reg(pre: Chip8, post: Chip8, w: u16, pc0: u16) -> bool {
    let vx = pre.registers@[op_x(w) as int];
    let vy = pre.registers@[op_y(w) as int];
    rel_set_reg_flag(
        pre,
        post,
        w,
        pc0,
        ((vx - vy) % 256) as u8,
        if vx >= vy {
            1u8
        } else {
            0u8
        },
    )
}

/// `8xy7`: Vx = (Vy - Vx) mod 256; VF = 1 exactly when no borrow occurred
/// (Vy >= Vx). Both operands are read before either register is written.
pub open spec fn rel_sub_from(pre: Chip8, post: Chip8, w: u16, pc0: u16) -> bool {
    let vx = pre.registers@[op_x(w) as int];
    let vy = pre.registers@[op_y(w) as int];
    rel_set_reg_flag(
        pre,
        post,
        w,
        pc0,
        ((vy - vx) % 256) as u8,
        if vy >= vx {
            1u8
        } else {
            0u8
        },
    )
}

/// `8xy6`: Vx is halved (shifted right by one); VF = the bit shifted out
/// (the low bit of the old Vx).
pub open spec fn rel_shift_right(pre: Chip8, post: Chip8, w: u16, pc0: u16) -> bool {
    let vx = pre.registers@[op_x(w) as int];
    rel_set_reg_flag(pre, post, w, pc0, vx / 2, vx % 2)
}

/// `8xyE`: Vx is doubled modulo 256 (shifted left by one, keeping the low
/// 8 bits); VF = the bit shifted out (the high bit of the old Vx).
pub open spec fn rel_shift_left(pre: Chip8, post: Chip8, w: u16, pc0: u16) -> bool {
    let vx = pre.registers@[op_x(w) as int];
    rel_set_reg_flag(pre, post, w, pc0, ((vx * 2) % 256) as u8, vx / 128)
}

/// `Annn`: I = nnn.
pub open spec fn rel_load_index(pre: Chip8, post: Chip8, w: u16, pc0: u16) -> bool {
    &&& frame_index(pre, post)
    &&& post.pc == pc0
    &&& post.index == op_nnn(w)
}

/// `Bnnn`: jump to nnn + V0, wrapping inside the 4096-byte address space.
pub open spec fn rel_jump_offset(pre: Chip8, post: Chip8, w: u16) -> bool {
    &&& frame_none(pre, post)
    &&& post.pc == ((op_nnn(w) + pre.registers@[0]) % 4096) as u16
}

/// `Cxnn`: Vx = rand & nn, for whatever byte `rand` the caller drew.
pub open spec fn rel_random(pre: Chip8, post: Chip8, w: u16, pc0: u16, rand: u8) -> bool {
    rel_set_reg(pre, post, w, pc0, rand & op_nn(w))
}

/// `Ex9E`: skip when the key named by the low nibble of Vx is pressed.
pub open spec fn rel_skip_key(pre: Chip8, post: Chip8, w: u16, pc0: u16) -> bool {
    rel_skip(
        pre,
        post,
        pc0,
        pre.keypad@[(pre.registers@[op_x(w) as int] % 16) as int],
    )
}

/// `ExA1`: skip when the key named by the low nibble of Vx is not pressed.
pub open spec fn rel_skip_no_key(pre: Chip8, post: Chip8, w: u16, pc0: u16) -> bool {
    rel_skip(
        pre,
        post,
        pc0,
        !pre.keypad@[(pre.registers@[op_x(w) as int] % 16) as int],
    )
}

/// `Fx07`: Vx = delay timer.
pub open spec fn rel_read_delay(pre: Chip8, post: Chip8, w: u16, pc0: u16) -> bool {
    rel_set_reg(pre, post, w, pc0, pre.delay_timer)
}

/// `Fx0A`: suspend. The program counter steps back to the instruction
/// itself (so it is not advanced past until a key press arrives), the mode
/// turns to awaiting-key, and the current keypad is snapshotted so that
/// only a not-pressed-to-pressed transition can satisfy the wait.
pub open spec fn rel_wait_key(pre: Chip8, post: Chip8, w: u16, pc0: u16) -> bool {
    &&& frame_await(pre, post)
    &&& post.registers@ == pre.registers@
    &&& post.pc == ((pc0 + 4094) % 4096) as u16
    &&& post.mode == (Mode::AwaitingKey { x: op_x(w) as u8 })
    &&& post.keys_seen@ == pre.keypad@
}

/// `Fx15`: delay timer = Vx.
pub open spec fn rel_set_delay(pre: Chip8, post: Chip8, w: u16, pc0: u16) -> bool {
    &&& frame_timers(pre, post)
    &&& post.pc == pc0
    &&& post.delay_timer == pre.registers@[op_x(w) as int]
    &&& post.sound_timer == pre.sound_timer
}

/// `Fx18`: sound timer = Vx.
pub open spec fn rel_set_sound(pre: Chip8, post: Chip8, w: u16, pc0: u16) -> bool {
    &&& frame_timers(pre, post)
    &&& post.pc == pc0
    &&& post.sound_timer == pre.registers@[op_x(w) as int]
    &&& post.delay_timer == pre.delay_timer
}

/// `Fx1E`: I = I + Vx, wrapping at the register's 16-bit storage.
pub open spec fn rel_add_index(pre: Chip8, post: Chip8, w: u16, pc0: u16) -> bool {
    &&& frame_index(pre, post)
    &&& post.pc == pc0
    &&& post.index == ((pre.index + pre.registers@[op_x(w) as int]) % 0x10000) as u16
}

/// `Fx29`: I = 0x050 + Vx * 5, the address of a font glyph when Vx is a
/// hexadecimal digit.
pub open spec fn rel_font_index(pre: Chip8, post: Chip8, w: u16, pc0: u16) -> bool {
    &&& frame_index(pre, post)
    &&& post.pc == pc0
    &&& post.index == (0x50 + pre.registers@[op_x(w) as int] * 5) as u16
}

/// Where the k-th byte of a register store or load lands in memory:
/// I + k, wrapping inside the address space.
pub open spec fn reg_mem_addr(pre: Chip8, k: int) -> int {
    (pre.index + k) % 4096
}

/// `Fx33`: the three decimal digits of Vx, hundreds first, land at I, I+1,
/// I+2 (each wrapping inside the address space).
pub open spec fn rel_store_digits(pre: Chip8, post: Chip8, w: u16, pc0: u16) -> bool {
    let vx = pre.registers@[op_x(w) as int];
    &&& frame_memory(pre, post)
    &&& post.pc == pc0
    &&& post.memory@ == pre.memory@
        .update(reg_mem_addr(pre, 0), (vx / 100) as u8)
        .update(reg_mem_addr(pre, 1), ((vx / 10) % 10) as u8)
        .update(reg_mem_addr(pre, 2), (vx % 10) as u8)
}

/// `Fx55`: V0..=Vx land at I..=I+x; all other memory is untouched.
pub open spec fn rel_store_regs(pre: Chip8, post: Chip8, w: u16, pc0: u16) -> bool {
    let xi = op_x(w) as int;
    &&& frame_memory(pre, post)
    &&& post.pc == pc0
    &&& post.memory@.len() == 4096
    &&& forall|k: int| 0 <= k <= xi ==> post.memory@[#[trigger] reg_mem_addr(pre, k)]
        == pre.registers@[k]
    &&& forall|a: int|
        0 <= a < 4096 && !(exists|k: int| 0 <= k <= xi && #[trigger] reg_mem_addr(pre, k) == a)
            ==> post.memory@[a] == pre.memory@[a]
}

/// `Fx65`: V0..=Vx take the bytes at I..=I+x; the registers above Vx are
/// untouched.
pub open spec fn rel_load_regs(pre: Chip8, post: Chip8, w: u16, pc0: u16) -> bool {
    let xi = op_x(w) as int;
    &&& frame_regs(pre, post)
    &&& post.pc == pc0
    &&& post.registers@.len() == 16
    &&& forall|k: int| 0 <= k <= xi ==> post.registers@[k]
        == pre.memory@[#[trigger] reg_mem_addr(pre, k)]
    &&& forall|j: int| xi < j < 16 ==> post.registers@[j] == pre.registers@[j]
}

/// Adding the same base, two distinct small offsets stay distinct after
/// folding by the modulus.
pub(crate) proof fn lemma_mod_inj(m: int, base: int, j: int, k: int)
    requires
        m > 0,
        0 <= base,
        0 <= j < k,
        k - j < m,
    ensures
        (base + j) % m != (base + k) % m,
{
    let a = base + j;
    let b = base + k;
    vstd::arithmetic::div_mod::lemma_fundamental_div_mod(a, m);
    vstd::arithmetic::div_mod::lemma_fundamental_div_mod(b, m);
    if a % m == b % m {
        let q = b / m - a / m;
        assert(k - j == m * q) by (nonlinear_arith)
            requires
                a == m * (a / m) + a % m,
                b == m * (b / m) + b % m,
                a % m == b % m,
                q == b / m - a / m,
                b - a == k - j,
        ;
        assert(!(0 < k - j < m)) by (nonlinear_arith)
            requires
                m > 0,
                k - j == m * q,
        ;
    }
}

/// The 16 or fewer memory slots of one register store or load are pairwise
/// distinct, the wrap inside the address space notwithstanding.
proof fn lemma_reg_mem_addr_inj(pre: Chip8, j: int, k: int)
    requires
        0 <= j < k < 16,
    ensures
        reg_mem_addr(pre, j) != reg_mem_addr(pre, k),
{
    lemma_mod_inj(4096, pre.index as int, j, k);
}

// ---------------------------------------------------------------------------
// The per-opcode methods.
// ---------------------------------------------------------------------------

impl Chip8 {
    /// `00E0`.
    pub fn clear_screen(&mut self)
        requires
            old(self).wf(),
        ensures
            final(self).wf(),
            rel_clear(*old(self), *final(self), old(self).pc),
    {
        let mut i: usize = 0;
        while i < 2048
            invariant
                old(self).wf(),
                i <= 2048,
                self.video@.len() == 2048,
                forall|p: int| 0 <= p < i ==> !self.video@[p],
                frame_video_regs(*old(self), *self),
                self.registers@ == old(self).registers@,
                self.pc == old(self).pc,
            decreases 2048 - i,
        {
            self.video[i] = false;
            i += 1;
        }
    }

    /// `00EE`. An empty stack means a return without a matching call: the
    /// machine is left untouched and `StackUnderflow` is surfaced.
    pub fn return_from_subroutine(&mut self) -> (r: Result<(), Chip8Error>)
        requires
            old(self).wf(),
        ensures
            final(self).wf(),
            old(self).sp == 0 ==> r == Err::<(), Chip8Error>(Chip8Error::StackUnderflow)
                && unchanged_at(*old(self), *final(self), old(self).pc),
            old(self).sp > 0 ==> r == Ok::<(), Chip8Error>(())
                && rel_return_ok(*old(self), *final(self)),
    {
        if self.sp == 0 {
            return Err(Chip8Error::StackUnderflow);
        }
        self.sp = self.sp - 1;
        self.pc = self.stack[self.sp as usize];
        Ok(())
    }

    /// `1nnn`.
    pub fn jump(&mut self, instruction: u16)
        requires
            old(self).wf(),
        ensures
            final(self).wf(),
            rel_jump(*old(self), *final(self), instruction),
    {
        self.pc = instruction % 0x1000;
    }

    /// `2nnn`. A full stack means a seventeenth nested call: the machine is
    /// left untouched and `StackOverflow` is surfaced.
    pub fn call_subroutine(&mut self, instruction: u16) -> (r: Result<(), Chip8Error>)
        requires
            old(self).wf(),
        ensures
            final(self).wf(),
            old(self).sp == 16 ==> r == Err::<(), Chip8Error>(Chip8Error::StackOverflow)
                && unchanged_at(*old(self), *final(self), old(self).pc),
            old(self).sp < 16 ==> r == Ok::<(), Chip8Error>(())
                && rel_call_ok(*old(self), *final(self), instruction, old(self).pc),
    {
        if self.sp == 16 {
            return Err(Chip8Error::StackOverflow);
        }
        let location: u16 = instruction % 0x1000;
        let sp: usize = self.sp as usize;
        self.stack[sp] = self.pc;
        self.sp = self.sp + 1;
        self.pc = location;
        Ok(())
    }

    /// `3xnn`.
    pub fn skip_if_equal(&mut self, instruction: u16)
        requires
            old(self).wf(),
        ensures
            final(self).wf(),
            rel_skip_eq_imm(*old(self), *final(self), instruction, old(self).pc),
    {
        let register: usize = ((instruction as usize) / 0x100) % 16;
        let value: u8 = (instruction % 0x100) as u8;
        if self.registers[register] == value {
            self.pc = (((self.pc as usize) + 2) % 4096) as u16;
        }
    }

    /// `4xnn`.
    pub fn skip_if_not_equal(&mut self, instruction: u16)
        requires
            old(self).wf(),
        ensures
            final(self).wf(),
            rel_skip_ne_imm(*old(self), *final(self), instruction, old(self).pc),
    {
        let register: usize = ((instruction as usize) / 0x100) % 16;
        let value: u8 = (instruction % 0x100) as u8;
        if self.registers[register] != value {
            self.pc = (((self.pc as usize) + 2) % 4096) as u16;
        }
    }

    /// `5xy0`.
    pub fn skip_if_registers_equal(&mut self, instruction: u16)
        requires
            old(self).wf(),
        ensures
            final(self).wf(),
            rel_skip_eq_reg(*old(self), *final(self), instruction, old(self).pc),
    {
        let x_register: usize = ((instruction as usize) / 0x100) % 16;
        let y_register: usize = ((instruction as usize) / 16) % 16;
        if self.registers[x_register] == self.registers[y_register] {
            self.pc = (((self.pc as usize) + 2) % 4096) as u16;
        }
    }

    /// `9xy0`.
    pub fn skip_if_registers_not_equal(&mut self, instruction: u16)
        requires
            old(self).wf(),
        ensures
            final(self).wf(),
            rel_skip_ne_reg(*old(self), *final(self), instruction, old(self).pc),
    {
        let x_register: usize = ((instruction as usize) / 0x100) % 16;
        let y_register: usize = ((instruction as usize) / 16) % 16;
        if self.registers[x_register] != self.registers[y_register] {
            self.pc = (((self.pc as usize) + 2) % 4096) as u16;
        }
    }

    /// `6xnn`.
    pub fn set_register(&mut self, instruction: u16)
        requires
            old(self).wf(),
        ensures
            final(self).wf(),
            rel_load_imm(*old(self), *final(self), instruction, old(self).pc),
    {
        let register: usize = ((instruction as usize) / 0x100) % 16;
        let value: u8 = (instruction % 0x100) as u8;
        self.registers[register] = value;
    }

    /// `7xnn`.
    pub fn add_to_register(&mut self, instruction: u16)
        requires
            old(self).wf(),
        ensures
            final(self).wf(),
            rel_add_imm(*old(self), *final(self), instruction, old(self).pc),
    {
        let register: usize = ((instruction as usize) / 0x100) % 16;
        let value: u8 = (instruction % 0x100) as u8;
        self.registers[register] = self.registers[register].wrapping_add(value);
    }

    /// `8xy0`.
    pub fn set_x_register(&mut self, instruction: u16)
        requires
            old(self).wf(),
        ensures
            final(self).wf(),
            rel_move(*old(self), *final(self), instruction, old(self).pc),
    {
        let x_register: usize = ((instruction as usize) / 0x100) % 16;
        let y_register: usize = ((instruction as usize) / 16) % 16;
        self.registers[x_register] = self.registers[y_register];
    }

    /// `8xy1`.
    pub fn binary_or(&mut self, instruction: u16)
        requires
            old(self).wf(),
        ensures
            final(self).wf(),
            rel_or(*old(self), *final(self), instruction, old(self).pc),
    {
        let x_register: usize = ((instruction as usize) / 0x100) % 16;
        let y_register: usize = ((instruction as usize) / 16) % 16;
        self.registers[x_register] = self.registers[x_register] | self.registers[y_register];
    }

    /// `8xy2`.
    pub fn binary_and(&mut self, instruction: u16)
        requires
            old(self).wf(),
        ensures
            final(self).wf(),
            rel_and(*old(self), *final(self), instruction, old(self).pc),
    {
        let x_register: usize = ((instruction as usize) / 0x100) % 16;
        let y_register: usize = ((instruction as usize) / 16) % 16;
        self.registers[x_register] = self.registers[x_register] & self.registers[y_register];
    }

    /// `8xy3`.
    pub fn logical_xor(&mut self, instruction: u16)
        requires
            old(self).wf(),
        ensures
            final(self).wf(),
            rel_xor(*old(self), *final(self), instruction, old(self).pc),
    {
        let x_register: usize = ((instruction as usize) / 0x100) % 16;
        let y_register: usize = ((instruction as usize) / 16) % 16;
        self.registers[x_register] = self.registers[x_register] ^ self.registers[y_register];
    }

    /// `8xy4`.
    pub fn add_registers(&mut self, instruction: u16)
        requires
            old(self).wf(),
        ensures
            final(self).wf(),
            rel_add_reg(*old(self), *final(self), instruction, old(self).pc),
    {
        let x_register: usize = ((instruction as usize) / 0x100) % 16;
        let y_register: usize = ((instruction as usize) / 16) % 16;
        let vx: u8 = self.registers[x_register];
        let vy: u8 = self.registers[y_register];
        self.registers[x_register] = vx.wrapping_add(vy);
        self.registers[15] = if (vx as u16) + (vy as u16) > 255 {
            1
        } else {
            0
        };
    }

    /// `8xy5`.
    pub fn subtract_registers(&mut self, instruction: u16)
        requires
            old(self).wf(),
        ensures
            final(self).wf(),
            rel_sub_reg(*old(self), *final(self), instruction, old(self).pc),
    {
        let x_register: usize = ((instruction as usize) / 0x100) % 16;
        let y_register: usize = ((instruction as usize) / 16) % 16;
        let vx: u8 = self.registers[x_register];
        let vy: u8 = self.registers[y_register];
        self.registers[x_register] = vx.wrapping_sub(vy);
        self.registers[15] = if vx >= vy {
            1
        } else {
            0
        };
    }

    /// `8xy7`.
    pub fn subtract_from_register(&mut self, instruction: u16)
        requires
            old(self).wf(),
        ensures
            final(self).wf(),
            rel_sub_from(*old(self), *final(self), instruction, old(self).pc),
    {
        let x_register: usize = ((instruction as usize) / 0x100) % 16;
        let y_register: usize = ((instruction as usize) / 16) % 16;
        let vx: u8 = self.registers[x_register];
        let vy: u8 = self.registers[y_register];
        self.registers[x_register] = vy.wrapping_sub(vx);
        self.registers[15] = if vy >= vx {
            1
        } else {
            0
        };
    }

    /// `8xy6`.
    pub fn shift_right(&mut self, instruction: u16)
        requires
            old(self).wf(),
        ensures
            final(self).wf(),
            rel_shift_right(*old(self), *final(self), instruction, old(self).pc),
    {
        let x_register: usize = ((instruction as usize) / 0x100) % 16;
        let vx: u8 = self.registers[x_register];
        self.registers[x_register] = vx / 2;
        self.registers[15] = vx % 2;
    }

    /// `8xyE`.
    pub fn shift_left(&mut self, instruction: u16)
        requires
            old(self).wf(),
        ensures
            final(self).wf(),
            rel_shift_left(*old(self), *final(self), instruction, old(self).pc),
    {
        let x_register: usize = ((instruction as usize) / 0x100) % 16;
        let vx: u8 = self.registers[x_register];
        self.registers[x_register] = (((vx as u16) * 2) % 256) as u8;
        self.registers[15] = vx / 128;
    }

    /// `Annn`.
    pub fn set_index_register(&mut self, instruction: u16)
        requires
            old(self).wf(),
        ensures
            final(self).wf(),
            rel_load_index(*old(self), *final(self), instruction, old(self).pc),
    {
        self.index = instruction % 0x1000;
    }

    /// `Bnnn`.
    pub fn jump_with_offset(&mut self, instruction: u16)
        requires
            old(self).wf(),
        ensures
            final(self).wf(),
            rel_jump_offset(*old(self), *final(self), instruction),
    {
        let target: usize = ((instruction % 0x1000) as usize + self.registers[0] as usize) % 4096;
        self.pc = target as u16;
    }

    /// `Cxnn`. The caller draws the random byte; the instruction masks it
    /// with nn and stores it.
    pub fn randomize_register(&mut self, instruction: u16, rand: u8)
        requires
            old(self).wf(),
        ensures
            final(self).wf(),
            rel_random(*old(self), *final(self), instruction, old(self).pc, rand),
    {
        let register: usize = ((instruction as usize) / 0x100) % 16;
        let mask: u8 = (instruction % 0x100) as u8;
        self.registers[register] = rand & mask;
    }

    /// `Ex9E`. The key index is the low nibble of Vx.
    pub fn skip_if_key_pressed(&mut self, instruction: u16)
        requires
            old(self).wf(),
        ensures
            final(self).wf(),
            rel_skip_key(*old(self), *final(self), instruction, old(self).pc),
    {
        let register: usize = ((instruction as usize) / 0x100) % 16;
        let vx: u8 = self.registers[register];
        let key: u8 = vx % 16;
        if self.keypad[key as usize] {
            self.pc = (((self.pc as usize) + 2) % 4096) as u16;
        }
    }

    /// `ExA1`. The key index is the low nibble of Vx.
    pub fn skip_if_key_not_pressed(&mut self, instruction: u16)
        requires
            old(self).wf(),
        ensures
            final(self).wf(),
            rel_skip_no_key(*old(self), *final(self), instruction, old(self).pc),
    {
        let register: usize = ((instruction as usize) / 0x100) % 16;
        let vx: u8 = self.registers[register];
        let key: u8 = vx % 16;
        if !self.keypad[key as usize] {
            self.pc = (((self.pc as usize) + 2) % 4096) as u16;
        }
    }

    /// `Fx07`.
    pub fn read_delay_timer(&mut self, instruction: u16)
        requires
            old(self).wf(),
        ensures
            final(self).wf(),
            rel_read_delay(*old(self), *final(self), instruction, old(self).pc),
    {
        let register: usize = ((instruction as usize) / 0x100) % 16;
        let value: u8 = self.delay_timer;
        self.registers[register] = value;
    }

    /// `Fx0A`: enter the awaiting-key mode; see `rel_wait_key`.
    pub fn await_key(&mut self, instruction: u16)
        requires
            old(self).wf(),
        ensures
            final(self).wf(),
            rel_wait_key(*old(self), *final(self), instruction, old(self).pc),
    {
        let x: u8 = ((instruction / 0x100) % 16) as u8;
        self.pc = (((self.pc as usize) + 4094) % 4096) as u16;
        self.mode = Mode::AwaitingKey { x };
        self.keys_seen = self.keypad.clone();
    }

    /// `Fx15`.
    pub fn set_delay_timer(&mut self, instruction: u16)
        requires
            old(self).wf(),
        ensures
            final(self).wf(),
            rel_set_delay(*old(self), *final(self), instruction, old(self).pc),
    {
        let register: usize = ((instruction as usize) / 0x100) % 16;
        self.delay_timer = self.registers[register];
    }

    /// `Fx18`.
    pub fn set_sound_timer(&mut self, instruction: u16)
        requires
            old(self).wf(),
        ensures
            final(self).wf(),
            rel_set_sound(*old(self), *final(self), instruction, old(self).pc),
    {
        let register: usize = ((instruction as usize) / 0x100) % 16;
        self.sound_timer = self.registers[register];
    }

    /// `Fx1E`: the index register wraps at its 16-bit storage; the wrap is
    /// deliberate and covered by a test, addresses above 0xFFF being folded
    /// into the address space only when memory is actually read.
    pub fn add_to_index(&mut self, instruction: u16)
        requires
            old(self).wf(),
        ensures
            final(self).wf(),
            rel_add_index(*old(self), *final(self), instruction, old(self).pc),
    {
        let register: usize = ((instruction as usize) / 0x100) % 16;
        let vx: u8 = self.registers[register];
        self.index = self.index.wrapping_add(vx as u16);
    }

    /// `Fx29`.
    pub fn set_index_to_font(&mut self, instruction: u16)
        requires
            old(self).wf(),
        ensures
            final(self).wf(),
            rel_font_index(*old(self), *final(self), instruction, old(self).pc),
    {
        let register: usize = ((instruction as usize) / 0x100) % 16;
        let vx: u8 = self.registers[register];
        self.index = 0x50 + (vx as u16) * 5;
    }

    /// `Fx55`.
    pub fn store_registers(&mut self, instruction: u16)
        requires
            old(self).wf(),
        ensures
            final(self).wf(),
            rel_store_regs(*old(self), *final(self), instruction, old(self).pc),
    {
        let x: usize = ((instruction as usize) / 0x100) % 16;
        let ghost pre = *old(self);
        let mut k: usize = 0;
        while k <= x
            invariant
                pre == *old(self),
                pre.wf(),
                x == op_x(instruction) as int,
                x < 16,
                k <= x + 1,
                frame_memory(pre, *self),
                self.pc == pre.pc,
                self.memory@.len() == 4096,
                forall|j: int| 0 <= j < k ==> self.memory@[#[trigger] reg_mem_addr(pre, j)]
                    == pre.registers@[j],
                forall|a: int|
                    0 <= a < 4096 && !(exists|j: int|
                        0 <= j < k && #[trigger] reg_mem_addr(pre, j) == a)
                        ==> self.memory@[a] == pre.memory@[a],
            decreases x + 1 - k,
        {
            let addr: usize = ((self.index as usize) + k) % 4096;
            proof {
                assert(addr as int == reg_mem_addr(pre, k as int));
                assert forall|j: int| 0 <= j < k implies reg_mem_addr(pre, j) != addr as int by {
                    lemma_reg_mem_addr_inj(pre, j, k as int);
                }
            }
            self.memory[addr] = self.registers[k];
            k += 1;
        }
    }

    /// `Fx65`.
    pub fn load_registers(&mut self, instruction: u16)
        requires
            old(self).wf(),
        ensures
            final(self).wf(),
            rel_load_regs(*old(self), *final(self), instruction, old(self).pc),
    {
        let x: usize = ((instruction as usize) / 0x100) % 16;
        let ghost pre = *old(self);
        let mut k: usize = 0;
        while k <= x
            invariant
                pre == *old(self),
                pre.wf(),
                x == op_x(instruction) as int,
                x < 16,
                k <= x + 1,
                frame_regs(pre, *self),
                self.pc == pre.pc,
                self.registers@.len() == 16,
                forall|j: int| 0 <= j < k ==> self.registers@[j]
                    == pre.memory@[#[trigger] reg_mem_addr(pre, j)],
                forall|j: int| k <= j < 16 ==> self.registers@[j] == pre.registers@[j],
            decreases x + 1 - k,
        {
            let addr: usize = ((self.index as usize) + k) % 4096;
            proof {
                assert(addr as int == reg_mem_addr(pre, k as int));
            }
            self.registers[k] = self.memory[addr];
            k += 1;
        }
    }

    /// `Fx33`.
    pub fn store_decimal_digits(&mut self, instruction: u16)
        requires
            old(self).wf(),
        ensures
            final(self).wf(),
            rel_store_digits(*old(self), *final(self), instruction, old(self).pc),
    {
        let register: usize = ((instruction as usize) / 0x100) % 16;
        let vx: u8 = self.registers[register];
        let a0: usize = (self.index as usize) % 4096;
        let a1: usize = ((self.index as usize) + 1) % 4096;
        let a2: usize = ((self.index as usize) + 2) % 4096;
        self.memory[a0] = vx / 100;
        self.memory[a1] = (vx / 10) % 10;
        self.memory[a2] = vx % 10;
    }
}

} // verus!
