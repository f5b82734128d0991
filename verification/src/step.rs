//! The fetch-decode-execute cycle: dispatch of one decoded instruction, and
//! one whole machine step, including the cooperative suspension of the
//! wait-for-key instruction.

use vstd::prelude::*;

use crate::decode::{decode, op_x, spec_decode, Opcode};
use crate::draw::rel_draw;
use crate::exec::{
    reg_mem_addr, rel_clear, rel_return_ok, rel_jump, rel_call_ok, rel_skip_eq_imm, rel_skip_ne_imm,
    rel_skip_eq_reg, rel_skip_ne_reg, rel_load_imm, rel_add_imm, rel_move, rel_or, rel_and,
    rel_xor, rel_add_reg, rel_sub_reg, rel_shift_right, rel_sub_from, rel_shift_left,
    rel_load_index, rel_jump_offset, rel_random, rel_skip_key, rel_skip_no_key, rel_read_delay,
    rel_wait_key, rel_set_delay, rel_set_sound, rel_add_index, rel_font_index, rel_store_digits,
    rel_store_regs, rel_load_regs, unchanged_at,
};
use crate::machine::{Chip8, Mode};
use crate::Chip8Error;

verus! {

/// What one successful step did: executed an instruction, or found the
/// machine (still) suspended waiting for a key press.
#[derive(Clone, Copy, Debug, PartialEq, Eq, Structural)]
pub enum StepOutcome {
    Executed,
    AwaitingKey,
}

/// The first key index at or after `i` that is pressed now but was not
/// pressed in the snapshot; 16 when there is none.
pub open spec fn first_new_key_from(keypad: Seq<bool>, seen: Seq<bool>, i: int) -> int
    decreases 16 - i,
{
    if i < 0 || i >= 16 {
        16
    } else if keypad[i] && !seen[i] {
        i
    } else {
        first_new_key_from(keypad, seen, i + 1)
    }
}

/// The lowest newly pressed key index; 16 when there is none.
pub open spec fn first_new_key(keypad: Seq<bool>, seen: Seq<bool>) -> int {
    first_new_key_from(keypad, seen, 0)
}

/// One poll of a machine suspended on the wait-for-key instruction. When a
/// key press transition is visible (pressed now, not pressed at the last
/// poll), the lowest such key lands in Vx, the program counter moves past
/// the suspended instruction, and the machine runs again. Otherwise the
/// machine re-signals that it is still waiting and only refreshes its
/// keypad snapshot.
pub open spec fn await_poll_rel(
    pre: Chip8,
    post: Chip8,
    x: u8,
    r: Result<StepOutcome, Chip8Error>,
) -> bool {
    let k = first_new_key(pre.keypad@, pre.keys_seen@);
    &&& post.memory@ == pre.memory@
    &&& post.index == pre.index
    &&& post.stack@ == pre.stack@
    &&& post.sp == pre.sp
    &&& post.delay_timer == pre.delay_timer
    &&& post.sound_timer == pre.sound_timer
    &&& post.keypad@ == pre.keypad@
    &&& post.video@ == pre.video@
    &&& if k < 16 {
        &&& post.registers@ == pre.registers@.update(x as int, k as u8)
        &&& post.pc == ((pre.pc + 2) % 4096) as u16
        &&& post.mode == Mode::Running
        &&& post.keys_seen@ == pre.keys_seen@
        &&& r == Ok::<StepOutcome, Chip8Error>(StepOutcome::Executed)
    } else {
        &&& post.registers@ == pre.registers@
        &&& post.pc == pre.pc
        &&& post.mode == pre.mode
        &&& post.keys_seen@ == pre.keypad@
        &&& r == Ok::<StepOutcome, Chip8Error>(StepOutcome::AwaitingKey)
    }
}

/// The effect of executing the instruction word `w` on a machine whose
/// program counter already stands past it at `pc0`: the decoded opcode's
/// own transition, a surfaced stack fault with the machine untouched, or a
/// surfaced unknown instruction with the machine untouched.
pub open spec fn exec_rel(
    pre: Chip8,
    post: Chip8,
    w: u16,
    rand: u8,
    r: Result<StepOutcome, Chip8Error>,
    pc0: u16,
) -> bool {
    let executed = Ok::<StepOutcome, Chip8Error>(StepOutcome::Executed);
    match spec_decode(w) {
        Opcode::ClearScreen => rel_clear(pre, post, pc0) && r == executed,
        Opcode::Return => if pre.sp == 0 {
            &&& unchanged_at(pre, post, pc0)
            &&& r == Err::<StepOutcome, Chip8Error>(Chip8Error::StackUnderflow)
        } else {
            rel_return_ok(pre, post) && r == executed
        },
        Opcode::Jump { .. } => rel_jump(pre, post, w) && r == executed,
        Opcode::Call { .. } => if pre.sp == 16 {
            &&& unchanged_at(pre, post, pc0)
            &&& r == Err::<StepOutcome, Chip8Error>(Chip8Error::StackOverflow)
        } else {
            rel_call_ok(pre, post, w, pc0) && r == executed
        },
        Opcode::SkipEqImm { .. } => rel_skip_eq_imm(pre, post, w, pc0) && r == executed,
        Opcode::SkipNeImm { .. } => rel_skip_ne_imm(pre, post, w, pc0) && r == executed,
        Opcode::SkipEqReg { .. } => rel_skip_eq_reg(pre, post, w, pc0) && r == executed,
        Opcode::LoadImm { .. } => rel_load_imm(pre, post, w, pc0) && r == executed,
        Opcode::AddImm { .. } => rel_add_imm(pre, post, w, pc0) && r == executed,
        Opcode::Move { .. } => rel_move(pre, post, w, pc0) && r == executed,
        Opcode::Or { .. } => rel_or(pre, post, w, pc0) && r == executed,
        Opcode::And { .. } => rel_and(pre, post, w, pc0) && r == executed,
        Opcode::Xor { .. } => rel_xor(pre, post, w, pc0) && r == executed,
        Opcode::AddReg { .. } => rel_add_reg(pre, post, w, pc0) && r == executed,
        Opcode::SubReg { .. } => rel_sub_reg(pre, post, w, pc0) && r == executed,
        Opcode::ShiftRight { .. } => rel_shift_right(pre, post, w, pc0) && r == executed,
        Opcode::SubFrom { .. } => rel_sub_from(pre, post, w, pc0) && r == executed,
        Opcode::ShiftLeft { .. } => rel_shift_left(pre, post, w, pc0) && r == executed,
        Opcode::SkipNeReg { .. } => rel_skip_ne_reg(pre, post, w, pc0) && r == executed,
        Opcode::LoadIndex { .. } => rel_load_index(pre, post, w, pc0) && r == executed,
        Opcode::JumpOffset { .. } => rel_jump_offset(pre, post, w) && r == executed,
        Opcode::Random { .. } => rel_random(pre, post, w, pc0, rand) && r == executed,
        Opcode::Draw { .. } => rel_draw(pre, post, w, pc0) && r == executed,
        Opcode::SkipKey { .. } => rel_skip_key(pre, post, w, pc0) && r == executed,
        Opcode::SkipNoKey { .. } => rel_skip_no_key(pre, post, w, pc0) && r == executed,
        Opcode::ReadDelay { .. } => rel_read_delay(pre, post, w, pc0) && r == executed,
        Opcode::WaitKey { .. } => rel_wait_key(pre, post, w, pc0)
            && r == Ok::<StepOutcome, Chip8Error>(StepOutcome::AwaitingKey),
        Opcode::SetDelay { .. } => rel_set_delay(pre, post, w, pc0) && r == executed,
        Opcode::SetSound { .. } => rel_set_sound(pre, post, w, pc0) && r == executed,
        Opcode::AddIndex { .. } => rel_add_index(pre, post, w, pc0) && r == executed,
        Opcode::FontIndex { .. } => rel_font_index(pre, post, w, pc0) && r == executed,
        Opcode::StoreDigits { .. } => rel_store_digits(pre, post, w, pc0) && r == executed,
        Opcode::StoreRegs { .. } => rel_store_regs(pre, post, w, pc0) && r == executed,
        Opcode::LoadRegs { .. } => rel_load_regs(pre, post, w, pc0) && r == executed,
        Opcode::Unknown { .. } => {
            &&& unchanged_at(pre, post, pc0)
            &&& r == Err::<StepOutcome, Chip8Error>(
                Chip8Error::UnknownInstruction { word: w, at: ((pc0 + 4094) % 4096) as u16 },
            )
        },
    }
}

/// One whole machine step from the scheduler's point of view: a suspended
/// machine polls the keypad; a running machine fetches the word at the
/// program counter, advances past it, and executes it.
pub open spec fn step_rel(
    pre: Chip8,
    post: Chip8,
    rand: u8,
    r: Result<StepOutcome, Chip8Error>,
) -> bool {
    match pre.mode {
        Mode::AwaitingKey { x } => await_poll_rel(pre, post, x, r),
        Mode::Running => exec_rel(
            pre,
            post,
            pre.spec_fetch(),
            rand,
            r,
            ((pre.pc + 2) % 4096) as u16,
        ),
    }
}

/// The execution relations never read the pre-state's program counter: a
/// pre-state that differs only there (as after a fetch) satisfies the same
/// relation. The quantified relations (draw, register store and load) need
/// their witnesses carried across, which this lemma does.
proof fn lemma_exec_rel_ignores_pc(
    pre: Chip8,
    mid: Chip8,
    post: Chip8,
    w: u16,
    rand: u8,
    r: Result<StepOutcome, Chip8Error>,
)
    requires
        mid.registers@ == pre.registers@,
        mid.memory@ == pre.memory@,
        mid.index == pre.index,
        mid.stack@ == pre.stack@,
        mid.sp == pre.sp,
        mid.delay_timer == pre.delay_timer,
        mid.sound_timer == pre.sound_timer,
        mid.keypad@ == pre.keypad@,
        mid.video@ == pre.video@,
        mid.mode == pre.mode,
        mid.keys_seen@ == pre.keys_seen@,
        exec_rel(mid, post, w, rand, r, mid.pc),
    ensures
        exec_rel(pre, post, w, rand, r, mid.pc),
{
    let pc0 = mid.pc;
    match spec_decode(w) {
        Opcode::Draw { .. } => {
            assert(rel_draw(mid, post, w, pc0));
            assert forall|p: int| 0 <= p < 2048 implies post.video@[p] == (pre.video@[p]
                ^ crate::draw::covers(pre, w, p)) by {
                crate::draw::lemma_covers_same_inputs(pre, mid, w, p);
            }
            crate::draw::lemma_collides_same_inputs(pre, mid, w);
            assert(rel_draw(pre, post, w, pc0));
        },
        Opcode::StoreRegs { .. } => {
            let xi = op_x(w) as int;
            assert(rel_store_regs(mid, post, w, pc0));
            assert forall|k: int| 0 <= k <= xi implies post.memory@[#[trigger] reg_mem_addr(
                pre,
                k,
            )] == pre.registers@[k] by {
                assert(reg_mem_addr(pre, k) == reg_mem_addr(mid, k));
                assert(post.memory@[reg_mem_addr(mid, k)] == mid.registers@[k]);
            }
            assert forall|a: int|
                0 <= a < 4096 && !(exists|k: int|
                    0 <= k <= xi && #[trigger] reg_mem_addr(pre, k) == a)
                    implies post.memory@[a] == pre.memory@[a] by {
                if exists|k: int| 0 <= k <= xi && #[trigger] reg_mem_addr(mid, k) == a {
                    let k = choose|k: int| 0 <= k <= xi && #[trigger] reg_mem_addr(mid, k) == a;
                    assert(reg_mem_addr(pre, k) == a);
                    assert(false);
                }
            }
            assert(rel_store_regs(pre, post, w, pc0));
        },
        Opcode::LoadRegs { .. } => {
            let xi = op_x(w) as int;
            assert(rel_load_regs(mid, post, w, pc0));
            assert forall|k: int| 0 <= k <= xi implies post.registers@[k] == pre.memory@[
                #[trigger] reg_mem_addr(pre, k)] by {
                assert(reg_mem_addr(pre, k) == reg_mem_addr(mid, k));
                assert(post.registers@[k] == mid.memory@[reg_mem_addr(mid, k)]);
            }
            assert(rel_load_regs(pre, post, w, pc0));
        },
        _ => {},
    }
}

impl Chip8 {
    /// Execute one already-fetched instruction word. The machine's program
    /// counter must already stand past the word, as `get_instruction`
    /// leaves it; `rand` is the caller-drawn random byte that the
    /// random-register instruction masks.
    pub fn decode_instruction(&mut self, instruction: u16, rand: u8) -> (r: Result<
        StepOutcome,
        Chip8Error,
    >)
        requires
            old(self).wf(),
        ensures
            final(self).wf(),
            exec_rel(*old(self), *final(self), instruction, rand, r, old(self).pc),
    {
        match decode(instruction) {
            Opcode::ClearScreen => {
                self.clear_screen();
                Ok(StepOutcome::Executed)
            },
            Opcode::Return => match self.return_from_subroutine() {
                Ok(()) => Ok(StepOutcome::Executed),
                Err(e) => Err(e),
            },
            Opcode::Jump { .. } => {
                self.jump(instruction);
                Ok(StepOutcome::Executed)
            },
            Opcode::Call { .. } => match self.call_subroutine(instruction) {
                Ok(()) => Ok(StepOutcome::Executed),
                Err(e) => Err(e),
            },
            Opcode::SkipEqImm { .. } => {
                self.skip_if_equal(instruction);
                Ok(StepOutcome::Executed)
            },
            Opcode::SkipNeImm { .. } => {
                self.skip_if_not_equal(instruction);
                Ok(StepOutcome::Executed)
            },
            Opcode::SkipEqReg { .. } => {
                self.skip_if_registers_equal(instruction);
                Ok(StepOutcome::Executed)
            },
            Opcode::LoadImm { .. } => {
                self.set_register(instruction);
                Ok(StepOutcome::Executed)
            },
            Opcode::AddImm { .. } => {
                self.add_to_register(instruction);
                Ok(StepOutcome::Executed)
            },
            Opcode::Move { .. } => {
                self.set_x_register(instruction);
                Ok(StepOutcome::Executed)
            },
            Opcode::Or { .. } => {
                self.binary_or(instruction);
                Ok(StepOutcome::Executed)
            },
            Opcode::And { .. } => {
                self.binary_and(instruction);
                Ok(StepOutcome::Executed)
            },
            Opcode::Xor { .. } => {
                self.logical_xor(instruction);
                Ok(StepOutcome::Executed)
            },
            Opcode::AddReg { .. } => {
                self.add_registers(instruction);
                Ok(StepOutcome::Executed)
            },
            Opcode::SubReg { .. } => {
                self.subtract_registers(instruction);
                Ok(StepOutcome::Executed)
            },
            Opcode::ShiftRight { .. } => {
                self.shift_right(instruction);
                Ok(StepOutcome::Executed)
            },
            Opcode::SubFrom { .. } => {
                self.subtract_from_register(instruction);
                Ok(StepOutcome::Executed)
            },
            Opcode::ShiftLeft { .. } => {
                self.shift_left(instruction);
                Ok(StepOutcome::Executed)
            },
            Opcode::SkipNeReg { .. } => {
                self.skip_if_registers_not_equal(instruction);
                Ok(StepOutcome::Executed)
            },
            Opcode::LoadIndex { .. } => {
                self.set_index_register(instruction);
                Ok(StepOutcome::Executed)
            },
            Opcode::JumpOffset { .. } => {
                self.jump_with_offset(instruction);
                Ok(StepOutcome::Executed)
            },
            Opcode::Random { .. } => {
                self.randomize_register(instruction, rand);
                Ok(StepOutcome::Executed)
            },
            Opcode::Draw { .. } => {
                self.draw(instruction);
                Ok(StepOutcome::Executed)
            },
            Opcode::SkipKey { .. } => {
                self.skip_if_key_pressed(instruction);
                Ok(StepOutcome::Executed)
            },
            Opcode::SkipNoKey { .. } => {
                self.skip_if_key_not_pressed(instruction);
                Ok(StepOutcome::Executed)
            },
            Opcode::ReadDelay { .. } => {
                self.read_delay_timer(instruction);
                Ok(StepOutcome::Executed)
            },
            Opcode::WaitKey { .. } => {
                self.await_key(instruction);
                Ok(StepOutcome::AwaitingKey)
            },
            Opcode::SetDelay { .. } => {
                self.set_delay_timer(instruction);
                Ok(StepOutcome::Executed)
            },
            Opcode::SetSound { .. } => {
                self.set_sound_timer(instruction);
                Ok(StepOutcome::Executed)
            },
            Opcode::AddIndex { .. } => {
                self.add_to_index(instruction);
                Ok(StepOutcome::Executed)
            },
            Opcode::FontIndex { .. } => {
                self.set_index_to_font(instruction);
                Ok(StepOutcome::Executed)
            },
            Opcode::StoreDigits { .. } => {
                self.store_decimal_digits(instruction);
                Ok(StepOutcome::Executed)
            },
            Opcode::StoreRegs { .. } => {
                self.store_registers(instruction);
                Ok(StepOutcome::Executed)
            },
            Opcode::LoadRegs { .. } => {
                self.load_registers(instruction);
                Ok(StepOutcome::Executed)
            },
            Opcode::Unknown { .. } => {
                let at: u16 = (((self.pc as usize) + 4094) % 4096) as u16;
                Err(Chip8Error::UnknownInstruction { word: instruction, at })
            },
        }
    }

    /// One machine step: poll the keypad while suspended, otherwise fetch
    /// and execute the instruction at the program counter. `rand` is the
    /// caller-drawn random byte for the random-register instruction.
    pub fn step(&mut self, rand: u8) -> (r: Result<StepOutcome, Chip8Error>)
        requires
            old(self).wf(),
        ensures
            final(self).wf(),
            step_rel(*old(self), *final(self), rand, r),
    {
        match self.mode {
            Mode::AwaitingKey { x } => {
                let ghost kp = self.keypad@;
                let ghost sn = self.keys_seen@;
                let mut k: usize = 0;
                while k < 16
                    invariant
                        *self == *old(self),
                        old(self).wf(),
                        self.mode == (Mode::AwaitingKey { x }),
                        x < 16,
                        k <= 16,
                        kp == self.keypad@,
                        sn == self.keys_seen@,
                        first_new_key(kp, sn) == first_new_key_from(kp, sn, k as int),
                    decreases 16 - k,
                {
                    if self.keypad[k] && !self.keys_seen[k] {
                        self.registers[x as usize] = k as u8;
                        self.pc = (((self.pc as usize) + 2) % 4096) as u16;
                        self.mode = Mode::Running;
                        return Ok(StepOutcome::Executed);
                    }
                    k += 1;
                }
                self.keys_seen = self.keypad.clone();
                Ok(StepOutcome::AwaitingKey)
            },
            Mode::Running => {
                let ghost pre = *old(self);
                let w: u16 = self.get_instruction();
                let ghost mid = *self;
                let r = self.decode_instruction(w, rand);
                proof {
                    lemma_exec_rel_ignores_pc(pre, mid, *self, w, rand, r);
                }
                r
            },
        }
    }
}

} // verus!
