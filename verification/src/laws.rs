//! The machine's general laws, stated over the transition relations of the
//! executor and proved once and for all: wrapping arithmetic with exact
//! flags, draw idempotence under double XOR, call/return balance, the exact
//! advance of the conditional skips, the register store/load round trip,
//! the timer run-down, and the inertness of unknown instructions.

use vstd::prelude::*;

use crate::decode::{op_nn, op_x, op_y, spec_decode, Opcode};
use crate::draw::{draw_x, draw_y, rel_draw, lemma_covers_same_inputs};
use crate::exec::{
    frame_none, reg_mem_addr, rel_add_imm, rel_add_reg, rel_call_ok, rel_load_regs,
    rel_return_ok, rel_store_regs, rel_sub_from, rel_sub_reg,
};
use crate::machine::{rel_tick, Chip8, Mode};
use crate::step::{step_rel, StepOutcome};
use crate::Chip8Error;

verus! {

// ---------------------------------------------------------------------------
// Wrapping arithmetic and its flags.
// ---------------------------------------------------------------------------

/// `7xnn` computes exactly the mod-256 sum; no flag is involved.
pub proof fn law_add_imm_wraps(pre: Chip8, post: Chip8, w: u16, pc0: u16)
    requires
        pre.registers@.len() == 16,
        rel_add_imm(pre, post, w, pc0),
    ensures
        post.registers@[op_x(w) as int] == (pre.registers@[op_x(w) as int] + op_nn(w)) % 256,
        forall|j: int| 0 <= j < 16 && j != op_x(w) as int
            ==> post.registers@[j] == pre.registers@[j],
{
}

/// `8xy4` computes exactly the mod-256 sum, and VF is 1 exactly when the
/// true sum does not fit in 8 bits. When x is 15, the flag register is also
/// the destination and the flag wins.
pub proof fn law_add_reg_wraps(pre: Chip8, post: Chip8, w: u16, pc0: u16)
    requires
        pre.registers@.len() == 16,
        rel_add_reg(pre, post, w, pc0),
    ensures
        post.registers@[15] == if pre.registers@[op_x(w) as int]
            + pre.registers@[op_y(w) as int] > 255 {
            1u8
        } else {
            0u8
        },
        op_x(w) != 15 ==> post.registers@[op_x(w) as int] == (pre.registers@[op_x(w) as int]
            + pre.registers@[op_y(w) as int]) % 256,
{
}

/// `8xy5` computes exactly the mod-256 difference Vx - Vy, and VF is 1
/// exactly when no borrow occurred.
pub proof fn law_sub_reg_wraps(pre: Chip8, post: Chip8, w: u16, pc0: u16)
    requires
        pre.registers@.len() == 16,
        rel_sub_reg(pre, post, w, pc0),
    ensures
        post.registers@[15] == if pre.registers@[op_x(w) as int]
            >= pre.registers@[op_y(w) as int] {
            1u8
        } else {
            0u8
        },
        op_x(w) != 15 ==> post.registers@[op_x(w) as int] == (pre.registers@[op_x(w) as int]
            - pre.registers@[op_y(w) as int]) % 256,
{
}

/// `8xy7` computes exactly the mod-256 difference Vy - Vx, and VF is 1
/// exactly when no borrow occurred.
pub proof fn law_sub_from_wraps(pre: Chip8, post: Chip8, w: u16, pc0: u16)
    requires
        pre.registers@.len() == 16,
        rel_sub_from(pre, post, w, pc0),
    ensures
        post.registers@[15] == if pre.registers@[op_y(w) as int]
            >= pre.registers@[op_x(w) as int] {
            1u8
        } else {
            0u8
        },
        op_x(w) != 15 ==> post.registers@[op_x(w) as int] == (pre.registers@[op_y(w) as int]
            - pre.registers@[op_x(w) as int]) % 256,
{
}

// ---------------------------------------------------------------------------
// Draw idempotence.
// ---------------------------------------------------------------------------

/// Drawing the same sprite at the same location twice in succession returns
/// the framebuffer to its pre-draw state: each covered pixel is toggled
/// twice. The operand registers may not be VF, which the first draw
/// overwrites with its collision flag.
pub proof fn law_draw_twice_restores(
    s0: Chip8,
    s1: Chip8,
    s2: Chip8,
    w: u16,
    pc1: u16,
    pc2: u16,
)
    requires
        s0.wf(),
        op_x(w) != 15,
        op_y(w) != 15,
        rel_draw(s0, s1, w, pc1),
        rel_draw(s1, s2, w, pc2),
    ensures
        s2.video@ == s0.video@,
{
    assert(s1.registers@[op_x(w) as int] == s0.registers@[op_x(w) as int]);
    assert(s1.registers@[op_y(w) as int] == s0.registers@[op_y(w) as int]);
    assert(draw_x(s1, w) == draw_x(s0, w) && draw_y(s1, w) == draw_y(s0, w));
    assert forall|p: int| 0 <= p < 2048 implies s2.video@[p] == s0.video@[p] by {
        lemma_covers_same_inputs(s0, s1, w, p);
    }
    assert(s2.video@ =~= s0.video@);
}

// ---------------------------------------------------------------------------
// Call/return balance.
// ---------------------------------------------------------------------------

/// N nested calls followed by N returns restore the program counter to the
/// address immediately after the original call site (the program counter in
/// effect at the first call), restore the stack pointer, and leave the live
/// part of the stack as it was. One further return then finds an empty
/// stack whenever the sequence began with one, and by the return contract
/// surfaces `StackUnderflow`.
#[verifier::rlimit(100)]
pub proof fn law_call_return_balance(trace: Seq<Chip8>, words: Seq<u16>, pcs: Seq<u16>, n: int)
    requires
        n >= 1,
        trace.len() == 2 * n + 1,
        words.len() == n,
        pcs.len() == n,
        trace[0].stack@.len() == 16,
        forall|i: int| 0 <= i < n ==> rel_call_ok(#[trigger] trace[i], trace[i + 1], words[i], pcs[i]),
        forall|i: int| n <= i < 2 * n ==> rel_return_ok(#[trigger] trace[i], trace[i + 1]),
    ensures
        trace[2 * n].pc == pcs[0],
        trace[2 * n].sp == trace[0].sp,
        forall|j: int| 0 <= j < trace[0].sp ==> trace[2 * n].stack@[j] == trace[0].stack@[j],
    decreases n,
{
    let sp0 = trace[0].sp as int;
    assert(rel_call_ok(trace[0], trace[1], words[0], pcs[0]));
    assert(trace[1].stack@ == trace[0].stack@.update(sp0, pcs[0]));
    if n == 1 {
        assert(rel_return_ok(trace[1], trace[2]));
        assert(trace[2].pc == trace[1].stack@[sp0]);
    } else {
        let inner = trace.subrange(1, 2 * n);
        let inner_words = words.subrange(1, n);
        let inner_pcs = pcs.subrange(1, n);
        assert(inner.len() == 2 * (n - 1) + 1);
        assert forall|i: int| 0 <= i < n - 1 implies rel_call_ok(
            #[trigger] inner[i],
            inner[i + 1],
            inner_words[i],
            inner_pcs[i],
        ) by {
            assert(rel_call_ok(trace[i + 1], trace[i + 2], words[i + 1], pcs[i + 1]));
        }
        assert forall|i: int| n - 1 <= i < 2 * (n - 1) implies rel_return_ok(
            #[trigger] inner[i],
            inner[i + 1],
        ) by {
            assert(rel_return_ok(trace[i + 1], trace[i + 2]));
        }
        law_call_return_balance(inner, inner_words, inner_pcs, n - 1);
        let last = 2 * n - 1;
        assert(trace[last] == inner[2 * (n - 1)]);
        assert(trace[last].sp == trace[1].sp);
        assert(rel_return_ok(trace[last], trace[2 * n]));
        assert(trace[2 * n].pc == trace[last].stack@[sp0]);
        assert(trace[last].stack@[sp0] == trace[1].stack@[sp0]);
        assert(trace[2 * n].pc == pcs[0]);
        assert forall|j: int| 0 <= j < sp0 implies trace[2 * n].stack@[j] == trace[0].stack@[j]
            by {
            assert(trace[last].stack@[j] == trace[1].stack@[j]);
        }
    }
}

// ---------------------------------------------------------------------------
// Conditional skips advance by exactly one instruction.
// ---------------------------------------------------------------------------

/// Whether the fetched word is one of the four conditional skips.
pub open spec fn is_skip(w: u16) -> bool {
    match spec_decode(w) {
        Opcode::SkipEqImm { .. } => true,
        Opcode::SkipNeImm { .. } => true,
        Opcode::SkipEqReg { .. } => true,
        Opcode::SkipNeReg { .. } => true,
        _ => false,
    }
}

/// The condition under which that skip fires.
pub open spec fn skip_condition(pre: Chip8, w: u16) -> bool {
    match spec_decode(w) {
        Opcode::SkipEqImm { .. } => pre.registers@[op_x(w) as int] == op_nn(w),
        Opcode::SkipNeImm { .. } => pre.registers@[op_x(w) as int] != op_nn(w),
        Opcode::SkipEqReg { .. } => pre.registers@[op_x(w) as int]
            == pre.registers@[op_y(w) as int],
        Opcode::SkipNeReg { .. } => pre.registers@[op_x(w) as int]
            != pre.registers@[op_y(w) as int],
        _ => false,
    }
}

/// A step on a conditional skip advances the program counter by 4 in all
/// (fetch included) when its condition holds, and by 2 when it does not.
pub proof fn law_skip_advances_exactly_one(
    pre: Chip8,
    post: Chip8,
    rand: u8,
    r: Result<StepOutcome, Chip8Error>,
)
    requires
        pre.wf(),
        pre.mode == Mode::Running,
        is_skip(pre.spec_fetch()),
        step_rel(pre, post, rand, r),
    ensures
        post.pc == if skip_condition(pre, pre.spec_fetch()) {
            (pre.pc + 4) % 4096
        } else {
            (pre.pc + 2) % 4096
        },
{
    let pc0 = (pre.pc + 2) % 4096;
    vstd::arithmetic::div_mod::lemma_add_mod_noop(pre.pc + 2, 2, 4096);
    vstd::arithmetic::div_mod::lemma_small_mod(2nat, 4096nat);
    assert((pc0 + 2) % 4096 == (pre.pc + 4) % 4096);
}

// ---------------------------------------------------------------------------
// Register store / load round trip.
// ---------------------------------------------------------------------------

/// Storing V0..=Vx at I and then loading from the same index register value
/// out of the resulting memory — whatever happened to the registers in
/// between — reproduces the original register values.
pub proof fn law_store_load_roundtrip(
    a: Chip8,
    b: Chip8,
    c: Chip8,
    d: Chip8,
    w1: u16,
    w2: u16,
    pc1: u16,
    pc2: u16,
)
    requires
        a.wf(),
        rel_store_regs(a, b, w1, pc1),
        rel_load_regs(c, d, w2, pc2),
        op_x(w2) == op_x(w1),
        c.memory@ == b.memory@,
        c.index == a.index,
    ensures
        forall|k: int| 0 <= k <= op_x(w1) ==> d.registers@[k] == a.registers@[k],
{
    let xi = op_x(w1) as int;
    assert forall|k: int| 0 <= k <= xi implies d.registers@[k] == a.registers@[k] by {
        assert(reg_mem_addr(c, k) == reg_mem_addr(a, k));
        assert(d.registers@[k] == c.memory@[reg_mem_addr(c, k)]);
        assert(b.memory@[reg_mem_addr(a, k)] == a.registers@[k]);
    }
}

// ---------------------------------------------------------------------------
// Timer run-down.
// ---------------------------------------------------------------------------

/// After n timer ticks each timer stands at its old value less n, floored
/// at zero — never negative, and a timer at zero stays at zero.
pub proof fn law_timer_rundown(trace: Seq<Chip8>, n: int)
    requires
        n >= 0,
        trace.len() == n + 1,
        forall|i: int| 0 <= i < n ==> rel_tick(#[trigger] trace[i], trace[i + 1]),
    ensures
        trace[n].delay_timer == if trace[0].delay_timer >= n {
            trace[0].delay_timer - n
        } else {
            0
        },
        trace[n].sound_timer == if trace[0].sound_timer >= n {
            trace[0].sound_timer - n
        } else {
            0
        },
    decreases n,
{
    if n > 0 {
        let prefix = trace.subrange(0, n);
        assert forall|i: int| 0 <= i < n - 1 implies rel_tick(#[trigger] prefix[i], prefix[i + 1])
            by {
            assert(rel_tick(trace[i], trace[i + 1]));
        }
        law_timer_rundown(prefix, n - 1);
        assert(trace[n - 1] == prefix[n - 1]);
        assert(rel_tick(trace[n - 1], trace[n]));
    }
}

// ---------------------------------------------------------------------------
// The wait-for-key instruction suspends without advancing.
// ---------------------------------------------------------------------------

/// A step on the wait-for-key instruction leaves the program counter on the
/// instruction itself — the machine is not advanced past it — and suspends,
/// remembering the receiving register and the current keypad.
pub proof fn law_wait_key_suspends_in_place(
    pre: Chip8,
    post: Chip8,
    rand: u8,
    r: Result<StepOutcome, Chip8Error>,
)
    requires
        pre.wf(),
        pre.mode == Mode::Running,
        spec_decode(pre.spec_fetch()) is WaitKey,
        step_rel(pre, post, rand, r),
    ensures
        post.pc == pre.pc,
        post.mode == (Mode::AwaitingKey { x: op_x(pre.spec_fetch()) as u8 }),
        post.registers@ == pre.registers@,
        post.keys_seen@ == pre.keypad@,
        r == Ok::<StepOutcome, Chip8Error>(StepOutcome::AwaitingKey),
{
    let pc0 = (pre.pc + 2) % 4096;
    vstd::arithmetic::div_mod::lemma_add_mod_noop(pre.pc + 2, 4094, 4096);
    vstd::arithmetic::div_mod::lemma_small_mod(4094nat, 4096nat);
    assert((pc0 + 4094) % 4096 == (pre.pc + 4096) % 4096);
    vstd::arithmetic::div_mod::lemma_mod_add_multiples_vanish(pre.pc as int, 4096);
    vstd::arithmetic::div_mod::lemma_small_mod(pre.pc as nat, 4096nat);
    assert((pre.pc + 4096) % 4096 == pre.pc);
}

// ---------------------------------------------------------------------------
// Unknown instructions are inert and reported.
// ---------------------------------------------------------------------------

/// A step on a word with no matching semantics leaves every piece of state
/// unchanged aside from the ordinary program-counter advance, and reports
/// the word together with the address it was fetched from.
pub proof fn law_unknown_is_inert(
    pre: Chip8,
    post: Chip8,
    rand: u8,
    r: Result<StepOutcome, Chip8Error>,
)
    requires
        pre.wf(),
        pre.mode == Mode::Running,
        spec_decode(pre.spec_fetch()) is Unknown,
        step_rel(pre, post, rand, r),
    ensures
        frame_none(pre, post),
        post.pc == (pre.pc + 2) % 4096,
        r == Err::<StepOutcome, Chip8Error>(
            Chip8Error::UnknownInstruction { word: pre.spec_fetch(), at: pre.pc },
        ),
{
    let pc0 = (pre.pc + 2) % 4096;
    vstd::arithmetic::div_mod::lemma_add_mod_noop(pre.pc + 2, 4094, 4096);
    vstd::arithmetic::div_mod::lemma_small_mod(4094nat, 4096nat);
    assert((pc0 + 4094) % 4096 == (pre.pc + 4096) % 4096);
    vstd::arithmetic::div_mod::lemma_mod_add_multiples_vanish(pre.pc as int, 4096);
    vstd::arithmetic::div_mod::lemma_small_mod(pre.pc as nat, 4096nat);
    assert((pre.pc + 4096) % 4096 == pre.pc);
}

} // verus!
