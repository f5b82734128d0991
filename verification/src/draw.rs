//! The draw instruction (`Dxyn`): an n-row sprite is XOR-ed onto the
//! framebuffer at (Vx mod 64, Vy mod 32), wrapping around both edges, and
//! VF reports whether any lit pixel was toggled off.
//!
//! The contract describes the final framebuffer pixel by pixel: a pixel is
//! toggled exactly when some sprite bit that is set lands on it. Because a
//! sprite is at most 8 columns and 15 rows, no two sprite bits of one draw
//! land on the same pixel, which the lemmas below establish.

use vstd::prelude::*;

use crate::decode::{op_n, op_x, op_y};
use crate::exec::{frame_video_regs, lemma_mod_inj};
use crate::machine::Chip8;

verus! {

/// The sprite row read for the given draw row: the byte at I + row, folded
/// into the address space.
pub open spec fn sprite_row(pre: Chip8, row: int) -> u8 {
    pre.memory@[(pre.index + row) % 4096]
}

/// Whether the sprite byte has its bit for the given column set; columns
/// count from the most significant bit down.
pub open spec fn sprite_bit(b: u8, col: int) -> bool {
    b & (0x80u8 >> (col as u8)) != 0
}

/// The draw origin column: Vx mod 64.
pub open spec fn draw_x(pre: Chip8, w: u16) -> int {
    (pre.registers@[op_x(w) as int] as int) % 64
}

/// The draw origin row: Vy mod 32.
pub open spec fn draw_y(pre: Chip8, w: u16) -> int {
    (pre.registers@[op_y(w) as int] as int) % 32
}

/// The framebuffer index where the sprite bit (row, col) lands, wrapping
/// around both screen edges.
pub open spec fn target_idx(xd: int, yd: int, row: int, col: int) -> int {
    ((yd + row) % 32) * 64 + ((xd + col) % 64)
}

/// Whether some set sprite bit strictly before position (r, c) — rows
/// first, then columns — lands on pixel `p`.
pub open spec fn covers_upto(pre: Chip8, xd: int, yd: int, r: int, c: int, p: int) -> bool {
    exists|row: int, col: int|
        #![trigger target_idx(xd, yd, row, col)]
        0 <= row && 0 <= col < 8 && (row < r || (row == r && col < c))
            && sprite_bit(sprite_row(pre, row), col)
            && target_idx(xd, yd, row, col) == p
}

/// Whether some set sprite bit of the whole draw lands on pixel `p`.
pub open spec fn covers(pre: Chip8, w: u16, p: int) -> bool {
    covers_upto(pre, draw_x(pre, w), draw_y(pre, w), op_n(w) as int, 0, p)
}

/// Whether some set sprite bit strictly before position (r, c) lands on a
/// pixel that was lit before the draw.
pub open spec fn collides_upto(pre: Chip8, xd: int, yd: int, r: int, c: int) -> bool {
    exists|row: int, col: int|
        #![trigger target_idx(xd, yd, row, col)]
        0 <= row && 0 <= col < 8 && (row < r || (row == r && col < c))
            && sprite_bit(sprite_row(pre, row), col)
            && pre.video@[target_idx(xd, yd, row, col)]
}

/// Whether the whole draw toggles off some pixel that was lit before it.
pub open spec fn collides(pre: Chip8, w: u16) -> bool {
    collides_upto(pre, draw_x(pre, w), draw_y(pre, w), op_n(w) as int, 0)
}

/// `Dxyn`: every pixel is its old value XOR whether a set sprite bit lands
/// on it; VF becomes 1 exactly when a previously lit pixel is toggled.
pub open spec fn rel_draw(pre: Chip8, post: Chip8, w: u16, pc0: u16) -> bool {
    &&& frame_video_regs(pre, post)
    &&& post.pc == pc0
    &&& post.video@.len() == 2048
    &&& forall|p: int| 0 <= p < 2048 ==> post.video@[p] == (pre.video@[p] ^ covers(pre, w, p))
    &&& post.registers@ == pre.registers@.update(
        15,
        if collides(pre, w) {
            1u8
        } else {
            0u8
        },
    )
}

/// Coverage reads only the draw origin, the sprite memory and the index
/// register: two states agreeing on those cover the same pixels.
pub proof fn lemma_covers_same_inputs(a: Chip8, b: Chip8, w: u16, p: int)
    requires
        b.memory@ == a.memory@,
        b.index == a.index,
        draw_x(b, w) == draw_x(a, w),
        draw_y(b, w) == draw_y(a, w),
    ensures
        covers(b, w, p) == covers(a, w, p),
{
    let xd = draw_x(a, w);
    let yd = draw_y(a, w);
    let n = op_n(w) as int;
    if covers_upto(b, xd, yd, n, 0, p) {
        let (row, col): (int, int) = choose|row: int, col: int|
            #![trigger target_idx(xd, yd, row, col)]
            0 <= row && 0 <= col < 8 && (row < n || (row == n && col < 0))
                && sprite_bit(sprite_row(b, row), col)
                && target_idx(xd, yd, row, col) == p;
        assert(sprite_row(a, row) == sprite_row(b, row));
        assert(covers_upto(a, xd, yd, n, 0, p));
    }
    if covers_upto(a, xd, yd, n, 0, p) {
        let (row, col): (int, int) = choose|row: int, col: int|
            #![trigger target_idx(xd, yd, row, col)]
            0 <= row && 0 <= col < 8 && (row < n || (row == n && col < 0))
                && sprite_bit(sprite_row(a, row), col)
                && target_idx(xd, yd, row, col) == p;
        assert(sprite_row(b, row) == sprite_row(a, row));
        assert(covers_upto(b, xd, yd, n, 0, p));
    }
}

/// Collision additionally reads the framebuffer.
pub proof fn lemma_collides_same_inputs(a: Chip8, b: Chip8, w: u16)
    requires
        b.memory@ == a.memory@,
        b.index == a.index,
        b.video@ == a.video@,
        draw_x(b, w) == draw_x(a, w),
        draw_y(b, w) == draw_y(a, w),
    ensures
        collides(b, w) == collides(a, w),
{
    let xd = draw_x(a, w);
    let yd = draw_y(a, w);
    let n = op_n(w) as int;
    if collides_upto(b, xd, yd, n, 0) {
        let (row, col): (int, int) = choose|row: int, col: int|
            #![trigger target_idx(xd, yd, row, col)]
            0 <= row && 0 <= col < 8 && (row < n || (row == n && col < 0))
                && sprite_bit(sprite_row(b, row), col)
                && b.video@[target_idx(xd, yd, row, col)];
        assert(sprite_row(a, row) == sprite_row(b, row));
        assert(collides_upto(a, xd, yd, n, 0));
    }
    if collides_upto(a, xd, yd, n, 0) {
        let (row, col): (int, int) = choose|row: int, col: int|
            #![trigger target_idx(xd, yd, row, col)]
            0 <= row && 0 <= col < 8 && (row < n || (row == n && col < 0))
                && sprite_bit(sprite_row(a, row), col)
                && a.video@[target_idx(xd, yd, row, col)];
        assert(sprite_row(b, row) == sprite_row(a, row));
        assert(collides_upto(b, xd, yd, n, 0));
    }
}

/// Within one draw, two different sprite bit positions land on two
/// different pixels.
proof fn lemma_target_inj(xd: int, yd: int, r1: int, c1: int, r2: int, c2: int)
    requires
        0 <= xd < 64,
        0 <= yd < 32,
        0 <= r1 < 16,
        0 <= c1 < 8,
        0 <= r2 < 16,
        0 <= c2 < 8,
        target_idx(xd, yd, r1, c1) == target_idx(xd, yd, r2, c2),
    ensures
        r1 == r2,
        c1 == c2,
{
    let tx1 = (xd + c1) % 64;
    let tx2 = (xd + c2) % 64;
    let ty1 = (yd + r1) % 32;
    let ty2 = (yd + r2) % 32;
    assert(0 <= tx1 < 64 && 0 <= tx2 < 64 && 0 <= ty1 < 32 && 0 <= ty2 < 32);
    assert(tx1 == tx2 && ty1 == ty2);
    if c1 < c2 {
        lemma_mod_inj(64, xd, c1, c2);
    } else if c2 < c1 {
        lemma_mod_inj(64, xd, c2, c1);
    }
    if r1 < r2 {
        lemma_mod_inj(32, yd, r1, r2);
    } else if r2 < r1 {
        lemma_mod_inj(32, yd, r2, r1);
    }
}

/// No sprite bit strictly before (r, c) lands on the pixel that (r, c)
/// itself lands on.
proof fn lemma_prefix_misses(pre: Chip8, xd: int, yd: int, r: int, c: int)
    requires
        0 <= xd < 64,
        0 <= yd < 32,
        0 <= r < 16,
        0 <= c < 8,
    ensures
        !covers_upto(pre, xd, yd, r, c, target_idx(xd, yd, r, c)),
{
    let p = target_idx(xd, yd, r, c);
    if covers_upto(pre, xd, yd, r, c, p) {
        let (row, col): (int, int) = choose|row: int, col: int|
            #![trigger target_idx(xd, yd, row, col)]
            0 <= row && 0 <= col < 8 && (row < r || (row == r && col < c))
                && sprite_bit(sprite_row(pre, row), col)
                && target_idx(xd, yd, row, col) == p;
        lemma_target_inj(xd, yd, row, col, r, c);
        assert(false);
    }
}

/// Extending the processed prefix by one position adds exactly that
/// position's own contribution to the coverage of each pixel.
proof fn lemma_covers_step(pre: Chip8, xd: int, yd: int, r: int, c: int, p: int)
    requires
        0 <= c < 8,
        0 <= r,
    ensures
        covers_upto(pre, xd, yd, r, c + 1, p) == (covers_upto(pre, xd, yd, r, c, p)
            || (sprite_bit(sprite_row(pre, r), c) && target_idx(xd, yd, r, c) == p)),
{
    if covers_upto(pre, xd, yd, r, c + 1, p) {
        let (row, col): (int, int) = choose|row: int, col: int|
            #![trigger target_idx(xd, yd, row, col)]
            0 <= row && 0 <= col < 8 && (row < r || (row == r && col < c + 1))
                && sprite_bit(sprite_row(pre, row), col)
                && target_idx(xd, yd, row, col) == p;
        if row < r || (row == r && col < c) {
            assert(covers_upto(pre, xd, yd, r, c, p));
        } else {
            assert(row == r && col == c);
        }
    }
    if covers_upto(pre, xd, yd, r, c, p) {
        let (row, col): (int, int) = choose|row: int, col: int|
            #![trigger target_idx(xd, yd, row, col)]
            0 <= row && 0 <= col < 8 && (row < r || (row == r && col < c))
                && sprite_bit(sprite_row(pre, row), col)
                && target_idx(xd, yd, row, col) == p;
        assert(covers_upto(pre, xd, yd, r, c + 1, p));
    }
    if sprite_bit(sprite_row(pre, r), c) && target_idx(xd, yd, r, c) == p {
        assert(covers_upto(pre, xd, yd, r, c + 1, p));
    }
}

/// A fully processed row is the same prefix as the start of the next row.
proof fn lemma_covers_row(pre: Chip8, xd: int, yd: int, r: int, p: int)
    requires
        0 <= r,
    ensures
        covers_upto(pre, xd, yd, r, 8, p) == covers_upto(pre, xd, yd, r + 1, 0, p),
{
    if covers_upto(pre, xd, yd, r, 8, p) {
        let (row, col): (int, int) = choose|row: int, col: int|
            #![trigger target_idx(xd, yd, row, col)]
            0 <= row && 0 <= col < 8 && (row < r || (row == r && col < 8))
                && sprite_bit(sprite_row(pre, row), col)
                && target_idx(xd, yd, row, col) == p;
        assert(covers_upto(pre, xd, yd, r + 1, 0, p));
    }
    if covers_upto(pre, xd, yd, r + 1, 0, p) {
        let (row, col): (int, int) = choose|row: int, col: int|
            #![trigger target_idx(xd, yd, row, col)]
            0 <= row && 0 <= col < 8 && (row < r + 1 || (row == r + 1 && col < 0))
                && sprite_bit(sprite_row(pre, row), col)
                && target_idx(xd, yd, row, col) == p;
        assert(covers_upto(pre, xd, yd, r, 8, p));
    }
}

/// Counterpart of `lemma_covers_step` for the collision flag.
proof fn lemma_collides_step(pre: Chip8, xd: int, yd: int, r: int, c: int)
    requires
        0 <= c < 8,
        0 <= r,
    ensures
        collides_upto(pre, xd, yd, r, c + 1) == (collides_upto(pre, xd, yd, r, c)
            || (sprite_bit(sprite_row(pre, r), c) && pre.video@[target_idx(xd, yd, r, c)])),
{
    if collides_upto(pre, xd, yd, r, c + 1) {
        let (row, col): (int, int) = choose|row: int, col: int|
            #![trigger target_idx(xd, yd, row, col)]
            0 <= row && 0 <= col < 8 && (row < r || (row == r && col < c + 1))
                && sprite_bit(sprite_row(pre, row), col)
                && pre.video@[target_idx(xd, yd, row, col)];
        if row < r || (row == r && col < c) {
            assert(collides_upto(pre, xd, yd, r, c));
        } else {
            assert(row == r && col == c);
        }
    }
    if collides_upto(pre, xd, yd, r, c) {
        let (row, col): (int, int) = choose|row: int, col: int|
            #![trigger target_idx(xd, yd, row, col)]
            0 <= row && 0 <= col < 8 && (row < r || (row == r && col < c))
                && sprite_bit(sprite_row(pre, row), col)
                && pre.video@[target_idx(xd, yd, row, col)];
        assert(collides_upto(pre, xd, yd, r, c + 1));
    }
    if sprite_bit(sprite_row(pre, r), c) && pre.video@[target_idx(xd, yd, r, c)] {
        assert(collides_upto(pre, xd, yd, r, c + 1));
    }
}

/// Counterpart of `lemma_covers_row` for the collision flag.
proof fn lemma_collides_row(pre: Chip8, xd: int, yd: int, r: int)
    requires
        0 <= r,
    ensures
        collides_upto(pre, xd, yd, r, 8) == collides_upto(pre, xd, yd, r + 1, 0),
{
    if collides_upto(pre, xd, yd, r, 8) {
        let (row, col): (int, int) = choose|row: int, col: int|
            #![trigger target_idx(xd, yd, row, col)]
            0 <= row && 0 <= col < 8 && (row < r || (row == r && col < 8))
                && sprite_bit(sprite_row(pre, row), col)
                && pre.video@[target_idx(xd, yd, row, col)];
        assert(collides_upto(pre, xd, yd, r + 1, 0));
    }
    if collides_upto(pre, xd, yd, r + 1, 0) {
        let (row, col): (int, int) = choose|row: int, col: int|
            #![trigger target_idx(xd, yd, row, col)]
            0 <= row && 0 <= col < 8 && (row < r + 1 || (row == r + 1 && col < 0))
                && sprite_bit(sprite_row(pre, row), col)
                && pre.video@[target_idx(xd, yd, row, col)];
        assert(collides_upto(pre, xd, yd, r, 8));
    }
}

impl Chip8 {
    /// `Dxyn`: see `rel_draw`.
    pub fn draw(&mut self, instruction: u16)
        requires
            old(self).wf(),
        ensures
            final(self).wf(),
            rel_draw(*old(self), *final(self), instruction, old(self).pc),
    {
        let x_register: usize = ((instruction as usize) / 0x100) % 16;
        let y_register: usize = ((instruction as usize) / 16) % 16;
        let xd: usize = (self.registers[x_register] % 64) as usize;
        let yd: usize = (self.registers[y_register] % 32) as usize;
        let height: usize = (instruction as usize) % 16;
        let ghost pre = *old(self);
        let ghost gx: int = draw_x(pre, instruction);
        let ghost gy: int = draw_y(pre, instruction);
        self.registers[15] = 0;
        proof {
            assert(xd as int == gx && yd as int == gy);
            assert(!covers_upto(pre, gx, gy, 0, 0, 0));
            assert(!collides_upto(pre, gx, gy, 0, 0));
        }
        let mut row: usize = 0;
        while row < height
            invariant
                pre == *old(self),
                pre.wf(),
                row <= height,
                height == op_n(instruction) as int,
                height < 16,
                gx == draw_x(pre, instruction),
                gy == draw_y(pre, instruction),
                0 <= gx < 64,
                0 <= gy < 32,
                xd as int == gx,
                yd as int == gy,
                frame_video_regs(pre, *self),
                self.pc == pre.pc,
                self.video@.len() == 2048,
                self.registers@ == pre.registers@.update(
                    15,
                    if collides_upto(pre, gx, gy, row as int, 0) {
                        1u8
                    } else {
                        0u8
                    },
                ),
                forall|p: int| 0 <= p < 2048 ==> self.video@[p] == (pre.video@[p] ^ covers_upto(
                    pre,
                    gx,
                    gy,
                    row as int,
                    0,
                    p,
                )),
            decreases height - row,
        {
            let sprite: u8 = self.memory[((self.index as usize) + row) % 4096];
            proof {
                assert(sprite == sprite_row(pre, row as int));
            }
            let mut col: usize = 0;
            while col < 8
                invariant
                    pre == *old(self),
                    pre.wf(),
                    row < height,
                    col <= 8,
                    height == op_n(instruction) as int,
                    height < 16,
                    gx == draw_x(pre, instruction),
                    gy == draw_y(pre, instruction),
                    0 <= gx < 64,
                    0 <= gy < 32,
                    xd as int == gx,
                    yd as int == gy,
                    sprite == sprite_row(pre, row as int),
                    frame_video_regs(pre, *self),
                    self.pc == pre.pc,
                    self.video@.len() == 2048,
                    self.registers@ == pre.registers@.update(
                        15,
                        if collides_upto(pre, gx, gy, row as int, col as int) {
                            1u8
                        } else {
                            0u8
                        },
                    ),
                    forall|p: int| 0 <= p < 2048 ==> self.video@[p] == (pre.video@[p]
                        ^ covers_upto(pre, gx, gy, row as int, col as int, p)),
                decreases 8 - col,
            {
                if sprite & (0x80u8 >> (col as u8)) != 0 {
                    let px: usize = (xd + col) % 64;
                    let py: usize = (yd + row) % 32;
                    let idx: usize = py * 64 + px;
                    proof {
                        assert(idx as int == target_idx(gx, gy, row as int, col as int));
                        assert(idx < 2048);
                        lemma_prefix_misses(pre, gx, gy, row as int, col as int);
                    }
                    let lit: bool = self.video[idx];
                    proof {
                        assert(lit == pre.video@[idx as int]);
                    }
                    if lit {
                        self.registers[15] = 1;
                        proof {
                            assert(self.registers@ =~= pre.registers@.update(15, 1u8));
                        }
                    }
                    self.video[idx] = !lit;
                    proof {
                        assert forall|p: int| 0 <= p < 2048 implies self.video@[p]
                            == (pre.video@[p] ^ covers_upto(
                            pre,
                            gx,
                            gy,
                            row as int,
                            col + 1,
                            p,
                        )) by {
                            lemma_covers_step(pre, gx, gy, row as int, col as int, p);
                        }
                        lemma_collides_step(pre, gx, gy, row as int, col as int);
                    }
                } else {
                    proof {
                        assert(!sprite_bit(sprite_row(pre, row as int), col as int));
                        assert forall|p: int| 0 <= p < 2048 implies self.video@[p]
                            == (pre.video@[p] ^ covers_upto(
                            pre,
                            gx,
                            gy,
                            row as int,
                            col + 1,
                            p,
                        )) by {
                            lemma_covers_step(pre, gx, gy, row as int, col as int, p);
                        }
                        lemma_collides_step(pre, gx, gy, row as int, col as int);
                    }
                }
                col += 1;
            }
            proof {
                assert forall|p: int| 0 <= p < 2048 implies self.video@[p] == (pre.video@[p]
                    ^ covers_upto(pre, gx, gy, row + 1, 0, p)) by {
                    lemma_covers_row(pre, gx, gy, row as int, p);
                }
                lemma_collides_row(pre, gx, gy, row as int);
            }
            row += 1;
        }
    }
}

} // verus!
