//! Pure instruction decoding: field extraction from a 16-bit instruction
//! word and classification into an opcode descriptor. Decoding never fails;
//! a word with no matching semantics becomes the explicit `Unknown` variant.

use vstd::prelude::*;

verus! {

/// High nibble of the instruction word: selects the opcode family.
/// Stated with division so that it computes on concrete words.
pub open spec fn op_family(w: u16) -> u16 {
    w / 0x1000
}

/// Register index X: bits 8..12.
pub open spec fn op_x(w: u16) -> u16 {
    (w / 0x100) % 16
}

/// Register index Y: bits 4..8.
pub open spec fn op_y(w: u16) -> u16 {
    (w / 16) % 16
}

/// 4-bit immediate / sub-opcode: bits 0..4.
pub open spec fn op_n(w: u16) -> u16 {
    w % 16
}

/// 8-bit immediate: bits 0..8.
pub open spec fn op_nn(w: u16) -> u8 {
    (w % 0x100) as u8
}

/// 12-bit address / immediate: bits 0..12.
pub open spec fn op_nnn(w: u16) -> u16 {
    w % 0x1000
}

/// One decoded instruction: the opcode classification together with exactly
/// the operand fields that opcode needs.
#[derive(Clone, Copy, Debug, PartialEq, Eq, Structural)]
pub enum Opcode {
    /// `00E0`: clear the framebuffer.
    ClearScreen,
    /// `00EE`: return from a subroutine.
    Return,
    /// `1nnn`: jump to nnn.
    Jump { nnn: u16 },
    /// `2nnn`: call the subroutine at nnn.
    Call { nnn: u16 },
    /// `3xnn`: skip the next instruction if Vx == nn.
    SkipEqImm { x: u8, nn: u8 },
    /// `4xnn`: skip the next instruction if Vx != nn.
    SkipNeImm { x: u8, nn: u8 },
    /// `5xy0`: skip the next instruction if Vx == Vy.
    SkipEqReg { x: u8, y: u8 },
    /// `6xnn`: Vx = nn.
    LoadImm { x: u8, nn: u8 },
    /// `7xnn`: Vx = Vx + nn, wrapping, no flag.
    AddImm { x: u8, nn: u8 },
    /// `8xy0`: Vx = Vy.
    Move { x: u8, y: u8 },
    /// `8xy1`: Vx = Vx | Vy.
    Or { x: u8, y: u8 },
    /// `8xy2`: Vx = Vx & Vy.
    And { x: u8, y: u8 },
    /// `8xy3`: Vx = Vx ^ Vy.
    Xor { x: u8, y: u8 },
    /// `8xy4`: Vx = Vx + Vy wrapping; VF = carry.
    AddReg { x: u8, y: u8 },
    /// `8xy5`: Vx = Vx - Vy wrapping; VF = 1 when no borrow.
    SubReg { x: u8, y: u8 },
    /// `8xy6`: VF = low bit of Vx; Vx = Vx >> 1.
    ShiftRight { x: u8 },
    /// `8xy7`: Vx = Vy - Vx wrapping; VF = 1 when no borrow.
    SubFrom { x: u8, y: u8 },
    /// `8xyE`: VF = high bit of Vx; Vx = Vx << 1, low 8 bits kept.
    ShiftLeft { x: u8 },
    /// `9xy0`: skip the next instruction if Vx != Vy.
    SkipNeReg { x: u8, y: u8 },
    /// `Annn`: I = nnn.
    LoadIndex { nnn: u16 },
    /// `Bnnn`: jump to nnn + V0.
    JumpOffset { nnn: u16 },
    /// `Cxnn`: Vx = random byte & nn.
    Random { x: u8, nn: u8 },
    /// `Dxyn`: draw an n-row sprite at (Vx, Vy); VF = collision.
    Draw { x: u8, y: u8, n: u8 },
    /// `Ex9E`: skip the next instruction if key Vx is pressed.
    SkipKey { x: u8 },
    /// `ExA1`: skip the next instruction if key Vx is not pressed.
    SkipNoKey { x: u8 },
    /// `Fx07`: Vx = delay timer.
    ReadDelay { x: u8 },
    /// `Fx0A`: suspend until a key press is observed; Vx = that key.
    WaitKey { x: u8 },
    /// `Fx15`: delay timer = Vx.
    SetDelay { x: u8 },
    /// `Fx18`: sound timer = Vx.
    SetSound { x: u8 },
    /// `Fx1E`: I = I + Vx, wrapping at 16 bits.
    AddIndex { x: u8 },
    /// `Fx29`: I = address of the font glyph for the low nibble of Vx.
    FontIndex { x: u8 },
    /// `Fx33`: store the three decimal digits of Vx at I, I+1, I+2.
    StoreDigits { x: u8 },
    /// `Fx55`: store V0..=Vx into memory starting at I.
    StoreRegs { x: u8 },
    /// `Fx65`: load memory starting at I into V0..=Vx.
    LoadRegs { x: u8 },
    /// A word with no matching semantics, kept verbatim.
    Unknown { word: u16 },
}

/// What the decoder returns for each instruction word.
pub open spec fn spec_decode(w: u16) -> Opcode {
    let x = op_x(w) as u8;
    let y = op_y(w) as u8;
    let n = op_n(w) as u8;
    let nn = op_nn(w);
    let nnn = op_nnn(w);
    if op_family(w) == 0x0 {
        if nn == 0xE0 {
            Opcode::ClearScreen
        } else if nn == 0xEE {
            Opcode::Return
        } else {
            Opcode::Unknown { word: w }
        }
    } else if op_family(w) == 0x1 {
        Opcode::Jump { nnn }
    } else if op_family(w) == 0x2 {
        Opcode::Call { nnn }
    } else if op_family(w) == 0x3 {
        Opcode::SkipEqImm { x, nn }
    } else if op_family(w) == 0x4 {
        Opcode::SkipNeImm { x, nn }
    } else if op_family(w) == 0x5 {
        if n == 0x0 {
            Opcode::SkipEqReg { x, y }
        } else {
            Opcode::Unknown { word: w }
        }
    } else if op_family(w) == 0x6 {
        Opcode::LoadImm { x, nn }
    } else if op_family(w) == 0x7 {
        Opcode::AddImm { x, nn }
    } else if op_family(w) == 0x8 {
        if n == 0x0 {
            Opcode::Move { x, y }
        } else if n == 0x1 {
            Opcode::Or { x, y }
        } else if n == 0x2 {
            Opcode::And { x, y }
        } else if n == 0x3 {
            Opcode::Xor { x, y }
        } else if n == 0x4 {
            Opcode::AddReg { x, y }
        } else if n == 0x5 {
            Opcode::SubReg { x, y }
        } else if n == 0x6 {
            Opcode::ShiftRight { x }
        } else if n == 0x7 {
            Opcode::SubFrom { x, y }
        } else if n == 0xE {
            Opcode::ShiftLeft { x }
        } else {
            Opcode::Unknown { word: w }
        }
    } else if op_family(w) == 0x9 {
        if n == 0x0 {
            Opcode::SkipNeReg { x, y }
        } else {
            Opcode::Unknown { word: w }
        }
    } else if op_family(w) == 0xA {
        Opcode::LoadIndex { nnn }
    } else if op_family(w) == 0xB {
        Opcode::JumpOffset { nnn }
    } else if op_family(w) == 0xC {
        Opcode::Random { x, nn }
    } else if op_family(w) == 0xD {
        Opcode::Draw { x, y, n }
    } else if op_family(w) == 0xE {
        if nn == 0x9E {
            Opcode::SkipKey { x }
        } else if nn == 0xA1 {
            Opcode::SkipNoKey { x }
        } else {
            Opcode::Unknown { word: w }
        }
    } else {
        if nn == 0x07 {
            Opcode::ReadDelay { x }
        } else if nn == 0x0A {
            Opcode::WaitKey { x }
        } else if nn == 0x15 {
            Opcode::SetDelay { x }
        } else if nn == 0x18 {
            Opcode::SetSound { x }
        } else if nn == 0x1E {
            Opcode::AddIndex { x }
        } else if nn == 0x29 {
            Opcode::FontIndex { x }
        } else if nn == 0x33 {
            Opcode::StoreDigits { x }
        } else if nn == 0x55 {
            Opcode::StoreRegs { x }
        } else if nn == 0x65 {
            Opcode::LoadRegs { x }
        } else {
            Opcode::Unknown { word: w }
        }
    }
}

/// Decode one instruction word. Pure: no machine state is touched, and
/// decoding is total over all 65536 words.
pub fn decode(w: u16) -> (op: Opcode)
    ensures
        op == spec_decode(w),
{
    let x: u8 = ((w / 0x100) % 16) as u8;
    let y: u8 = ((w / 16) % 16) as u8;
    let n: u8 = (w % 16) as u8;
    let nn: u8 = (w % 0x100) as u8;
    let nnn: u16 = w % 0x1000;
    match w / 0x1000 {
        0x0 => {
            if nn == 0xE0 {
                Opcode::ClearScreen
            } else if nn == 0xEE {
                Opcode::Return
            } else {
                Opcode::Unknown { word: w }
            }
        },
        0x1 => Opcode::Jump { nnn },
        0x2 => Opcode::Call { nnn },
        0x3 => Opcode::SkipEqImm { x, nn },
        0x4 => Opcode::SkipNeImm { x, nn },
        0x5 => {
            if n == 0x0 {
                Opcode::SkipEqReg { x, y }
            } else {
                Opcode::Unknown { word: w }
            }
        },
        0x6 => Opcode::LoadImm { x, nn },
        0x7 => Opcode::AddImm { x, nn },
        0x8 => match n {
            0x0 => Opcode::Move { x, y },
            0x1 => Opcode::Or { x, y },
            0x2 => Opcode::And { x, y },
            0x3 => Opcode::Xor { x, y },
            0x4 => Opcode::AddReg { x, y },
            0x5 => Opcode::SubReg { x, y },
            0x6 => Opcode::ShiftRight { x },
            0x7 => Opcode::SubFrom { x, y },
            0xE => Opcode::ShiftLeft { x },
            _ => Opcode::Unknown { word: w },
        },
        0x9 => {
            if n == 0x0 {
                Opcode::SkipNeReg { x, y }
            } else {
                Opcode::Unknown { word: w }
            }
        },
        0xA => Opcode::LoadIndex { nnn },
        0xB => Opcode::JumpOffset { nnn },
        0xC => Opcode::Random { x, nn },
        0xD => Opcode::Draw { x, y, n },
        0xE => {
            if nn == 0x9E {
                Opcode::SkipKey { x }
            } else if nn == 0xA1 {
                Opcode::SkipNoKey { x }
            } else {
                Opcode::Unknown { word: w }
            }
        },
        _ => {
            if nn == 0x07 {
                Opcode::ReadDelay { x }
            } else if nn == 0x0A {
                Opcode::WaitKey { x }
            } else if nn == 0x15 {
                Opcode::SetDelay { x }
            } else if nn == 0x18 {
                Opcode::SetSound { x }
            } else if nn == 0x1E {
                Opcode::AddIndex { x }
            } else if nn == 0x29 {
                Opcode::FontIndex { x }
            } else if nn == 0x33 {
                Opcode::StoreDigits { x }
            } else if nn == 0x55 {
                Opcode::StoreRegs { x }
            } else if nn == 0x65 {
                Opcode::LoadRegs { x }
            } else {
                Opcode::Unknown { word: w }
            }
        },
    }
}

} // verus!
