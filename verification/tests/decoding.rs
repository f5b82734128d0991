//! The pure decoder: every opcode family, the sub-opcode dispatch, and the
//! explicit unknown variant.

use chip8::decode::{decode, Opcode};

#[test]
fn decode_every_family() {
    assert_eq!(decode(0x00E0), Opcode::ClearScreen);
    assert_eq!(decode(0x00EE), Opcode::Return);
    assert_eq!(decode(0x1ABC), Opcode::Jump { nnn: 0xABC });
    assert_eq!(decode(0x2ABC), Opcode::Call { nnn: 0xABC });
    assert_eq!(decode(0x3A5C), Opcode::SkipEqImm { x: 0xA, nn: 0x5C });
    assert_eq!(decode(0x4A5C), Opcode::SkipNeImm { x: 0xA, nn: 0x5C });
    assert_eq!(decode(0x5AB0), Opcode::SkipEqReg { x: 0xA, y: 0xB });
    assert_eq!(decode(0x6A5C), Opcode::LoadImm { x: 0xA, nn: 0x5C });
    assert_eq!(decode(0x7A5C), Opcode::AddImm { x: 0xA, nn: 0x5C });
    assert_eq!(decode(0x9AB0), Opcode::SkipNeReg { x: 0xA, y: 0xB });
    assert_eq!(decode(0xAABC), Opcode::LoadIndex { nnn: 0xABC });
    assert_eq!(decode(0xBABC), Opcode::JumpOffset { nnn: 0xABC });
    assert_eq!(decode(0xCA5C), Opcode::Random { x: 0xA, nn: 0x5C });
    assert_eq!(decode(0xDAB4), Opcode::Draw { x: 0xA, y: 0xB, n: 4 });
    assert_eq!(decode(0xEA9E), Opcode::SkipKey { x: 0xA });
    assert_eq!(decode(0xEAA1), Opcode::SkipNoKey { x: 0xA });
}

#[test]
fn decode_register_family() {
    assert_eq!(decode(0x8AB0), Opcode::Move { x: 0xA, y: 0xB });
    assert_eq!(decode(0x8AB1), Opcode::Or { x: 0xA, y: 0xB });
    assert_eq!(decode(0x8AB2), Opcode::And { x: 0xA, y: 0xB });
    assert_eq!(decode(0x8AB3), Opcode::Xor { x: 0xA, y: 0xB });
    assert_eq!(decode(0x8AB4), Opcode::AddReg { x: 0xA, y: 0xB });
    assert_eq!(decode(0x8AB5), Opcode::SubReg { x: 0xA, y: 0xB });
    assert_eq!(decode(0x8AB6), Opcode::ShiftRight { x: 0xA });
    assert_eq!(decode(0x8AB7), Opcode::SubFrom { x: 0xA, y: 0xB });
    assert_eq!(decode(0x8ABE), Opcode::ShiftLeft { x: 0xA });
}

#[test]
fn decode_timer_and_memory_family() {
    assert_eq!(decode(0xFA07), Opcode::ReadDelay { x: 0xA });
    assert_eq!(decode(0xFA0A), Opcode::WaitKey { x: 0xA });
    assert_eq!(decode(0xFA15), Opcode::SetDelay { x: 0xA });
    assert_eq!(decode(0xFA18), Opcode::SetSound { x: 0xA });
    assert_eq!(decode(0xFA1E), Opcode::AddIndex { x: 0xA });
    assert_eq!(decode(0xFA29), Opcode::FontIndex { x: 0xA });
    assert_eq!(decode(0xFA33), Opcode::StoreDigits { x: 0xA });
    assert_eq!(decode(0xFA55), Opcode::StoreRegs { x: 0xA });
    assert_eq!(decode(0xFA65), Opcode::LoadRegs { x: 0xA });
}

#[test]
fn decode_never_fails_on_unmatched_words() {
    assert_eq!(decode(0xFFF0), Opcode::Unknown { word: 0xFFF0 });
    assert_eq!(decode(0x0000), Opcode::Unknown { word: 0x0000 });
    assert_eq!(decode(0x5AB1), Opcode::Unknown { word: 0x5AB1 });
    assert_eq!(decode(0x8AB8), Opcode::Unknown { word: 0x8AB8 });
    assert_eq!(decode(0x9AB2), Opcode::Unknown { word: 0x9AB2 });
    assert_eq!(decode(0xEAFF), Opcode::Unknown { word: 0xEAFF });
    assert_eq!(decode(0xFA99), Opcode::Unknown { word: 0xFA99 });
}
