use chip8::emulator::{decode, nibbles, Opcode};

#[test]
fn nibbles_splits_most_significant_first() {
    assert_eq!(nibbles(0xABCD), (0xA, 0xB, 0xC, 0xD));
    assert_eq!(nibbles(0x0000), (0, 0, 0, 0));
    assert_eq!(nibbles(0xFFFF), (0xF, 0xF, 0xF, 0xF));
    assert_eq!(nibbles(0x1200), (0x1, 0x2, 0x0, 0x0));
}

#[test]
fn decode_extracts_every_operand_field() {
    assert_eq!(decode(0x1ABC), Some(Opcode::Jump { nnn: 0xABC }));
    assert_eq!(decode(0x2FFF), Some(Opcode::Call { nnn: 0xFFF }));
    assert_eq!(decode(0x3A42), Some(Opcode::SkipIfEqual { x: 0xA, kk: 0x42 }));
    assert_eq!(decode(0x4B07), Some(Opcode::SkipIfNotEqual { x: 0xB, kk: 0x07 }));
    assert_eq!(decode(0x6A05), Some(Opcode::Load { x: 10, kk: 5 }));
    assert_eq!(decode(0x7A10), Some(Opcode::AddByte { x: 10, kk: 0x10 }));
    assert_eq!(decode(0xA050), Some(Opcode::SetIndex { nnn: 0x050 }));
    assert_eq!(decode(0xB123), Some(Opcode::JumpOffset { nnn: 0x123 }));
    assert_eq!(decode(0xC3F0), Some(Opcode::Random { x: 3, kk: 0xF0 }));
    assert_eq!(decode(0xD125), Some(Opcode::Draw { x: 1, y: 2, n: 5 }));
}

#[test]
fn decode_register_family_by_last_nibble() {
    assert_eq!(decode(0x8120), Some(Opcode::Move { x: 1, y: 2 }));
    assert_eq!(decode(0x8121), Some(Opcode::Or { x: 1, y: 2 }));
    assert_eq!(decode(0x8122), Some(Opcode::And { x: 1, y: 2 }));
    assert_eq!(decode(0x8123), Some(Opcode::Xor { x: 1, y: 2 }));
    assert_eq!(decode(0x8124), Some(Opcode::Add { x: 1, y: 2 }));
    assert_eq!(decode(0x8125), Some(Opcode::Subtract { x: 1, y: 2 }));
    assert_eq!(decode(0x8126), Some(Opcode::ShiftRight { x: 1 }));
    assert_eq!(decode(0x8127), Some(Opcode::SubtractFrom { x: 1, y: 2 }));
    assert_eq!(decode(0x812E), Some(Opcode::ShiftLeft { x: 1 }));
}

#[test]
fn decode_rejects_unassigned_register_operations() {
    for last in [0x8u16, 0x9, 0xA, 0xB, 0xC, 0xD, 0xF] {
        assert_eq!(decode(0x8120 | last), None);
    }
}

#[test]
fn decode_zero_family_is_clear_screen_except_return() {
    assert_eq!(decode(0x00E0), Some(Opcode::ClearScreen));
    assert_eq!(decode(0x00EE), Some(Opcode::Return));
    assert_eq!(decode(0x0000), Some(Opcode::ClearScreen));
    assert_eq!(decode(0x0123), Some(Opcode::ClearScreen));
    assert_eq!(decode(0x01EE), Some(Opcode::ClearScreen));
}

#[test]
fn decode_skip_on_registers_ignores_last_nibble() {
    assert_eq!(decode(0x5120), Some(Opcode::SkipIfSame { x: 1, y: 2 }));
    assert_eq!(decode(0x512F), Some(Opcode::SkipIfSame { x: 1, y: 2 }));
    assert_eq!(decode(0x9340), Some(Opcode::SkipIfDifferent { x: 3, y: 4 }));
    assert_eq!(decode(0x9347), Some(Opcode::SkipIfDifferent { x: 3, y: 4 }));
}

#[test]
fn decode_key_family() {
    assert_eq!(decode(0xE49E), Some(Opcode::SkipIfKey { x: 4 }));
    assert_eq!(decode(0xE4A1), Some(Opcode::SkipIfNoKey { x: 4 }));
    assert_eq!(decode(0xE40E), Some(Opcode::SkipIfKey { x: 4 }));
    assert_eq!(decode(0xE401), Some(Opcode::SkipIfNoKey { x: 4 }));
    assert_eq!(decode(0xE4A0), None);
    assert_eq!(decode(0xE49F), None);
}

#[test]
fn decode_timer_and_memory_family() {
    assert_eq!(decode(0xF507), Some(Opcode::GetDelay { x: 5 }));
    assert_eq!(decode(0xF50A), Some(Opcode::WaitKey { x: 5 }));
    assert_eq!(decode(0xF515), Some(Opcode::SetDelay { x: 5 }));
    assert_eq!(decode(0xF518), Some(Opcode::SetSound { x: 5 }));
    assert_eq!(decode(0xF51E), Some(Opcode::AddIndex { x: 5 }));
    assert_eq!(decode(0xF529), Some(Opcode::Glyph { x: 5 }));
    assert_eq!(decode(0xF533), Some(Opcode::Decimal { x: 5 }));
    assert_eq!(decode(0xF555), Some(Opcode::Store { x: 5 }));
    assert_eq!(decode(0xF565), Some(Opcode::Fill { x: 5 }));
    assert_eq!(decode(0xF520), Some(Opcode::Glyph { x: 5 }));
    assert_eq!(decode(0xF56F), Some(Opcode::Fill { x: 5 }));
}

#[test]
fn decode_rejects_unassigned_f_words() {
    assert_eq!(decode(0xF500), None);
    assert_eq!(decode(0xF508), None);
    assert_eq!(decode(0xF510), None);
    assert_eq!(decode(0xF51F), None);
    assert_eq!(decode(0xF545), None);
    assert_eq!(decode(0xF575), None);
    assert_eq!(decode(0xF5FF), None);
}

#[test]
fn decode_operands_always_fit_their_fields() {
    for ins in 0..=0xFFFFu16 {
        match decode(ins) {
            Some(Opcode::Draw { x, y, n }) => assert!(x < 16 && y < 16 && n < 16),
            Some(Opcode::Jump { nnn }) | Some(Opcode::Call { nnn }) => assert!(nnn < 0x1000),
            Some(Opcode::Load { x, .. }) | Some(Opcode::Store { x }) => assert!(x < 16),
            _ => {}
        }
    }
}
