use dale8::{decode, Instruction};

#[test]
fn decode_extracts_operands() {
    assert_eq!(decode(0x1ABC), Some(Instruction::Jump { addr: 0xABC }));
    assert_eq!(decode(0x2FFF), Some(Instruction::Call { addr: 0xFFF }));
    assert_eq!(decode(0x3A42), Some(Instruction::SkipEqImm { x: 0xA, nn: 0x42 }));
    assert_eq!(decode(0x4B01), Some(Instruction::SkipNeImm { x: 0xB, nn: 0x01 }));
    assert_eq!(decode(0x6CFE), Some(Instruction::LoadImm { x: 0xC, nn: 0xFE }));
    assert_eq!(decode(0x7D10), Some(Instruction::AddImm { x: 0xD, nn: 0x10 }));
    assert_eq!(decode(0xA123), Some(Instruction::LoadIndex { addr: 0x123 }));
    assert_eq!(decode(0xB456), Some(Instruction::JumpOffset { addr: 0x456 }));
    assert_eq!(decode(0xC7F0), Some(Instruction::Random { x: 7, nn: 0xF0 }));
    assert_eq!(decode(0xD12F), Some(Instruction::Draw { x: 1, y: 2, rows: 0xF }));
}

#[test]
fn decode_family_zero_by_low_nibble() {
    assert_eq!(decode(0x00E0), Some(Instruction::ClearScreen));
    assert_eq!(decode(0x00EE), Some(Instruction::Return));
    assert_eq!(decode(0x0000), Some(Instruction::ClearScreen));
    assert_eq!(decode(0x0ABE), Some(Instruction::Return));
    assert_eq!(decode(0x00E1), None);
    assert_eq!(decode(0x0FFF), None);
}

#[test]
fn decode_family_eight_by_low_nibble() {
    assert_eq!(decode(0x8120), Some(Instruction::Move { x: 1, y: 2 }));
    assert_eq!(decode(0x8121), Some(Instruction::Or { x: 1, y: 2 }));
    assert_eq!(decode(0x8122), Some(Instruction::And { x: 1, y: 2 }));
    assert_eq!(decode(0x8123), Some(Instruction::Xor { x: 1, y: 2 }));
    assert_eq!(decode(0x8124), Some(Instruction::Add { x: 1, y: 2 }));
    assert_eq!(decode(0x8125), Some(Instruction::Sub { x: 1, y: 2 }));
    assert_eq!(decode(0x8126), Some(Instruction::ShiftRight { x: 1 }));
    assert_eq!(decode(0x8127), Some(Instruction::SubFrom { x: 1, y: 2 }));
    assert_eq!(decode(0x812E), Some(Instruction::ShiftLeft { x: 1 }));
    for n in [0x8u16, 0x9, 0xA, 0xB, 0xC, 0xD, 0xF] {
        assert_eq!(decode(0x8120 | n), None);
    }
}

#[test]
fn decode_register_comparisons_ignore_low_nibble() {
    assert_eq!(decode(0x5120), Some(Instruction::SkipEqReg { x: 1, y: 2 }));
    assert_eq!(decode(0x512F), Some(Instruction::SkipEqReg { x: 1, y: 2 }));
    assert_eq!(decode(0x9AB0), Some(Instruction::SkipNeReg { x: 0xA, y: 0xB }));
    assert_eq!(decode(0x9AB7), Some(Instruction::SkipNeReg { x: 0xA, y: 0xB }));
}

#[test]
fn decode_families_e_and_f_by_low_byte() {
    assert_eq!(decode(0xE39E), Some(Instruction::SkipKeyDown { x: 3 }));
    assert_eq!(decode(0xE3A1), Some(Instruction::SkipKeyUp { x: 3 }));
    assert_eq!(decode(0xE300), None);
    assert_eq!(decode(0xF407), Some(Instruction::LoadDelay { x: 4 }));
    assert_eq!(decode(0xF40A), Some(Instruction::WaitKey { x: 4 }));
    assert_eq!(decode(0xF415), Some(Instruction::SetDelay { x: 4 }));
    assert_eq!(decode(0xF418), Some(Instruction::SetSound { x: 4 }));
    assert_eq!(decode(0xF41E), Some(Instruction::AddIndex { x: 4 }));
    assert_eq!(decode(0xF429), Some(Instruction::LoadGlyph { x: 4 }));
    assert_eq!(decode(0xF433), Some(Instruction::StoreBcd { x: 4 }));
    assert_eq!(decode(0xF455), Some(Instruction::StoreRegisters { x: 4 }));
    assert_eq!(decode(0xF465), Some(Instruction::LoadRegisters { x: 4 }));
    assert_eq!(decode(0xF400), None);
    assert_eq!(decode(0xF4FF), None);
}

#[test]
fn decode_accepts_exactly_the_known_words() {
    let mut known = 0u32;
    for word in 0..=0xFFFFu16 {
        if decode(word).is_some() {
            known += 1;
        }
    }
    // Families 1-7, 9-D: all 4096 words each. Family 0: two of sixteen low
    // nibbles. Family 8: nine. Family E: two low bytes, family F: nine.
    assert_eq!(known, 12 * 4096 + 2 * 256 + 9 * 256 + 2 * 16 + 9 * 16);
}
