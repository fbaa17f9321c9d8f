use vstd::prelude::*;

verus! {

/// A decoded instruction. `x` and `y` name registers, `nn` is an 8-bit
/// immediate, `addr` a 12-bit address and `rows` a sprite height.
#[derive(Clone, Copy, Debug, PartialEq, Eq, Structural)]
pub enum Instruction {
    /// `0__0`: blank the display.
    ClearScreen,
    /// `0__E`: return from a subroutine.
    Return,
    /// `1NNN`: jump to `addr`.
    Jump { addr: u16 },
    /// `2NNN`: call the subroutine at `addr`.
    Call { addr: u16 },
    /// `3XNN`: skip the next instruction if `VX == nn`.
    SkipEqImm { x: u8, nn: u8 },
    /// `4XNN`: skip the next instruction if `VX != nn`.
    SkipNeImm { x: u8, nn: u8 },
    /// `5XY_`: skip the next instruction if `VX == VY`.
    SkipEqReg { x: u8, y: u8 },
    /// `6XNN`: `VX = nn`.
    LoadImm { x: u8, nn: u8 },
    /// `7XNN`: `VX += nn`, wrapping, flag untouched.
    AddImm { x: u8, nn: u8 },
    /// `8XY0`: `VX = VY`.
    Move { x: u8, y: u8 },
    /// `8XY1`: `VX |= VY`.
    Or { x: u8, y: u8 },
    /// `8XY2`: `VX &= VY`.
    And { x: u8, y: u8 },
    /// `8XY3`: `VX ^= VY`.
    Xor { x: u8, y: u8 },
    /// `8XY4`: `VX += VY`, `VF` = carry.
    Add { x: u8, y: u8 },
    /// `8XY5`: `VX -= VY`, `VF` = no borrow.
    Sub { x: u8, y: u8 },
    /// `8XY6`: `VF` = lowest bit of `VX`, then `VX >>= 1`.
    ShiftRight { x: u8 },
    /// `8XY7`: `VX = VY - VX`, `VF` = no borrow.
    SubFrom { x: u8, y: u8 },
    /// `8XYE`: `VF` = highest bit of `VX`, then `VX <<= 1`.
    ShiftLeft { x: u8 },
    /// `9XY_`: skip the next instruction if `VX != VY`.
    SkipNeReg { x: u8, y: u8 },
    /// `ANNN`: `I = addr`.
    LoadIndex { addr: u16 },
    /// `BNNN`: jump to `addr + V0`.
    JumpOffset { addr: u16 },
    /// `CXNN`: `VX` = a random byte masked with `nn`.
    Random { x: u8, nn: u8 },
    /// `DXYN`: draw the `rows`-row sprite at `I` with its corner at (`VX`, `VY`).
    Draw { x: u8, y: u8, rows: u8 },
    /// `EX9E`: skip the next instruction if key `VX` is down.
    SkipKeyDown { x: u8 },
    /// `EXA1`: skip the next instruction if key `VX` is up.
    SkipKeyUp { x: u8 },
    /// `FX07`: `VX` = delay timer.
    LoadDelay { x: u8 },
    /// `FX0A`: wait for a key and put it in `VX`.
    WaitKey { x: u8 },
    /// `FX15`: delay timer = `VX`.
    SetDelay { x: u8 },
    /// `FX18`: sound timer = `VX`.
    SetSound { x: u8 },
    /// `FX1E`: `I += VX`, `VF` = result above 0xFFF.
    AddIndex { x: u8 },
    /// `FX29`: `I` = address of the glyph for `VX`.
    LoadGlyph { x: u8 },
    /// `FX33`: store the three decimal digits of `VX` at `I`, `I+1`, `I+2`.
    StoreBcd { x: u8 },
    /// `FX55`: store `V0..=VX` at `I`, then `I += x + 1`.
    StoreRegisters { x: u8 },
    /// `FX65`: fill `V0..=VX` from `I`, then `I += x + 1`.
    LoadRegisters { x: u8 },
}

/// Bits 15-12 of an instruction word: the family.
pub open spec fn field_family(word: u16) -> u16 {
    word / 0x1000
}

/// Bits 11-8 of an instruction word: the operand X.
pub open spec fn field_x(word: u16) -> u8 {
    ((word / 0x100) % 0x10) as u8
}

/// Bits 7-4 of an instruction word: the operand Y.
pub open spec fn field_y(word: u16) -> u8 {
    ((word / 0x10) % 0x10) as u8
}

/// Bits 3-0 of an instruction word: the operand N.
pub open spec fn field_n(word: u16) -> u8 {
    (word % 0x10) as u8
}

/// Bits 7-0 of an instruction word: the operand NN.
pub open spec fn field_nn(word: u16) -> u8 {
    (word % 0x100) as u8
}

/// Bits 11-0 of an instruction word: the operand NNN.
pub open spec fn field_nnn(word: u16) -> u16 {
    word % 0x1000
}

impl Instruction {
    /// The operands are in range: registers and sprite heights below 16,
    /// addresses below 0x1000.
    pub open spec fn wf(self) -> bool {
        match self {
            Instruction::ClearScreen | Instruction::Return => true,
            Instruction::Jump { addr }
            | Instruction::Call { addr }
            | Instruction::LoadIndex { addr }
            | Instruction::JumpOffset { addr } => addr < 0x1000,
            Instruction::SkipEqImm { x, nn }
            | Instruction::SkipNeImm { x, nn }
            | Instruction::LoadImm { x, nn }
            | Instruction::AddImm { x, nn }
            | Instruction::Random { x, nn } => x < 16,
            Instruction::SkipEqReg { x, y }
            | Instruction::Move { x, y }
            | Instruction::Or { x, y }
            | Instruction::And { x, y }
            | Instruction::Xor { x, y }
            | Instruction::Add { x, y }
            | Instruction::Sub { x, y }
            | Instruction::SubFrom { x, y }
            | Instruction::SkipNeReg { x, y } => x < 16 && y < 16,
            Instruction::Draw { x, y, rows } => x < 16 && y < 16 && rows < 16,
            Instruction::ShiftRight { x }
            | Instruction::ShiftLeft { x }
            | Instruction::SkipKeyDown { x }
            | Instruction::SkipKeyUp { x }
            | Instruction::LoadDelay { x }
            | Instruction::WaitKey { x }
            | Instruction::SetDelay { x }
            | Instruction::SetSound { x }
            | Instruction::AddIndex { x }
            | Instruction::LoadGlyph { x }
            | Instruction::StoreBcd { x }
            | Instruction::StoreRegisters { x }
            | Instruction::LoadRegisters { x } => x < 16,
        }
    }
}

/// The instruction that a 16-bit word stands for, if any. The family selects
/// the operation; families 0 and 8 look at N as well, families E and F at NN.
pub open spec fn spec_decode(word: u16) -> Option<Instruction> {
    let x = field_x(word);
    let y = field_y(word);
    let n = field_n(word);
    let nn = field_nn(word);
    let addr = field_nnn(word);
    let family = field_family(word);
    if family == 0x0 {
        if n == 0x0 {
            Some(Instruction::ClearScreen)
        } else if n == 0xE {
            Some(Instruction::Return)
        } else {
            None
        }
    } else if family == 0x1 {
        Some(Instruction::Jump { addr })
    } else if family == 0x2 {
        Some(Instruction::Call { addr })
    } else if family == 0x3 {
        Some(Instruction::SkipEqImm { x, nn })
    } else if family == 0x4 {
        Some(Instruction::SkipNeImm { x, nn })
    } else if family == 0x5 {
        Some(Instruction::SkipEqReg { x, y })
    } else if family == 0x6 {
        Some(Instruction::LoadImm { x, nn })
    } else if family == 0x7 {
        Some(Instruction::AddImm { x, nn })
    } else if family == 0x8 {
        if n == 0x0 {
            Some(Instruction::Move { x, y })
        } else if n == 0x1 {
            Some(Instruction::Or { x, y })
        } else if n == 0x2 {
            Some(Instruction::And { x, y })
        } else if n == 0x3 {
            Some(Instruction::Xor { x, y })
        } else if n == 0x4 {
            Some(Instruction::Add { x, y })
        } else if n == 0x5 {
            Some(Instruction::Sub { x, y })
        } else if n == 0x6 {
            Some(Instruction::ShiftRight { x })
        } else if n == 0x7 {
            Some(Instruction::SubFrom { x, y })
        } else if n == 0xE {
            Some(Instruction::ShiftLeft { x })
        } else {
            None
        }
    } else if family == 0x9 {
        Some(Instruction::SkipNeReg { x, y })
    } else if family == 0xA {
        Some(Instruction::LoadIndex { addr })
    } else if family == 0xB {
        Some(Instruction::JumpOffset { addr })
    } else if family == 0xC {
        Some(Instruction::Random { x, nn })
    } else if family == 0xD {
        Some(Instruction::Draw { x, y, rows: n })
    } else if family == 0xE {
        if nn == 0x9E {
            Some(Instruction::SkipKeyDown { x })
        } else if nn == 0xA1 {
            Some(Instruction::SkipKeyUp { x })
        } else {
            None
        }
    } else {
        if nn == 0x07 {
            Some(Instruction::LoadDelay { x })
        } else if nn == 0x0A {
            Some(Instruction::WaitKey { x })
        } else if nn == 0x15 {
            Some(Instruction::SetDelay { x })
        } else if nn == 0x18 {
            Some(Instruction::SetSound { x })
        } else if nn == 0x1E {
            Some(Instruction::AddIndex { x })
        } else if nn == 0x29 {
            Some(Instruction::LoadGlyph { x })
        } else if nn == 0x33 {
            Some(Instruction::StoreBcd { x })
        } else if nn == 0x55 {
            Some(Instruction::StoreRegisters { x })
        } else if nn == 0x65 {
            Some(Instruction::LoadRegisters { x })
        } else {
            None
        }
    }
}

/// Masking and shifting a word yields its fields.
proof fn lemma_fields(word: u16)
    ensures
        word & 0xF000 == field_family(word) * 0x1000,
        (word & 0x0F00) >> 8 == field_x(word),
        (word & 0x00F0) >> 4 == field_y(word),
        word & 0x000F == field_n(word),
        word & 0x00FF == field_nn(word),
        word & 0x0FFF == field_nnn(word),
{
    assert(word & 0xF000 == (word / 0x1000) * 0x1000) by (bit_vector);
    assert((word & 0x0F00) >> 8 == (word / 0x100) % 0x10) by (bit_vector);
    assert((word & 0x00F0) >> 4 == (word / 0x10) % 0x10) by (bit_vector);
    assert(word & 0x000F == word % 0x10) by (bit_vector);
    assert(word & 0x00FF == word % 0x100) by (bit_vector);
    assert(word & 0x0FFF == word % 0x1000) by (bit_vector);
}

/// Decodes an instruction word.
pub fn decode(word: u16) -> (res: Option<Instruction>)
    ensures
        res == spec_decode(word),
        res matches Some(instr) ==> instr.wf(),
{
    proof {
        lemma_fields(word);
    }
    let x = ((word & 0x0F00) >> 8) as u8;
    let y = ((word & 0x00F0) >> 4) as u8;
    let n = (word & 0x000F) as u8;
    let nn = (word & 0x00FF) as u8;
    let addr = word & 0x0FFF;
    match word & 0xF000 {
        0x0000 => match n {
            0x0 => Some(Instruction::ClearScreen),
            0xE => Some(Instruction::Return),
            _ => None,
        },
        0x1000 => Some(Instruction::Jump { addr }),
        0x2000 => Some(Instruction::Call { addr }),
        0x3000 => Some(Instruction::SkipEqImm { x, nn }),
        0x4000 => Some(Instruction::SkipNeImm { x, nn }),
        0x5000 => Some(Instruction::SkipEqReg { x, y }),
        0x6000 => Some(Instruction::LoadImm { x, nn }),
        0x7000 => Some(Instruction::AddImm { x, nn }),
        0x8000 => match n {
            0x0 => Some(Instruction::Move { x, y }),
            0x1 => Some(Instruction::Or { x, y }),
            0x2 => Some(Instruction::And { x, y }),
            0x3 => Some(Instruction::Xor { x, y }),
            0x4 => Some(Instruction::Add { x, y }),
            0x5 => Some(Instruction::Sub { x, y }),
            0x6 => Some(Instruction::ShiftRight { x }),
            0x7 => Some(Instruction::SubFrom { x, y }),
            0xE => Some(Instruction::ShiftLeft { x }),
            _ => None,
        },
        0x9000 => Some(Instruction::SkipNeReg { x, y }),
        0xA000 => Some(Instruction::LoadIndex { addr }),
        0xB000 => Some(Instruction::JumpOffset { addr }),
        0xC000 => Some(Instruction::Random { x, nn }),
        0xD000 => Some(Instruction::Draw { x, y, rows: n }),
        0xE000 => match nn {
            0x9E => Some(Instruction::SkipKeyDown { x }),
            0xA1 => Some(Instruction::SkipKeyUp { x }),
            _ => None,
        },
        _ => match nn {
            0x07 => Some(Instruction::LoadDelay { x }),
            0x0A => Some(Instruction::WaitKey { x }),
            0x15 => Some(Instruction::SetDelay { x }),
            0x18 => Some(Instruction::SetSound { x }),
            0x1E => Some(Instruction::AddIndex { x }),
            0x29 => Some(Instruction::LoadGlyph { x }),
            0x33 => Some(Instruction::StoreBcd { x }),
            0x55 => Some(Instruction::StoreRegisters { x }),
            0x65 => Some(Instruction::LoadRegisters { x }),
            _ => None,
        },
    }
}

} // verus!
