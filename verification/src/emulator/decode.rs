//! Splitting a 16-bit instruction word into its fields and recognising which
//! instruction it encodes.

use vstd::prelude::*;

verus! {

/// The four 4-bit fields of an instruction word, most significant first.
pub open spec fn nibbles_of(ins: u16) -> (u16, u16, u16, u16) {
    (
        (ins / 0x1000) as u16,
        (ins / 0x100 % 0x10) as u16,
        (ins / 0x10 % 0x10) as u16,
        (ins % 0x10) as u16,
    )
}

/// The register selector `x`: bits 8 to 11 of the word.
pub open spec fn field_x(ins: u16) -> usize {
    (ins / 0x100 % 0x10) as usize
}

/// The register selector `y`: bits 4 to 7 of the word.
pub open spec fn field_y(ins: u16) -> usize {
    (ins / 0x10 % 0x10) as usize
}

/// The address operand `nnn`: the low twelve bits of the word.
pub open spec fn field_nnn(ins: u16) -> u16 {
    (ins % 0x1000) as u16
}

/// The byte operand `kk`: the low eight bits of the word.
pub open spec fn field_kk(ins: u16) -> u8 {
    (ins % 0x100) as u8
}

/// The nibble operand `n`: the low four bits of the word.
pub open spec fn field_n(ins: u16) -> u8 {
    (ins % 0x10) as u8
}

/// Masking and shifting a word agrees with dividing it by powers of sixteen.
pub proof fn lemma_fields_by_division(ins: u16)
    by (bit_vector)
    ensures
        (ins & 0xF000) >> 12 == ins / 0x1000,
        (ins & 0x0F00) >> 8 == ins / 0x100 % 0x10,
        (ins & 0x00F0) >> 4 == ins / 0x10 % 0x10,
        ins & 0x000F == ins % 0x10,
        ins & 0x0FFF == ins % 0x1000,
        ins & 0x00FF == ins % 0x100,
{
}

/// Splits an instruction word into its four nibbles, most significant first.
pub fn nibbles(u: u16) -> (n: (u16, u16, u16, u16))
    ensures
        n == nibbles_of(u),
{
    proof {
        lemma_fields_by_division(u);
    }
    ((u & 0xF000) >> 12, (u & 0x0F00) >> 8, (u & 0x00F0) >> 4, u & 0x000F)
}

/// One instruction of the machine with its operands.
///
/// `x` and `y` select registers, `nnn` is an address, `kk` a byte and `n` a
/// sprite height.
#[derive(Clone, Copy, Debug, PartialEq, Eq, Structural)]
pub enum Opcode {
    /// `0nnn` other than `00EE`: blank the display.
    ClearScreen,
    /// `00EE`: return from a subroutine.
    Return,
    /// `1nnn`: jump to `nnn`.
    Jump { nnn: u16 },
    /// `2nnn`: call the subroutine at `nnn`.
    Call { nnn: u16 },
    /// `3xkk`: skip the next instruction if `Vx == kk`.
    SkipIfEqual { x: usize, kk: u8 },
    /// `4xkk`: skip the next instruction if `Vx != kk`.
    SkipIfNotEqual { x: usize, kk: u8 },
    /// `5xy_`: skip the next instruction if `Vx == Vy`.
    SkipIfSame { x: usize, y: usize },
    /// `6xkk`: `Vx = kk`.
    Load { x: usize, kk: u8 },
    /// `7xkk`: `Vx += kk`, wrapping, flag untouched.
    AddByte { x: usize, kk: u8 },
    /// `8xy0`: `Vx = Vy`.
    Move { x: usize, y: usize },
    /// `8xy1`: `Vx |= Vy`, flag cleared.
    Or { x: usize, y: usize },
    /// `8xy2`: `Vx &= Vy`, flag cleared.
    And { x: usize, y: usize },
    /// `8xy3`: `Vx ^= Vy`, flag cleared.
    Xor { x: usize, y: usize },
    /// `8xy4`: `Vx += Vy`, flag set on carry.
    Add { x: usize, y: usize },
    /// `8xy5`: `Vx -= Vy`, flag set when nothing is borrowed.
    Subtract { x: usize, y: usize },
    /// `8xy6`: `Vx >>= 1`, flag receives the bit shifted out.
    ShiftRight { x: usize },
    /// `8xy7`: `Vx = Vy - Vx`, flag set when nothing is borrowed.
    SubtractFrom { x: usize, y: usize },
    /// `8xyE`: `Vx <<= 1`, flag receives the bit shifted out.
    ShiftLeft { x: usize },
    /// `9xy_`: skip the next instruction if `Vx != Vy`.
    SkipIfDifferent { x: usize, y: usize },
    /// `Annn`: `I = nnn`.
    SetIndex { nnn: u16 },
    /// `Bnnn`: jump to `nnn + V0`.
    JumpOffset { nnn: u16 },
    /// `Cxkk`: `Vx = random byte & kk`.
    Random { x: usize, kk: u8 },
    /// `Dxyn`: draw the `n`-row sprite at `I` at column `Vx`, row `Vy`.
    Draw { x: usize, y: usize, n: u8 },
    /// `Ex_E`: skip the next instruction if key `Vx` is down.
    SkipIfKey { x: usize },
    /// `Ex_1`: skip the next instruction if key `Vx` is up.
    SkipIfNoKey { x: usize },
    /// `Fx07`: `Vx = delay timer`.
    GetDelay { x: usize },
    /// `Fx0A`: wait until a key is down and store its number in `Vx`.
    WaitKey { x: usize },
    /// `Fx15`: `delay timer = Vx`.
    SetDelay { x: usize },
    /// `Fx18`: `sound timer = Vx`.
    SetSound { x: usize },
    /// `Fx1E`: `I += Vx`, wrapping.
    AddIndex { x: usize },
    /// `Fx2_`: `I = address of the glyph for Vx`.
    Glyph { x: usize },
    /// `Fx3_`: store the three decimal digits of `Vx` at `I`, `I+1`, `I+2`.
    Decimal { x: usize },
    /// `Fx5_`: store `V0..=Vx` at `I` and advance `I` past them.
    Store { x: usize },
    /// `Fx6_`: fill `V0..=Vx` from `I` and advance `I` past them.
    Fill { x: usize },
}

impl Opcode {
    /// Every operand is within the width of the field it was taken from.
    pub open spec fn wf(self) -> bool {
        match self {
            Opcode::ClearScreen | Opcode::Return => true,
            Opcode::Jump { nnn }
            | Opcode::Call { nnn }
            | Opcode::SetIndex { nnn }
            | Opcode::JumpOffset { nnn } => nnn < 0x1000,
            Opcode::SkipIfEqual { x, .. }
            | Opcode::SkipIfNotEqual { x, .. }
            | Opcode::Load { x, .. }
            | Opcode::AddByte { x, .. }
            | Opcode::Random { x, .. }
            | Opcode::ShiftRight { x }
            | Opcode::ShiftLeft { x }
            | Opcode::SkipIfKey { x }
            | Opcode::SkipIfNoKey { x }
            | Opcode::GetDelay { x }
            | Opcode::WaitKey { x }
            | Opcode::SetDelay { x }
            | Opcode::SetSound { x }
            | Opcode::AddIndex { x }
            | Opcode::Glyph { x }
            | Opcode::Decimal { x }
            | Opcode::Store { x }
            | Opcode::Fill { x } => x < 16,
            Opcode::SkipIfSame { x, y }
            | Opcode::Move { x, y }
            | Opcode::Or { x, y }
            | Opcode::And { x, y }
            | Opcode::Xor { x, y }
            | Opcode::Add { x, y }
            | Opcode::Subtract { x, y }
            | Opcode::SubtractFrom { x, y }
            | Opcode::SkipIfDifferent { x, y } => x < 16 && y < 16,
            Opcode::Draw { x, y, n } => x < 16 && y < 16 && n < 16,
        }
    }
}

/// The instruction that a word encodes, or `None` for a word outside the
/// instruction set.
///
/// The first nibble selects the family. Within `8xy_` and `Ex__` the last
/// nibble selects the operation; within `Fx__` the third nibble does, and for
/// `Fx0_` and `Fx1_` the last one as well.
pub open spec fn decode_spec(ins: u16) -> Option<Opcode> {
    let (family, _, third, last) = nibbles_of(ins);
    let x = field_x(ins);
    let y = field_y(ins);
    let nnn = field_nnn(ins);
    let kk = field_kk(ins);
    let n = field_n(ins);
    if family == 0x0 {
        Some(if ins == 0x00EE { Opcode::Return } else { Opcode::ClearScreen })
    } else if family == 0x1 {
        Some(Opcode::Jump { nnn })
    } else if family == 0x2 {
        Some(Opcode::Call { nnn })
    } else if family == 0x3 {
        Some(Opcode::SkipIfEqual { x, kk })
    } else if family == 0x4 {
        Some(Opcode::SkipIfNotEqual { x, kk })
    } else if family == 0x5 {
        Some(Opcode::SkipIfSame { x, y })
    } else if family == 0x6 {
        Some(Opcode::Load { x, kk })
    } else if family == 0x7 {
        Some(Opcode::AddByte { x, kk })
    } else if family == 0x8 {
        if last == 0x0 {
            Some(Opcode::Move { x, y })
        } else if last == 0x1 {
            Some(Opcode::Or { x, y })
        } else if last == 0x2 {
            Some(Opcode::And { x, y })
        } else if last == 0x3 {
            Some(Opcode::Xor { x, y })
        } else if last == 0x4 {
            Some(Opcode::Add { x, y })
        } else if last == 0x5 {
            Some(Opcode::Subtract { x, y })
        } else if last == 0x6 {
            Some(Opcode::ShiftRight { x })
        } else if last == 0x7 {
            Some(Opcode::SubtractFrom { x, y })
        } else if last == 0xE {
            Some(Opcode::ShiftLeft { x })
        } else {
            None
        }
    } else if family == 0x9 {
        Some(Opcode::SkipIfDifferent { x, y })
    } else if family == 0xA {
        Some(Opcode::SetIndex { nnn })
    } else if family == 0xB {
        Some(Opcode::JumpOffset { nnn })
    } else if family == 0xC {
        Some(Opcode::Random { x, kk })
    } else if family == 0xD {
        Some(Opcode::Draw { x, y, n })
    } else if family == 0xE {
        if last == 0xE {
            Some(Opcode::SkipIfKey { x })
        } else if last == 0x1 {
            Some(Opcode::SkipIfNoKey { x })
        } else {
            None
        }
    } else if third == 0x0 {
        if last == 0x7 {
            Some(Opcode::GetDelay { x })
        } else if last == 0xA {
            Some(Opcode::WaitKey { x })
        } else {
            None
        }
    } else if third == 0x1 {
        if last == 0x5 {
            Some(Opcode::SetDelay { x })
        } else if last == 0x8 {
            Some(Opcode::SetSound { x })
        } else if last == 0xE {
            Some(Opcode::AddIndex { x })
        } else {
            None
        }
    } else if third == 0x2 {
        Some(Opcode::Glyph { x })
    } else if third == 0x3 {
        Some(Opcode::Decimal { x })
    } else if third == 0x5 {
        Some(Opcode::Store { x })
    } else if third == 0x6 {
        Some(Opcode::Fill { x })
    } else {
        None
    }
}

/// Recognises the instruction that `ins` encodes.
pub fn decode(ins: u16) -> (op: Option<Opcode>)
    ensures
        op == decode_spec(ins),
        op matches Some(o) ==> o.wf(),
{
    proof {
        lemma_fields_by_division(ins);
    }
    let x: usize = ((ins & 0x0F00) >> 8) as usize;
    let y: usize = ((ins & 0x00F0) >> 4) as usize;
    let nnn: u16 = ins & 0x0FFF;
    let kk: u8 = (ins & 0x00FF) as u8;
    let n: u8 = (ins & 0x000F) as u8;

    match nibbles(ins) {
        (0x0, 0x0, 0xE, 0xE) => Some(Opcode::Return),
        (0x0, _, _, _) => Some(Opcode::ClearScreen),
        (0x1, _, _, _) => Some(Opcode::Jump { nnn }),
        (0x2, _, _, _) => Some(Opcode::Call { nnn }),
        (0x3, _, _, _) => Some(Opcode::SkipIfEqual { x, kk }),
        (0x4, _, _, _) => Some(Opcode::SkipIfNotEqual { x, kk }),
        (0x5, _, _, _) => Some(Opcode::SkipIfSame { x, y }),
        (0x6, _, _, _) => Some(Opcode::Load { x, kk }),
        (0x7, _, _, _) => Some(Opcode::AddByte { x, kk }),
        (0x8, _, _, 0x0) => Some(Opcode::Move { x, y }),
        (0x8, _, _, 0x1) => Some(Opcode::Or { x, y }),
        (0x8, _, _, 0x2) => Some(Opcode::And { x, y }),
        (0x8, _, _, 0x3) => Some(Opcode::Xor { x, y }),
        (0x8, _, _, 0x4) => Some(Opcode::Add { x, y }),
        (0x8, _, _, 0x5) => Some(Opcode::Subtract { x, y }),
        (0x8, _, _, 0x6) => Some(Opcode::ShiftRight { x }),
        (0x8, _, _, 0x7) => Some(Opcode::SubtractFrom { x, y }),
        (0x8, _, _, 0xE) => Some(Opcode::ShiftLeft { x }),
        (0x9, _, _, _) => Some(Opcode::SkipIfDifferent { x, y }),
        (0xA, _, _, _) => Some(Opcode::SetIndex { nnn }),
        (0xB, _, _, _) => Some(Opcode::JumpOffset { nnn }),
        (0xC, _, _, _) => Some(Opcode::Random { x, kk }),
        (0xD, _, _, _) => Some(Opcode::Draw { x, y, n }),
        (0xE, _, _, 0xE) => Some(Opcode::SkipIfKey { x }),
        (0xE, _, _, 0x1) => Some(Opcode::SkipIfNoKey { x }),
        (0xF, _, 0x0, 0x7) => Some(Opcode::GetDelay { x }),
        (0xF, _, 0x0, 0xA) => Some(Opcode::WaitKey { x }),
        (0xF, _, 0x1, 0x5) => Some(Opcode::SetDelay { x }),
        (0xF, _, 0x1, 0x8) => Some(Opcode::SetSound { x }),
        (0xF, _, 0x1, 0xE) => Some(Opcode::AddIndex { x }),
        (0xF, _, 0x2, _) => Some(Opcode::Glyph { x }),
        (0xF, _, 0x3, _) => Some(Opcode::Decimal { x }),
        (0xF, _, 0x5, _) => Some(Opcode::Store { x }),
        (0xF, _, 0x6, _) => Some(Opcode::Fill { x }),
        _ => None,
    }
}

} // verus!
