use vstd::prelude::*;

verus! {

/// One decoded instruction. `x` and `y` name registers, `n` is a 4-bit
/// immediate, `nn` an 8-bit immediate and `nnn` a 12-bit address.
#[derive(Debug, Clone, Copy, PartialEq, Eq, Structural)]
pub enum Instruction {
    /// 00E0: clear the screen.
    ClearScreen,
    /// 00EE: return from a subroutine.
    Return,
    /// 1NNN: jump to `nnn`.
    Jump { nnn: u16 },
    /// 2NNN: call the subroutine at `nnn`.
    Call { nnn: u16 },
    /// 3XNN: skip the next instruction if `Vx == nn`.
    SkipEq { x: u8, nn: u8 },
    /// 4XNN: skip the next instruction if `Vx != nn`.
    SkipNe { x: u8, nn: u8 },
    /// 5XY0: skip the next instruction if `Vx == Vy`.
    SkipRegEq { x: u8, y: u8 },
    /// 6XNN: `Vx = nn`.
    SetImmediate { x: u8, nn: u8 },
    /// 7XNN: `Vx += nn`, wrapping, flags untouched.
    AddImmediate { x: u8, nn: u8 },
    /// 8XY0: `Vx = Vy`.
    RegSet { x: u8, y: u8 },
    /// 8XY1: `Vx |= Vy`.
    RegOr { x: u8, y: u8 },
    /// 8XY2: `Vx &= Vy`.
    RegAnd { x: u8, y: u8 },
    /// 8XY3: `Vx ^= Vy`.
    RegXor { x: u8, y: u8 },
    /// 8XY4: `Vx += Vy`, VF = carry.
    RegAdd { x: u8, y: u8 },
    /// 8XY5: `Vx = Vx - Vy`, VF = no borrow.
    RegSubRight { x: u8, y: u8 },
    /// 8XY6: shift right by one, VF = the bit shifted out.
    RegShiftRight { x: u8, y: u8 },
    /// 8XY7: `Vx = Vy - Vx`, VF = no borrow.
    RegSubLeft { x: u8, y: u8 },
    /// 8XYE: shift left by one, VF = the bit shifted out.
    RegShiftLeft { x: u8, y: u8 },
    /// 9XY0: skip the next instruction if `Vx != Vy`.
    SkipRegNe { x: u8, y: u8 },
    /// ANNN: `I = nnn`.
    SetIndex { nnn: u16 },
    /// BNNN: jump to `nnn` plus a register.
    JumpWithOffset { nnn: u16, x: u8 },
    /// CXNN: `Vx = nn & random byte`.
    Random { x: u8, nn: u8 },
    /// DXYN: draw the `n`-row sprite at `I` at (`Vx`, `Vy`).
    Draw { x: u8, y: u8, n: u8 },
    /// EX9E: skip the next instruction if the key in `Vx` is down.
    SkipIfKeyDown { x: u8 },
    /// EXA1: skip the next instruction if the key in `Vx` is up.
    SkipIfKeyUp { x: u8 },
    /// FX07: `Vx = delay timer`.
    DelayGet { x: u8 },
    /// FX0A: wait for a key press and release, then `Vx = key`.
    GetKey { x: u8 },
    /// FX15: `delay timer = Vx`.
    DelaySet { x: u8 },
    /// FX18: `sound timer = Vx`.
    SoundSet { x: u8 },
    /// FX1E: `I += Vx`, wrapping at 16 bits.
    AddToIndex { x: u8 },
    /// FX29: `I` = address of the font glyph for `Vx`.
    FontCharacter { x: u8 },
    /// FX33: store the three decimal digits of `Vx` at `I`.
    ConvertToDecimal { x: u8 },
    /// FX55: store `V0..=Vx` at `I`.
    MemoryStore { x: u8 },
    /// FX65: load `V0..=Vx` from `I`.
    MemoryLoad { x: u8 },
}

/// The instruction class: the top nibble of the word.
pub open spec fn class_of(word: u16) -> u8 {
    ((word & 0xF000) >> 12) as u8
}

/// The first register operand: the second nibble.
pub open spec fn x_of(word: u16) -> u8 {
    ((word & 0x0F00) >> 8) as u8
}

/// The second register operand: the third nibble.
pub open spec fn y_of(word: u16) -> u8 {
    ((word & 0x00F0) >> 4) as u8
}

/// The low nibble.
pub open spec fn n_of(word: u16) -> u8 {
    (word & 0x000F) as u8
}

/// The low byte.
pub open spec fn nn_of(word: u16) -> u8 {
    (word & 0x00FF) as u8
}

/// The low twelve bits.
pub open spec fn nnn_of(word: u16) -> u16 {
    word & 0x0FFF
}

/// The instruction that a 16-bit word encodes, or `None` for a word that
/// encodes none.
pub open spec fn decode_word(word: u16) -> Option<Instruction> {
    let (c, x, y, n, nn, nnn) = (
        class_of(word),
        x_of(word),
        y_of(word),
        n_of(word),
        nn_of(word),
        nnn_of(word),
    );
    if c == 0x0 {
        if x == 0 && y == 0xE && n == 0 {
            Some(Instruction::ClearScreen)
        } else if x == 0 && y == 0xE && n == 0xE {
            Some(Instruction::Return)
        } else {
            None
        }
    } else if c == 0x1 {
        Some(Instruction::Jump { nnn })
    } else if c == 0x2 {
        Some(Instruction::Call { nnn })
    } else if c == 0x3 {
        Some(Instruction::SkipEq { x, nn })
    } else if c == 0x4 {
        Some(Instruction::SkipNe { x, nn })
    } else if c == 0x5 {
        Some(Instruction::SkipRegEq { x, y })
    } else if c == 0x6 {
        Some(Instruction::SetImmediate { x, nn })
    } else if c == 0x7 {
        Some(Instruction::AddImmediate { x, nn })
    } else if c == 0x8 {
        if n == 0x0 {
            Some(Instruction::RegSet { x, y })
        } else if n == 0x1 {
            Some(Instruction::RegOr { x, y })
        } else if n == 0x2 {
            Some(Instruction::RegAnd { x, y })
        } else if n == 0x3 {
            Some(Instruction::RegXor { x, y })
        } else if n == 0x4 {
            Some(Instruction::RegAdd { x, y })
        } else if n == 0x5 {
            Some(Instruction::RegSubRight { x, y })
        } else if n == 0x6 {
            Some(Instruction::RegShiftRight { x, y })
        } else if n == 0x7 {
            Some(Instruction::RegSubLeft { x, y })
        } else if n == 0xE {
            Some(Instruction::RegShiftLeft { x, y })
        } else {
            None
        }
    } else if c == 0x9 {
        Some(Instruction::SkipRegNe { x, y })
    } else if c == 0xA {
        Some(Instruction::SetIndex { nnn })
    } else if c == 0xB {
        Some(Instruction::JumpWithOffset { nnn, x })
    } else if c == 0xC {
        Some(Instruction::Random { x, nn })
    } else if c == 0xD {
        Some(Instruction::Draw { x, y, n })
    } else if c == 0xE {
        if nn == 0x9E {
            Some(Instruction::SkipIfKeyDown { x })
        } else if nn == 0xA1 {
            Some(Instruction::SkipIfKeyUp { x })
        } else {
            None
        }
    } else if nn == 0x07 {
        Some(Instruction::DelayGet { x })
    } else if nn == 0x0A {
        Some(Instruction::GetKey { x })
    } else if nn == 0x15 {
        Some(Instruction::DelaySet { x })
    } else if nn == 0x18 {
        Some(Instruction::SoundSet { x })
    } else if nn == 0x1E {
        Some(Instruction::AddToIndex { x })
    } else if nn == 0x29 {
        Some(Instruction::FontCharacter { x })
    } else if nn == 0x33 {
        Some(Instruction::ConvertToDecimal { x })
    } else if nn == 0x55 {
        Some(Instruction::MemoryStore { x })
    } else if nn == 0x65 {
        Some(Instruction::MemoryLoad { x })
    } else {
        None
    }
}

impl Instruction {
    /// Every operand fits its field: registers and `n` below 16, `nnn`
    /// below 0x1000.
    pub open spec fn operands_in_range(self) -> bool {
        match self {
            Instruction::ClearScreen | Instruction::Return => true,
            Instruction::Jump { nnn } | Instruction::Call { nnn } | Instruction::SetIndex {
                nnn,
            } => nnn < 0x1000,
            Instruction::JumpWithOffset { nnn, x } => nnn < 0x1000 && x < 16,
            Instruction::SkipEq { x, .. }
            | Instruction::SkipNe { x, .. }
            | Instruction::SetImmediate { x, .. }
            | Instruction::AddImmediate { x, .. }
            | Instruction::Random { x, .. } => x < 16,
            Instruction::SkipRegEq { x, y }
            | Instruction::RegSet { x, y }
            | Instruction::RegOr { x, y }
            | Instruction::RegAnd { x, y }
            | Instruction::RegXor { x, y }
            | Instruction::RegAdd { x, y }
            | Instruction::RegSubRight { x, y }
            | Instruction::RegShiftRight { x, y }
            | Instruction::RegSubLeft { x, y }
            | Instruction::RegShiftLeft { x, y }
            | Instruction::SkipRegNe { x, y } => x < 16 && y < 16,
            Instruction::Draw { x, y, n } => x < 16 && y < 16 && n < 16,
            Instruction::SkipIfKeyDown { x }
            | Instruction::SkipIfKeyUp { x }
            | Instruction::DelayGet { x }
            | Instruction::GetKey { x }
            | Instruction::DelaySet { x }
            | Instruction::SoundSet { x }
            | Instruction::AddToIndex { x }
            | Instruction::FontCharacter { x }
            | Instruction::ConvertToDecimal { x }
            | Instruction::MemoryStore { x }
            | Instruction::MemoryLoad { x } => x < 16,
        }
    }
}

/// The fields of a word lie in their ranges.
pub proof fn lemma_fields_in_range(word: u16)
    ensures
        class_of(word) < 16,
        x_of(word) < 16,
        y_of(word) < 16,
        n_of(word) < 16,
        nnn_of(word) < 0x1000,
{
    assert(((word & 0xF000) >> 12) < 16) by (bit_vector);
    assert(((word & 0x0F00) >> 8) < 16) by (bit_vector);
    assert(((word & 0x00F0) >> 4) < 16) by (bit_vector);
    assert((word & 0x000F) < 16) by (bit_vector);
    assert((word & 0x0FFF) < 0x1000) by (bit_vector);
}

/// Splits `word` into its fields and decodes it; `None` where the word
/// encodes no instruction.
pub fn decode(word: u16) -> (r: Option<Instruction>)
    ensures
        r == decode_word(word),
        r matches Some(ins) ==> ins.operands_in_range(),
{
    proof {
        lemma_fields_in_range(word);
    }
    let c = ((word & 0xF000) >> 12) as u8;
    let x = ((word & 0x0F00) >> 8) as u8;
    let y = ((word & 0x00F0) >> 4) as u8;
    let n = (word & 0x000F) as u8;
    let nn = (word & 0x00FF) as u8;
    let nnn = word & 0x0FFF;
    match c {
        0x0 => {
            if x == 0 && y == 0xE && n == 0 {
                Some(Instruction::ClearScreen)
            } else if x == 0 && y == 0xE && n == 0xE {
                Some(Instruction::Return)
            } else {
                None
            }
        },
        0x1 => Some(Instruction::Jump { nnn }),
        0x2 => Some(Instruction::Call { nnn }),
        0x3 => Some(Instruction::SkipEq { x, nn }),
        0x4 => Some(Instruction::SkipNe { x, nn }),
        0x5 => Some(Instruction::SkipRegEq { x, y }),
        0x6 => Some(Instruction::SetImmediate { x, nn }),
        0x7 => Some(Instruction::AddImmediate { x, nn }),
        0x8 => match n {
            0x0 => Some(Instruction::RegSet { x, y }),
            0x1 => Some(Instruction::RegOr { x, y }),
            0x2 => Some(Instruction::RegAnd { x, y }),
            0x3 => Some(Instruction::RegXor { x, y }),
            0x4 => Some(Instruction::RegAdd { x, y }),
            0x5 => Some(Instruction::RegSubRight { x, y }),
            0x6 => Some(Instruction::RegShiftRight { x, y }),
            0x7 => Some(Instruction::RegSubLeft { x, y }),
            0xE => Some(Instruction::RegShiftLeft { x, y }),
            _ => None,
        },
        0x9 => Some(Instruction::SkipRegNe { x, y }),
        0xA => Some(Instruction::SetIndex { nnn }),
        0xB => Some(Instruction::JumpWithOffset { nnn, x }),
        0xC => Some(Instruction::Random { x, nn }),
        0xD => Some(Instruction::Draw { x, y, n }),
        0xE => match nn {
            0x9E => Some(Instruction::SkipIfKeyDown { x }),
            0xA1 => Some(Instruction::SkipIfKeyUp { x }),
            _ => None,
        },
        _ => match nn {
            0x07 => Some(Instruction::DelayGet { x }),
            0x0A => Some(Instruction::GetKey { x }),
            0x15 => Some(Instruction::DelaySet { x }),
            0x18 => Some(Instruction::SoundSet { x }),
            0x1E => Some(Instruction::AddToIndex { x }),
            0x29 => Some(Instruction::FontCharacter { x }),
            0x33 => Some(Instruction::ConvertToDecimal { x }),
            0x55 => Some(Instruction::MemoryStore { x }),
            0x65 => Some(Instruction::MemoryLoad { x }),
            _ => None,
        },
    }
}

} // verus!
