use crate::error::EmulatorError;
use crate::memory::{nibble, u16_to_u4_array, ToU16, ToU8};
use vstd::prelude::*;

verus! {

/// One instruction of the machine, decoded.
///
/// `x` and `y` name general registers, `address` is a 12-bit address,
/// `value` and `mask` are 8-bit immediates.
#[derive(Clone, Copy, Debug, PartialEq, Eq, Structural)]
pub enum Instruction {
    /// `00E0`, `00FF`: reset every pixel.
    ClearDisplay,
    /// `00EE`: return from a subroutine.
    Return,
    /// `1NNN`: continue at `address`.
    Jump { address: u16 },
    /// `2NNN`: call the subroutine at `address`.
    Call { address: u16 },
    /// `3XNN`: skip the next instruction if register `x` holds `value`.
    SkipIfEqual { x: u8, value: u8 },
    /// `4XNN`: skip the next instruction unless register `x` holds `value`.
    SkipIfNotEqual { x: u8, value: u8 },
    /// `5XY0`: skip the next instruction if registers `x` and `y` are equal.
    SkipIfRegistersEqual { x: u8, y: u8 },
    /// `6XNN`: load `value` into register `x`.
    Load { x: u8, value: u8 },
    /// `7XNN`: add `value` to register `x`, wrapping, without touching the flag.
    AddImmediate { x: u8, value: u8 },
    /// `8XY0`: copy register `y` into register `x`.
    Copy { x: u8, y: u8 },
    /// `8XY1`: bitwise or of registers `x` and `y` into `x`.
    Or { x: u8, y: u8 },
    /// `8XY2`: bitwise and of registers `x` and `y` into `x`.
    And { x: u8, y: u8 },
    /// `8XY3`: bitwise exclusive or of registers `x` and `y` into `x`.
    Xor { x: u8, y: u8 },
    /// `8XY4`: add register `y` to register `x`; the flag tells of a carry.
    AddRegisters { x: u8, y: u8 },
    /// `8XY5`: subtract register `y` from register `x`; the flag tells that
    /// nothing was borrowed.
    Subtract { x: u8, y: u8 },
    /// `8XY6`: shift right by one into register `x`; the flag takes the bit
    /// shifted out.
    ShiftRight { x: u8, y: u8 },
    /// `8XY7`: register `y` minus register `x` into `x`; the flag tells that
    /// nothing was borrowed.
    SubtractReversed { x: u8, y: u8 },
    /// `8XYE`: shift left by one into register `x`; the flag takes the bit
    /// shifted out.
    ShiftLeft { x: u8, y: u8 },
    /// `9XY0`: skip the next instruction unless registers `x` and `y` are equal.
    SkipIfRegistersNotEqual { x: u8, y: u8 },
    /// `ANNN`: load `address` into the index register.
    LoadIndex { address: u16 },
    /// `BNNN`: continue at `address` plus the value of an offset register.
    JumpWithOffset { address: u16 },
    /// `CXNN`: load a random byte, masked by `mask`, into register `x`.
    Random { x: u8, mask: u8 },
    /// `DXYN`: draw the sprite of `rows` rows at the index register to the
    /// position held by registers `x` and `y`; the flag tells of a collision.
    Draw { x: u8, y: u8, rows: u8 },
    /// `EX9E`: skip the next instruction if the key in register `x` is held.
    SkipIfKeyPressed { x: u8 },
    /// `EXA1`: skip the next instruction unless the key in register `x` is held.
    SkipIfKeyNotPressed { x: u8 },
    /// `FX07`: load the delay timer into register `x`.
    LoadDelayTimer { x: u8 },
    /// `FX0A`: wait for a key to go down and load its code into register `x`.
    WaitForKey { x: u8 },
    /// `FX15`: set the delay timer from register `x`.
    SetDelayTimer { x: u8 },
    /// `FX18`: set the sound timer from register `x`.
    SetSoundTimer { x: u8 },
    /// `FX1E`: add register `x` to the index register.
    AddToIndex { x: u8 },
    /// `FX33`: store the three decimal digits of register `x` at the index
    /// register.
    StoreDecimal { x: u8 },
    /// `FX55`: store registers 0 to `x` at the index register.
    StoreRegisters { x: u8 },
    /// `FX65`: load registers 0 to `x` from the index register.
    LoadRegisters { x: u8 },
}

impl Instruction {
    /// Register numbers and row counts are nibbles, addresses have 12 bits.
    pub open spec fn wf(self) -> bool {
        match self {
            Instruction::ClearDisplay | Instruction::Return => true,
            Instruction::Jump { address }
            | Instruction::Call { address }
            | Instruction::LoadIndex { address }
            | Instruction::JumpWithOffset { address } => address < 4096,
            Instruction::SkipIfEqual { x, .. }
            | Instruction::SkipIfNotEqual { x, .. }
            | Instruction::Load { x, .. }
            | Instruction::AddImmediate { x, .. }
            | Instruction::Random { x, .. }
            | Instruction::SkipIfKeyPressed { x }
            | Instruction::SkipIfKeyNotPressed { x }
            | Instruction::LoadDelayTimer { x }
            | Instruction::WaitForKey { x }
            | Instruction::SetDelayTimer { x }
            | Instruction::SetSoundTimer { x }
            | Instruction::AddToIndex { x }
            | Instruction::StoreDecimal { x }
            | Instruction::StoreRegisters { x }
            | Instruction::LoadRegisters { x } => x < 16,
            Instruction::SkipIfRegistersEqual { x, y }
            | Instruction::Copy { x, y }
            | Instruction::Or { x, y }
            | Instruction::And { x, y }
            | Instruction::Xor { x, y }
            | Instruction::AddRegisters { x, y }
            | Instruction::Subtract { x, y }
            | Instruction::ShiftRight { x, y }
            | Instruction::SubtractReversed { x, y }
            | Instruction::ShiftLeft { x, y }
            | Instruction::SkipIfRegistersNotEqual { x, y } => x < 16 && y < 16,
            Instruction::Draw { x, y, rows } => x < 16 && y < 16 && rows < 16,
        }
    }
}

/// The instruction that a 16-bit word encodes, if any.
///
/// The first nibble selects the group; `x` is the second nibble, `y` the
/// third, the low 8 bits are an immediate and the low 12 bits an address.
pub open spec fn decode_spec(word: u16) -> Option<Instruction> {
    let group = nibble(word, 0);
    let x = nibble(word, 1) as u8;
    let y = nibble(word, 2) as u8;
    let last = nibble(word, 3) as u8;
    let value = (word % 256) as u8;
    let address = (word % 4096) as u16;
    if group == 0x0 {
        if word == 0x00E0 || word == 0x00FF {
            Some(Instruction::ClearDisplay)
        } else if word == 0x00EE {
            Some(Instruction::Return)
        } else {
            None
        }
    } else if group == 0x1 {
        Some(Instruction::Jump { address })
    } else if group == 0x2 {
        Some(Instruction::Call { address })
    } else if group == 0x3 {
        Some(Instruction::SkipIfEqual { x, value })
    } else if group == 0x4 {
        Some(Instruction::SkipIfNotEqual { x, value })
    } else if group == 0x5 {
        if last == 0 {
            Some(Instruction::SkipIfRegistersEqual { x, y })
        } else {
            None
        }
    } else if group == 0x6 {
        Some(Instruction::Load { x, value })
    } else if group == 0x7 {
        Some(Instruction::AddImmediate { x, value })
    } else if group == 0x8 {
        if last == 0x0 {
            Some(Instruction::Copy { x, y })
        } else if last == 0x1 {
            Some(Instruction::Or { x, y })
        } else if last == 0x2 {
            Some(Instruction::And { x, y })
        } else if last == 0x3 {
            Some(Instruction::Xor { x, y })
        } else if last == 0x4 {
            Some(Instruction::AddRegisters { x, y })
        } else if last == 0x5 {
            Some(Instruction::Subtract { x, y })
        } else if last == 0x6 {
            Some(Instruction::ShiftRight { x, y })
        } else if last == 0x7 {
            Some(Instruction::SubtractReversed { x, y })
        } else if last == 0xE {
            Some(Instruction::ShiftLeft { x, y })
        } else {
            None
        }
    } else if group == 0x9 {
        if last == 0 {
            Some(Instruction::SkipIfRegistersNotEqual { x, y })
        } else {
            None
        }
    } else if group == 0xA {
        Some(Instruction::LoadIndex { address })
    } else if group == 0xB {
        Some(Instruction::JumpWithOffset { address })
    } else if group == 0xC {
        Some(Instruction::Random { x, mask: value })
    } else if group == 0xD {
        Some(Instruction::Draw { x, y, rows: last })
    } else if group == 0xE {
        if value == 0x9E {
            Some(Instruction::SkipIfKeyPressed { x })
        } else if value == 0xA1 {
            Some(Instruction::SkipIfKeyNotPressed { x })
        } else {
            None
        }
    } else {
        if value == 0x07 {
            Some(Instruction::LoadDelayTimer { x })
        } else if value == 0x0A {
            Some(Instruction::WaitForKey { x })
        } else if value == 0x15 {
            Some(Instruction::SetDelayTimer { x })
        } else if value == 0x18 {
            Some(Instruction::SetSoundTimer { x })
        } else if value == 0x1E {
            Some(Instruction::AddToIndex { x })
        } else if value == 0x33 {
            Some(Instruction::StoreDecimal { x })
        } else if value == 0x55 {
            Some(Instruction::StoreRegisters { x })
        } else if value == 0x65 {
            Some(Instruction::LoadRegisters { x })
        } else {
            None
        }
    }
}

/// Every instruction that a word encodes is well formed.
pub proof fn lemma_decode_wf(word: u16)
    ensures
        decode_spec(word) matches Some(instruction) ==> instruction.wf(),
{
}

/// Decodes a 16-bit word, or fails with the word where it encodes no
/// instruction.
pub fn decode(word: u16) -> (r: Result<Instruction, EmulatorError>)
    ensures
        match decode_spec(word) {
            Some(instruction) => r == Ok::<Instruction, EmulatorError>(instruction)
                && instruction.wf(),
            None => r == Err::<Instruction, EmulatorError>(
                EmulatorError::UnknownInstruction(word),
            ),
        },
{
    let parts = u16_to_u4_array(word);
    assert(parts@[0] == nibble(word, 0));
    assert(parts@[1] == nibble(word, 1));
    assert(parts@[2] == nibble(word, 2));
    assert(parts@[3] == nibble(word, 3));
    let ghost value = (word % 256) as u8;
    let ghost address = (word % 4096) as u16;
    assert((parts@[2], parts@[3]).joined_u8() == value);
    assert((parts@[1], parts@[2], parts@[3]).joined_u16() == address);
    match (parts[0], parts[1], parts[2], parts[3]) {
        (0x0, 0x0, 0xE, 0x0) | (0x0, 0x0, 0xF, 0xF) => Ok(Instruction::ClearDisplay),
        (0x0, 0x0, 0xE, 0xE) => Ok(Instruction::Return),
        (0x1, a, b, c) => Ok(Instruction::Jump { address: (a, b, c).to_u16() }),
        (0x2, a, b, c) => Ok(Instruction::Call { address: (a, b, c).to_u16() }),
        (0x3, x, a, b) => Ok(Instruction::SkipIfEqual { x, value: (a, b).to_u8() }),
        (0x4, x, a, b) => Ok(Instruction::SkipIfNotEqual { x, value: (a, b).to_u8() }),
        (0x5, x, y, 0x0) => Ok(Instruction::SkipIfRegistersEqual { x, y }),
        (0x6, x, a, b) => Ok(Instruction::Load { x, value: (a, b).to_u8() }),
        (0x7, x, a, b) => Ok(Instruction::AddImmediate { x, value: (a, b).to_u8() }),
        (0x8, x, y, 0x0) => Ok(Instruction::Copy { x, y }),
        (0x8, x, y, 0x1) => Ok(Instruction::Or { x, y }),
        (0x8, x, y, 0x2) => Ok(Instruction::And { x, y }),
        (0x8, x, y, 0x3) => Ok(Instruction::Xor { x, y }),
        (0x8, x, y, 0x4) => Ok(Instruction::AddRegisters { x, y }),
        (0x8, x, y, 0x5) => Ok(Instruction::Subtract { x, y }),
        (0x8, x, y, 0x6) => Ok(Instruction::ShiftRight { x, y }),
        (0x8, x, y, 0x7) => Ok(Instruction::SubtractReversed { x, y }),
        (0x8, x, y, 0xE) => Ok(Instruction::ShiftLeft { x, y }),
        (0x9, x, y, 0x0) => Ok(Instruction::SkipIfRegistersNotEqual { x, y }),
        (0xA, a, b, c) => Ok(Instruction::LoadIndex { address: (a, b, c).to_u16() }),
        (0xB, a, b, c) => Ok(Instruction::JumpWithOffset { address: (a, b, c).to_u16() }),
        (0xC, x, a, b) => Ok(Instruction::Random { x, mask: (a, b).to_u8() }),
        (0xD, x, y, n) => Ok(Instruction::Draw { x, y, rows: n }),
        (0xE, x, 0x9, 0xE) => Ok(Instruction::SkipIfKeyPressed { x }),
        (0xE, x, 0xA, 0x1) => Ok(Instruction::SkipIfKeyNotPressed { x }),
        (0xF, x, 0x0, 0x7) => Ok(Instruction::LoadDelayTimer { x }),
        (0xF, x, 0x0, 0xA) => Ok(Instruction::WaitForKey { x }),
        (0xF, x, 0x1, 0x5) => Ok(Instruction::SetDelayTimer { x }),
        (0xF, x, 0x1, 0x8) => Ok(Instruction::SetSoundTimer { x }),
        (0xF, x, 0x1, 0xE) => Ok(Instruction::AddToIndex { x }),
        (0xF, x, 0x3, 0x3) => Ok(Instruction::StoreDecimal { x }),
        (0xF, x, 0x5, 0x5) => Ok(Instruction::StoreRegisters { x }),
        (0xF, x, 0x6, 0x5) => Ok(Instruction::LoadRegisters { x }),
        (_, _, _, _) => Err(EmulatorError::UnknownInstruction(word)),
    }
}

} // verus!
