//! Instructions and their encoding as 16-bit words.
//!
//! A word is read by its four nibbles: the highest selects the kind of
//! instruction, and the lower three hold a 12-bit address `nnn`, or a register
//! index `x` with a byte `kk`, or two register indices `x` and `y` with a
//! nibble `n`.
use crate::fault::Fault;
use vstd::prelude::*;

verus! {

/// The number of general-purpose registers.
pub const REGISTER_COUNT: usize = 16;

/// The index of `VF`, the register that receives carry, borrow and collision
/// flags.
pub const FLAG_REGISTER: u8 = 0xF;

/// One decoded instruction. Register operands are indices from 0 to 15.
#[derive(Copy, Clone, PartialEq, Eq, Structural, Debug)]
pub enum Instruction {
    /// `0nnn`: a call into machine code, which this machine ignores.
    Sys { address: u16 },
    /// `00E0`: clear the display.
    Clear,
    /// `00EE`: return from a subroutine.
    Return,
    /// `1nnn`: jump to `nnn`.
    Jump { address: u16 },
    /// `2nnn`: call the subroutine at `nnn`.
    Call { address: u16 },
    /// `3xkk`: skip the next instruction if `Vx` equals `kk`.
    SkipIfEqualByte { x: u8, byte: u8 },
    /// `4xkk`: skip the next instruction if `Vx` differs from `kk`.
    SkipIfNotEqualByte { x: u8, byte: u8 },
    /// `5xy0`: skip the next instruction if `Vx` equals `Vy`.
    SkipIfRegisterEqual { x: u8, y: u8 },
    /// `6xkk`: set `Vx` to `kk`.
    LoadByte { x: u8, byte: u8 },
    /// `7xkk`: add `kk` to `Vx`, without touching the flag.
    AddByte { x: u8, byte: u8 },
    /// `8xy0`: set `Vx` to `Vy`.
    LoadRegister { x: u8, y: u8 },
    /// `8xy1`: set `Vx` to `Vx` or `Vy`.
    Or { x: u8, y: u8 },
    /// `8xy2`: set `Vx` to `Vx` and `Vy`.
    And { x: u8, y: u8 },
    /// `8xy3`: set `Vx` to `Vx` exclusive-or `Vy`.
    Xor { x: u8, y: u8 },
    /// `8xy4`: add `Vy` to `Vx`; the flag is the carry.
    AddCarry { x: u8, y: u8 },
    /// `8xy5`: subtract `Vy` from `Vx`; the flag is set unless a borrow
    /// occurred.
    Subtract { x: u8, y: u8 },
    /// `8xy6`: shift `Vx` right by one; the flag is the bit shifted out.
    ShiftRight { x: u8 },
    /// `8xy7`: set `Vx` to `Vy` minus `Vx`; the flag is set unless a borrow
    /// occurred.
    SubtractReversed { x: u8, y: u8 },
    /// `8xyE`: shift `Vx` left by one; the flag is the bit shifted out.
    ShiftLeft { x: u8 },
    /// `9xy0`: skip the next instruction if `Vx` differs from `Vy`.
    SkipIfRegisterNotEqual { x: u8, y: u8 },
    /// `Annn`: set `I` to `nnn`.
    LoadAddress { address: u16 },
    /// `Bnnn`: jump to `nnn` plus `V0`.
    JumpOffset { address: u16 },
    /// `Cxkk`: set `Vx` to a random byte masked with `kk`.
    Random { x: u8, byte: u8 },
    /// `Dxyn`: draw the `n`-row sprite at `I` at column `Vx`, row `Vy`; the
    /// flag is the collision.
    Draw { x: u8, y: u8, rows: u8 },
    /// `Ex9E`: skip the next instruction if the key `Vx` is down.
    SkipIfKey { x: u8 },
    /// `ExA1`: skip the next instruction if the key `Vx` is not down.
    SkipIfNotKey { x: u8 },
    /// `Fx07`: set `Vx` to the delay timer.
    LoadDelayTimer { x: u8 },
    /// `Fx0A`: wait for a key and set `Vx` to its code.
    LoadOnKey { x: u8 },
    /// `Fx15`: set the delay timer to `Vx`.
    SetDelayTimer { x: u8 },
    /// `Fx18`: set the sound timer to `Vx`.
    SetSoundTimer { x: u8 },
    /// `Fx1E`: add `Vx` to `I`.
    AddAddress { x: u8 },
    /// `Fx29`: point `I` at the glyph for the digit `Vx`.
    LoadGlyph { x: u8 },
    /// `Fx33`: store the three decimal digits of `Vx` at `I`.
    StoreDecimal { x: u8 },
    /// `Fx55`: store `V0` to `Vx` at `I`.
    StoreRegisters { x: u8 },
    /// `Fx65`: load `V0` to `Vx` from `I`.
    LoadRegisters { x: u8 },
}

/// The kind of an instruction word: its highest nibble.
pub open spec fn field_kind(opcode: u16) -> int {
    opcode as int / 0x1000
}

/// The register index `x` of an instruction word: its second nibble.
pub open spec fn field_x(opcode: u16) -> u8 {
    ((opcode as int / 0x100) % 0x10) as u8
}

/// The register index `y` of an instruction word: its third nibble.
pub open spec fn field_y(opcode: u16) -> u8 {
    ((opcode as int / 0x10) % 0x10) as u8
}

/// The nibble `n` of an instruction word: its lowest.
pub open spec fn field_n(opcode: u16) -> u8 {
    (opcode as int % 0x10) as u8
}

/// The byte `kk` of an instruction word: its low byte.
pub open spec fn field_kk(opcode: u16) -> u8 {
    (opcode as int % 0x100) as u8
}

/// The address `nnn` of an instruction word: its low twelve bits.
pub open spec fn field_nnn(opcode: u16) -> u16 {
    (opcode as int % 0x1000) as u16
}

/// The instruction that an instruction word denotes, if it denotes one.
pub open spec fn decoded(opcode: u16) -> Option<Instruction> {
    let x = field_x(opcode);
    let y = field_y(opcode);
    let n = field_n(opcode);
    let kk = field_kk(opcode);
    let nnn = field_nnn(opcode);
    let kind = field_kind(opcode);
    if opcode == 0x00E0 {
        Some(Instruction::Clear)
    } else if opcode == 0x00EE {
        Some(Instruction::Return)
    } else if kind == 0x0 {
        Some(Instruction::Sys { address: nnn })
    } else if kind == 0x1 {
        Some(Instruction::Jump { address: nnn })
    } else if kind == 0x2 {
        Some(Instruction::Call { address: nnn })
    } else if kind == 0x3 {
        Some(Instruction::SkipIfEqualByte { x, byte: kk })
    } else if kind == 0x4 {
        Some(Instruction::SkipIfNotEqualByte { x, byte: kk })
    } else if kind == 0x5 {
        if n == 0 {
            Some(Instruction::SkipIfRegisterEqual { x, y })
        } else {
            None
        }
    } else if kind == 0x6 {
        Some(Instruction::LoadByte { x, byte: kk })
    } else if kind == 0x7 {
        Some(Instruction::AddByte { x, byte: kk })
    } else if kind == 0x8 {
        if n == 0x0 {
            Some(Instruction::LoadRegister { x, y })
        } else if n == 0x1 {
            Some(Instruction::Or { x, y })
        } else if n == 0x2 {
            Some(Instruction::And { x, y })
        } else if n == 0x3 {
            Some(Instruction::Xor { x, y })
        } else if n == 0x4 {
            Some(Instruction::AddCarry { x, y })
        } else if n == 0x5 {
            Some(Instruction::Subtract { x, y })
        } else if n == 0x6 {
            Some(Instruction::ShiftRight { x })
        } else if n == 0x7 {
            Some(Instruction::SubtractReversed { x, y })
        } else if n == 0xE {
            Some(Instruction::ShiftLeft { x })
        } else {
            None
        }
    } else if kind == 0x9 {
        if n == 0 {
            Some(Instruction::SkipIfRegisterNotEqual { x, y })
        } else {
            None
        }
    } else if kind == 0xA {
        Some(Instruction::LoadAddress { address: nnn })
    } else if kind == 0xB {
        Some(Instruction::JumpOffset { address: nnn })
    } else if kind == 0xC {
        Some(Instruction::Random { x, byte: kk })
    } else if kind == 0xD {
        Some(Instruction::Draw { x, y, rows: n })
    } else if kind == 0xE {
        if kk == 0x9E {
            Some(Instruction::SkipIfKey { x })
        } else if kk == 0xA1 {
            Some(Instruction::SkipIfNotKey { x })
        } else {
            None
        }
    } else {
        if kk == 0x07 {
            Some(Instruction::LoadDelayTimer { x })
        } else if kk == 0x0A {
            Some(Instruction::LoadOnKey { x })
        } else if kk == 0x15 {
            Some(Instruction::SetDelayTimer { x })
        } else if kk == 0x18 {
            Some(Instruction::SetSoundTimer { x })
        } else if kk == 0x1E {
            Some(Instruction::AddAddress { x })
        } else if kk == 0x29 {
            Some(Instruction::LoadGlyph { x })
        } else if kk == 0x33 {
            Some(Instruction::StoreDecimal { x })
        } else if kk == 0x55 {
            Some(Instruction::StoreRegisters { x })
        } else if kk == 0x65 {
            Some(Instruction::LoadRegisters { x })
        } else {
            None
        }
    }
}

impl Instruction {
    /// The first register operand, for the instructions that have one.
    pub open spec fn operand_x(self) -> Option<u8> {
        match self {
            Instruction::SkipIfEqualByte { x, .. }
            | Instruction::SkipIfNotEqualByte { x, .. }
            | Instruction::SkipIfRegisterEqual { x, .. }
            | Instruction::LoadByte { x, .. }
            | Instruction::AddByte { x, .. }
            | Instruction::LoadRegister { x, .. }
            | Instruction::Or { x, .. }
            | Instruction::And { x, .. }
            | Instruction::Xor { x, .. }
            | Instruction::AddCarry { x, .. }
            | Instruction::Subtract { x, .. }
            | Instruction::ShiftRight { x }
            | Instruction::SubtractReversed { x, .. }
            | Instruction::ShiftLeft { x }
            | Instruction::SkipIfRegisterNotEqual { x, .. }
            | Instruction::Random { x, .. }
            | Instruction::Draw { x, .. }
            | Instruction::SkipIfKey { x }
            | Instruction::SkipIfNotKey { x }
            | Instruction::LoadDelayTimer { x }
            | Instruction::LoadOnKey { x }
            | Instruction::SetDelayTimer { x }
            | Instruction::SetSoundTimer { x }
            | Instruction::AddAddress { x }
            | Instruction::LoadGlyph { x }
            | Instruction::StoreDecimal { x }
            | Instruction::StoreRegisters { x }
            | Instruction::LoadRegisters { x } => Some(x),
            _ => None,
        }
    }

    /// The second register operand, for the instructions that have one.
    pub open spec fn operand_y(self) -> Option<u8> {
        match self {
            Instruction::SkipIfRegisterEqual { y, .. }
            | Instruction::LoadRegister { y, .. }
            | Instruction::Or { y, .. }
            | Instruction::And { y, .. }
            | Instruction::Xor { y, .. }
            | Instruction::AddCarry { y, .. }
            | Instruction::Subtract { y, .. }
            | Instruction::SubtractReversed { y, .. }
            | Instruction::SkipIfRegisterNotEqual { y, .. }
            | Instruction::Draw { y, .. } => Some(y),
            _ => None,
        }
    }

    /// Whether every register operand names one of the sixteen registers.
    pub open spec fn well_formed(self) -> bool {
        &&& self.operand_x() matches Some(x) ==> x < REGISTER_COUNT
        &&& self.operand_y() matches Some(y) ==> y < REGISTER_COUNT
    }
}

/// Every instruction that a word decodes to is well formed, so that no
/// instruction of a program can name a register that does not exist.
pub proof fn lemma_decoded_well_formed(opcode: u16)
    ensures
        decoded(opcode) matches Some(instruction) ==> instruction.well_formed(),
{
}

/// Decodes an instruction word. A word that matches no defined instruction is
/// a decode fault.
pub fn decode(opcode: u16) -> (instruction: Result<Instruction, Fault>)
    ensures
        decoded(opcode) matches Some(found) ==> instruction == Ok::<Instruction, Fault>(found),
        decoded(opcode) is None ==> instruction == Err::<Instruction, Fault>(
            Fault::Decode { opcode },
        ),
{
    let x: u8 = ((0x0F00 & opcode) >> 8) as u8;
    let y: u8 = ((0x00F0 & opcode) >> 4) as u8;
    let n: u8 = (0x000F & opcode) as u8;
    let kk: u8 = (0x00FF & opcode) as u8;
    let nnn: u16 = 0x0FFF & opcode;
    let kind: u16 = opcode >> 12;
    assert(((0x0F00 & opcode) >> 8) == (opcode / 0x100) % 0x10 && ((0x00F0 & opcode) >> 4) == (
    opcode / 0x10) % 0x10 && (0x000F & opcode) == opcode % 0x10 && (0x00FF & opcode) == opcode
        % 0x100 && (0x0FFF & opcode) == opcode % 0x1000 && (opcode >> 12) == opcode / 0x1000)
        by (bit_vector);
    let undefined: Result<Instruction, Fault> = Err(Fault::Decode { opcode });
    match kind {
        0x0 => {
            if opcode == 0x00E0 {
                Ok(Instruction::Clear)
            } else if opcode == 0x00EE {
                Ok(Instruction::Return)
            } else {
                Ok(Instruction::Sys { address: nnn })
            }
        },
        0x1 => Ok(Instruction::Jump { address: nnn }),
        0x2 => Ok(Instruction::Call { address: nnn }),
        0x3 => Ok(Instruction::SkipIfEqualByte { x, byte: kk }),
        0x4 => Ok(Instruction::SkipIfNotEqualByte { x, byte: kk }),
        0x5 => match n {
            0x0 => Ok(Instruction::SkipIfRegisterEqual { x, y }),
            _ => undefined,
        },
        0x6 => Ok(Instruction::LoadByte { x, byte: kk }),
        0x7 => Ok(Instruction::AddByte { x, byte: kk }),
        0x8 => match n {
            0x0 => Ok(Instruction::LoadRegister { x, y }),
            0x1 => Ok(Instruction::Or { x, y }),
            0x2 => Ok(Instruction::And { x, y }),
            0x3 => Ok(Instruction::Xor { x, y }),
            0x4 => Ok(Instruction::AddCarry { x, y }),
            0x5 => Ok(Instruction::Subtract { x, y }),
            0x6 => Ok(Instruction::ShiftRight { x }),
            0x7 => Ok(Instruction::SubtractReversed { x, y }),
            0xE => Ok(Instruction::ShiftLeft { x }),
            _ => undefined,
        },
        0x9 => match n {
            0x0 => Ok(Instruction::SkipIfRegisterNotEqual { x, y }),
            _ => undefined,
        },
        0xA => Ok(Instruction::LoadAddress { address: nnn }),
        0xB => Ok(Instruction::JumpOffset { address: nnn }),
        0xC => Ok(Instruction::Random { x, byte: kk }),
        0xD => Ok(Instruction::Draw { x, y, rows: n }),
        0xE => match kk {
            0x9E => Ok(Instruction::SkipIfKey { x }),
            0xA1 => Ok(Instruction::SkipIfNotKey { x }),
            _ => undefined,
        },
        _ => match kk {
            0x07 => Ok(Instruction::LoadDelayTimer { x }),
            0x0A => Ok(Instruction::LoadOnKey { x }),
            0x15 => Ok(Instruction::SetDelayTimer { x }),
            0x18 => Ok(Instruction::SetSoundTimer { x }),
            0x1E => Ok(Instruction::AddAddress { x }),
            0x29 => Ok(Instruction::LoadGlyph { x }),
            0x33 => Ok(Instruction::StoreDecimal { x }),
            0x55 => Ok(Instruction::StoreRegisters { x }),
            0x65 => Ok(Instruction::LoadRegisters { x }),
            _ => undefined,
        },
    }
}

} // verus!
