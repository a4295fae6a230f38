//! The opcode decoder: a pure mapping from a 16-bit opcode to a structured
//! instruction, together with the reverse encoding and the proof that the two
//! compose to the identity on well-formed instructions.
//!
//! An opcode is split into four 4-bit nibbles `a`, `b`, `c`, `d` from most to
//! least significant. The decoder carries a quirk configuration: in legacy
//! mode the shift instructions name a source register `Vy`, and the
//! offset-jump always offsets by `V0`; in modern mode the shifts work on `Vx`
//! in place and the offset-jump names the offset register in its own high
//! nibble.

use vstd::prelude::*;

verus! {

/// Which historical behaviour the machine reproduces for the shift,
/// offset-jump, and register store/load instructions.
#[derive(Clone, Copy, Debug, PartialEq, Eq, Structural)]
pub enum QuirkMode {
    Legacy,
    Modern,
}

/// An opcode matched no known pattern.
#[derive(Clone, Copy, Debug, PartialEq, Eq, Structural)]
pub struct DecodeError;

/// A decoded instruction. Register operands are indices into `V0..VF`;
/// addresses are 12-bit memory addresses.
///
/// `ShiftRight`/`ShiftLeft` carry `register_y: Some(..)` exactly when decoded
/// in legacy mode (shift a copy of `Vy`); `JumpOffset` carries
/// `register: Some(..)` exactly when decoded in modern mode (offset by that
/// register instead of `V0`).
#[derive(Clone, Copy, Debug, PartialEq, Eq)]
#[allow(inconsistent_fields)]
pub enum Instruction {
    /// 2nnn
    Call { address: u16 },
    /// 00EE
    Return,
    /// 1nnn
    Jump { address: u16 },
    /// Bnnn
    JumpOffset { base_address: u16, register: Option<usize> },
    /// 3xkk
    SkipEqualByte { register: usize, byte: u8 },
    /// 4xkk
    SkipNotEqualByte { register: usize, byte: u8 },
    /// 5xy0
    SkipEqualVariable { register_x: usize, register_y: usize },
    /// 9xy0
    SkipNotEqualVariable { register_x: usize, register_y: usize },
    /// Ex9E
    SkipKey { register: usize },
    /// ExA1
    SkipNotKey { register: usize },
    /// 6xkk
    SetWithByte { register: usize, byte: u8 },
    /// 8xy0
    SetWithVariable { register_x: usize, register_y: usize },
    /// Annn
    SetIndexWithAddress { address: u16 },
    /// Fx29
    SetIndexWithSpriteAddress { register: usize },
    /// 7xkk
    AddWithByte { register: usize, byte: u8 },
    /// 8xy4
    AddWithVariable { register_x: usize, register_y: usize },
    /// Fx1E
    AddIndexWithVariable { register: usize },
    /// 8xy5
    SubWithVariable { register_x: usize, register_y: usize },
    /// 8xy7
    SubWithVariableNot { register_x: usize, register_y: usize },
    /// 8xy6
    ShiftRight { register_x: usize, register_y: Option<usize> },
    /// 8xyE
    ShiftLeft { register_x: usize, register_y: Option<usize> },
    /// 8xy1
    Or { register_x: usize, register_y: usize },
    /// 8xy2
    And { register_x: usize, register_y: usize },
    /// 8xy3
    Xor { register_x: usize, register_y: usize },
    /// 00E0
    ClearScreen,
    /// Dxyn
    Draw { register_x: usize, register_y: usize, n: u8 },
    /// Fx07
    SetVariableWithDelayTimer { register: usize },
    /// Fx15
    SetDelayTimer { register: usize },
    /// Fx18
    SetSoundTimer { register: usize },
    /// Fx55
    StoreRegisters { up_to_register: usize },
    /// Fx65
    LoadIntoRegisters { up_to_register: usize },
    /// Fx33
    StoreDecimalConversion { register: usize },
    /// Fx0A
    WaitForKey { register: usize },
    /// Cxkk
    RandomAnd { register: usize, byte: u8 },
    /// 0nnn (defunct hardware routine, executes as a no-op)
    MachineRoutine { address: u16 },
}

impl Instruction {
    /// Every register operand is an index below 16, every address fits in 12
    /// bits, and a modern offset-jump names the register held in the high
    /// nibble of its own base address. Everything `decode` returns satisfies
    /// this.
    pub open spec fn wf(self) -> bool {
        match self {
            Instruction::Call { address } => address < 4096,
            Instruction::Return => true,
            Instruction::Jump { address } => address < 4096,
            Instruction::JumpOffset { base_address, register } => base_address < 4096 && match register {
                Some(r) => r < 16 && r == ((base_address >> 8) & 0xF) as usize,
                None => true,
            },
            Instruction::SkipEqualByte { register, byte } => register < 16,
            Instruction::SkipNotEqualByte { register, byte } => register < 16,
            Instruction::SkipEqualVariable { register_x, register_y } => register_x < 16
                && register_y < 16,
            Instruction::SkipNotEqualVariable { register_x, register_y } => register_x < 16
                && register_y < 16,
            Instruction::SkipKey { register } => register < 16,
            Instruction::SkipNotKey { register } => register < 16,
            Instruction::SetWithByte { register, byte } => register < 16,
            Instruction::SetWithVariable { register_x, register_y } => register_x < 16
                && register_y < 16,
            Instruction::SetIndexWithAddress { address } => address < 4096,
            Instruction::SetIndexWithSpriteAddress { register } => register < 16,
            Instruction::AddWithByte { register, byte } => register < 16,
            Instruction::AddWithVariable { register_x, register_y } => register_x < 16
                && register_y < 16,
            Instruction::AddIndexWithVariable { register } => register < 16,
            Instruction::SubWithVariable { register_x, register_y } => register_x < 16
                && register_y < 16,
            Instruction::SubWithVariableNot { register_x, register_y } => register_x < 16
                && register_y < 16,
            Instruction::ShiftRight { register_x, register_y } => register_x < 16 && match register_y {
                Some(y) => y < 16,
                None => true,
            },
            Instruction::ShiftLeft { register_x, register_y } => register_x < 16 && match register_y {
                Some(y) => y < 16,
                None => true,
            },
            Instruction::Or { register_x, register_y } => register_x < 16 && register_y < 16,
            Instruction::And { register_x, register_y } => register_x < 16 && register_y < 16,
            Instruction::Xor { register_x, register_y } => register_x < 16 && register_y < 16,
            Instruction::ClearScreen => true,
            Instruction::Draw { register_x, register_y, n } => register_x < 16 && register_y < 16
                && n < 16,
            Instruction::SetVariableWithDelayTimer { register } => register < 16,
            Instruction::SetDelayTimer { register } => register < 16,
            Instruction::SetSoundTimer { register } => register < 16,
            Instruction::StoreRegisters { up_to_register } => up_to_register < 16,
            Instruction::LoadIntoRegisters { up_to_register } => up_to_register < 16,
            Instruction::StoreDecimalConversion { register } => register < 16,
            Instruction::WaitForKey { register } => register < 16,
            Instruction::RandomAnd { register, byte } => register < 16,
            Instruction::MachineRoutine { address } => address < 4096,
        }
    }

    /// Whether the quirk-dependent fields agree with `mode`: shifts carry a
    /// source register exactly in legacy mode, the offset-jump carries an
    /// offset register exactly in modern mode.
    pub open spec fn fits_mode(self, mode: QuirkMode) -> bool {
        match self {
            Instruction::ShiftRight { register_x, register_y } => (register_y is Some) <==> (
            mode == QuirkMode::Legacy),
            Instruction::ShiftLeft { register_x, register_y } => (register_y is Some) <==> (mode
                == QuirkMode::Legacy),
            Instruction::JumpOffset { base_address, register } => (register is Some) <==> (mode
                == QuirkMode::Modern),
            _ => true,
        }
    }

    /// Well-formed and actually producible by the decoder: a machine-routine
    /// address must not collide with the two fixed opcodes `00E0` and `00EE`.
    pub open spec fn canonical(self) -> bool {
        self.wf() && match self {
            Instruction::MachineRoutine { address } => address != 0x0E0 && address != 0x0EE,
            _ => true,
        }
    }
}

/// The whole opcode table as one mathematical function: `None` exactly on the
/// opcodes that match no pattern.
pub open spec fn spec_decode(opcode: u16, mode: QuirkMode) -> Option<Instruction> {
    let a: u16 = (opcode >> 12) & 0xF;
    let b: u16 = (opcode >> 8) & 0xF;
    let c: u16 = (opcode >> 4) & 0xF;
    let d: u16 = opcode & 0xF;
    let nnn: u16 = opcode & 0xFFF;
    let kk: u8 = (opcode & 0xFF) as u8;
    if a == 0x0 && b == 0x0 && c == 0xE && d == 0x0 {
        Some(Instruction::ClearScreen)
    } else if a == 0x0 && b == 0x0 && c == 0xE && d == 0xE {
        Some(Instruction::Return)
    } else if a == 0x0 {
        Some(Instruction::MachineRoutine { address: nnn })
    } else if a == 0x1 {
        Some(Instruction::Jump { address: nnn })
    } else if a == 0x2 {
        Some(Instruction::Call { address: nnn })
    } else if a == 0x3 {
        Some(Instruction::SkipEqualByte { register: b as usize, byte: kk })
    } else if a == 0x4 {
        Some(Instruction::SkipNotEqualByte { register: b as usize, byte: kk })
    } else if a == 0x5 {
        if d == 0x0 {
            Some(Instruction::SkipEqualVariable { register_x: b as usize, register_y: c as usize })
        } else {
            None
        }
    } else if a == 0x6 {
        Some(Instruction::SetWithByte { register: b as usize, byte: kk })
    } else if a == 0x7 {
        Some(Instruction::AddWithByte { register: b as usize, byte: kk })
    } else if a == 0x8 {
        if d == 0x0 {
            Some(Instruction::SetWithVariable { register_x: b as usize, register_y: c as usize })
        } else if d == 0x1 {
            Some(Instruction::Or { register_x: b as usize, register_y: c as usize })
        } else if d == 0x2 {
            Some(Instruction::And { register_x: b as usize, register_y: c as usize })
        } else if d == 0x3 {
            Some(Instruction::Xor { register_x: b as usize, register_y: c as usize })
        } else if d == 0x4 {
            Some(Instruction::AddWithVariable { register_x: b as usize, register_y: c as usize })
        } else if d == 0x5 {
            Some(Instruction::SubWithVariable { register_x: b as usize, register_y: c as usize })
        } else if d == 0x6 {
            Some(
                Instruction::ShiftRight {
                    register_x: b as usize,
                    register_y: if mode == QuirkMode::Legacy {
                        Some(c as usize)
                    } else {
                        None
                    },
                },
            )
        } else if d == 0x7 {
            Some(Instruction::SubWithVariableNot { register_x: b as usize, register_y: c as usize })
        } else if d == 0xE {
            Some(
                Instruction::ShiftLeft {
                    register_x: b as usize,
                    register_y: if mode == QuirkMode::Legacy {
                        Some(c as usize)
                    } else {
                        None
                    },
                },
            )
        } else {
            None
        }
    } else if a == 0x9 {
        if d == 0x0 {
            Some(
                Instruction::SkipNotEqualVariable {
                    register_x: b as usize,
                    register_y: c as usize,
                },
            )
        } else {
            None
        }
    } else if a == 0xA {
        Some(Instruction::SetIndexWithAddress { address: nnn })
    } else if a == 0xB {
        Some(
            Instruction::JumpOffset {
                base_address: nnn,
                register: if mode == QuirkMode::Modern {
                    Some(b as usize)
                } else {
                    None
                },
            },
        )
    } else if a == 0xC {
        Some(Instruction::RandomAnd { register: b as usize, byte: kk })
    } else if a == 0xD {
        Some(
            Instruction::Draw {
                register_x: b as usize,
                register_y: c as usize,
                n: d as u8,
            },
        )
    } else if a == 0xE {
        if c == 0x9 && d == 0xE {
            Some(Instruction::SkipKey { register: b as usize })
        } else if c == 0xA && d == 0x1 {
            Some(Instruction::SkipNotKey { register: b as usize })
        } else {
            None
        }
    } else {
        if c == 0x0 && d == 0x7 {
            Some(Instruction::SetVariableWithDelayTimer { register: b as usize })
        } else if c == 0x0 && d == 0xA {
            Some(Instruction::WaitForKey { register: b as usize })
        } else if c == 0x1 && d == 0x5 {
            Some(Instruction::SetDelayTimer { register: b as usize })
        } else if c == 0x1 && d == 0x8 {
            Some(Instruction::SetSoundTimer { register: b as usize })
        } else if c == 0x1 && d == 0xE {
            Some(Instruction::AddIndexWithVariable { register: b as usize })
        } else if c == 0x2 && d == 0x9 {
            Some(Instruction::SetIndexWithSpriteAddress { register: b as usize })
        } else if c == 0x3 && d == 0x3 {
            Some(Instruction::StoreDecimalConversion { register: b as usize })
        } else if c == 0x5 && d == 0x5 {
            Some(Instruction::StoreRegisters { up_to_register: b as usize })
        } else if c == 0x6 && d == 0x5 {
            Some(Instruction::LoadIntoRegisters { up_to_register: b as usize })
        } else {
            None
        }
    }
}

/// Split an opcode into a structured instruction; fails with `DecodeError` on
/// exactly the opcodes that match no pattern of the table.
pub fn decode(opcode: u16, mode: QuirkMode) -> (r: Result<Instruction, DecodeError>)
    ensures
        match r {
            Ok(i) => spec_decode(opcode, mode) == Some(i) && i.wf() && i.fits_mode(mode),
            Err(_) => spec_decode(opcode, mode) is None,
        },
{
    proof {
        assert((opcode >> 12) & 0xF < 16 && (opcode >> 8) & 0xF < 16 && (opcode >> 4) & 0xF < 16
            && opcode & 0xF < 16 && opcode & 0xFFF < 4096 && ((opcode & 0xFFF) >> 8) & 0xF == (
        opcode >> 8) & 0xF) by (bit_vector);
    }
    let a: u16 = (opcode >> 12) & 0xF;
    let b: u16 = (opcode >> 8) & 0xF;
    let c: u16 = (opcode >> 4) & 0xF;
    let d: u16 = opcode & 0xF;
    let nnn: u16 = opcode & 0xFFF;
    let kk: u8 = (opcode & 0xFF) as u8;
    if a == 0x0 && b == 0x0 && c == 0xE && d == 0x0 {
        Ok(Instruction::ClearScreen)
    } else if a == 0x0 && b == 0x0 && c == 0xE && d == 0xE {
        Ok(Instruction::Return)
    } else if a == 0x0 {
        Ok(Instruction::MachineRoutine { address: nnn })
    } else if a == 0x1 {
        Ok(Instruction::Jump { address: nnn })
    } else if a == 0x2 {
        Ok(Instruction::Call { address: nnn })
    } else if a == 0x3 {
        Ok(Instruction::SkipEqualByte { register: b as usize, byte: kk })
    } else if a == 0x4 {
        Ok(Instruction::SkipNotEqualByte { register: b as usize, byte: kk })
    } else if a == 0x5 {
        if d == 0x0 {
            Ok(Instruction::SkipEqualVariable { register_x: b as usize, register_y: c as usize })
        } else {
            Err(DecodeError)
        }
    } else if a == 0x6 {
        Ok(Instruction::SetWithByte { register: b as usize, byte: kk })
    } else if a == 0x7 {
        Ok(Instruction::AddWithByte { register: b as usize, byte: kk })
    } else if a == 0x8 {
        if d == 0x0 {
            Ok(Instruction::SetWithVariable { register_x: b as usize, register_y: c as usize })
        } else if d == 0x1 {
            Ok(Instruction::Or { register_x: b as usize, register_y: c as usize })
        } else if d == 0x2 {
            Ok(Instruction::And { register_x: b as usize, register_y: c as usize })
        } else if d == 0x3 {
            Ok(Instruction::Xor { register_x: b as usize, register_y: c as usize })
        } else if d == 0x4 {
            Ok(Instruction::AddWithVariable { register_x: b as usize, register_y: c as usize })
        } else if d == 0x5 {
            Ok(Instruction::SubWithVariable { register_x: b as usize, register_y: c as usize })
        } else if d == 0x6 {
            Ok(
                Instruction::ShiftRight {
                    register_x: b as usize,
                    register_y: if matches!(mode, QuirkMode::Legacy) {
                        Some(c as usize)
                    } else {
                        None
                    },
                },
            )
        } else if d == 0x7 {
            Ok(Instruction::SubWithVariableNot { register_x: b as usize, register_y: c as usize })
        } else if d == 0xE {
            Ok(
                Instruction::ShiftLeft {
                    register_x: b as usize,
                    register_y: if matches!(mode, QuirkMode::Legacy) {
                        Some(c as usize)
                    } else {
                        None
                    },
                },
            )
        } else {
            Err(DecodeError)
        }
    } else if a == 0x9 {
        if d == 0x0 {
            Ok(Instruction::SkipNotEqualVariable { register_x: b as usize, register_y: c as usize })
        } else {
            Err(DecodeError)
        }
    } else if a == 0xA {
        Ok(Instruction::SetIndexWithAddress { address: nnn })
    } else if a == 0xB {
        Ok(
            Instruction::JumpOffset {
                base_address: nnn,
                register: if matches!(mode, QuirkMode::Modern) {
                    Some(b as usize)
                } else {
                    None
                },
            },
        )
    } else if a == 0xC {
        Ok(Instruction::RandomAnd { register: b as usize, byte: kk })
    } else if a == 0xD {
        Ok(Instruction::Draw { register_x: b as usize, register_y: c as usize, n: d as u8 })
    } else if a == 0xE {
        if c == 0x9 && d == 0xE {
            Ok(Instruction::SkipKey { register: b as usize })
        } else if c == 0xA && d == 0x1 {
            Ok(Instruction::SkipNotKey { register: b as usize })
        } else {
            Err(DecodeError)
        }
    } else {
        if c == 0x0 && d == 0x7 {
            Ok(Instruction::SetVariableWithDelayTimer { register: b as usize })
        } else if c == 0x0 && d == 0xA {
            Ok(Instruction::WaitForKey { register: b as usize })
        } else if c == 0x1 && d == 0x5 {
            Ok(Instruction::SetDelayTimer { register: b as usize })
        } else if c == 0x1 && d == 0x8 {
            Ok(Instruction::SetSoundTimer { register: b as usize })
        } else if c == 0x1 && d == 0xE {
            Ok(Instruction::AddIndexWithVariable { register: b as usize })
        } else if c == 0x2 && d == 0x9 {
            Ok(Instruction::SetIndexWithSpriteAddress { register: b as usize })
        } else if c == 0x3 && d == 0x3 {
            Ok(Instruction::StoreDecimalConversion { register: b as usize })
        } else if c == 0x5 && d == 0x5 {
            Ok(Instruction::StoreRegisters { up_to_register: b as usize })
        } else if c == 0x6 && d == 0x5 {
            Ok(Instruction::LoadIntoRegisters { up_to_register: b as usize })
        } else {
            Err(DecodeError)
        }
    }
}

/// The canonical opcode bit pattern of an instruction: the inverse of the
/// decoder on well-formed instructions.
pub open spec fn spec_encode(i: Instruction) -> u16 {
    match i {
        Instruction::Call { address } => (0x2u16 << 12) | address,
        Instruction::Return => 0x00EE,
        Instruction::Jump { address } => (0x1u16 << 12) | address,
        Instruction::JumpOffset { base_address, register } => (0xBu16 << 12) | base_address,
        Instruction::SkipEqualByte { register, byte } => (0x3u16 << 12) | ((register as u16) << 8)
            | (byte as u16),
        Instruction::SkipNotEqualByte { register, byte } => (0x4u16 << 12) | (
        (register as u16) << 8) | (byte as u16),
        Instruction::SkipEqualVariable { register_x, register_y } => (0x5u16 << 12) | (
        (register_x as u16) << 8) | ((register_y as u16) << 4) | 0x0,
        Instruction::SkipNotEqualVariable { register_x, register_y } => (0x9u16 << 12) | (
        (register_x as u16) << 8) | ((register_y as u16) << 4) | 0x0,
        Instruction::SkipKey { register } => (0xEu16 << 12) | ((register as u16) << 8) | (0x9u16
            << 4) | 0xE,
        Instruction::SkipNotKey { register } => (0xEu16 << 12) | ((register as u16) << 8) | (0xAu16
            << 4) | 0x1,
        Instruction::SetWithByte { register, byte } => (0x6u16 << 12) | ((register as u16) << 8) | (
        byte as u16),
        Instruction::SetWithVariable { register_x, register_y } => (0x8u16 << 12) | (
        (register_x as u16) << 8) | ((register_y as u16) << 4) | 0x0,
        Instruction::SetIndexWithAddress { address } => (0xAu16 << 12) | address,
        Instruction::SetIndexWithSpriteAddress { register } => (0xFu16 << 12) | (
        (register as u16) << 8) | (0x2u16 << 4) | 0x9,
        Instruction::AddWithByte { register, byte } => (0x7u16 << 12) | ((register as u16) << 8) | (
        byte as u16),
        Instruction::AddWithVariable { register_x, register_y } => (0x8u16 << 12) | (
        (register_x as u16) << 8) | ((register_y as u16) << 4) | 0x4,
        Instruction::AddIndexWithVariable { register } => (0xFu16 << 12) | ((register as u16) << 8)
            | (0x1u16 << 4) | 0xE,
        Instruction::SubWithVariable { register_x, register_y } => (0x8u16 << 12) | (
        (register_x as u16) << 8) | ((register_y as u16) << 4) | 0x5,
        Instruction::SubWithVariableNot { register_x, register_y } => (0x8u16 << 12) | (
        (register_x as u16) << 8) | ((register_y as u16) << 4) | 0x7,
        Instruction::ShiftRight { register_x, register_y } => (0x8u16 << 12) | (
        (register_x as u16) << 8) | ((match register_y {
            Some(y) => y as u16,
            None => 0,
        }) << 4) | 0x6,
        Instruction::ShiftLeft { register_x, register_y } => (0x8u16 << 12) | ((register_x as u16)
            << 8) | ((match register_y {
            Some(y) => y as u16,
            None => 0,
        }) << 4) | 0xE,
        Instruction::Or { register_x, register_y } => (0x8u16 << 12) | ((register_x as u16) << 8)
            | ((register_y as u16) << 4) | 0x1,
        Instruction::And { register_x, register_y } => (0x8u16 << 12) | ((register_x as u16) << 8)
            | ((register_y as u16) << 4) | 0x2,
        Instruction::Xor { register_x, register_y } => (0x8u16 << 12) | ((register_x as u16) << 8)
            | ((register_y as u16) << 4) | 0x3,
        Instruction::ClearScreen => 0x00E0,
        Instruction::Draw { register_x, register_y, n } => (0xDu16 << 12) | ((register_x as u16)
            << 8) | ((register_y as u16) << 4) | (n as u16),
        Instruction::SetVariableWithDelayTimer { register } => (0xFu16 << 12) | (
        (register as u16) << 8) | (0x0u16 << 4) | 0x7,
        Instruction::SetDelayTimer { register } => (0xFu16 << 12) | ((register as u16) << 8) | (
        0x1u16 << 4) | 0x5,
        Instruction::SetSoundTimer { register } => (0xFu16 << 12) | ((register as u16) << 8) | (
        0x1u16 << 4) | 0x8,
        Instruction::StoreRegisters { up_to_register } => (0xFu16 << 12) | (
        (up_to_register as u16) << 8) | (0x5u16 << 4) | 0x5,
        Instruction::LoadIntoRegisters { up_to_register } => (0xFu16 << 12) | (
        (up_to_register as u16) << 8) | (0x6u16 << 4) | 0x5,
        Instruction::StoreDecimalConversion { register } => (0xFu16 << 12) | ((register as u16)
            << 8) | (0x3u16 << 4) | 0x3,
        Instruction::WaitForKey { register } => (0xFu16 << 12) | ((register as u16) << 8) | (0x0u16
            << 4) | 0xA,
        Instruction::RandomAnd { register, byte } => (0xCu16 << 12) | ((register as u16) << 8) | (
        byte as u16),
        Instruction::MachineRoutine { address } => (0x0u16 << 12) | address,
    }
}

/// Assemble an instruction back into its canonical opcode bit pattern.
pub fn encode(i: Instruction) -> (op: u16)
    requires
        i.wf(),
    ensures
        op == spec_encode(i),
{
    match i {
        Instruction::Call { address } => (0x2u16 << 12) | address,
        Instruction::Return => 0x00EE,
        Instruction::Jump { address } => (0x1u16 << 12) | address,
        Instruction::JumpOffset { base_address, register } => (0xBu16 << 12) | base_address,
        Instruction::SkipEqualByte { register, byte } => (0x3u16 << 12) | ((register as u16) << 8)
            | (byte as u16),
        Instruction::SkipNotEqualByte { register, byte } => (0x4u16 << 12) | (
        (register as u16) << 8) | (byte as u16),
        Instruction::SkipEqualVariable { register_x, register_y } => (0x5u16 << 12) | (
        (register_x as u16) << 8) | ((register_y as u16) << 4) | 0x0,
        Instruction::SkipNotEqualVariable { register_x, register_y } => (0x9u16 << 12) | (
        (register_x as u16) << 8) | ((register_y as u16) << 4) | 0x0,
        Instruction::SkipKey { register } => (0xEu16 << 12) | ((register as u16) << 8) | (0x9u16
            << 4) | 0xE,
        Instruction::SkipNotKey { register } => (0xEu16 << 12) | ((register as u16) << 8) | (0xAu16
            << 4) | 0x1,
        Instruction::SetWithByte { register, byte } => (0x6u16 << 12) | ((register as u16) << 8) | (
        byte as u16),
        Instruction::SetWithVariable { register_x, register_y } => (0x8u16 << 12) | (
        (register_x as u16) << 8) | ((register_y as u16) << 4) | 0x0,
        Instruction::SetIndexWithAddress { address } => (0xAu16 << 12) | address,
        Instruction::SetIndexWithSpriteAddress { register } => (0xFu16 << 12) | (
        (register as u16) << 8) | (0x2u16 << 4) | 0x9,
        Instruction::AddWithByte { register, byte } => (0x7u16 << 12) | ((register as u16) << 8) | (
        byte as u16),
        Instruction::AddWithVariable { register_x, register_y } => (0x8u16 << 12) | (
        (register_x as u16) << 8) | ((register_y as u16) << 4) | 0x4,
        Instruction::AddIndexWithVariable { register } => (0xFu16 << 12) | ((register as u16) << 8)
            | (0x1u16 << 4) | 0xE,
        Instruction::SubWithVariable { register_x, register_y } => (0x8u16 << 12) | (
        (register_x as u16) << 8) | ((register_y as u16) << 4) | 0x5,
        Instruction::SubWithVariableNot { register_x, register_y } => (0x8u16 << 12) | (
        (register_x as u16) << 8) | ((register_y as u16) << 4) | 0x7,
        Instruction::ShiftRight { register_x, register_y } => (0x8u16 << 12) | (
        (register_x as u16) << 8) | ((match register_y {
            Some(y) => y as u16,
            None => 0u16,
        }) << 4) | 0x6,
        Instruction::ShiftLeft { register_x, register_y } => (0x8u16 << 12) | ((register_x as u16)
            << 8) | ((match register_y {
            Some(y) => y as u16,
            None => 0u16,
        }) << 4) | 0xE,
        Instruction::Or { register_x, register_y } => (0x8u16 << 12) | ((register_x as u16) << 8)
            | ((register_y as u16) << 4) | 0x1,
        Instruction::And { register_x, register_y } => (0x8u16 << 12) | ((register_x as u16) << 8)
            | ((register_y as u16) << 4) | 0x2,
        Instruction::Xor { register_x, register_y } => (0x8u16 << 12) | ((register_x as u16) << 8)
            | ((register_y as u16) << 4) | 0x3,
        Instruction::ClearScreen => 0x00E0,
        Instruction::Draw { register_x, register_y, n } => (0xDu16 << 12) | ((register_x as u16)
            << 8) | ((register_y as u16) << 4) | (n as u16),
        Instruction::SetVariableWithDelayTimer { register } => (0xFu16 << 12) | (
        (register as u16) << 8) | (0x0u16 << 4) | 0x7,
        Instruction::SetDelayTimer { register } => (0xFu16 << 12) | ((register as u16) << 8) | (
        0x1u16 << 4) | 0x5,
        Instruction::SetSoundTimer { register } => (0xFu16 << 12) | ((register as u16) << 8) | (
        0x1u16 << 4) | 0x8,
        Instruction::StoreRegisters { up_to_register } => (0xFu16 << 12) | (
        (up_to_register as u16) << 8) | (0x5u16 << 4) | 0x5,
        Instruction::LoadIntoRegisters { up_to_register } => (0xFu16 << 12) | (
        (up_to_register as u16) << 8) | (0x6u16 << 4) | 0x5,
        Instruction::StoreDecimalConversion { register } => (0xFu16 << 12) | ((register as u16)
            << 8) | (0x3u16 << 4) | 0x3,
        Instruction::WaitForKey { register } => (0xFu16 << 12) | ((register as u16) << 8) | (0x0u16
            << 4) | 0xA,
        Instruction::RandomAnd { register, byte } => (0xCu16 << 12) | ((register as u16) << 8) | (
        byte as u16),
        Instruction::MachineRoutine { address } => (0x0u16 << 12) | address,
    }
}

proof fn lemma_nibble_fields(a: u16, b: u16, c: u16, d: u16)
    requires
        a < 16,
        b < 16,
        c < 16,
        d < 16,
    ensures
        (((a << 12) | (b << 8) | (c << 4) | d) >> 12) & 0xF == a,
        (((a << 12) | (b << 8) | (c << 4) | d) >> 8) & 0xF == b,
        (((a << 12) | (b << 8) | (c << 4) | d) >> 4) & 0xF == c,
        ((a << 12) | (b << 8) | (c << 4) | d) & 0xF == d,
        ((a << 12) | (b << 8) | (c << 4) | d) & 0xFFF == ((b << 8) | (c << 4) | d),
{
    assert((((a << 12) | (b << 8) | (c << 4) | d) >> 12) & 0xF == a && (((a << 12) | (b << 8) | (c
        << 4) | d) >> 8) & 0xF == b && (((a << 12) | (b << 8) | (c << 4) | d) >> 4) & 0xF == c && (
    (a << 12) | (b << 8) | (c << 4) | d) & 0xF == d && ((a << 12) | (b << 8) | (c << 4) | d) & 0xFFF
        == ((b << 8) | (c << 4) | d)) by (bit_vector)
        requires
            a < 16,
            b < 16,
            c < 16,
            d < 16,
    ;
}

proof fn lemma_byte_fields(a: u16, b: u16, kk: u8)
    requires
        a < 16,
        b < 16,
    ensures
        (((a << 12) | (b << 8) | (kk as u16)) >> 12) & 0xF == a,
        (((a << 12) | (b << 8) | (kk as u16)) >> 8) & 0xF == b,
        ((((a << 12) | (b << 8) | (kk as u16)) & 0xFF) as u8) == kk,
{
    assert((((a << 12) | (b << 8) | (kk as u16)) >> 12) & 0xF == a && (((a << 12) | (b << 8) | (
    kk as u16)) >> 8) & 0xF == b && ((((a << 12) | (b << 8) | (kk as u16)) & 0xFF) as u8) == kk)
        by (bit_vector)
        requires
            a < 16,
            b < 16,
    ;
}

proof fn lemma_addr_fields(a: u16, nnn: u16)
    requires
        a < 16,
        nnn < 4096,
    ensures
        (((a << 12) | nnn) >> 12) & 0xF == a,
        ((a << 12) | nnn) & 0xFFF == nnn,
        (((a << 12) | nnn) >> 8) & 0xF == (nnn >> 8) & 0xF,
        (((a << 12) | nnn) >> 4) & 0xF == (nnn >> 4) & 0xF,
        ((a << 12) | nnn) & 0xF == nnn & 0xF,
        nnn == ((((nnn >> 8) & 0xF) << 8) | (((nnn >> 4) & 0xF) << 4) | (nnn & 0xF)),
{
    assert((((a << 12) | nnn) >> 12) & 0xF == a && ((a << 12) | nnn) & 0xFFF == nnn && (((a << 12)
        | nnn) >> 8) & 0xF == (nnn >> 8) & 0xF && (((a << 12) | nnn) >> 4) & 0xF == (nnn >> 4) & 0xF
        && ((a << 12) | nnn) & 0xF == nnn & 0xF && nnn == ((((nnn >> 8) & 0xF) << 8) | (((nnn >> 4)
        & 0xF) << 4) | (nnn & 0xF))) by (bit_vector)
        requires
            a < 16,
            nnn < 4096,
    ;
}

proof fn lemma_fixed_opcode_fields()
    ensures
        (0x00E0u16 >> 12) & 0xF == 0x0,
        (0x00E0u16 >> 8) & 0xF == 0x0,
        (0x00E0u16 >> 4) & 0xF == 0xE,
        0x00E0u16 & 0xF == 0x0,
        (0x00EEu16 >> 12) & 0xF == 0x0,
        (0x00EEu16 >> 8) & 0xF == 0x0,
        (0x00EEu16 >> 4) & 0xF == 0xE,
        0x00EEu16 & 0xF == 0xE,
        ((0x0u16 << 8) | (0xEu16 << 4) | 0x0u16) == 0x0E0,
        ((0x0u16 << 8) | (0xEu16 << 4) | 0xEu16) == 0x0EE,
{
    assert((0x00E0u16 >> 12) & 0xF == 0x0 && (0x00E0u16 >> 8) & 0xF == 0x0 && (0x00E0u16 >> 4) & 0xF
        == 0xE && 0x00E0u16 & 0xF == 0x0 && (0x00EEu16 >> 12) & 0xF == 0x0 && (0x00EEu16 >> 8) & 0xF
        == 0x0 && (0x00EEu16 >> 4) & 0xF == 0xE && 0x00EEu16 & 0xF == 0xE && ((0x0u16 << 8) | (
    0xEu16 << 4) | 0x0u16) == 0x0E0 && ((0x0u16 << 8) | (0xEu16 << 4) | 0xEu16) == 0x0EE)
        by (bit_vector);
}

/// Law: encoding an instruction's operands into its canonical opcode bit
/// pattern and decoding that pattern back, under a quirk mode that fits the
/// instruction's fields, yields the identical instruction.
pub proof fn lemma_encode_decode_round_trip(i: Instruction, mode: QuirkMode)
    requires
        i.canonical(),
        i.fits_mode(mode),
    ensures
        spec_decode(spec_encode(i), mode) == Some(i),
{
    match i {
        Instruction::Call { address } => lemma_addr_fields(0x2, address),
        Instruction::Return => lemma_fixed_opcode_fields(),
        Instruction::Jump { address } => lemma_addr_fields(0x1, address),
        Instruction::JumpOffset { base_address, register } => lemma_addr_fields(0xB, base_address),
        Instruction::SkipEqualByte { register, byte } => lemma_byte_fields(
            0x3,
            register as u16,
            byte,
        ),
        Instruction::SkipNotEqualByte { register, byte } => lemma_byte_fields(
            0x4,
            register as u16,
            byte,
        ),
        Instruction::SkipEqualVariable { register_x, register_y } => lemma_nibble_fields(
            0x5,
            register_x as u16,
            register_y as u16,
            0x0,
        ),
        Instruction::SkipNotEqualVariable { register_x, register_y } => lemma_nibble_fields(
            0x9,
            register_x as u16,
            register_y as u16,
            0x0,
        ),
        Instruction::SkipKey { register } => lemma_nibble_fields(0xE, register as u16, 0x9, 0xE),
        Instruction::SkipNotKey { register } => lemma_nibble_fields(0xE, register as u16, 0xA, 0x1),
        Instruction::SetWithByte { register, byte } => lemma_byte_fields(0x6, register as u16, byte),
        Instruction::SetWithVariable { register_x, register_y } => lemma_nibble_fields(
            0x8,
            register_x as u16,
            register_y as u16,
            0x0,
        ),
        Instruction::SetIndexWithAddress { address } => lemma_addr_fields(0xA, address),
        Instruction::SetIndexWithSpriteAddress { register } => lemma_nibble_fields(
            0xF,
            register as u16,
            0x2,
            0x9,
        ),
        Instruction::AddWithByte { register, byte } => lemma_byte_fields(0x7, register as u16, byte),
        Instruction::AddWithVariable { register_x, register_y } => lemma_nibble_fields(
            0x8,
            register_x as u16,
            register_y as u16,
            0x4,
        ),
        Instruction::AddIndexWithVariable { register } => lemma_nibble_fields(
            0xF,
            register as u16,
            0x1,
            0xE,
        ),
        Instruction::SubWithVariable { register_x, register_y } => lemma_nibble_fields(
            0x8,
            register_x as u16,
            register_y as u16,
            0x5,
        ),
        Instruction::SubWithVariableNot { register_x, register_y } => lemma_nibble_fields(
            0x8,
            register_x as u16,
            register_y as u16,
            0x7,
        ),
        Instruction::ShiftRight { register_x, register_y } => {
            match register_y {
                Some(y) => lemma_nibble_fields(0x8, register_x as u16, y as u16, 0x6),
                None => lemma_nibble_fields(0x8, register_x as u16, 0x0, 0x6),
            }
        },
        Instruction::ShiftLeft { register_x, register_y } => {
            match register_y {
                Some(y) => lemma_nibble_fields(0x8, register_x as u16, y as u16, 0xE),
                None => lemma_nibble_fields(0x8, register_x as u16, 0x0, 0xE),
            }
        },
        Instruction::Or { register_x, register_y } => lemma_nibble_fields(
            0x8,
            register_x as u16,
            register_y as u16,
            0x1,
        ),
        Instruction::And { register_x, register_y } => lemma_nibble_fields(
            0x8,
            register_x as u16,
            register_y as u16,
            0x2,
        ),
        Instruction::Xor { register_x, register_y } => lemma_nibble_fields(
            0x8,
            register_x as u16,
            register_y as u16,
            0x3,
        ),
        Instruction::ClearScreen => lemma_fixed_opcode_fields(),
        Instruction::Draw { register_x, register_y, n } => lemma_nibble_fields(
            0xD,
            register_x as u16,
            register_y as u16,
            n as u16,
        ),
        Instruction::SetVariableWithDelayTimer { register } => lemma_nibble_fields(
            0xF,
            register as u16,
            0x0,
            0x7,
        ),
        Instruction::SetDelayTimer { register } => lemma_nibble_fields(
            0xF,
            register as u16,
            0x1,
            0x5,
        ),
        Instruction::SetSoundTimer { register } => lemma_nibble_fields(
            0xF,
            register as u16,
            0x1,
            0x8,
        ),
        Instruction::StoreRegisters { up_to_register } => lemma_nibble_fields(
            0xF,
            up_to_register as u16,
            0x5,
            0x5,
        ),
        Instruction::LoadIntoRegisters { up_to_register } => lemma_nibble_fields(
            0xF,
            up_to_register as u16,
            0x6,
            0x5,
        ),
        Instruction::StoreDecimalConversion { register } => lemma_nibble_fields(
            0xF,
            register as u16,
            0x3,
            0x3,
        ),
        Instruction::WaitForKey { register } => lemma_nibble_fields(0xF, register as u16, 0x0, 0xA),
        Instruction::RandomAnd { register, byte } => lemma_byte_fields(0xC, register as u16, byte),
        Instruction::MachineRoutine { address } => {
            lemma_addr_fields(0x0, address);
            lemma_fixed_opcode_fields();
        },
    }
}

} // verus!
