//! The instruction set and its encoding in 16-bit words.

use vstd::prelude::*;

verus! {

/// One instruction of the machine. `x` and `y` number registers, `nnn` is an
/// address, `kk` a byte and `n` a sprite height.
#[derive(Debug, Clone, Copy, PartialEq, Eq, Structural)]
pub enum Instruction {
    /// `00E0`: turn every pixel off.
    Cls,
    /// `00EE`: return from a subroutine.
    Ret,
    /// `1nnn`: jump to `nnn`.
    Jp { nnn: u16 },
    /// `2nnn`: call the subroutine at `nnn`.
    Call { nnn: u16 },
    /// `3xkk`: skip the next instruction if `Vx == kk`.
    SeImm { x: u8, kk: u8 },
    /// `4xkk`: skip the next instruction if `Vx != kk`.
    SneImm { x: u8, kk: u8 },
    /// `5xy0`: skip the next instruction if `Vx == Vy`.
    SeReg { x: u8, y: u8 },
    /// `6xkk`: `Vx = kk`.
    LdImm { x: u8, kk: u8 },
    /// `7xkk`: `Vx = Vx + kk` modulo 256; VF is not a flag here.
    AddImm { x: u8, kk: u8 },
    /// `8xy0`: `Vx = Vy`.
    LdReg { x: u8, y: u8 },
    /// `8xy1`: `Vx = Vx | Vy`.
    Or { x: u8, y: u8 },
    /// `8xy2`: `Vx = Vx & Vy`.
    And { x: u8, y: u8 },
    /// `8xy3`: `Vx = Vx ^ Vy`.
    Xor { x: u8, y: u8 },
    /// `8xy4`: `Vx = Vx + Vy` modulo 256, then `VF` = 1 on carry, else 0.
    AddReg { x: u8, y: u8 },
    /// `8xy5`: `Vx = Vx - Vy` modulo 256, then `VF` = 1 if `Vx >= Vy`, else 0.
    Sub { x: u8, y: u8 },
    /// `8xy6`: `Vx = Vx >> 1`, then `VF` = the bit shifted out. The shift is
    /// applied to `Vx` in place; `y` plays no part and is not kept.
    Shr { x: u8 },
    /// `8xy7`: `Vx = Vy - Vx` modulo 256, then `VF` = 1 if `Vy >= Vx`, else 0.
    Subn { x: u8, y: u8 },
    /// `8xyE`: `Vx = Vx << 1` modulo 256, then `VF` = the bit shifted out.
    /// As for `Shr`, `y` plays no part.
    Shl { x: u8 },
    /// `9xy0`: skip the next instruction if `Vx != Vy`.
    SneReg { x: u8, y: u8 },
    /// `Annn`: `I = nnn`.
    LdI { nnn: u16 },
    /// `Bnnn`: jump to `V0 + nnn`.
    JpV0 { nnn: u16 },
    /// `Cxkk`: `Vx` = a random byte `& kk`.
    Rnd { x: u8, kk: u8 },
    /// `Dxyn`: draw the `n` bytes at `I` as a sprite at `(Vx, Vy)`, then
    /// `VF` = 1 if a lit pixel went off, else 0.
    Drw { x: u8, y: u8, n: u8 },
    /// `Ex9E`: skip the next instruction if key `x` is down.
    Skp { x: u8 },
    /// `ExA1`: skip the next instruction if key `x` is up.
    Sknp { x: u8 },
    /// `Fx07`: `Vx` = the delay timer.
    LdDelay { x: u8 },
    /// `Fx0A`: wait for a key and put it in `Vx`.
    LdKey { x: u8 },
    /// `Fx15`: the delay timer = `Vx`.
    SetDelay { x: u8 },
    /// `Fx18`: the sound timer = `Vx`.
    SetSound { x: u8 },
    /// `Fx1E`: `I = I + Vx`.
    AddI { x: u8 },
    /// `Fx29`: `I` = the address of the glyph for `Vx`, that is `5 * Vx`.
    LdGlyph { x: u8 },
    /// `Fx33`: store the hundreds, tens and units of `Vx` at `I`, `I + 1`
    /// and `I + 2`.
    Bcd { x: u8 },
    /// `Fx55`: store `V0` to `Vx` at `I` and above.
    Store { x: u8 },
    /// `Fx65`: load `V0` to `Vx` from `I` and above.
    Load { x: u8 },
}

/// What an instruction needs from outside the machine before it can run.
#[derive(Debug, Clone, Copy, PartialEq, Eq, Structural)]
pub enum Need {
    /// Nothing.
    Nothing,
    /// A random byte.
    Random,
    /// Whether the key with this number is down.
    KeyState { key: u8 },
    /// The number of the next key that is pressed.
    KeyPress,
}

impl Instruction {
    /// The fields are in range: register numbers and sprite heights below
    /// 16, addresses below 4096.
    pub open spec fn wf(self) -> bool {
        match self {
            Instruction::Cls | Instruction::Ret => true,
            Instruction::Jp { nnn }
            | Instruction::Call { nnn }
            | Instruction::LdI { nnn }
            | Instruction::JpV0 { nnn } => nnn < 0x1000,
            Instruction::SeImm { x, kk }
            | Instruction::SneImm { x, kk }
            | Instruction::LdImm { x, kk }
            | Instruction::AddImm { x, kk }
            | Instruction::Rnd { x, kk } => x < 16,
            Instruction::SeReg { x, y }
            | Instruction::LdReg { x, y }
            | Instruction::Or { x, y }
            | Instruction::And { x, y }
            | Instruction::Xor { x, y }
            | Instruction::AddReg { x, y }
            | Instruction::Sub { x, y }
            | Instruction::Subn { x, y }
            | Instruction::SneReg { x, y } => x < 16 && y < 16,
            Instruction::Drw { x, y, n } => x < 16 && y < 16 && n < 16,
            Instruction::Shr { x }
            | Instruction::Shl { x }
            | Instruction::Skp { x }
            | Instruction::Sknp { x }
            | Instruction::LdDelay { x }
            | Instruction::LdKey { x }
            | Instruction::SetDelay { x }
            | Instruction::SetSound { x }
            | Instruction::AddI { x }
            | Instruction::LdGlyph { x }
            | Instruction::Bcd { x }
            | Instruction::Store { x }
            | Instruction::Load { x } => x < 16,
        }
    }

    /// What the instruction needs from outside the machine.
    pub open spec fn need_spec(self) -> Need {
        match self {
            Instruction::Rnd { x, kk } => Need::Random,
            Instruction::Skp { x } | Instruction::Sknp { x } => Need::KeyState { key: x },
            Instruction::LdKey { x } => Need::KeyPress,
            _ => Need::Nothing,
        }
    }

    /// What the instruction needs from outside the machine.
    #[verifier::when_used_as_spec(need_spec)]
    pub fn need(self) -> (need: Need)
        ensures
            need == self.need_spec(),
    {
        match self {
            Instruction::Rnd { x: _, kk: _ } => Need::Random,
            Instruction::Skp { x } | Instruction::Sknp { x } => Need::KeyState { key: x },
            Instruction::LdKey { x: _ } => Need::KeyPress,
            _ => Need::Nothing,
        }
    }

    /// The instruction that a word stands for, if any. The top four bits
    /// choose the family; within a family the low four bits, the low byte or
    /// the whole word choose the operation.
    pub open spec fn decode_spec(word: u16) -> Option<Instruction> {
        let family = word / 0x1000;
        let nnn = word % 0x1000;
        let x = ((word / 0x100) % 0x10) as u8;
        let y = ((word / 0x10) % 0x10) as u8;
        let n = (word % 0x10) as u8;
        let kk = (word % 0x100) as u8;
        if family == 0x0 {
            if word == 0x00E0 {
                Some(Instruction::Cls)
            } else if word == 0x00EE {
                Some(Instruction::Ret)
            } else {
                None
            }
        } else if family == 0x1 {
            Some(Instruction::Jp { nnn })
        } else if family == 0x2 {
            Some(Instruction::Call { nnn })
        } else if family == 0x3 {
            Some(Instruction::SeImm { x, kk })
        } else if family == 0x4 {
            Some(Instruction::SneImm { x, kk })
        } else if family == 0x5 {
            if n == 0 {
                Some(Instruction::SeReg { x, y })
            } else {
                None
            }
        } else if family == 0x6 {
            Some(Instruction::LdImm { x, kk })
        } else if family == 0x7 {
            Some(Instruction::AddImm { x, kk })
        } else if family == 0x8 {
            if n == 0x0 {
                Some(Instruction::LdReg { x, y })
            } else if n == 0x1 {
                Some(Instruction::Or { x, y })
            } else if n == 0x2 {
                Some(Instruction::And { x, y })
            } else if n == 0x3 {
                Some(Instruction::Xor { x, y })
            } else if n == 0x4 {
                Some(Instruction::AddReg { x, y })
            } else if n == 0x5 {
                Some(Instruction::Sub { x, y })
            } else if n == 0x6 {
                Some(Instruction::Shr { x })
            } else if n == 0x7 {
                Some(Instruction::Subn { x, y })
            } else if n == 0xE {
                Some(Instruction::Shl { x })
            } else {
                None
            }
        } else if family == 0x9 {
            if n == 0 {
                Some(Instruction::SneReg { x, y })
            } else {
                None
            }
        } else if family == 0xA {
            Some(Instruction::LdI { nnn })
        } else if family == 0xB {
            Some(Instruction::JpV0 { nnn })
        } else if family == 0xC {
            Some(Instruction::Rnd { x, kk })
        } else if family == 0xD {
            Some(Instruction::Drw { x, y, n })
        } else if family == 0xE {
            if kk == 0x9E {
                Some(Instruction::Skp { x })
            } else if kk == 0xA1 {
                Some(Instruction::Sknp { x })
            } else {
                None
            }
        } else {
            if kk == 0x07 {
                Some(Instruction::LdDelay { x })
            } else if kk == 0x0A {
                Some(Instruction::LdKey { x })
            } else if kk == 0x15 {
                Some(Instruction::SetDelay { x })
            } else if kk == 0x18 {
                Some(Instruction::SetSound { x })
            } else if kk == 0x1E {
                Some(Instruction::AddI { x })
            } else if kk == 0x29 {
                Some(Instruction::LdGlyph { x })
            } else if kk == 0x33 {
                Some(Instruction::Bcd { x })
            } else if kk == 0x55 {
                Some(Instruction::Store { x })
            } else if kk == 0x65 {
                Some(Instruction::Load { x })
            } else {
                None
            }
        }
    }

    /// Decodes a word; `None` where it stands for no instruction.
    #[verifier::when_used_as_spec(decode_spec)]
    pub fn decode(word: u16) -> (decoded: Option<Instruction>)
        ensures
            decoded == Instruction::decode_spec(word),
            decoded matches Some(instruction) ==> instruction.wf(),
    {
        let family = word >> 12;
        let nnn = word & 0x0FFF;
        let x = ((word >> 8) & 0xF) as u8;
        let y = ((word >> 4) & 0xF) as u8;
        let n = (word & 0xF) as u8;
        let kk = (word & 0xFF) as u8;
        proof {
            assert(word >> 12 == word / 0x1000) by (bit_vector);
            assert(word & 0x0FFF == word % 0x1000) by (bit_vector);
            assert((word >> 8) & 0xF == (word / 0x100) % 0x10) by (bit_vector);
            assert((word >> 4) & 0xF == (word / 0x10) % 0x10) by (bit_vector);
            assert(word & 0xF == word % 0x10) by (bit_vector);
            assert(word & 0xFF == word % 0x100) by (bit_vector);
        }
        match family {
            0x0 => match word {
                0x00E0 => Some(Instruction::Cls),
                0x00EE => Some(Instruction::Ret),
                _ => None,
            },
            0x1 => Some(Instruction::Jp { nnn }),
            0x2 => Some(Instruction::Call { nnn }),
            0x3 => Some(Instruction::SeImm { x, kk }),
            0x4 => Some(Instruction::SneImm { x, kk }),
            0x5 => match n {
                0x0 => Some(Instruction::SeReg { x, y }),
                _ => None,
            },
            0x6 => Some(Instruction::LdImm { x, kk }),
            0x7 => Some(Instruction::AddImm { x, kk }),
            0x8 => match n {
                0x0 => Some(Instruction::LdReg { x, y }),
                0x1 => Some(Instruction::Or { x, y }),
                0x2 => Some(Instruction::And { x, y }),
                0x3 => Some(Instruction::Xor { x, y }),
                0x4 => Some(Instruction::AddReg { x, y }),
                0x5 => Some(Instruction::Sub { x, y }),
                0x6 => Some(Instruction::Shr { x }),
                0x7 => Some(Instruction::Subn { x, y }),
                0xE => Some(Instruction::Shl { x }),
                _ => None,
            },
            0x9 => match n {
                0x0 => Some(Instruction::SneReg { x, y }),
                _ => None,
            },
            0xA => Some(Instruction::LdI { nnn }),
            0xB => Some(Instruction::JpV0 { nnn }),
            0xC => Some(Instruction::Rnd { x, kk }),
            0xD => Some(Instruction::Drw { x, y, n }),
            0xE => match kk {
                0x9E => Some(Instruction::Skp { x }),
                0xA1 => Some(Instruction::Sknp { x }),
                _ => None,
            },
            _ => match kk {
                0x07 => Some(Instruction::LdDelay { x }),
                0x0A => Some(Instruction::LdKey { x }),
                0x15 => Some(Instruction::SetDelay { x }),
                0x18 => Some(Instruction::SetSound { x }),
                0x1E => Some(Instruction::AddI { x }),
                0x29 => Some(Instruction::LdGlyph { x }),
                0x33 => Some(Instruction::Bcd { x }),
                0x55 => Some(Instruction::Store { x }),
                0x65 => Some(Instruction::Load { x }),
                _ => None,
            },
        }
    }
}

} // verus!
