use vstd::prelude::*;

use crate::error::Chip8Error;

verus! {

/// A decoded instruction. `x` and `y` name general registers (0 to 15), `addr` is a twelve-bit
/// address, `byte` an immediate byte and `n` a four-bit immediate.
#[derive(Clone, Copy, Debug, PartialEq, Eq, Structural)]
pub enum Instruction {
    /// 0nnn: call a machine-code routine; ignored.
    Sys { addr: u16 },
    /// 00E0: clear the screen.
    Cls,
    /// 00EE: return from a subroutine.
    Ret,
    /// 1nnn: jump.
    Jp { addr: u16 },
    /// 2nnn: call a subroutine.
    Call { addr: u16 },
    /// 3xkk: skip the next instruction if Vx == kk.
    SeVxByte { x: u8, byte: u8 },
    /// 4xkk: skip the next instruction if Vx != kk.
    SneVxByte { x: u8, byte: u8 },
    /// 5xy0: skip the next instruction if Vx == Vy.
    SeVxVy { x: u8, y: u8 },
    /// 6xkk: Vx = kk.
    LdVxByte { x: u8, byte: u8 },
    /// 7xkk: Vx += kk, wrapping, flag untouched.
    AddVxByte { x: u8, byte: u8 },
    /// 8xy0: Vx = Vy.
    LdVxVy { x: u8, y: u8 },
    /// 8xy1: Vx |= Vy.
    OrVxVy { x: u8, y: u8 },
    /// 8xy2: Vx &= Vy.
    AndVxVy { x: u8, y: u8 },
    /// 8xy3: Vx ^= Vy.
    XorVxVy { x: u8, y: u8 },
    /// 8xy4: Vx += Vy, VF = carry.
    AddVxVy { x: u8, y: u8 },
    /// 8xy5: Vx -= Vy, VF = no borrow.
    SubVxVy { x: u8, y: u8 },
    /// 8xy6: Vx >>= 1, VF = the bit shifted out.
    ShrVx { x: u8 },
    /// 8xy7: Vx = Vy - Vx, VF = no borrow.
    SubnVxVy { x: u8, y: u8 },
    /// 8xyE: Vx <<= 1, VF = the bit shifted out.
    ShlVx { x: u8 },
    /// 9xy0: skip the next instruction if Vx != Vy.
    SneVxVy { x: u8, y: u8 },
    /// Annn: I = nnn.
    LdIAddr { addr: u16 },
    /// Bnnn: jump to nnn + V0.
    JpV0Addr { addr: u16 },
    /// Cxkk: Vx = random byte & kk.
    RndVxByte { x: u8, byte: u8 },
    /// Dxyn: draw the n-byte sprite at I at (Vx, Vy), VF = collision.
    Drw { x: u8, y: u8, n: u8 },
    /// Ex9E: skip the next instruction if key Vx is down.
    SkpVx { x: u8 },
    /// ExA1: skip the next instruction if key Vx is up.
    SknpVx { x: u8 },
    /// Fx07: Vx = delay timer.
    LdVxDt { x: u8 },
    /// Fx0A: wait for a key press and store its code in Vx.
    LdVxK { x: u8 },
    /// Fx15: delay timer = Vx.
    LdDtVx { x: u8 },
    /// Fx18: sound timer = Vx.
    LdStVx { x: u8 },
    /// Fx1E: I += Vx, wrapping.
    AddIVx { x: u8 },
    /// Fx29: I = address of the font glyph for Vx.
    LdFVx { x: u8 },
    /// Fx33: store the decimal digits of Vx at I, I+1, I+2.
    LdBVx { x: u8 },
    /// Fx55: store V0 to Vx, inclusive, from I on.
    LdIVx { x: u8 },
    /// Fx65: load V0 to Vx, inclusive, from I on.
    LdVxI { x: u8 },
}

/// The top nibble of an instruction word: its group.
pub open spec fn group_of(op: u16) -> int {
    op as int / 0x1000
}

/// The second nibble: register x.
pub open spec fn x_of(op: u16) -> u8 {
    ((op as int / 0x100) % 0x10) as u8
}

/// The third nibble: register y.
pub open spec fn y_of(op: u16) -> u8 {
    ((op as int / 0x10) % 0x10) as u8
}

/// The low nibble.
pub open spec fn n_of(op: u16) -> u8 {
    (op as int % 0x10) as u8
}

/// The low byte.
pub open spec fn byte_of(op: u16) -> u8 {
    (op as int % 0x100) as u8
}

/// The low twelve bits: an address.
pub open spec fn addr_of(op: u16) -> u16 {
    (op as int % 0x1000) as u16
}

/// The instruction that `op` encodes, by the CHIP-8 instruction table.
pub open spec fn decode_spec(op: u16) -> Result<Instruction, Chip8Error> {
    let g = group_of(op);
    let x = x_of(op);
    let y = y_of(op);
    let n = n_of(op);
    let kk = byte_of(op);
    let nnn = addr_of(op);
    if g == 0x0 {
        if nnn == 0x0E0 {
            Ok(Instruction::Cls)
        } else if nnn == 0x0EE {
            Ok(Instruction::Ret)
        } else {
            Ok(Instruction::Sys { addr: nnn })
        }
    } else if g == 0x1 {
        Ok(Instruction::Jp { addr: nnn })
    } else if g == 0x2 {
        Ok(Instruction::Call { addr: nnn })
    } else if g == 0x3 {
        Ok(Instruction::SeVxByte { x, byte: kk })
    } else if g == 0x4 {
        Ok(Instruction::SneVxByte { x, byte: kk })
    } else if g == 0x5 && n == 0 {
        Ok(Instruction::SeVxVy { x, y })
    } else if g == 0x6 {
        Ok(Instruction::LdVxByte { x, byte: kk })
    } else if g == 0x7 {
        Ok(Instruction::AddVxByte { x, byte: kk })
    } else if g == 0x8 && n == 0x0 {
        Ok(Instruction::LdVxVy { x, y })
    } else if g == 0x8 && n == 0x1 {
        Ok(Instruction::OrVxVy { x, y })
    } else if g == 0x8 && n == 0x2 {
        Ok(Instruction::AndVxVy { x, y })
    } else if g == 0x8 && n == 0x3 {
        Ok(Instruction::XorVxVy { x, y })
    } else if g == 0x8 && n == 0x4 {
        Ok(Instruction::AddVxVy { x, y })
    } else if g == 0x8 && n == 0x5 {
        Ok(Instruction::SubVxVy { x, y })
    } else if g == 0x8 && n == 0x6 {
        Ok(Instruction::ShrVx { x })
    } else if g == 0x8 && n == 0x7 {
        Ok(Instruction::SubnVxVy { x, y })
    } else if g == 0x8 && n == 0xE {
        Ok(Instruction::ShlVx { x })
    } else if g == 0x9 && n == 0 {
        Ok(Instruction::SneVxVy { x, y })
    } else if g == 0xA {
        Ok(Instruction::LdIAddr { addr: nnn })
    } else if g == 0xB {
        Ok(Instruction::JpV0Addr { addr: nnn })
    } else if g == 0xC {
        Ok(Instruction::RndVxByte { x, byte: kk })
    } else if g == 0xD {
        Ok(Instruction::Drw { x, y, n })
    } else if g == 0xE && kk == 0x9E {
        Ok(Instruction::SkpVx { x })
    } else if g == 0xE && kk == 0xA1 {
        Ok(Instruction::SknpVx { x })
    } else if g == 0xF && kk == 0x07 {
        Ok(Instruction::LdVxDt { x })
    } else if g == 0xF && kk == 0x0A {
        Ok(Instruction::LdVxK { x })
    } else if g == 0xF && kk == 0x15 {
        Ok(Instruction::LdDtVx { x })
    } else if g == 0xF && kk == 0x18 {
        Ok(Instruction::LdStVx { x })
    } else if g == 0xF && kk == 0x1E {
        Ok(Instruction::AddIVx { x })
    } else if g == 0xF && kk == 0x29 {
        Ok(Instruction::LdFVx { x })
    } else if g == 0xF && kk == 0x33 {
        Ok(Instruction::LdBVx { x })
    } else if g == 0xF && kk == 0x55 {
        Ok(Instruction::LdIVx { x })
    } else if g == 0xF && kk == 0x65 {
        Ok(Instruction::LdVxI { x })
    } else {
        Err(Chip8Error::UnrecognizedOpcode(op))
    }
}

impl Instruction {
    /// Whether the operand fields are in range: registers below 16, addresses below 0x1000,
    /// nibbles below 16.
    pub open spec fn well_formed(self) -> bool {
        match self {
            Instruction::Sys { addr } | Instruction::Jp { addr } | Instruction::Call { addr }
            | Instruction::LdIAddr { addr } | Instruction::JpV0Addr { addr } => addr < 0x1000,
            Instruction::Cls | Instruction::Ret => true,
            Instruction::SeVxByte { x, .. } | Instruction::SneVxByte { x, .. }
            | Instruction::LdVxByte { x, .. } | Instruction::AddVxByte { x, .. }
            | Instruction::RndVxByte { x, .. } => x < 16,
            Instruction::SeVxVy { x, y } | Instruction::LdVxVy { x, y }
            | Instruction::OrVxVy { x, y } | Instruction::AndVxVy { x, y }
            | Instruction::XorVxVy { x, y } | Instruction::AddVxVy { x, y }
            | Instruction::SubVxVy { x, y } | Instruction::SubnVxVy { x, y }
            | Instruction::SneVxVy { x, y } => x < 16 && y < 16,
            Instruction::Drw { x, y, n } => x < 16 && y < 16 && n < 16,
            Instruction::ShrVx { x } | Instruction::ShlVx { x } | Instruction::SkpVx { x }
            | Instruction::SknpVx { x } | Instruction::LdVxDt { x } | Instruction::LdVxK { x }
            | Instruction::LdDtVx { x } | Instruction::LdStVx { x } | Instruction::AddIVx { x }
            | Instruction::LdFVx { x } | Instruction::LdBVx { x } | Instruction::LdIVx { x }
            | Instruction::LdVxI { x } => x < 16,
        }
    }
}

/// Decodes an instruction word; words outside the instruction table are refused.
pub fn decode(op: u16) -> (r: Result<Instruction, Chip8Error>)
    ensures
        r == decode_spec(op),
        r matches Ok(ins) ==> ins.well_formed(),
{
    let g = op / 0x1000;
    let x = ((op / 0x100) % 0x10) as u8;
    let y = ((op / 0x10) % 0x10) as u8;
    let n = (op % 0x10) as u8;
    let kk = (op % 0x100) as u8;
    let nnn = op % 0x1000;
    if g == 0x0 {
        if nnn == 0x0E0 {
            Ok(Instruction::Cls)
        } else if nnn == 0x0EE {
            Ok(Instruction::Ret)
        } else {
            Ok(Instruction::Sys { addr: nnn })
        }
    } else if g == 0x1 {
        Ok(Instruction::Jp { addr: nnn })
    } else if g == 0x2 {
        Ok(Instruction::Call { addr: nnn })
    } else if g == 0x3 {
        Ok(Instruction::SeVxByte { x, byte: kk })
    } else if g == 0x4 {
        Ok(Instruction::SneVxByte { x, byte: kk })
    } else if g == 0x5 && n == 0 {
        Ok(Instruction::SeVxVy { x, y })
    } else if g == 0x6 {
        Ok(Instruction::LdVxByte { x, byte: kk })
    } else if g == 0x7 {
        Ok(Instruction::AddVxByte { x, byte: kk })
    } else if g == 0x8 && n == 0x0 {
        Ok(Instruction::LdVxVy { x, y })
    } else if g == 0x8 && n == 0x1 {
        Ok(Instruction::OrVxVy { x, y })
    } else if g == 0x8 && n == 0x2 {
        Ok(Instruction::AndVxVy { x, y })
    } else if g == 0x8 && n == 0x3 {
        Ok(Instruction::XorVxVy { x, y })
    } else if g == 0x8 && n == 0x4 {
        Ok(Instruction::AddVxVy { x, y })
    } else if g == 0x8 && n == 0x5 {
        Ok(Instruction::SubVxVy { x, y })
    } else if g == 0x8 && n == 0x6 {
        Ok(Instruction::ShrVx { x })
    } else if g == 0x8 && n == 0x7 {
        Ok(Instruction::SubnVxVy { x, y })
    } else if g == 0x8 && n == 0xE {
        Ok(Instruction::ShlVx { x })
    } else if g == 0x9 && n == 0 {
        Ok(Instruction::SneVxVy { x, y })
    } else if g == 0xA {
        Ok(Instruction::LdIAddr { addr: nnn })
    } else if g == 0xB {
        Ok(Instruction::JpV0Addr { addr: nnn })
    } else if g == 0xC {
        Ok(Instruction::RndVxByte { x, byte: kk })
    } else if g == 0xD {
        Ok(Instruction::Drw { x, y, n })
    } else if g == 0xE && kk == 0x9E {
        Ok(Instruction::SkpVx { x })
    } else if g == 0xE && kk == 0xA1 {
        Ok(Instruction::SknpVx { x })
    } else if g == 0xF && kk == 0x07 {
        Ok(Instruction::LdVxDt { x })
    } else if g == 0xF && kk == 0x0A {
        Ok(Instruction::LdVxK { x })
    } else if g == 0xF && kk == 0x15 {
        Ok(Instruction::LdDtVx { x })
    } else if g == 0xF && kk == 0x18 {
        Ok(Instruction::LdStVx { x })
    } else if g == 0xF && kk == 0x1E {
        Ok(Instruction::AddIVx { x })
    } else if g == 0xF && kk == 0x29 {
        Ok(Instruction::LdFVx { x })
    } else if g == 0xF && kk == 0x33 {
        Ok(Instruction::LdBVx { x })
    } else if g == 0xF && kk == 0x55 {
        Ok(Instruction::LdIVx { x })
    } else if g == 0xF && kk == 0x65 {
        Ok(Instruction::LdVxI { x })
    } else {
        Err(Chip8Error::UnrecognizedOpcode(op))
    }
}

} // verus!
