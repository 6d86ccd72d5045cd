//! Instruction words and their decoding into instruction forms.
use vstd::prelude::*;

verus! {

/// One decoded instruction. Register operands are indices in `0..16`.
#[derive(Clone, Copy, Debug, PartialEq, Eq, Structural)]
pub enum Instruction {
    /// `0000`: does nothing.
    Nop,
    /// `00E0`: clears the framebuffer.
    ClearScreen,
    /// `00EE`: returns from a subroutine.
    Return,
    /// `1NNN`: jumps to `NNN`.
    Jump { addr: u16 },
    /// `2NNN`: calls the subroutine at `NNN`.
    Call { addr: u16 },
    /// `3XNN`: skips the next instruction if `VX == NN`.
    SkipIfEqImm { x: u8, value: u8 },
    /// `4XNN`: skips the next instruction if `VX != NN`.
    SkipIfNeImm { x: u8, value: u8 },
    /// `5XY0`: skips the next instruction if `VX == VY`.
    SkipIfEqReg { x: u8, y: u8 },
    /// `6XNN`: `VX = NN`.
    SetImm { x: u8, value: u8 },
    /// `7XNN`: `VX += NN`, wrapping, flag untouched.
    AddImm { x: u8, value: u8 },
    /// `8XY0`: `VX = VY`.
    Assign { x: u8, y: u8 },
    /// `8XY1`: `VX |= VY`.
    Or { x: u8, y: u8 },
    /// `8XY2`: `VX &= VY`.
    And { x: u8, y: u8 },
    /// `8XY3`: `VX ^= VY`.
    Xor { x: u8, y: u8 },
    /// `8XY4`: `VX += VY`, `VF` = carry.
    AddCarry { x: u8, y: u8 },
    /// `8XY5`: `VX -= VY`, `VF` = no borrow.
    SubBorrow { x: u8, y: u8 },
    /// `8XY6`: `VX >>= 1`, `VF` = the bit shifted out.
    ShiftRight { x: u8 },
    /// `8XY7`: `VX = VY - VX`, `VF` = no borrow.
    SubReverse { x: u8, y: u8 },
    /// `8XYE`: `VX <<= 1`, `VF` = the bit shifted out.
    ShiftLeft { x: u8 },
    /// `9XY0`: skips the next instruction if `VX != VY`.
    SkipIfNeReg { x: u8, y: u8 },
    /// `ANNN`: `I = NNN`.
    SetIndex { addr: u16 },
    /// `CXNN`: `VX = random & NN`.
    Random { x: u8, mask: u8 },
    /// `DXYN`: draws an `N`-row sprite from `I` at `(VX, VY)`.
    Draw { x: u8, y: u8, rows: u8 },
    /// `EX9E`: skips the next instruction if key `VX` is pressed.
    SkipIfKey { x: u8 },
    /// `EXA1`: skips the next instruction if key `VX` is released.
    SkipIfNotKey { x: u8 },
    /// `FX07`: `VX = delay timer`.
    GetDelay { x: u8 },
    /// `FX0A`: waits until a key is pressed and stores its index in `VX`.
    WaitKey { x: u8 },
    /// `FX15`: `delay timer = VX`.
    SetDelay { x: u8 },
    /// `FX18`: `sound timer = VX`.
    SetSound { x: u8 },
    /// `FX1E`: `I += VX`, wrapping.
    AddIndex { x: u8 },
    /// `FX29`: `I` = address of the font glyph for the low nibble of `VX`.
    FontGlyph { x: u8 },
    /// `FX33`: writes the decimal digits of `VX` at `I`, `I+1`, `I+2`.
    Bcd { x: u8 },
    /// `FX55`: stores `V0..=VX` at `I..`.
    StoreRegs { x: u8 },
    /// `FX65`: loads `V0..=VX` from `I..`.
    LoadRegs { x: u8 },
}

pub open spec fn nibble_x(op: u16) -> u8 {
    ((op >> 8u16) & 0xfu16) as u8
}

pub open spec fn nibble_y(op: u16) -> u8 {
    ((op >> 4u16) & 0xfu16) as u8
}

pub open spec fn nibble_n(op: u16) -> u8 {
    (op & 0xfu16) as u8
}

pub open spec fn low_byte(op: u16) -> u8 {
    (op & 0xffu16) as u8
}

pub open spec fn low_addr(op: u16) -> u16 {
    op & 0xfffu16
}

/// The instruction table: the form that an instruction word encodes, if any.
pub open spec fn decode_spec(op: u16) -> Option<Instruction> {
    let family = op >> 12u16;
    let x = nibble_x(op);
    let y = nibble_y(op);
    let n = nibble_n(op);
    let nn = low_byte(op);
    let nnn = low_addr(op);
    if op == 0x0000 {
        Some(Instruction::Nop)
    } else if op == 0x00e0 {
        Some(Instruction::ClearScreen)
    } else if op == 0x00ee {
        Some(Instruction::Return)
    } else if family == 0x1 {
        Some(Instruction::Jump { addr: nnn })
    } else if family == 0x2 {
        Some(Instruction::Call { addr: nnn })
    } else if family == 0x3 {
        Some(Instruction::SkipIfEqImm { x, value: nn })
    } else if family == 0x4 {
        Some(Instruction::SkipIfNeImm { x, value: nn })
    } else if family == 0x5 && n == 0 {
        Some(Instruction::SkipIfEqReg { x, y })
    } else if family == 0x6 {
        Some(Instruction::SetImm { x, value: nn })
    } else if family == 0x7 {
        Some(Instruction::AddImm { x, value: nn })
    } else if family == 0x8 {
        if n == 0x0 {
            Some(Instruction::Assign { x, y })
        } else if n == 0x1 {
            Some(Instruction::Or { x, y })
        } else if n == 0x2 {
            Some(Instruction::And { x, y })
        } else if n == 0x3 {
            Some(Instruction::Xor { x, y })
        } else if n == 0x4 {
            Some(Instruction::AddCarry { x, y })
        } else if n == 0x5 {
            Some(Instruction::SubBorrow { x, y })
        } else if n == 0x6 {
            Some(Instruction::ShiftRight { x })
        } else if n == 0x7 {
            Some(Instruction::SubReverse { x, y })
        } else if n == 0xe {
            Some(Instruction::ShiftLeft { x })
        } else {
            None
        }
    } else if family == 0x9 && n == 0 {
        Some(Instruction::SkipIfNeReg { x, y })
    } else if family == 0xa {
        Some(Instruction::SetIndex { addr: nnn })
    } else if family == 0xc {
        Some(Instruction::Random { x, mask: nn })
    } else if family == 0xd {
        Some(Instruction::Draw { x, y, rows: n })
    } else if family == 0xe && nn == 0x9e {
        Some(Instruction::SkipIfKey { x })
    } else if family == 0xe && nn == 0xa1 {
        Some(Instruction::SkipIfNotKey { x })
    } else if family == 0xf {
        if nn == 0x07 {
            Some(Instruction::GetDelay { x })
        } else if nn == 0x0a {
            Some(Instruction::WaitKey { x })
        } else if nn == 0x15 {
            Some(Instruction::SetDelay { x })
        } else if nn == 0x18 {
            Some(Instruction::SetSound { x })
        } else if nn == 0x1e {
            Some(Instruction::AddIndex { x })
        } else if nn == 0x29 {
            Some(Instruction::FontGlyph { x })
        } else if nn == 0x33 {
            Some(Instruction::Bcd { x })
        } else if nn == 0x55 {
            Some(Instruction::StoreRegs { x })
        } else if nn == 0x65 {
            Some(Instruction::LoadRegs { x })
        } else {
            None
        }
    } else {
        None
    }
}

impl Instruction {
    /// Operands are in range: registers and row counts below 16, addresses below 4096.
    pub open spec fn wf(self) -> bool {
        match self {
            Instruction::Jump { addr } => addr < 4096,
            Instruction::Call { addr } => addr < 4096,
            Instruction::SetIndex { addr } => addr < 4096,
            Instruction::SkipIfEqImm { x, .. } => x < 16,
            Instruction::SkipIfNeImm { x, .. } => x < 16,
            Instruction::SetImm { x, .. } => x < 16,
            Instruction::AddImm { x, .. } => x < 16,
            Instruction::Random { x, .. } => x < 16,
            Instruction::SkipIfEqReg { x, y } => x < 16 && y < 16,
            Instruction::SkipIfNeReg { x, y } => x < 16 && y < 16,
            Instruction::Assign { x, y } => x < 16 && y < 16,
            Instruction::Or { x, y } => x < 16 && y < 16,
            Instruction::And { x, y } => x < 16 && y < 16,
            Instruction::Xor { x, y } => x < 16 && y < 16,
            Instruction::AddCarry { x, y } => x < 16 && y < 16,
            Instruction::SubBorrow { x, y } => x < 16 && y < 16,
            Instruction::SubReverse { x, y } => x < 16 && y < 16,
            Instruction::Draw { x, y, rows } => x < 16 && y < 16 && rows < 16,
            Instruction::ShiftRight { x } => x < 16,
            Instruction::ShiftLeft { x } => x < 16,
            Instruction::SkipIfKey { x } => x < 16,
            Instruction::SkipIfNotKey { x } => x < 16,
            Instruction::GetDelay { x } => x < 16,
            Instruction::WaitKey { x } => x < 16,
            Instruction::SetDelay { x } => x < 16,
            Instruction::SetSound { x } => x < 16,
            Instruction::AddIndex { x } => x < 16,
            Instruction::FontGlyph { x } => x < 16,
            Instruction::Bcd { x } => x < 16,
            Instruction::StoreRegs { x } => x < 16,
            Instruction::LoadRegs { x } => x < 16,
            _ => true,
        }
    }
}

proof fn lemma_fields_in_range(op: u16)
    ensures
        nibble_x(op) < 16,
        nibble_y(op) < 16,
        nibble_n(op) < 16,
        low_addr(op) < 4096,
{
    assert((op >> 8u16) & 0xfu16 < 16) by (bit_vector);
    assert((op >> 4u16) & 0xfu16 < 16) by (bit_vector);
    assert(op & 0xfu16 < 16) by (bit_vector);
    assert(op & 0xfffu16 < 4096) by (bit_vector);
}

/// Every decoded instruction has its operands in range.
pub proof fn lemma_decode_wf(op: u16)
    ensures
        decode_spec(op) matches Some(ins) ==> ins.wf(),
{
    lemma_fields_in_range(op);
}

/// Decodes an instruction word; `None` for a word that encodes no instruction.
pub fn decode(op: u16) -> (r: Option<Instruction>)
    ensures
        r == decode_spec(op),
        r matches Some(ins) ==> ins.wf(),
{
    proof {
        lemma_fields_in_range(op);
    }
    let family = op >> 12u16;
    let x = ((op >> 8u16) & 0xfu16) as u8;
    let y = ((op >> 4u16) & 0xfu16) as u8;
    let n = (op & 0xfu16) as u8;
    let nn = (op & 0xffu16) as u8;
    let nnn = op & 0xfffu16;
    if op == 0x0000 {
        Some(Instruction::Nop)
    } else if op == 0x00e0 {
        Some(Instruction::ClearScreen)
    } else if op == 0x00ee {
        Some(Instruction::Return)
    } else if family == 0x1 {
        Some(Instruction::Jump { addr: nnn })
    } else if family == 0x2 {
        Some(Instruction::Call { addr: nnn })
    } else if family == 0x3 {
        Some(Instruction::SkipIfEqImm { x, value: nn })
    } else if family == 0x4 {
        Some(Instruction::SkipIfNeImm { x, value: nn })
    } else if family == 0x5 && n == 0 {
        Some(Instruction::SkipIfEqReg { x, y })
    } else if family == 0x6 {
        Some(Instruction::SetImm { x, value: nn })
    } else if family == 0x7 {
        Some(Instruction::AddImm { x, value: nn })
    } else if family == 0x8 {
        if n == 0x0 {
            Some(Instruction::Assign { x, y })
        } else if n == 0x1 {
            Some(Instruction::Or { x, y })
        } else if n == 0x2 {
            Some(Instruction::And { x, y })
        } else if n == 0x3 {
            Some(Instruction::Xor { x, y })
        } else if n == 0x4 {
            Some(Instruction::AddCarry { x, y })
        } else if n == 0x5 {
            Some(Instruction::SubBorrow { x, y })
        } else if n == 0x6 {
            Some(Instruction::ShiftRight { x })
        } else if n == 0x7 {
            Some(Instruction::SubReverse { x, y })
        } else if n == 0xe {
            Some(Instruction::ShiftLeft { x })
        } else {
            None
        }
    } else if family == 0x9 && n == 0 {
        Some(Instruction::SkipIfNeReg { x, y })
    } else if family == 0xa {
        Some(Instruction::SetIndex { addr: nnn })
    } else if family == 0xc {
        Some(Instruction::Random { x, mask: nn })
    } else if family == 0xd {
        Some(Instruction::Draw { x, y, rows: n })
    } else if family == 0xe && nn == 0x9e {
        Some(Instruction::SkipIfKey { x })
    } else if family == 0xe && nn == 0xa1 {
        Some(Instruction::SkipIfNotKey { x })
    } else if family == 0xf {
        if nn == 0x07 {
            Some(Instruction::GetDelay { x })
        } else if nn == 0x0a {
            Some(Instruction::WaitKey { x })
        } else if nn == 0x15 {
            Some(Instruction::SetDelay { x })
        } else if nn == 0x18 {
            Some(Instruction::SetSound { x })
        } else if nn == 0x1e {
            Some(Instruction::AddIndex { x })
        } else if nn == 0x29 {
            Some(Instruction::FontGlyph { x })
        } else if nn == 0x33 {
            Some(Instruction::Bcd { x })
        } else if nn == 0x55 {
            Some(Instruction::StoreRegs { x })
        } else if nn == 0x65 {
            Some(Instruction::LoadRegs { x })
        } else {
            None
        }
    } else {
        None
    }
}

} // verus!
