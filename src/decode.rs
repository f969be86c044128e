//! Instruction words and what they decode to.

use vstd::prelude::*;

verus! {

/// The operation family: the top nibble of an instruction word.
pub open spec fn op_of(w: u16) -> u16 {
    w / 0x1000
}

/// The second nibble: the first register operand.
pub open spec fn x_of(w: u16) -> u16 {
    (w / 0x100) % 16
}

/// The third nibble: the second register operand.
pub open spec fn y_of(w: u16) -> u16 {
    (w / 0x10) % 16
}

/// The low nibble.
pub open spec fn n_of(w: u16) -> u16 {
    w % 16
}

/// The low byte.
pub open spec fn nn_of(w: u16) -> u16 {
    w % 0x100
}

/// The low twelve bits: an address.
pub open spec fn nnn_of(w: u16) -> u16 {
    w % 0x1000
}

/// One decoded instruction. Register operands are indices `0..16`,
/// addresses are below `0x1000`.
#[derive(Clone, Copy, Debug, PartialEq, Eq)]
pub enum Instruction {
    /// `00E0`: clear the screen.
    ClearScreen,
    /// `00EE`: return from a subroutine.
    Return,
    /// `1nnn`: jump to `nnn`.
    Jump { addr: u16 },
    /// `2nnn`: call the subroutine at `nnn`.
    Call { addr: u16 },
    /// `3xnn`: skip the next instruction if `Vx == nn`.
    SkipEqImm { x: u8, nn: u8 },
    /// `4xnn`: skip the next instruction if `Vx != nn`.
    SkipNeImm { x: u8, nn: u8 },
    /// `5xy0`: skip the next instruction if `Vx == Vy`.
    SkipEqReg { x: u8, y: u8 },
    /// `6xnn`: `Vx = nn`.
    SetImm { x: u8, nn: u8 },
    /// `7xnn`: `Vx += nn`, wrapping, no flag.
    AddImm { x: u8, nn: u8 },
    /// `8xy0`: `Vx = Vy`.
    Assign { x: u8, y: u8 },
    /// `8xy1`: `Vx |= Vy`.
    Or { x: u8, y: u8 },
    /// `8xy2`: `Vx &= Vy`.
    And { x: u8, y: u8 },
    /// `8xy3`: `Vx ^= Vy`.
    Xor { x: u8, y: u8 },
    /// `8xy4`: `Vx += Vy`, carry into `VF`.
    AddReg { x: u8, y: u8 },
    /// `8xy5`: `Vx = Vx - Vy`, `VF` = no borrow.
    Sub { x: u8, y: u8 },
    /// `8xy6`: `Vx = Vy >> 1`, `VF` = low bit of `Vx`.
    ShiftRight { x: u8, y: u8 },
    /// `8xy7`: `Vx = Vy - Vx`, `VF` = no borrow.
    SubRev { x: u8, y: u8 },
    /// `8xyE`: `Vx = Vy << 1`, `VF` = high bit of `Vx`.
    ShiftLeft { x: u8, y: u8 },
    /// `9xy0`: skip the next instruction if `Vx != Vy`.
    SkipNeReg { x: u8, y: u8 },
    /// `Annn`: `I = nnn`.
    SetIndex { addr: u16 },
    /// `Bnnn`: jump to `V0 + nnn`.
    JumpOffset { addr: u16 },
    /// `Cxnn`: `Vx` = a random byte masked by `nn`.
    Random { x: u8, nn: u8 },
    /// `Dxyn`: draw an `n`-row sprite at `(Vx, Vy)`.
    Draw { x: u8, y: u8, n: u8 },
    /// `Ex9E`: skip the next instruction if key `Vx` is down. A value of `Vx`
    /// past the keypad names a key that is never down.
    SkipKeyDown { x: u8 },
    /// `ExA1`: skip the next instruction if key `Vx` is up.
    SkipKeyUp { x: u8 },
    /// `Fx07`: `Vx` = delay timer.
    GetDelay { x: u8 },
    /// `Fx0A`: store the lowest key that is down in `Vx`; with no key down, move
    /// the program counter back so that this instruction runs again.
    WaitKey { x: u8 },
    /// `Fx15`: delay timer = `Vx`.
    SetDelay { x: u8 },
    /// `Fx1E`: `I += Vx`, wrapping at 16 bits; `VF` = 1 when the sum passes
    /// `0xFFF`, else `VF` is left alone.
    AddIndex { x: u8 },
    /// `Fx29`: `I` = address of the glyph for the low nibble of `Vx`.
    FontChar { x: u8 },
    /// `Fx33`: store the decimal digits of `Vx` at `I`, `I+1`, `I+2`.
    Bcd { x: u8 },
    /// `Fx55`: store `V0..=Vx` at `I`.
    StoreRegs { x: u8 },
    /// `Fx65`: load `V0..=Vx` from `I`.
    LoadRegs { x: u8 },
    /// A word that matches no instruction.
    Unknown { word: u16 },
}

impl Instruction {
    /// Operands are in range: registers below 16, addresses below `0x1000`,
    /// sprite heights below 16.
    pub open spec fn wf(self) -> bool {
        match self {
            Instruction::Jump { addr } => addr < 0x1000,
            Instruction::Call { addr } => addr < 0x1000,
            Instruction::SetIndex { addr } => addr < 0x1000,
            Instruction::JumpOffset { addr } => addr < 0x1000,
            Instruction::SkipEqImm { x, .. } => x < 16,
            Instruction::SkipNeImm { x, .. } => x < 16,
            Instruction::SetImm { x, .. } => x < 16,
            Instruction::AddImm { x, .. } => x < 16,
            Instruction::Random { x, .. } => x < 16,
            Instruction::SkipEqReg { x, y } => x < 16 && y < 16,
            Instruction::SkipNeReg { x, y } => x < 16 && y < 16,
            Instruction::Assign { x, y } => x < 16 && y < 16,
            Instruction::Or { x, y } => x < 16 && y < 16,
            Instruction::And { x, y } => x < 16 && y < 16,
            Instruction::Xor { x, y } => x < 16 && y < 16,
            Instruction::AddReg { x, y } => x < 16 && y < 16,
            Instruction::Sub { x, y } => x < 16 && y < 16,
            Instruction::ShiftRight { x, y } => x < 16 && y < 16,
            Instruction::SubRev { x, y } => x < 16 && y < 16,
            Instruction::ShiftLeft { x, y } => x < 16 && y < 16,
            Instruction::Draw { x, y, n } => x < 16 && y < 16 && n < 16,
            Instruction::SkipKeyDown { x } => x < 16,
            Instruction::SkipKeyUp { x } => x < 16,
            Instruction::GetDelay { x } => x < 16,
            Instruction::WaitKey { x } => x < 16,
            Instruction::SetDelay { x } => x < 16,
            Instruction::AddIndex { x } => x < 16,
            Instruction::FontChar { x } => x < 16,
            Instruction::Bcd { x } => x < 16,
            Instruction::StoreRegs { x } => x < 16,
            Instruction::LoadRegs { x } => x < 16,
            _ => true,
        }
    }
}

/// What the instruction word `w` means.
pub open spec fn decode_spec(w: u16) -> Instruction {
    let x = x_of(w) as u8;
    let y = y_of(w) as u8;
    let n = n_of(w);
    let nn = nn_of(w);
    let addr = nnn_of(w);
    let unknown = Instruction::Unknown { word: w };
    match op_of(w) {
        0x0 => if w == 0x00E0 {
            Instruction::ClearScreen
        } else if w == 0x00EE {
            Instruction::Return
        } else {
            unknown
        },
        0x1 => Instruction::Jump { addr },
        0x2 => Instruction::Call { addr },
        0x3 => Instruction::SkipEqImm { x, nn: nn as u8 },
        0x4 => Instruction::SkipNeImm { x, nn: nn as u8 },
        0x5 => if n == 0 {
            Instruction::SkipEqReg { x, y }
        } else {
            unknown
        },
        0x6 => Instruction::SetImm { x, nn: nn as u8 },
        0x7 => Instruction::AddImm { x, nn: nn as u8 },
        0x8 => match n {
            0x0 => Instruction::Assign { x, y },
            0x1 => Instruction::Or { x, y },
            0x2 => Instruction::And { x, y },
            0x3 => Instruction::Xor { x, y },
            0x4 => Instruction::AddReg { x, y },
            0x5 => Instruction::Sub { x, y },
            0x6 => Instruction::ShiftRight { x, y },
            0x7 => Instruction::SubRev { x, y },
            0xE => Instruction::ShiftLeft { x, y },
            _ => unknown,
        },
        0x9 => if n == 0 {
            Instruction::SkipNeReg { x, y }
        } else {
            unknown
        },
        0xA => Instruction::SetIndex { addr },
        0xB => Instruction::JumpOffset { addr },
        0xC => Instruction::Random { x, nn: nn as u8 },
        0xD => Instruction::Draw { x, y, n: n as u8 },
        0xE => if nn == 0x9E {
            Instruction::SkipKeyDown { x }
        } else if nn == 0xA1 {
            Instruction::SkipKeyUp { x }
        } else {
            unknown
        },
        _ => match nn {
            0x07 => Instruction::GetDelay { x },
            0x0A => Instruction::WaitKey { x },
            0x15 => Instruction::SetDelay { x },
            0x1E => Instruction::AddIndex { x },
            0x29 => Instruction::FontChar { x },
            0x33 => Instruction::Bcd { x },
            0x55 => Instruction::StoreRegs { x },
            0x65 => Instruction::LoadRegs { x },
            _ => unknown,
        },
    }
}

proof fn lemma_fields(w: u16)
    by (bit_vector)
    ensures
        (w & 0xf000) >> 12 == w / 0x1000,
        (w & 0x0f00) >> 8 == (w / 0x100) % 16,
        (w & 0x00f0) >> 4 == (w / 0x10) % 16,
        w & 0x000f == w % 16,
        w & 0x00ff == w % 0x100,
        w & 0x0fff == w % 0x1000,
{
}

/// Splits an instruction word into its operation and operands.
pub fn decode(w: u16) -> (r: Instruction)
    ensures
        r == decode_spec(w),
        r.wf(),
{
    proof {
        lemma_fields(w);
    }
    let t = (w & 0xf000) >> 12;
    let x = ((w & 0x0f00) >> 8) as u8;
    let y = ((w & 0x00f0) >> 4) as u8;
    let n = (w & 0x000f) as u8;
    let nn = (w & 0x00ff) as u8;
    let addr = w & 0x0fff;
    let unknown = Instruction::Unknown { word: w };
    match t {
        0x0 => if w == 0x00E0 {
            Instruction::ClearScreen
        } else if w == 0x00EE {
            Instruction::Return
        } else {
            unknown
        },
        0x1 => Instruction::Jump { addr },
        0x2 => Instruction::Call { addr },
        0x3 => Instruction::SkipEqImm { x, nn },
        0x4 => Instruction::SkipNeImm { x, nn },
        0x5 => if n == 0 {
            Instruction::SkipEqReg { x, y }
        } else {
            unknown
        },
        0x6 => Instruction::SetImm { x, nn },
        0x7 => Instruction::AddImm { x, nn },
        0x8 => match n {
            0x0 => Instruction::Assign { x, y },
            0x1 => Instruction::Or { x, y },
            0x2 => Instruction::And { x, y },
            0x3 => Instruction::Xor { x, y },
            0x4 => Instruction::AddReg { x, y },
            0x5 => Instruction::Sub { x, y },
            0x6 => Instruction::ShiftRight { x, y },
            0x7 => Instruction::SubRev { x, y },
            0xE => Instruction::ShiftLeft { x, y },
            _ => unknown,
        },
        0x9 => if n == 0 {
            Instruction::SkipNeReg { x, y }
        } else {
            unknown
        },
        0xA => Instruction::SetIndex { addr },
        0xB => Instruction::JumpOffset { addr },
        0xC => Instruction::Random { x, nn },
        0xD => Instruction::Draw { x, y, n },
        0xE => if nn == 0x9E {
            Instruction::SkipKeyDown { x }
        } else if nn == 0xA1 {
            Instruction::SkipKeyUp { x }
        } else {
            unknown
        },
        _ => match nn {
            0x07 => Instruction::GetDelay { x },
            0x0A => Instruction::WaitKey { x },
            0x15 => Instruction::SetDelay { x },
            0x1E => Instruction::AddIndex { x },
            0x29 => Instruction::FontChar { x },
            0x33 => Instruction::Bcd { x },
            0x55 => Instruction::StoreRegs { x },
            0x65 => Instruction::LoadRegs { x },
            _ => unknown,
        },
    }
}

} // verus!
