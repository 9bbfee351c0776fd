//! The instruction set and the decoding of two-byte opcodes.

use vstd::prelude::*;

verus! {

/// One decoded instruction. `x` and `y` name registers, `kk` is an
/// immediate byte, `addr` a 12-bit address and `n` a sprite height.
#[derive(Clone, Copy, Debug, PartialEq, Eq, Structural)]
pub enum Instruction {
    /// `00E0`: blank the display.
    ClearScreen,
    /// `00EE`: return from a subroutine.
    Return,
    /// `1addr`: jump to `addr`.
    Jump { addr: u16 },
    /// `2addr`: call the subroutine at `addr`.
    Call { addr: u16 },
    /// `3xkk`: skip the next instruction if `V[x] == kk`.
    SkipIfEqual { x: u8, kk: u8 },
    /// `4xkk`: skip the next instruction if `V[x] != kk`.
    SkipIfNotEqual { x: u8, kk: u8 },
    /// `5xy0`: skip the next instruction if `V[x] == V[y]`.
    SkipIfRegistersEqual { x: u8, y: u8 },
    /// `6xkk`: `V[x] = kk`.
    Load { x: u8, kk: u8 },
    /// `7xkk`: `V[x] += kk`, wrapping.
    AddImmediate { x: u8, kk: u8 },
    /// `8xy0`: `V[x] = V[y]`.
    Move { x: u8, y: u8 },
    /// `8xy1`: `V[x] |= V[y]`.
    Or { x: u8, y: u8 },
    /// `8xy2`: `V[x] &= V[y]`.
    And { x: u8, y: u8 },
    /// `8xy3`: `V[x] ^= V[y]`.
    Xor { x: u8, y: u8 },
    /// `8xy4`: `V[x] += V[y]`, wrapping; the flag is the carry.
    Add { x: u8, y: u8 },
    /// `8xy5`: `V[x] -= V[y]`, wrapping; the flag is 0 on a borrow.
    Subtract { x: u8, y: u8 },
    /// `8xy6`: the flag is the lowest bit of `V[x]`; `V[x] >>= 1`.
    ShiftRight { x: u8 },
    /// `8xy7`: `V[x] = V[y] - V[x]`, wrapping; the flag is 0 on a borrow.
    SubtractFrom { x: u8, y: u8 },
    /// `8xyE`: the flag is the highest bit of `V[x]`; `V[x] <<= 1`.
    ShiftLeft { x: u8 },
    /// `9xy0`: skip the next instruction if `V[x] != V[y]`.
    SkipIfRegistersNotEqual { x: u8, y: u8 },
    /// `Annn`: `I = addr`.
    LoadIndex { addr: u16 },
    /// `Bnnn`: jump to `addr + V[0]`, wrapped into the memory.
    JumpOffset { addr: u16 },
    /// `Cxkk`: `V[x] = random byte & kk`.
    Random { x: u8, kk: u8 },
    /// `Dxyn`: draw the `n`-row sprite at `I` at `(V[x], V[y])`.
    Draw { x: u8, y: u8, n: u8 },
    /// Any other opcode.
    Unknown { opcode: u16 },
}

impl Instruction {
    /// Register operands are below 16, a sprite height is below 16 and an
    /// address is below 4096.
    pub open spec fn wf(self) -> bool {
        match self {
            Instruction::ClearScreen | Instruction::Return | Instruction::Unknown { .. } => true,
            Instruction::Jump { addr }
            | Instruction::Call { addr }
            | Instruction::LoadIndex { addr }
            | Instruction::JumpOffset { addr } => addr < 4096,
            Instruction::SkipIfEqual { x, .. }
            | Instruction::SkipIfNotEqual { x, .. }
            | Instruction::Load { x, .. }
            | Instruction::AddImmediate { x, .. }
            | Instruction::Random { x, .. }
            | Instruction::ShiftRight { x }
            | Instruction::ShiftLeft { x } => x < 16,
            Instruction::SkipIfRegistersEqual { x, y }
            | Instruction::Move { x, y }
            | Instruction::Or { x, y }
            | Instruction::And { x, y }
            | Instruction::Xor { x, y }
            | Instruction::Add { x, y }
            | Instruction::Subtract { x, y }
            | Instruction::SubtractFrom { x, y }
            | Instruction::SkipIfRegistersNotEqual { x, y } => x < 16 && y < 16,
            Instruction::Draw { x, y, n } => x < 16 && y < 16 && n < 16,
        }
    }
}

/// The instruction that `opcode` encodes. With the opcode written as four
/// hexadecimal digits `n0 n1 n2 n3`: `x` is `n1`, `y` is `n2`, `n` is `n3`,
/// `kk` is the low byte and `addr` the low twelve bits.
pub open spec fn decode_spec(opcode: u16) -> Instruction {
    let n0 = opcode / 0x1000;
    let x = ((opcode / 0x100) % 16) as u8;
    let y = ((opcode / 0x10) % 16) as u8;
    let n = (opcode % 16) as u8;
    let kk = (opcode % 0x100) as u8;
    let addr = (opcode % 0x1000) as u16;
    if opcode == 0x00E0 {
        Instruction::ClearScreen
    } else if opcode == 0x00EE {
        Instruction::Return
    } else if n0 == 0x1 {
        Instruction::Jump { addr }
    } else if n0 == 0x2 {
        Instruction::Call { addr }
    } else if n0 == 0x3 {
        Instruction::SkipIfEqual { x, kk }
    } else if n0 == 0x4 {
        Instruction::SkipIfNotEqual { x, kk }
    } else if n0 == 0x5 && n == 0 {
        Instruction::SkipIfRegistersEqual { x, y }
    } else if n0 == 0x6 {
        Instruction::Load { x, kk }
    } else if n0 == 0x7 {
        Instruction::AddImmediate { x, kk }
    } else if n0 == 0x8 && n == 0x0 {
        Instruction::Move { x, y }
    } else if n0 == 0x8 && n == 0x1 {
        Instruction::Or { x, y }
    } else if n0 == 0x8 && n == 0x2 {
        Instruction::And { x, y }
    } else if n0 == 0x8 && n == 0x3 {
        Instruction::Xor { x, y }
    } else if n0 == 0x8 && n == 0x4 {
        Instruction::Add { x, y }
    } else if n0 == 0x8 && n == 0x5 {
        Instruction::Subtract { x, y }
    } else if n0 == 0x8 && n == 0x6 {
        Instruction::ShiftRight { x }
    } else if n0 == 0x8 && n == 0x7 {
        Instruction::SubtractFrom { x, y }
    } else if n0 == 0x8 && n == 0xE {
        Instruction::ShiftLeft { x }
    } else if n0 == 0x9 && n == 0 {
        Instruction::SkipIfRegistersNotEqual { x, y }
    } else if n0 == 0xA {
        Instruction::LoadIndex { addr }
    } else if n0 == 0xB {
        Instruction::JumpOffset { addr }
    } else if n0 == 0xC {
        Instruction::Random { x, kk }
    } else if n0 == 0xD {
        Instruction::Draw { x, y, n }
    } else {
        Instruction::Unknown { opcode }
    }
}

/// Decodes an opcode by splitting it into its four nibbles.
pub fn decode(opcode: u16) -> (instr: Instruction)
    ensures
        instr == decode_spec(opcode),
        instr.wf(),
{
    let n0: u8 = ((opcode & 0xF000) >> 12) as u8;
    let x: u8 = ((opcode & 0x0F00) >> 8) as u8;
    let y: u8 = ((opcode & 0x00F0) >> 4) as u8;
    let n: u8 = (opcode & 0x000F) as u8;
    let kk: u8 = (opcode & 0x00FF) as u8;
    let addr: u16 = opcode & 0x0FFF;
    assert(((opcode & 0xF000) >> 12) == opcode / 0x1000) by (bit_vector);
    assert(((opcode & 0x0F00) >> 8) == (opcode / 0x100) % 16) by (bit_vector);
    assert(((opcode & 0x00F0) >> 4) == (opcode / 0x10) % 16) by (bit_vector);
    assert((opcode & 0x000F) == opcode % 16) by (bit_vector);
    assert((opcode & 0x00FF) == opcode % 0x100) by (bit_vector);
    assert((opcode & 0x0FFF) == opcode % 0x1000) by (bit_vector);
    if opcode == 0x00E0 {
        return Instruction::ClearScreen;
    }
    if opcode == 0x00EE {
        return Instruction::Return;
    }
    match (n0, n) {
        (0x1, _) => Instruction::Jump { addr },
        (0x2, _) => Instruction::Call { addr },
        (0x3, _) => Instruction::SkipIfEqual { x, kk },
        (0x4, _) => Instruction::SkipIfNotEqual { x, kk },
        (0x5, 0x0) => Instruction::SkipIfRegistersEqual { x, y },
        (0x6, _) => Instruction::Load { x, kk },
        (0x7, _) => Instruction::AddImmediate { x, kk },
        (0x8, 0x0) => Instruction::Move { x, y },
        (0x8, 0x1) => Instruction::Or { x, y },
        (0x8, 0x2) => Instruction::And { x, y },
        (0x8, 0x3) => Instruction::Xor { x, y },
        (0x8, 0x4) => Instruction::Add { x, y },
        (0x8, 0x5) => Instruction::Subtract { x, y },
        (0x8, 0x6) => Instruction::ShiftRight { x },
        (0x8, 0x7) => Instruction::SubtractFrom { x, y },
        (0x8, 0xE) => Instruction::ShiftLeft { x },
        (0x9, 0x0) => Instruction::SkipIfRegistersNotEqual { x, y },
        (0xA, _) => Instruction::LoadIndex { addr },
        (0xB, _) => Instruction::JumpOffset { addr },
        (0xC, _) => Instruction::Random { x, kk },
        (0xD, _) => Instruction::Draw { x, y, n },
        _ => Instruction::Unknown { opcode },
    }
}

} // verus!
