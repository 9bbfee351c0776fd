//! The register file as mathematical data, and what every instruction
//! does to it and to the display.

use crate::display::DisplayView;
use crate::instruction::{decode_spec, Instruction};
use crate::memory::{byte_at, word_at};
use vstd::prelude::*;

verus! {

/// How one instruction ended.
#[derive(Clone, Copy, Debug, PartialEq, Eq, Structural)]
pub enum Outcome {
    /// The instruction was carried out.
    Executed,
    /// The opcode encodes no instruction; nothing but the program counter's
    /// advance past it has changed.
    Unimplemented { opcode: u16 },
    /// A call found the stack full and was not carried out.
    StackOverflow,
    /// A return found the stack empty and was not carried out.
    StackUnderflow,
}

/// An address wrapped into the 4 KB memory.
pub open spec fn wrap_address(address: int) -> u16 {
    (address % 4096) as u16
}

/// The register file as mathematical data.
pub struct CpuState {
    /// The general-purpose registers `V[0]` to `V[0xF]`; `V[0xF]` doubles as
    /// the carry, borrow and collision flag.
    pub v: Seq<u8>,
    /// The index register.
    pub i: u16,
    /// The address of the next instruction.
    pub pc: u16,
    /// The number of return addresses on the stack.
    pub sp: u8,
    /// The call stack; entries below `sp` are live.
    pub stack: Seq<u16>,
}

/// The display after the first `rows` rows of the sprite stored at `i` were
/// blitted at `(x, y)`, one below the other.
pub open spec fn draw_rows(
    display: DisplayView,
    mem: Seq<u8>,
    i: u16,
    x: int,
    y: int,
    rows: nat,
) -> DisplayView
    decreases rows,
{
    if rows == 0 {
        display
    } else {
        draw_rows(display, mem, i, x, y, (rows - 1) as nat).draw_byte(
            x,
            y + rows - 1,
            byte_at(mem, i + rows - 1),
        )
    }
}

/// Whether row `r` of the sprite stored at `i` turns a lit pixel off when it
/// is blitted after the rows above it.
pub open spec fn row_collides(
    display: DisplayView,
    mem: Seq<u8>,
    i: u16,
    x: int,
    y: int,
    r: int,
) -> bool {
    0 <= r && draw_rows(display, mem, i, x, y, r as nat).collides(x, y + r, byte_at(mem, i + r))
}

/// Whether any of the first `rows` rows of the sprite reports a collision.
pub open spec fn any_row_collides(
    display: DisplayView,
    mem: Seq<u8>,
    i: u16,
    x: int,
    y: int,
    rows: int,
) -> bool {
    exists|r: int| 0 <= r < rows && #[trigger] row_collides(display, mem, i, x, y, r)
}

impl CpuState {
    /// Sixteen registers, sixteen stack slots and at most sixteen live
    /// return addresses.
    pub open spec fn wf(self) -> bool {
        self.v.len() == 16 && self.stack.len() == 16 && self.sp <= 16
    }

    /// The reset state: everything zero but the program counter, which is
    /// at the load address.
    pub open spec fn reset() -> CpuState {
        CpuState {
            v: Seq::new(16, |k: int| 0u8),
            i: 0,
            pc: 0x200,
            sp: 0,
            stack: Seq::new(16, |k: int| 0u16),
        }
    }

    /// The program counter, the index register and every live return
    /// address lie within the memory.
    pub open spec fn in_memory(self) -> bool {
        &&& self.pc < 4096
        &&& self.i < 4096
        &&& forall|k: int| 0 <= k < self.sp ==> #[trigger] self.stack[k] < 4096
    }

    /// This state with `value` in `V[x]`.
    pub open spec fn with_v(self, x: int, value: u8) -> CpuState {
        CpuState { v: self.v.update(x, value), ..self }
    }

    /// This state with the program counter at `pc`.
    pub open spec fn with_pc(self, pc: u16) -> CpuState {
        CpuState { pc, ..self }
    }

    /// The flag register is written first, then `V[x]`: where `x` is `0xF`
    /// the result replaces the flag.
    pub open spec fn with_flag_and_v(self, flag: u8, x: int, value: u8) -> CpuState {
        self.with_v(0xF, flag).with_v(x, value)
    }

    /// The program counter moves past one more instruction if `condition`
    /// holds.
    pub open spec fn skip_if(self, condition: bool) -> CpuState {
        if condition {
            self.with_pc(wrap_address(self.pc + 2))
        } else {
            self
        }
    }

    /// The state after the program counter moved past the fetched
    /// instruction.
    pub open spec fn advance(self) -> CpuState {
        self.with_pc(wrap_address(self.pc + 2))
    }

    /// The registers after `instr`. `random` is the byte drawn for a
    /// `Random` instruction and plays no part in any other.
    pub open spec fn execute(
        self,
        instr: Instruction,
        random: u8,
        mem: Seq<u8>,
        display: DisplayView,
    ) -> CpuState {
        match instr {
            Instruction::ClearScreen => self,
            Instruction::Return => if self.sp == 0 {
                self
            } else {
                CpuState { sp: (self.sp - 1) as u8, pc: self.stack[self.sp - 1], ..self }
            },
            Instruction::Jump { addr } => self.with_pc(addr),
            Instruction::Call { addr } => if self.sp >= 16 {
                self
            } else {
                CpuState {
                    stack: self.stack.update(self.sp as int, self.pc),
                    sp: (self.sp + 1) as u8,
                    pc: addr,
                    ..self
                }
            },
            Instruction::SkipIfEqual { x, kk } => self.skip_if(self.v[x as int] == kk),
            Instruction::SkipIfNotEqual { x, kk } => self.skip_if(self.v[x as int] != kk),
            Instruction::SkipIfRegistersEqual { x, y } => self.skip_if(
                self.v[x as int] == self.v[y as int],
            ),
            Instruction::SkipIfRegistersNotEqual { x, y } => self.skip_if(
                self.v[x as int] != self.v[y as int],
            ),
            Instruction::Load { x, kk } => self.with_v(x as int, kk),
            Instruction::AddImmediate { x, kk } => self.with_v(
                x as int,
                ((self.v[x as int] + kk) % 256) as u8,
            ),
            Instruction::Move { x, y } => self.with_v(x as int, self.v[y as int]),
            Instruction::Or { x, y } => self.with_v(x as int, self.v[x as int] | self.v[y as int]),
            Instruction::And { x, y } => self.with_v(x as int, self.v[x as int] & self.v[y as int]),
            Instruction::Xor { x, y } => self.with_v(x as int, self.v[x as int] ^ self.v[y as int]),
            Instruction::Add { x, y } => {
                let sum = self.v[x as int] + self.v[y as int];
                self.with_flag_and_v(if sum > 255 { 1 } else { 0 }, x as int, (sum % 256) as u8)
            },
            Instruction::Subtract { x, y } => {
                let a = self.v[x as int];
                let b = self.v[y as int];
                self.with_flag_and_v(if a < b { 0 } else { 1 }, x as int, ((a - b) % 256) as u8)
            },
            Instruction::SubtractFrom { x, y } => {
                let a = self.v[y as int];
                let b = self.v[x as int];
                self.with_flag_and_v(if a < b { 0 } else { 1 }, x as int, ((a - b) % 256) as u8)
            },
            Instruction::ShiftRight { x } => {
                let flagged = self.with_v(0xF, self.v[x as int] % 2);
                flagged.with_v(x as int, flagged.v[x as int] / 2)
            },
            Instruction::ShiftLeft { x } => {
                let flagged = self.with_v(0xF, self.v[x as int] / 128);
                flagged.with_v(x as int, ((flagged.v[x as int] * 2) % 256) as u8)
            },
            Instruction::LoadIndex { addr } => CpuState { i: addr, ..self },
            Instruction::JumpOffset { addr } => self.with_pc(wrap_address(addr + self.v[0])),
            Instruction::Random { x, kk } => self.with_v(x as int, random & kk),
            Instruction::Draw { x, y, n } => self.with_v(
                0xF,
                if any_row_collides(
                    display,
                    mem,
                    self.i,
                    self.v[x as int] as int,
                    self.v[y as int] as int,
                    n as int,
                ) {
                    1
                } else {
                    0
                },
            ),
            Instruction::Unknown { .. } => self,
        }
    }

    /// The display after `instr`.
    pub open spec fn execute_display(
        self,
        instr: Instruction,
        mem: Seq<u8>,
        display: DisplayView,
    ) -> DisplayView {
        match instr {
            Instruction::ClearScreen => display.clear(),
            Instruction::Draw { x, y, n } => draw_rows(
                display,
                mem,
                self.i,
                self.v[x as int] as int,
                self.v[y as int] as int,
                n as nat,
            ).update(),
            _ => display,
        }
    }

    /// How `instr` ends in this state.
    pub open spec fn outcome(self, instr: Instruction) -> Outcome {
        match instr {
            Instruction::Return => if self.sp == 0 {
                Outcome::StackUnderflow
            } else {
                Outcome::Executed
            },
            Instruction::Call { .. } => if self.sp >= 16 {
                Outcome::StackOverflow
            } else {
                Outcome::Executed
            },
            Instruction::Unknown { opcode } => Outcome::Unimplemented { opcode },
            _ => Outcome::Executed,
        }
    }

    /// The opcode that the next cycle fetches.
    pub open spec fn fetch(self, mem: Seq<u8>) -> u16 {
        word_at(mem, self.pc as int)
    }

    /// The registers after one whole cycle: fetch, advance, decode, execute.
    pub open spec fn cycle(self, random: u8, mem: Seq<u8>, display: DisplayView) -> CpuState {
        self.advance().execute(decode_spec(self.fetch(mem)), random, mem, display)
    }

    /// The display after one whole cycle.
    pub open spec fn cycle_display(self, mem: Seq<u8>, display: DisplayView) -> DisplayView {
        self.advance().execute_display(decode_spec(self.fetch(mem)), mem, display)
    }

    /// How one whole cycle ends.
    pub open spec fn cycle_outcome(self, mem: Seq<u8>) -> Outcome {
        self.advance().outcome(decode_spec(self.fetch(mem)))
    }
}

} // verus!
