//! The register file and the fetch-decode-execute engine.

use crate::display::Display;
use crate::input::Input;
use crate::instruction::{decode, decode_spec, Instruction};
use crate::memory::{byte_at, Memory};
use crate::state::{any_row_collides, draw_rows, row_collides, wrap_address, CpuState, Outcome};
use crate::timers::Timers;
use rand::Rng;
use vstd::prelude::*;

verus! {

/// The register file of the machine.
#[derive(Debug)]
pub struct Cpu {
    /// The general-purpose registers `V[0]` to `V[0xF]`.
    pub v: [u8; 16],
    /// The index register.
    pub i: u16,
    /// The program counter.
    pub pc: u16,
    /// The stack pointer: how many return addresses are on the stack.
    pub sp: u8,
    /// The call stack.
    pub stack: [u16; 16],
}

impl View for Cpu {
    type V = CpuState;

    open spec fn view(&self) -> CpuState {
        CpuState { v: self.v@, i: self.i, pc: self.pc, sp: self.sp, stack: self.stack@ }
    }
}

/// Draws one byte from the thread-local generator of the `rand` crate
/// (`rand::thread_rng()` and `Rng::gen`). Nothing is claimed of the byte:
/// any of the 256 values may come back, and two calls may differ. The
/// generator seeds itself from the operating system on a thread's first
/// draw and panics if the system gives it no entropy.
#[verifier::external_body]
fn random_byte() -> (byte: u8) {
    rand::thread_rng().gen()
}

impl Cpu {
    /// At most sixteen return addresses are live.
    pub open spec fn wf(&self) -> bool {
        self@.wf()
    }

    /// A register file in the reset state.
    pub fn new() -> (cpu: Cpu)
        ensures
            cpu@ == CpuState::reset(),
            cpu.wf(),
    {
        let cpu = Cpu { v: [0; 16], i: 0, pc: 0x200, sp: 0, stack: [0; 16] };
        assert(cpu@.v =~= CpuState::reset().v);
        assert(cpu@.stack =~= CpuState::reset().stack);
        cpu
    }

    /// Moves the program counter past a skipped instruction.
    fn skip(&mut self)
        ensures
            final(self)@ == old(self)@.with_pc(wrap_address(old(self).pc + 2)),
    {
        self.pc = (self.pc % 4096 + 2) % 4096;
    }

    /// Writes the flag register, then `V[x]`.
    fn set_flag_and_v(&mut self, flag: u8, x: u8, value: u8)
        requires
            x < 16,
        ensures
            final(self)@ == old(self)@.with_flag_and_v(flag, x as int, value),
    {
        self.v[0xF] = flag;
        self.v[x as usize] = value;
    }

    /// Carries out one decoded instruction. A return on an empty stack and
    /// a call on a full one change nothing and are reported as such.
    pub fn execute(
        &mut self,
        instr: Instruction,
        random: u8,
        memory: &Memory,
        display: &mut Display,
    ) -> (outcome: Outcome)
        requires
            old(self).wf(),
            instr.wf(),
        ensures
            final(self)@ == old(self)@.execute(instr, random, memory@, old(display)@),
            final(display)@ == old(self)@.execute_display(instr, memory@, old(display)@),
            outcome == old(self)@.outcome(instr),
            final(self).wf(),
    {
        match instr {
            Instruction::ClearScreen => {
                display.clear();
            },
            Instruction::Return => {
                if self.sp == 0 {
                    return Outcome::StackUnderflow;
                }
                self.sp -= 1;
                self.pc = self.stack[self.sp as usize];
            },
            Instruction::Jump { addr } => {
                self.pc = addr;
            },
            Instruction::Call { addr } => {
                if self.sp >= 16 {
                    return Outcome::StackOverflow;
                }
                self.stack[self.sp as usize] = self.pc;
                self.sp += 1;
                self.pc = addr;
            },
            Instruction::SkipIfEqual { x, kk } => {
                if self.v[x as usize] == kk {
                    self.skip();
                }
            },
            Instruction::SkipIfNotEqual { x, kk } => {
                if self.v[x as usize] != kk {
                    self.skip();
                }
            },
            Instruction::SkipIfRegistersEqual { x, y } => {
                if self.v[x as usize] == self.v[y as usize] {
                    self.skip();
                }
            },
            Instruction::SkipIfRegistersNotEqual { x, y } => {
                if self.v[x as usize] != self.v[y as usize] {
                    self.skip();
                }
            },
            Instruction::Load { x, kk } => {
                self.v[x as usize] = kk;
            },
            Instruction::AddImmediate { x, kk } => {
                let sum: u16 = self.v[x as usize] as u16 + kk as u16;
                self.v[x as usize] = (sum % 256) as u8;
            },
            Instruction::Move { x, y } => {
                self.v[x as usize] = self.v[y as usize];
            },
            Instruction::Or { x, y } => {
                self.v[x as usize] = self.v[x as usize] | self.v[y as usize];
            },
            Instruction::And { x, y } => {
                self.v[x as usize] = self.v[x as usize] & self.v[y as usize];
            },
            Instruction::Xor { x, y } => {
                self.v[x as usize] = self.v[x as usize] ^ self.v[y as usize];
            },
            Instruction::Add { x, y } => {
                let sum: u16 = self.v[x as usize] as u16 + self.v[y as usize] as u16;
                let carry: u8 = if sum > 255 { 1 } else { 0 };
                self.set_flag_and_v(carry, x, (sum % 256) as u8);
            },
            Instruction::Subtract { x, y } => {
                let a: u8 = self.v[x as usize];
                let b: u8 = self.v[y as usize];
                if a < b {
                    self.set_flag_and_v(0, x, (a as u16 + 256 - b as u16) as u8);
                } else {
                    self.set_flag_and_v(1, x, a - b);
                }
            },
            Instruction::SubtractFrom { x, y } => {
                let a: u8 = self.v[y as usize];
                let b: u8 = self.v[x as usize];
                if a < b {
                    self.set_flag_and_v(0, x, (a as u16 + 256 - b as u16) as u8);
                } else {
                    self.set_flag_and_v(1, x, a - b);
                }
            },
            Instruction::ShiftRight { x } => {
                let before: u8 = self.v[x as usize];
                let low: u8 = before & 0x1;
                assert(before & 0x1 == before % 2) by (bit_vector);
                self.v[0xF] = low;
                let flagged: u8 = self.v[x as usize];
                let shifted: u8 = flagged >> 1;
                assert(flagged >> 1 == flagged / 2) by (bit_vector);
                self.v[x as usize] = shifted;
            },
            Instruction::ShiftLeft { x } => {
                let before: u8 = self.v[x as usize];
                let high: u8 = (before & 0x80) >> 7;
                assert((before & 0x80) >> 7 == before / 128) by (bit_vector);
                self.v[0xF] = high;
                let flagged: u8 = self.v[x as usize];
                let shifted: u8 = flagged << 1;
                assert(flagged << 1 == (flagged as u16 * 2) % 256) by (bit_vector);
                self.v[x as usize] = shifted;
            },
            Instruction::LoadIndex { addr } => {
                self.i = addr;
            },
            Instruction::JumpOffset { addr } => {
                self.pc = (addr + self.v[0] as u16) % 4096;
            },
            Instruction::Random { x, kk } => {
                self.v[x as usize] = random & kk;
            },
            Instruction::Draw { x, y, n } => {
                self.draw(x, y, n, memory, display);
            },
            Instruction::Unknown { opcode } => {
                return Outcome::Unimplemented { opcode };
            },
        }
        Outcome::Executed
    }

    /// Blits the `n` rows of the sprite at `I` at `(V[x], V[y])`, sets the
    /// flag register to 1 if any row collided and to 0 otherwise, and
    /// commits the frame.
    fn draw(&mut self, x: u8, y: u8, n: u8, memory: &Memory, display: &mut Display)
        requires
            x < 16,
            y < 16,
            n < 16,
        ensures
            final(self)@ == old(self)@.execute(
                Instruction::Draw { x, y, n },
                0,
                memory@,
                old(display)@,
            ),
            final(display)@ == old(self)@.execute_display(
                Instruction::Draw { x, y, n },
                memory@,
                old(display)@,
            ),
    {
        let x_pos: usize = self.v[x as usize] as usize;
        let y_pos: usize = self.v[y as usize] as usize;
        let base: u16 = self.i % 4096;
        let mut collided: bool = false;
        let mut row: u8 = 0;
        while row < n
            invariant
                row <= n,
                n < 16,
                base == self.i % 4096,
                x_pos < 256,
                y_pos < 256,
                *self == *old(self),
                display@ == draw_rows(
                    old(display)@,
                    memory@,
                    self.i,
                    x_pos as int,
                    y_pos as int,
                    row as nat,
                ),
                collided == any_row_collides(
                    old(display)@,
                    memory@,
                    self.i,
                    x_pos as int,
                    y_pos as int,
                    row as int,
                ),
            decreases n - row,
        {
            let sprite: u8 = memory.read_byte((base + row as u16) % 4096);
            assert(sprite == byte_at(memory@, self.i + row));
            let hit: bool = display.draw_byte(x_pos, y_pos + row as usize, sprite);
            assert(hit == row_collides(
                old(display)@,
                memory@,
                self.i,
                x_pos as int,
                y_pos as int,
                row as int,
            ));
            if hit {
                collided = true;
            }
            row += 1;
        }
        self.v[0xF] = if collided { 1 } else { 0 };
        display.update();
    }

    /// Decodes `opcode` and carries the instruction out, with `random` as
    /// the byte that a `Random` instruction draws. The memory, the keypad
    /// and the timers are left as they were.
    pub fn decode_and_execute(
        &mut self,
        opcode: u16,
        random: u8,
        memory: &mut Memory,
        display: &mut Display,
        input: &Input,
        timers: &mut Timers,
    ) -> (outcome: Outcome)
        requires
            old(self).wf(),
        ensures
            final(self)@ == old(self)@.execute(
                decode_spec(opcode),
                random,
                old(memory)@,
                old(display)@,
            ),
            final(display)@ == old(self)@.execute_display(
                decode_spec(opcode),
                old(memory)@,
                old(display)@,
            ),
            outcome == old(self)@.outcome(decode_spec(opcode)),
            final(self).wf(),
            final(memory)@ == old(memory)@,
            *final(timers) == *old(timers),
    {
        let instr: Instruction = decode(opcode);
        self.execute(instr, random, memory, display)
    }

    /// One fetch-decode-execute cycle in which a `Random` instruction, if
    /// one is fetched, draws `random`.
    pub fn execute_cycle_with(
        &mut self,
        random: u8,
        memory: &mut Memory,
        display: &mut Display,
        input: &Input,
        timers: &mut Timers,
    ) -> (outcome: Outcome)
        requires
            old(self).wf(),
        ensures
            final(self)@ == old(self)@.cycle(random, old(memory)@, old(display)@),
            final(display)@ == old(self)@.cycle_display(old(memory)@, old(display)@),
            outcome == old(self)@.cycle_outcome(old(memory)@),
            final(self).wf(),
            final(memory)@ == old(memory)@,
            *final(timers) == *old(timers),
    {
        let opcode: u16 = memory.read_word(self.pc);
        self.skip();
        self.decode_and_execute(opcode, random, memory, display, input, timers)
    }

    /// One fetch-decode-execute cycle. The word at the program counter is
    /// fetched, the program counter moves past it, and the instruction is
    /// carried out. Only a `Random` instruction draws a random byte; for
    /// every other instruction the result is the same whatever byte is
    /// assumed.
    pub fn execute_cycle(
        &mut self,
        memory: &mut Memory,
        display: &mut Display,
        input: &Input,
        timers: &mut Timers,
    ) -> (outcome: Outcome)
        requires
            old(self).wf(),
        ensures
            exists|random: u8|
                final(self)@ == #[trigger] old(self)@.cycle(random, old(memory)@, old(display)@),
            !(decode_spec(old(self)@.fetch(old(memory)@)) is Random) ==> final(self)@ == old(
                self,
            )@.cycle(0, old(memory)@, old(display)@),
            final(display)@ == old(self)@.cycle_display(old(memory)@, old(display)@),
            outcome == old(self)@.cycle_outcome(old(memory)@),
            final(self).wf(),
            final(memory)@ == old(memory)@,
            *final(timers) == *old(timers),
    {
        let opcode: u16 = memory.read_word(self.pc);
        self.skip();
        let instr: Instruction = decode(opcode);
        let random: u8 = match instr {
            Instruction::Random { .. } => random_byte(),
            _ => 0,
        };
        let outcome: Outcome = self.execute(instr, random, memory, display);
        assert(self@ == old(self)@.cycle(random, old(memory)@, old(display)@));
        outcome
    }
}

} // verus!
