//! The 4 KB address space of the machine.

use vstd::prelude::*;

verus! {

/// Number of addressable bytes. Every address is taken modulo this size.
pub const MEMORY_SIZE: usize = 4096;

/// Address at which programs are conventionally loaded.
pub const PROGRAM_START: u16 = 0x200;

/// The byte stored at `address`, with the address wrapped into the memory.
pub open spec fn byte_at(mem: Seq<u8>, address: int) -> u8 {
    mem[address % 4096]
}

/// The big-endian 16-bit word whose high byte is at `address`.
pub open spec fn word_at(mem: Seq<u8>, address: int) -> u16 {
    (byte_at(mem, address) as int * 256 + byte_at(mem, address + 1) as int) as u16
}

/// The memory of the machine, viewed as a sequence of 4096 bytes.
#[derive(Debug)]
pub struct Memory {
    pub bytes: [u8; 4096],
}

impl View for Memory {
    type V = Seq<u8>;

    open spec fn view(&self) -> Seq<u8> {
        self.bytes@
    }
}

impl Memory {
    /// A memory in which every byte is zero.
    pub fn new() -> (mem: Memory)
        ensures
            mem@.len() == 4096,
            forall|a: int| 0 <= a < 4096 ==> mem@[a] == 0,
    {
        Memory { bytes: [0u8; 4096] }
    }

    /// Reads the byte at `address`.
    pub fn read_byte(&self, address: u16) -> (byte: u8)
        ensures
            byte == byte_at(self@, address as int),
    {
        self.bytes[(address % 4096) as usize]
    }

    /// Reads the big-endian word whose high byte is at `address`; the low
    /// byte is the one that follows it, wrapping at the end of the memory.
    pub fn read_word(&self, address: u16) -> (word: u16)
        ensures
            word == word_at(self@, address as int),
    {
        let at: u16 = address % 4096;
        let next: u16 = (at + 1) % 4096;
        let high: u16 = self.bytes[at as usize] as u16;
        let low: u16 = self.bytes[next as usize] as u16;
        high * 256 + low
    }

    /// Copies `program` into the memory from the load address on. A program
    /// that does not fit between the load address and the end of the memory
    /// is refused, and the memory is left as it was.
    pub fn load_program(&mut self, program: &[u8]) -> (loaded: bool)
        ensures
            loaded == (program@.len() <= 4096 - 0x200),
            !loaded ==> final(self)@ == old(self)@,
            loaded ==> final(self)@.len() == 4096 && forall|a: int|
                0 <= a < 4096 ==> #[trigger] final(self)@[a] == (if 0x200 <= a < 0x200
                    + program@.len() {
                    program@[a - 0x200]
                } else {
                    old(self)@[a]
                }),
    {
        if program.len() > 4096 - 0x200 {
            return false;
        }
        let mut k: usize = 0;
        while k < program.len()
            invariant
                k <= program@.len() <= 4096 - 0x200,
                forall|a: int|
                    0 <= a < 4096 ==> #[trigger] self.bytes@[a] == (if 0x200 <= a < 0x200 + k {
                        program@[a - 0x200]
                    } else {
                        old(self).bytes@[a]
                    }),
            decreases program@.len() - k,
        {
            self.bytes[0x200 + k] = program[k];
            k += 1;
        }
        true
    }

    /// Stores `value` at `address`; every other byte keeps its value.
    pub fn write_byte(&mut self, address: u16, value: u8)
        ensures
            final(self)@ == old(self)@.update(address as int % 4096, value),
    {
        self.bytes[(address % 4096) as usize] = value;
    }
}

} // verus!
