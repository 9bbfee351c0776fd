//! The processor of a CHIP-8 virtual machine: a register file, a call stack
//! and a fetch-decode-execute engine, together with the small machine parts
//! it drives (memory, display, keypad, timers).

pub mod cpu;
pub mod display;
pub mod input;
pub mod instruction;
pub mod laws;
pub mod memory;
pub mod state;
pub mod timers;

pub use cpu::Cpu;
pub use display::Display;
pub use input::Input;
pub use instruction::{decode, Instruction};
pub use memory::Memory;
pub use state::Outcome;
pub use timers::Timers;
