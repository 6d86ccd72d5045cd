//! A CHIP-8 virtual machine: state, instruction decoding and execution.
pub mod emulator;
pub mod instruction;
pub mod laws;
pub mod machine;

pub use emulator::Emulator;
pub use instruction::{decode, Instruction};
pub use machine::{Fault, SCREEN_COLS, SCREEN_ROWS};
