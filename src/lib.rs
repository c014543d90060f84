//! A CHIP-8 virtual machine: opcode decoding, an instruction executor over
//! explicit machine state, the fetch/execute step, the keypad map and the
//! timer rules, each with its contract.

pub mod instruction;
pub mod keypad;
pub mod machine;
pub mod semantics;
mod execute;
mod entropy;
pub mod cpu;
pub mod laws;
pub mod timers;

pub use cpu::Outcome;
pub use instruction::{decode, DecodeError, Instruction};
pub use keypad::{hex_digit, keypad_code, QUIT_KEY};
pub use machine::{Fault, Flow, Machine, FONT, HEIGHT, PROGRAM_START, WIDTH};
pub use timers::Timers;
