//! An emulator core for the Intel 8080: registers, flags, memory, stack and
//! the instruction dispatcher, each with a contract over a mathematical
//! model of the machine.

pub mod bytes;
pub mod cpu;
pub mod flags;
pub mod image;
pub mod machine;
pub mod memory;
pub mod opcode;
pub mod program;
pub mod stack;
pub mod state;
