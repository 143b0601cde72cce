//! A cycle-counting interpreter for the MOS 6502 processor, in the variant without decimal
//! arithmetic.

pub mod alu;
pub mod bus;
pub mod clock;
pub mod cpu;
pub mod decode;
pub mod instruction;
pub mod laws;
pub mod machine;
pub mod snake;
pub mod status;
pub mod word;

pub use crate::bus::Bus;
pub use crate::clock::Clock;
pub use crate::cpu::Cpu;
pub use crate::instruction::{Address, CpuError, Instruction, Opcode};
