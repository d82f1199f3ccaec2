//! A CHIP-8 interpreter: opcode decoding, a small core that runs the
//! jump, call, skip, load and arithmetic instructions, and a full core with
//! timers, keypad, display memory and the sprite-drawing instruction.

pub mod opcode;
pub mod cpu;
pub mod chip8;
pub mod laws;
pub mod instruction_laws;


pub use crate::chip8::Chip8;
pub use crate::cpu::Cpu;
