//! A CHIP-8 interpreter core: machine state, instruction decoder, per-opcode
//! semantics, sprite drawing and the fetch-decode-execute cycle.
pub mod machine;
pub mod decode;
pub mod ops;
pub mod display;
pub mod cycle;
pub mod laws;

pub use cycle::Halt;
pub use decode::{decode, Instruction};
pub use machine::Chip8;
pub use ops::{Fault, ProgramCounterInstruction};
