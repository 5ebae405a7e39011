//! Instruction-level emulation of an 8080-class processor: a fixed 64 KiB
//! memory, the register and flag file, and a fetch-decode-execute step whose
//! effect on the whole state is stated by a mathematical model.

pub mod cpu;
pub mod decode;
pub mod engine;
pub mod flags;
pub mod laws;

pub use cpu::{I8080Core, LoadRomResult, StepInstructionResult, MEMORY_SIZE};
pub use decode::{decode, AluOp, Instruction, Operand, RegPair};
pub use flags::get_twos_compliment;
