//! An interpreter for the CHIP-8 virtual machine.

pub mod decode;
pub mod emulator;
mod execute;
pub mod font;
pub mod laws;
pub mod model;
mod random;
pub mod semantics;
pub mod sprite;

pub use decode::Instruction;
pub use emulator::Emulator;
pub use font::FONT;
pub use model::{Fault, LoadError};
