//! A user-mode emulator for the RV32I base integer instruction set with the
//! RV32M multiply/divide extension: decoding, encoding and execution of
//! instructions over a flat little-endian memory.
use vstd::prelude::*;

pub mod disasm;
pub mod emulator;
pub mod error;
pub mod inst;
pub mod machine;
pub mod reg;

pub use emulator::{ElfImage, Emulator, Section, SectionRange, Symbol, DEFAULT_MEMORY_SIZE};
pub use error::{EmulatorError, ExecError};
pub use inst::{sext, DecodeError, Inst};
pub use machine::{Machine, Syscall};
pub use reg::Reg;

verus! {

} // verus!
