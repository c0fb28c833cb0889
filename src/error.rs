//! Errors met while loading or running a program.
use vstd::prelude::*;

use crate::inst::DecodeError;

verus! {

/// What stopped execution.
#[derive(Clone, Copy, Debug, PartialEq, Eq)]
pub enum ExecError {
    /// The program counter left the `.text` section (it holds the new PC).
    PcOutsideText(u32),
    /// The instruction at this PC read or wrote past the end of memory.
    MemoryAccess(u32),
}

/// Errors encountered while loading or emulating a program.
#[derive(Clone, Debug, PartialEq, Eq)]
pub enum EmulatorError {
    /// The host could not read the program file.
    IO(String),
    /// The host could not parse the program as ELF.
    ELF(String),
    /// A region to load or clear, `size` bytes from `addr`, does not fit in
    /// memory (or, for a section, its bytes are not all in the file).
    Section { addr: usize, size: usize },
    /// Neither `_start` nor `.text` could be found.
    EntryPoint,
    /// A word under the program counter is not a supported instruction.
    InstructionDecode(DecodeError),
    /// Execution went wrong.
    Execution(ExecError),
}

} // verus!
