//! The errors that the processor and its memory report.

use vstd::prelude::*;

verus! {

/// What the processor and its memory report in place of a result.
#[derive(Debug, Clone, Copy, PartialEq, Eq)]
pub enum Error {
    /// A translated address lies beyond the backing array, or a write was
    /// aimed at a read-only cell. Holds the translated index.
    InvalidMemory(usize),
    /// The byte found at the program counter is no instruction.
    UnknownOpcode(u8),
    /// A halt instruction was executed.
    SystemHalt,
    /// An image does not fit between its target index and the end of the
    /// backing array.
    RomSize { rom_size: usize, space_left: usize },
    /// An instruction was asked for before any image was loaded.
    RomNotLoaded,
}

} // verus!
