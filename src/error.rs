use vstd::prelude::*;

verus! {

/// Why a decode, a memory access or a step of the emulated CPU stopped.
#[derive(Debug, PartialEq, Eq)]
pub enum Error {
    /// A base opcode that the decoder does not support.
    UnknownInstruction(u8),
    /// A second byte after the `0xCB` prefix that the decoder does not support.
    UnknownCbInstruction(u8),
    /// A read from an address outside the backing memory.
    InvalidReadFromMemoryLocation(u16),
    /// A write to an address outside the backing memory.
    InvalidWriteToMemoryLocation(u16),
    /// The HALT opcode, which this core does not emulate.
    HaltNotSupported,
    /// Emulation was stopped on purpose.
    Abort(&'static str),
}

} // verus!
