use vstd::prelude::*;

verus! {

/// An error surfaced by the processor to its caller. Every detected
/// condition is reported; none is silently recovered from.
#[derive(Clone, Copy, Debug, PartialEq, Eq, Structural)]
pub enum CpuError {
    /// The dispatch engine fetched an opcode byte with no entry in the
    /// opcode table. Carries that exact byte.
    UnrecognizedOpcode(u8),
    /// A program handed to `load_program` exceeds the memory's capacity.
    /// Carries the requested length and the capacity.
    ProgramTooLarge(usize, usize),
}

} // verus!
