//! The execution core of an 8-bit microprocessor in the style of the MOS
//! 6502: a byte-addressable memory covering the full 16-bit address
//! space, general-purpose and special-purpose registers, condition
//! flags, and a fetch-decode-execute step driven by a table of opcodes.
//!
//! Every public operation carries a contract stated over the
//! mathematical model in [`model`]; the laws the core obeys are proved
//! there as well.

pub mod cpu;
pub mod error;
pub mod model;
pub mod opcode;
