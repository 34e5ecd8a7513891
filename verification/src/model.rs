use vstd::prelude::*;

use crate::error::CpuError;
use crate::opcode::AddressingMode;
use crate::opcode::Operation;
use crate::opcode::spec_opcode_entry;

verus! {

/// The number of addressable bytes: the memory buffer covers every value
/// of the 16-bit program counter, so the highest address is valid.
pub const MEM_SIZE: usize = 0x10000;

/// The mathematical model of the processor: every register, every flag,
/// and the memory as a sequence of bytes.
pub ghost struct CpuModel {
    /// Accumulator.
    pub acc: u8,
    /// Index register X.
    pub x: u8,
    /// Index register Y.
    pub y: u8,
    /// Stack pointer (no instruction in scope uses it yet).
    pub sp: u8,
    /// Program counter: the address of the next byte to fetch.
    pub pc: u16,
    /// The memory buffer.
    pub mem: Seq<u8>,
    /// C: set when an unsigned addition or subtraction overflows.
    pub carry: bool,
    /// Z: set when an operation results in zero.
    pub zero: bool,
    /// I: when set, interrupt requests are ignored.
    pub interrupt_mask: bool,
    /// D: when set, certain instructions operate in decimal mode.
    pub decimal_mode: bool,
    /// B: set when a BRK instruction is executed.
    pub break_flag: bool,
    /// V: set when a signed addition or subtraction overflows.
    pub overflow: bool,
    /// N: set when an operation results in a negative number.
    pub negative: bool,
}

impl CpuModel {
    /// Well-formedness: the memory buffer covers the full address space,
    /// so every program counter value is a valid index.
    pub open spec fn wf(self) -> bool {
        self.mem.len() == MEM_SIZE
    }

    /// The zeroed configuration a processor is created in.
    pub open spec fn initial() -> CpuModel {
        CpuModel {
            acc: 0,
            x: 0,
            y: 0,
            sp: 0,
            pc: 0,
            mem: Seq::new(MEM_SIZE as nat, |i: int| 0u8),
            carry: false,
            zero: false,
            interrupt_mask: false,
            decimal_mode: false,
            break_flag: false,
            overflow: false,
            negative: false,
        }
    }
}

/// The program counter after one fetch: advanced by one, wrapping modulo
/// the size of the address space, so the address space is circular.
pub open spec fn next_pc(pc: u16) -> u16 {
    ((pc as int + 1) % (MEM_SIZE as int)) as u16
}

/// Flag policy: the zero flag after an instruction whose 8-bit result is
/// `result`.
pub open spec fn spec_zero_flag(result: u8) -> bool {
    result == 0
}

/// Flag policy: the negative flag after an instruction whose 8-bit result
/// is `result` (bit 7 of the result).
pub open spec fn spec_negative_flag(result: u8) -> bool {
    result & 0x80 == 0x80
}

/// Flag update policy: the state with zero and negative refreshed from an
/// instruction's result. No other flag is touched: carry, overflow,
/// decimal mode, interrupt mask and break stay with the instructions that
/// own them.
pub open spec fn with_flags(s: CpuModel, result: u8) -> CpuModel {
    CpuModel { zero: spec_zero_flag(result), negative: spec_negative_flag(result), ..s }
}

/// The register write an operation performs, followed by the flag update
/// policy (both operations in scope affect zero and negative).
pub open spec fn apply_operation(s: CpuModel, op: Operation, operand: u8) -> CpuModel {
    match op {
        Operation::Lda => with_flags(CpuModel { acc: operand, ..s }, operand),
        Operation::Ldx => with_flags(CpuModel { x: operand, ..s }, operand),
    }
}

/// The operand an addressing mode locates, with the program counter
/// standing just past the opcode.
pub open spec fn spec_operand(s: CpuModel, pc_after_opcode: u16, mode: AddressingMode) -> u8 {
    match mode {
        AddressingMode::Immediate => s.mem[pc_after_opcode as int],
    }
}

/// One fetch-decode-execute cycle as a function of the processor model:
/// the state after the step, paired with the cycle count or the error.
///
/// The opcode is fetched at the program counter and looked up in the
/// opcode table. With an entry, the operand is consumed per the entry's
/// addressing mode, the operation is applied, and the entry's cycle cost
/// is returned. A byte with no entry yields the unrecognized-opcode
/// error and leaves the state unchanged: a failed fetch mutates nothing.
pub open spec fn step(s: CpuModel) -> (CpuModel, Result<usize, CpuError>) {
    let opcode = s.mem[s.pc as int];
    match spec_opcode_entry(opcode) {
        Some(entry) => {
            let pc_after_opcode = next_pc(s.pc);
            let operand = spec_operand(s, pc_after_opcode, entry.mode);
            let applied = apply_operation(s, entry.operation, operand);
            (CpuModel { pc: next_pc(pc_after_opcode), ..applied }, Ok(entry.cycles))
        },
        None => (s, Err(CpuError::UnrecognizedOpcode(opcode))),
    }
}

/// The memory after a program is copied in starting at address 0; the
/// bytes past the program keep their prior values.
pub open spec fn load_mem(mem: Seq<u8>, prog: Seq<u8>) -> Seq<u8>
    recommends
        prog.len() <= mem.len(),
{
    Seq::new(mem.len(), |i: int| if i < prog.len() { prog[i] } else { mem[i] })
}

/// The state after a program is loaded: only memory changes; registers
/// and flags are untouched.
pub open spec fn loaded(s: CpuModel, prog: Seq<u8>) -> CpuModel {
    CpuModel { mem: load_mem(s.mem, prog), ..s }
}

/// Law: a step that fetches the LDA-immediate opcode with operand `v`
/// loads `v` into the accumulator, sets zero exactly when `v` is 0 and
/// negative exactly when bit 7 of `v` is set, costs 2 cycles, advances
/// the program counter by two (modulo wraparound), and changes no other
/// register, flag or memory byte.
pub proof fn lemma_lda_immediate_step(s: CpuModel, v: u8)
    requires
        s.wf(),
        s.mem[s.pc as int] == 0x9a,
        s.mem[next_pc(s.pc) as int] == v,
    ensures
        step(s).1 == Ok::<usize, CpuError>(2),
        step(s).0.acc == v,
        step(s).0.zero == (v == 0),
        step(s).0.negative == (v & 0x80 == 0x80),
        step(s).0.pc == next_pc(next_pc(s.pc)),
        s.pc as int + 2 < MEM_SIZE ==> step(s).0.pc == s.pc + 2,
        step(s).0.x == s.x,
        step(s).0.y == s.y,
        step(s).0.sp == s.sp,
        step(s).0.mem == s.mem,
        step(s).0.carry == s.carry,
        step(s).0.interrupt_mask == s.interrupt_mask,
        step(s).0.decimal_mode == s.decimal_mode,
        step(s).0.break_flag == s.break_flag,
        step(s).0.overflow == s.overflow,
{
}

/// Law: the same as `lemma_lda_immediate_step`, for the LDX-immediate
/// opcode against the X register.
pub proof fn lemma_ldx_immediate_step(s: CpuModel, v: u8)
    requires
        s.wf(),
        s.mem[s.pc as int] == 0xa2,
        s.mem[next_pc(s.pc) as int] == v,
    ensures
        step(s).1 == Ok::<usize, CpuError>(2),
        step(s).0.x == v,
        step(s).0.zero == (v == 0),
        step(s).0.negative == (v & 0x80 == 0x80),
        step(s).0.pc == next_pc(next_pc(s.pc)),
        s.pc as int + 2 < MEM_SIZE ==> step(s).0.pc == s.pc + 2,
        step(s).0.acc == s.acc,
        step(s).0.y == s.y,
        step(s).0.sp == s.sp,
        step(s).0.mem == s.mem,
        step(s).0.carry == s.carry,
        step(s).0.interrupt_mask == s.interrupt_mask,
        step(s).0.decimal_mode == s.decimal_mode,
        step(s).0.break_flag == s.break_flag,
        step(s).0.overflow == s.overflow,
{
}

/// Law: loading a program twice leaves exactly the state that loading it
/// once leaves — there is no hidden accumulation — and therefore one
/// step from either state has the identical outcome.
pub proof fn lemma_load_idempotent(s: CpuModel, prog: Seq<u8>)
    requires
        prog.len() <= s.mem.len(),
    ensures
        loaded(loaded(s, prog), prog) == loaded(s, prog),
        step(loaded(loaded(s, prog), prog)) == step(loaded(s, prog)),
{
    assert(load_mem(load_mem(s.mem, prog), prog) =~= load_mem(s.mem, prog));
}

/// Law: a fetch at the last valid address wraps the program counter to
/// 0, not to an out-of-range index.
pub proof fn lemma_pc_wraparound(pc: u16)
    requires
        pc as int == MEM_SIZE - 1,
    ensures
        next_pc(pc) == 0,
{
}

/// Law: a step whose fetched opcode byte has no entry in the opcode
/// table yields the unrecognized-opcode error carrying that exact byte,
/// and leaves the whole processor state unchanged.
pub proof fn lemma_unrecognized_opcode(s: CpuModel)
    requires
        s.wf(),
        spec_opcode_entry(s.mem[s.pc as int]) is None,
    ensures
        step(s).0 == s,
        step(s).1 == Err::<usize, CpuError>(CpuError::UnrecognizedOpcode(s.mem[s.pc as int])),
{
}

} // verus!
