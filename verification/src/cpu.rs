use vstd::prelude::*;

use crate::error::CpuError;
use crate::model::CpuModel;
use crate::model::MEM_SIZE;
use crate::model::loaded;
use crate::model::next_pc;
use crate::model::step;
use crate::model::with_flags;
use crate::opcode::AddressingMode;
use crate::opcode::Operation;
use crate::opcode::opcode_entry;

verus! {

/// The processor: registers, condition flags, and the owned memory
/// buffer. All state an instruction reads or writes lives here; the
/// buffer covers the full 16-bit address space.
pub struct Cpu {
    /// Accumulator.
    acc: u8,
    /// Program counter.
    pc: u16,
    /// Stack pointer.
    sp: u8,
    /// Index register X.
    x: u8,
    /// Index register Y.
    y: u8,
    /// The memory buffer; always exactly `MEM_SIZE` bytes.
    memory: Vec<u8>,
    /// C: set when an unsigned addition or subtraction overflows.
    carry: bool,
    /// Z: set when an operation results in zero.
    zero: bool,
    /// I: when set, interrupt requests are ignored.
    interrupt_mask: bool,
    /// D: when set, certain instructions operate in decimal mode.
    decimal_mode: bool,
    /// B: set when a BRK instruction is executed.
    break_flag: bool,
    /// V: set when a signed addition or subtraction overflows.
    overflow: bool,
    /// N: set when an operation results in a negative number.
    negative: bool,
}

impl View for Cpu {
    type V = CpuModel;

    closed spec fn view(&self) -> CpuModel {
        CpuModel {
            acc: self.acc,
            x: self.x,
            y: self.y,
            sp: self.sp,
            pc: self.pc,
            mem: self.memory@,
            carry: self.carry,
            zero: self.zero,
            interrupt_mask: self.interrupt_mask,
            decimal_mode: self.decimal_mode,
            break_flag: self.break_flag,
            overflow: self.overflow,
            negative: self.negative,
        }
    }
}

impl Cpu {
    /// Well-formedness: the memory buffer covers the full address space.
    /// Established by the constructor and preserved by every method.
    pub open spec fn wf(self) -> bool {
        self@.wf()
    }

    /// A processor in the zeroed configuration: every register, every
    /// flag and every memory byte is 0.
    pub fn new() -> (r: Self)
        ensures
            r.wf(),
            r@ == CpuModel::initial(),
    {
        let mut memory: Vec<u8> = Vec::new();
        let mut i: usize = 0;
        while i < MEM_SIZE
            invariant
                i <= MEM_SIZE,
                memory@.len() == i,
                forall|j: int| 0 <= j < i ==> memory@[j] == 0u8,
            decreases MEM_SIZE - i,
        {
            memory.push(0);
            i = i + 1;
        }
        let cpu = Cpu {
            acc: 0,
            pc: 0,
            sp: 0,
            x: 0,
            y: 0,
            memory,
            carry: false,
            zero: false,
            interrupt_mask: false,
            decimal_mode: false,
            break_flag: false,
            overflow: false,
            negative: false,
        };
        proof {
            assert(cpu@.mem =~= CpuModel::initial().mem);
        }
        cpu
    }

    /// Copies a program into memory starting at address 0. A program
    /// longer than the memory's capacity is rejected before any byte is
    /// written: on failure nothing changes. Registers and flags are never
    /// touched by loading.
    pub fn load_program(&mut self, program: &Vec<u8>) -> (r: Result<(), CpuError>)
        requires
            old(self).wf(),
        ensures
            final(self).wf(),
            program@.len() <= MEM_SIZE ==> r == Ok::<(), CpuError>(()) && final(self)@ == loaded(
                old(self)@,
                program@,
            ),
            program@.len() > MEM_SIZE ==> r == Err::<(), CpuError>(
                CpuError::ProgramTooLarge(program@.len() as usize, MEM_SIZE),
            ) && final(self)@ == old(self)@,
    {
        if program.len() > MEM_SIZE {
            return Err(CpuError::ProgramTooLarge(program.len(), MEM_SIZE));
        }
        let mut i: usize = 0;
        while i < program.len()
            invariant
                old(self).wf(),
                i <= program@.len(),
                program@.len() <= MEM_SIZE,
                self.memory@.len() == MEM_SIZE,
                forall|j: int| 0 <= j < i ==> self.memory@[j] == program@[j],
                forall|j: int| i <= j < MEM_SIZE ==> self.memory@[j] == old(self).memory@[j],
                self.acc == old(self).acc,
                self.x == old(self).x,
                self.y == old(self).y,
                self.sp == old(self).sp,
                self.pc == old(self).pc,
                self.carry == old(self).carry,
                self.zero == old(self).zero,
                self.interrupt_mask == old(self).interrupt_mask,
                self.decimal_mode == old(self).decimal_mode,
                self.break_flag == old(self).break_flag,
                self.overflow == old(self).overflow,
                self.negative == old(self).negative,
            decreases program@.len() - i,
        {
            let byte = program[i];
            self.memory.set(i, byte);
            i = i + 1;
        }
        proof {
            assert(final(self)@.mem =~= loaded(old(self)@, program@).mem);
        }
        Ok(())
    }

    /// Fetches the byte at the current program counter, then advances the
    /// counter by one, wrapping modulo the size of the address space.
    /// This is the only primitive through which opcodes and operands are
    /// consumed. No other state is touched.
    pub fn pop_pc(&mut self) -> (r: u8)
        requires
            old(self).wf(),
        ensures
            final(self).wf(),
            r == old(self)@.mem[old(self)@.pc as int],
            final(self)@ == (CpuModel { pc: next_pc(old(self)@.pc), ..old(self)@ }),
    {
        let result = self.memory[self.pc as usize];
        self.pc = ((self.pc as usize + 1) % MEM_SIZE) as u16;
        result
    }

    /// Flag update policy: refreshes the zero and negative flags from an
    /// instruction's 8-bit result. No other flag is touched — carry,
    /// overflow, decimal mode, interrupt mask and break stay with the
    /// instructions that own them.
    fn update_zero_negative(&mut self, result: u8)
        ensures
            final(self)@ == with_flags(old(self)@, result),
    {
        self.zero = result == 0;
        self.negative = result & 0x80 == 0x80;
    }

    /// Performs exactly one fetch-decode-execute cycle and returns the
    /// cycle cost the instruction notionally consumes.
    ///
    /// The opcode byte is fetched, looked up in the opcode table, its
    /// operand consumed per the entry's addressing mode, the operation
    /// applied to the registers, and the flags refreshed by the flag
    /// update policy. A fetched byte with no table entry yields the
    /// unrecognized-opcode error naming that byte, and the processor is
    /// left exactly as it was: callers never observe a half-executed
    /// instruction.
    pub fn execute(&mut self) -> (r: Result<usize, CpuError>)
        requires
            old(self).wf(),
        ensures
            final(self).wf(),
            final(self)@ == step(old(self)@).0,
            r == step(old(self)@).1,
    {
        let start_pc = self.pc;
        let opcode = self.pop_pc();
        match opcode_entry(opcode) {
            Some(entry) => {
                let operand = match entry.mode {
                    AddressingMode::Immediate => self.pop_pc(),
                };
                match entry.operation {
                    Operation::Lda => {
                        self.acc = operand;
                        self.update_zero_negative(operand);
                    },
                    Operation::Ldx => {
                        self.x = operand;
                        self.update_zero_negative(operand);
                    },
                }
                Ok(entry.cycles)
            },
            None => {
                // The failed fetch must not mutate state: put the program
                // counter back where it was.
                self.pc = start_pc;
                Err(CpuError::UnrecognizedOpcode(opcode))
            },
        }
    }

    /// Current accumulator value.
    pub fn acc(&self) -> (r: u8)
        ensures
            r == self@.acc,
    {
        self.acc
    }

    /// Current X register value.
    pub fn x(&self) -> (r: u8)
        ensures
            r == self@.x,
    {
        self.x
    }

    /// Current Y register value.
    pub fn y(&self) -> (r: u8)
        ensures
            r == self@.y,
    {
        self.y
    }

    /// Current program counter value.
    pub fn pc(&self) -> (r: u16)
        ensures
            r == self@.pc,
    {
        self.pc
    }

    /// Current stack pointer value.
    pub fn sp(&self) -> (r: u8)
        ensures
            r == self@.sp,
    {
        self.sp
    }

    /// Current carry flag.
    pub fn carry(&self) -> (r: bool)
        ensures
            r == self@.carry,
    {
        self.carry
    }

    /// Current zero flag.
    pub fn zero(&self) -> (r: bool)
        ensures
            r == self@.zero,
    {
        self.zero
    }

    /// Current interrupt-mask flag.
    pub fn interrupt_mask(&self) -> (r: bool)
        ensures
            r == self@.interrupt_mask,
    {
        self.interrupt_mask
    }

    /// Current decimal-mode flag.
    pub fn decimal_mode(&self) -> (r: bool)
        ensures
            r == self@.decimal_mode,
    {
        self.decimal_mode
    }

    /// Current break flag.
    pub fn break_flag(&self) -> (r: bool)
        ensures
            r == self@.break_flag,
    {
        self.break_flag
    }

    /// Current overflow flag.
    pub fn overflow(&self) -> (r: bool)
        ensures
            r == self@.overflow,
    {
        self.overflow
    }

    /// Current negative flag.
    pub fn negative(&self) -> (r: bool)
        ensures
            r == self@.negative,
    {
        self.negative
    }
}

} // verus!
