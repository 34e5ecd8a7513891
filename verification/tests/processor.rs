use mos6502::cpu::Cpu;
use mos6502::error::CpuError;

#[test]
fn a_new_cpu_can_be_created_without_crashing() {
    Cpu::new();
}

#[test]
fn test_lda_immediate() {
    let mut cpu = Cpu::new();
    cpu.load_program(&vec![0x9a, 0x42]).unwrap();
    let number_of_cycles = cpu.execute().unwrap();
    assert!(number_of_cycles == 2);
    assert!(cpu.acc() == 0x42);
}

#[test]
fn test_ldx_immediate() {
    let mut cpu = Cpu::new();
    cpu.load_program(&vec![0xa2, 0x42]).unwrap();
    let number_of_cycles = cpu.execute().unwrap();
    assert!(number_of_cycles == 2);
    assert!(cpu.x() == 0x42);
}

#[test]
fn new_cpu_is_zeroed() {
    let cpu = Cpu::new();
    assert_eq!(cpu.acc(), 0);
    assert_eq!(cpu.x(), 0);
    assert_eq!(cpu.y(), 0);
    assert_eq!(cpu.sp(), 0);
    assert_eq!(cpu.pc(), 0);
    assert!(!cpu.carry());
    assert!(!cpu.zero());
    assert!(!cpu.interrupt_mask());
    assert!(!cpu.decimal_mode());
    assert!(!cpu.break_flag());
    assert!(!cpu.overflow());
    assert!(!cpu.negative());
}

#[test]
fn lda_immediate_plain_value() {
    let mut cpu = Cpu::new();
    cpu.load_program(&vec![0x9a, 0x42]).unwrap();
    assert_eq!(cpu.execute(), Ok(2));
    assert_eq!(cpu.acc(), 0x42);
    assert!(!cpu.zero());
    assert!(!cpu.negative());
    assert_eq!(cpu.pc(), 2);
}

#[test]
fn lda_immediate_zero_sets_zero_flag() {
    let mut cpu = Cpu::new();
    cpu.load_program(&vec![0x9a, 0x00]).unwrap();
    assert_eq!(cpu.execute(), Ok(2));
    assert_eq!(cpu.acc(), 0x00);
    assert!(cpu.zero());
    assert!(!cpu.negative());
    assert_eq!(cpu.pc(), 2);
}

#[test]
fn lda_immediate_bit7_sets_negative_flag() {
    let mut cpu = Cpu::new();
    cpu.load_program(&vec![0x9a, 0x80]).unwrap();
    assert_eq!(cpu.execute(), Ok(2));
    assert_eq!(cpu.acc(), 0x80);
    assert!(!cpu.zero());
    assert!(cpu.negative());
    assert_eq!(cpu.pc(), 2);
}

#[test]
fn ldx_immediate_ff_sets_negative_flag() {
    let mut cpu = Cpu::new();
    cpu.load_program(&vec![0xa2, 0xff]).unwrap();
    assert_eq!(cpu.execute(), Ok(2));
    assert_eq!(cpu.x(), 0xff);
    assert!(!cpu.zero());
    assert!(cpu.negative());
    assert_eq!(cpu.pc(), 2);
}

#[test]
fn data_move_touches_no_other_flags_or_registers() {
    let mut cpu = Cpu::new();
    cpu.load_program(&vec![0x9a, 0x80]).unwrap();
    assert_eq!(cpu.execute(), Ok(2));
    assert_eq!(cpu.x(), 0);
    assert_eq!(cpu.y(), 0);
    assert_eq!(cpu.sp(), 0);
    assert!(!cpu.carry());
    assert!(!cpu.interrupt_mask());
    assert!(!cpu.decimal_mode());
    assert!(!cpu.break_flag());
    assert!(!cpu.overflow());
}

#[test]
fn unrecognized_opcode_reports_the_byte_and_changes_nothing() {
    let mut cpu = Cpu::new();
    cpu.load_program(&vec![0xff]).unwrap();
    assert_eq!(cpu.execute(), Err(CpuError::UnrecognizedOpcode(0xff)));
    assert_eq!(cpu.acc(), 0);
    assert_eq!(cpu.x(), 0);
    assert_eq!(cpu.y(), 0);
    assert_eq!(cpu.sp(), 0);
    assert_eq!(cpu.pc(), 0);
    assert!(!cpu.carry());
    assert!(!cpu.zero());
    assert!(!cpu.interrupt_mask());
    assert!(!cpu.decimal_mode());
    assert!(!cpu.break_flag());
    assert!(!cpu.overflow());
    assert!(!cpu.negative());
}

#[test]
fn unrecognized_opcode_keeps_earlier_flags() {
    let mut cpu = Cpu::new();
    cpu.load_program(&vec![0x9a, 0x80]).unwrap();
    assert_eq!(cpu.execute(), Ok(2));
    // The byte at address 2 is 0x00, which has no table entry.
    assert_eq!(cpu.execute(), Err(CpuError::UnrecognizedOpcode(0x00)));
    assert_eq!(cpu.acc(), 0x80);
    assert!(cpu.negative());
    assert_eq!(cpu.pc(), 2);
}

#[test]
fn program_longer_than_memory_is_rejected_without_partial_write() {
    let mut cpu = Cpu::new();
    cpu.load_program(&vec![0x07, 0x08, 0x09]).unwrap();
    let too_long = vec![0x55u8; 0x10001];
    assert_eq!(
        cpu.load_program(&too_long),
        Err(CpuError::ProgramTooLarge(0x10001, 0x10000))
    );
    // The memory still holds the earlier program, byte for byte.
    assert_eq!(cpu.pop_pc(), 0x07);
    assert_eq!(cpu.pop_pc(), 0x08);
    assert_eq!(cpu.pop_pc(), 0x09);
}

#[test]
fn program_of_exactly_the_memory_size_is_accepted() {
    let mut cpu = Cpu::new();
    let mut program = vec![0x00u8; 0x10000];
    program[0xffff] = 0xab;
    cpu.load_program(&program).unwrap();
    // Walk the counter to the highest address and read the byte there.
    for _ in 0..0xffff {
        cpu.pop_pc();
    }
    assert_eq!(cpu.pc(), 0xffff);
    assert_eq!(cpu.pop_pc(), 0xab);
}

#[test]
fn program_counter_wraps_to_zero_at_the_last_address() {
    let mut cpu = Cpu::new();
    for _ in 0..0xffff {
        cpu.pop_pc();
    }
    assert_eq!(cpu.pc(), 0xffff);
    cpu.pop_pc();
    assert_eq!(cpu.pc(), 0);
}

#[test]
fn instruction_at_the_last_address_fetches_its_operand_at_zero() {
    let mut cpu = Cpu::new();
    let mut program = vec![0x00u8; 0x10000];
    program[0xffff] = 0x9a;
    program[0] = 0x77;
    cpu.load_program(&program).unwrap();
    for _ in 0..0xffff {
        cpu.pop_pc();
    }
    assert_eq!(cpu.pc(), 0xffff);
    assert_eq!(cpu.execute(), Ok(2));
    assert_eq!(cpu.acc(), 0x77);
    assert_eq!(cpu.pc(), 1);
}

#[test]
fn loading_twice_then_executing_matches_loading_once() {
    let program = vec![0x9a, 0x42];

    let mut once = Cpu::new();
    once.load_program(&program).unwrap();
    let once_cycles = once.execute();

    let mut twice = Cpu::new();
    twice.load_program(&program).unwrap();
    twice.load_program(&program).unwrap();
    let twice_cycles = twice.execute();

    assert_eq!(once_cycles, twice_cycles);
    assert_eq!(once.acc(), twice.acc());
    assert_eq!(once.x(), twice.x());
    assert_eq!(once.y(), twice.y());
    assert_eq!(once.sp(), twice.sp());
    assert_eq!(once.pc(), twice.pc());
    assert_eq!(once.carry(), twice.carry());
    assert_eq!(once.zero(), twice.zero());
    assert_eq!(once.interrupt_mask(), twice.interrupt_mask());
    assert_eq!(once.decimal_mode(), twice.decimal_mode());
    assert_eq!(once.break_flag(), twice.break_flag());
    assert_eq!(once.overflow(), twice.overflow());
    assert_eq!(once.negative(), twice.negative());
}

#[test]
fn loading_touches_no_register_or_flag() {
    let mut cpu = Cpu::new();
    cpu.load_program(&vec![0x9a, 0x80]).unwrap();
    assert_eq!(cpu.execute(), Ok(2));
    cpu.load_program(&vec![0xa2, 0x01]).unwrap();
    assert_eq!(cpu.acc(), 0x80);
    assert!(cpu.negative());
    assert_eq!(cpu.pc(), 2);
}

#[test]
fn pop_pc_reads_in_memory_order() {
    let mut cpu = Cpu::new();
    cpu.load_program(&vec![0x10, 0x20, 0x30]).unwrap();
    assert_eq!(cpu.pop_pc(), 0x10);
    assert_eq!(cpu.pop_pc(), 0x20);
    assert_eq!(cpu.pop_pc(), 0x30);
    // Memory past the program was zeroed.
    assert_eq!(cpu.pop_pc(), 0x00);
    assert_eq!(cpu.pc(), 4);
}
