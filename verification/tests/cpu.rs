use mos6502::cpu::CpuError;
use mos6502::cpu::CPU;

#[test]
fn test_0xa9_arg_non_zero() {
    let mut cpu = CPU::new();
    cpu.interpret(vec![0xa9, 0x04, 0x00]).unwrap();
    assert_eq!(cpu.pc, 3);
    assert_eq!(cpu.a, 0x04);
    assert_eq!(cpu.status, 0b0000_0000)
}

#[test]
fn test_0xa9_arg_zero() {
    let mut cpu = CPU::new();
    cpu.interpret(vec![0xa9, 0x00, 0x00]).unwrap();
    assert_eq!(cpu.pc, 3);
    assert_eq!(cpu.a, 0x00);
    assert_eq!(cpu.status, 0b0000_0010)
}

#[test]
fn test_0xa9_arg_negative() {
    let mut cpu = CPU::new();
    cpu.interpret(vec![0xa9, 0b1011_0010, 0x00]).unwrap();
    assert_eq!(cpu.pc, 3);
    assert_eq!(cpu.a, 0b1011_0010);
    assert_eq!(cpu.status, 0b1000_0000)
}

#[test]
fn test_0xaa() {
    let mut cpu = CPU::new();
    cpu.a = 0x06;
    cpu.interpret(vec![0xaa, 0x00]).unwrap();
    assert_eq!(cpu.pc, 2);
    assert_eq!(cpu.x, 0x06);
    assert_eq!(cpu.status, 0b0000_0000);
}

#[test]
fn test_0xe8() {
    let mut cpu = CPU::new();
    cpu.x = 3;
    cpu.interpret(vec![0xe8, 0x00]).unwrap();
    assert_eq!(cpu.pc, 2);
    assert_eq!(cpu.x, 4);
    assert_eq!(cpu.status, 0b0000_0000);
}

#[test]
fn test_0xe8_overflow() {
    let mut cpu = CPU::new();
    cpu.x = 0xff;
    cpu.interpret(vec![0xe8, 0x00]).unwrap();

    assert_eq!(cpu.x, 0)
}

#[test]
fn test_new_zeroed() {
    let cpu = CPU::new();
    assert_eq!(cpu.a, 0);
    assert_eq!(cpu.x, 0);
    assert_eq!(cpu.y, 0);
    assert_eq!(cpu.pc, 0);
    assert_eq!(cpu.sp, 0);
    assert_eq!(cpu.status, 0);
}

#[test]
fn test_flags_preserve_reserved_bits() {
    let mut cpu = CPU::new();
    cpu.status = 0b0100_0100;
    cpu.interpret(vec![0xa9, 0x00, 0x00]).unwrap();
    assert_eq!(cpu.status, 0b0100_0110);

    cpu.interpret(vec![0xa9, 0x90, 0x00]).unwrap();
    assert_eq!(cpu.status, 0b1100_0100);
}

#[test]
fn test_update_zero_and_negative_flags() {
    let mut cpu = CPU::new();
    cpu.status = 0b0101_0101;
    cpu.update_zero_and_negative_flags(0x00);
    assert_eq!(cpu.status, 0b0101_0111);

    cpu.update_zero_and_negative_flags(0x85);
    assert_eq!(cpu.status, 0b1101_0101);

    cpu.update_zero_and_negative_flags(0x31);
    assert_eq!(cpu.status, 0b0101_0101);
}

#[test]
fn test_lda_handler() {
    let mut cpu = CPU::new();
    cpu.lda(0x80);
    assert_eq!(cpu.a, 0x80);
    assert_eq!(cpu.status, 0b1000_0000);
}

#[test]
fn test_tax_flags_follow_accumulator() {
    let mut cpu = CPU::new();
    cpu.a = 0x80;
    cpu.x = 0x01;
    cpu.tax();
    assert_eq!(cpu.x, 0x80);
    assert_eq!(cpu.a, 0x80);
    assert_eq!(cpu.status, 0b1000_0000);
}

#[test]
fn test_inx_wraparound_cycle() {
    let mut cpu = CPU::new();
    cpu.x = 0xb3;
    let mut program = vec![0xe8u8; 256];
    program.push(0x00);
    cpu.interpret(program).unwrap();
    assert_eq!(cpu.x, 0xb3);
    assert_eq!(cpu.pc, 257);
}

#[test]
fn test_pc_counts_all_consumed_bytes() {
    let mut cpu = CPU::new();
    cpu.interpret(vec![0xa9, 0x01, 0xaa, 0xe8, 0xa9, 0x02, 0x00]).unwrap();
    assert_eq!(cpu.pc, 7);
    assert_eq!(cpu.a, 0x02);
    assert_eq!(cpu.x, 0x02);
    assert_eq!(cpu.status, 0b0000_0000);
}

#[test]
fn test_unknown_opcode() {
    let mut cpu = CPU::new();
    cpu.a = 0x11;
    cpu.x = 0x22;
    cpu.status = 0b0100_0000;
    assert_eq!(cpu.interpret(vec![0x02]), Err(CpuError::UnimplementedOpcode));
    assert_eq!(cpu.pc, 1);
    assert_eq!(cpu.a, 0x11);
    assert_eq!(cpu.x, 0x22);
    assert_eq!(cpu.status, 0b0100_0000);
}

#[test]
fn test_unknown_opcode_after_work() {
    let mut cpu = CPU::new();
    assert_eq!(
        cpu.interpret(vec![0xa9, 0x05, 0xff]),
        Err(CpuError::UnimplementedOpcode)
    );
    assert_eq!(cpu.pc, 3);
    assert_eq!(cpu.a, 0x05);
}

#[test]
fn test_out_of_bounds_empty_program() {
    let mut cpu = CPU::new();
    assert_eq!(cpu.interpret(vec![]), Err(CpuError::OutOfBounds));
    assert_eq!(cpu.pc, 0);
}

#[test]
fn test_out_of_bounds_missing_operand() {
    let mut cpu = CPU::new();
    assert_eq!(cpu.interpret(vec![0xa9]), Err(CpuError::OutOfBounds));
    assert_eq!(cpu.pc, 1);
    assert_eq!(cpu.a, 0);
}

#[test]
fn test_out_of_bounds_missing_halt() {
    let mut cpu = CPU::new();
    assert_eq!(cpu.interpret(vec![0xe8]), Err(CpuError::OutOfBounds));
    assert_eq!(cpu.pc, 1);
    assert_eq!(cpu.x, 1);
}

#[test]
fn test_registers_carry_over_between_runs() {
    let mut cpu = CPU::new();
    cpu.interpret(vec![0xa9, 0x07, 0x00]).unwrap();
    assert_eq!(cpu.a, 0x07);
    assert_eq!(cpu.pc, 3);

    cpu.interpret(vec![0xaa, 0x00]).unwrap();
    assert_eq!(cpu.x, 0x07);
    assert_eq!(cpu.pc, 2);
}
