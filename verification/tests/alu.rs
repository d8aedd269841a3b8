use rust_ia64::cpu::instructions::alu::{
    Add, And, Compare, CompareType, Extend, ExtensionSize, Merge, MinMax, MinMaxType, Or, ParallelAdd,
    ParallelSize, PopCount, SaturatingAdd, Shift, ShiftType, Sub, TestBit, Xor,
};
use rust_ia64::cpu::instructions::{Instruction, InstructionFields, RegisterType};
use rust_ia64::cpu::Cpu;
use rust_ia64::memory::{Memory, Permissions};

fn setup_test() -> (Cpu, Memory, InstructionFields) {
    let mut cpu = Cpu::new();
    let mut memory = Memory::new();
    memory.map(0x1000, 4096, Permissions::ReadWriteExecute).unwrap();

    // Initialize predicate registers
    cpu.set_pr(0, true).unwrap(); // Set p0 to true by default

    let fields = InstructionFields {
        qp: 0,
        major_op: 0,
        sources: vec![RegisterType::GR(1), RegisterType::GR(2)],
        destinations: vec![RegisterType::GR(3)],
        immediate: None,
        addressing: None,
    };
    (cpu, memory, fields)
}

#[test]
fn test_add() {
    let (mut cpu, mut memory, fields) = setup_test();
    let add = Add::new(fields);

    // Basic addition
    cpu.set_gr(1, 5).unwrap();
    cpu.set_gr(2, 3).unwrap();
    add.execute(&mut cpu, &mut memory).unwrap();
    assert_eq!(cpu.get_gr(3).unwrap(), 8);

    // Addition with overflow
    cpu.set_gr(1, u64::MAX).unwrap();
    cpu.set_gr(2, 1).unwrap();
    add.execute(&mut cpu, &mut memory).unwrap();
    assert_eq!(cpu.get_gr(3).unwrap(), 0);
}

#[test]
fn test_sub() {
    let (mut cpu, mut memory, fields) = setup_test();
    let sub = Sub::new(fields);

    // Basic subtraction
    cpu.set_gr(1, 10).unwrap();
    cpu.set_gr(2, 3).unwrap();
    sub.execute(&mut cpu, &mut memory).unwrap();
    assert_eq!(cpu.get_gr(3).unwrap(), 7);

    // Subtraction with underflow
    cpu.set_gr(1, 0).unwrap();
    cpu.set_gr(2, 1).unwrap();
    sub.execute(&mut cpu, &mut memory).unwrap();
    assert_eq!(cpu.get_gr(3).unwrap(), u64::MAX);
}

#[test]
fn test_and() {
    let (mut cpu, mut memory, fields) = setup_test();
    let and = And::new(fields);

    cpu.set_gr(1, 0xFF00).unwrap();
    cpu.set_gr(2, 0x0FF0).unwrap();
    and.execute(&mut cpu, &mut memory).unwrap();
    assert_eq!(cpu.get_gr(3).unwrap(), 0x0F00);
}

#[test]
fn test_or() {
    let (mut cpu, mut memory, fields) = setup_test();
    let or = Or::new(fields);

    cpu.set_gr(1, 0xFF00).unwrap();
    cpu.set_gr(2, 0x0FF0).unwrap();
    or.execute(&mut cpu, &mut memory).unwrap();
    assert_eq!(cpu.get_gr(3).unwrap(), 0xFFF0);
}

#[test]
fn test_xor() {
    let (mut cpu, mut memory, fields) = setup_test();
    let xor = Xor::new(fields);

    cpu.set_gr(1, 0xFF00).unwrap();
    cpu.set_gr(2, 0x0FF0).unwrap();
    xor.execute(&mut cpu, &mut memory).unwrap();
    assert_eq!(cpu.get_gr(3).unwrap(), 0xF0F0);
}

#[test]
fn test_compare() {
    let (mut cpu, mut memory, mut fields) = setup_test();
    fields.destinations = vec![RegisterType::PR(1)];

    // Test equal comparison
    let cmp_eq = Compare::new(fields.clone(), CompareType::Equal);
    cpu.set_gr(1, 5).unwrap();
    cpu.set_gr(2, 5).unwrap();
    cmp_eq.execute(&mut cpu, &mut memory).unwrap();
    assert!(cpu.get_pr(1).unwrap());

    // Test not equal comparison
    let cmp_ne = Compare::new(fields.clone(), CompareType::NotEqual);
    cpu.set_gr(2, 6).unwrap();
    cmp_ne.execute(&mut cpu, &mut memory).unwrap();
    assert!(cpu.get_pr(1).unwrap());

    // Test signed less than
    let cmp_lt = Compare::new(fields.clone(), CompareType::LessThan);
    cpu.set_gr(1, 0xFFFFFFFFFFFFFFFF).unwrap(); // -1 in two's complement
    cpu.set_gr(2, 0).unwrap();
    cmp_lt.execute(&mut cpu, &mut memory).unwrap();
    assert!(cpu.get_pr(1).unwrap());

    // Test unsigned less than
    let cmp_ltu = Compare::new(fields.clone(), CompareType::LessThanU);
    cpu.set_gr(1, 5).unwrap();
    cpu.set_gr(2, 10).unwrap();
    cmp_ltu.execute(&mut cpu, &mut memory).unwrap();
    assert!(cpu.get_pr(1).unwrap());
}

#[test]
fn test_test_bit() {
    let (mut cpu, mut memory, mut fields) = setup_test();
    fields.destinations = vec![RegisterType::PR(1)];
    let tbit = TestBit::new(fields);

    // Test bit set
    cpu.set_gr(1, 0x8).unwrap(); // 1000 in binary
    cpu.set_gr(2, 3).unwrap();   // Testing bit position 3
    tbit.execute(&mut cpu, &mut memory).unwrap();
    assert!(cpu.get_pr(1).unwrap());

    // Test bit clear
    cpu.set_gr(1, 0x8).unwrap(); // 1000 in binary
    cpu.set_gr(2, 2).unwrap();   // Testing bit position 2
    tbit.execute(&mut cpu, &mut memory).unwrap();
    assert!(!cpu.get_pr(1).unwrap());

    // Test invalid bit position
    cpu.set_gr(1, 0x8).unwrap();
    cpu.set_gr(2, 64).unwrap();  // Invalid bit position
    tbit.execute(&mut cpu, &mut memory).unwrap();
    assert!(!cpu.get_pr(1).unwrap());
}

#[test]
fn alu_test_predicated_execution() {
    let (mut cpu, mut memory, fields) = setup_test();
    let add = Add::new(fields);

    // Set predicate register to false
    cpu.set_pr(0, false).unwrap();

    // Set up registers
    cpu.set_gr(1, 5).unwrap();
    cpu.set_gr(2, 3).unwrap();
    cpu.set_gr(3, 0).unwrap();

    // Execute add - should not modify destination due to false predicate
    add.execute(&mut cpu, &mut memory).unwrap();
    assert_eq!(cpu.get_gr(3).unwrap(), 0);

    // Set predicate register to true
    cpu.set_pr(0, true).unwrap();

    // Execute add - should modify destination
    add.execute(&mut cpu, &mut memory).unwrap();
    assert_eq!(cpu.get_gr(3).unwrap(), 8);
}

#[test]
fn test_shift() {
    let (mut cpu, mut memory, mut fields) = setup_test();

    // Test left shift
    let shift_left = Shift::new(fields.clone(), ShiftType::Left);
    cpu.set_gr(1, 0x1).unwrap();
    cpu.set_gr(2, 4).unwrap();
    shift_left.execute(&mut cpu, &mut memory).unwrap();
    assert_eq!(cpu.get_gr(3).unwrap(), 0x10);

    // Test right arithmetic shift
    let shift_right = Shift::new(fields.clone(), ShiftType::RightArithmetic);
    cpu.set_gr(1, 0xF000000000000000).unwrap();
    cpu.set_gr(2, 4).unwrap();
    shift_right.execute(&mut cpu, &mut memory).unwrap();
    assert_eq!(cpu.get_gr(3).unwrap(), 0xFF00000000000000);

    // Test right logical shift
    let shift_logical = Shift::new(fields.clone(), ShiftType::RightLogical);
    cpu.set_gr(1, 0xF000000000000000).unwrap();
    cpu.set_gr(2, 4).unwrap();
    shift_logical.execute(&mut cpu, &mut memory).unwrap();
    assert_eq!(cpu.get_gr(3).unwrap(), 0x0F00000000000000);
}

#[test]
fn test_popcount() {
    let (mut cpu, mut memory, fields) = setup_test();

    let popcount = PopCount::new(fields);
    cpu.set_gr(1, 0x1234567890ABCDEF).unwrap();
    popcount.execute(&mut cpu, &mut memory).unwrap();
    assert_eq!(cpu.get_gr(3).unwrap(), 32); // 0x1234567890ABCDEF has 32 bits set
}

#[test]
fn test_parallel_add() {
    let (mut cpu, mut memory, fields) = setup_test();

    // Test byte parallel add
    let padd_byte = ParallelAdd::new(fields.clone(), ParallelSize::Byte);
    cpu.set_gr(1, 0x0102030405060708).unwrap();
    cpu.set_gr(2, 0x0807060504030201).unwrap();
    padd_byte.execute(&mut cpu, &mut memory).unwrap();
    assert_eq!(cpu.get_gr(3).unwrap(), 0x0909090909090909);

    // Test half-word parallel add
    let padd_half = ParallelAdd::new(fields.clone(), ParallelSize::Half);
    cpu.set_gr(1, 0x0001000200030004).unwrap();
    cpu.set_gr(2, 0x0004000300020001).unwrap();
    padd_half.execute(&mut cpu, &mut memory).unwrap();
    assert_eq!(cpu.get_gr(3).unwrap(), 0x0005000500050005);
}

#[test]
fn test_saturating_add() {
    let (mut cpu, mut memory, fields) = setup_test();

    // Test unsigned saturating add
    let sadd_u = SaturatingAdd::new(fields.clone(), false);
    cpu.set_gr(1, u64::MAX - 1).unwrap();
    cpu.set_gr(2, 5).unwrap();
    sadd_u.execute(&mut cpu, &mut memory).unwrap();
    assert_eq!(cpu.get_gr(3).unwrap(), u64::MAX);

    // Test signed saturating add
    let sadd_s = SaturatingAdd::new(fields.clone(), true);
    cpu.set_gr(1, 0x7FFFFFFFFFFFFFFF).unwrap(); // Max positive i64
    cpu.set_gr(2, 1).unwrap();
    sadd_s.execute(&mut cpu, &mut memory).unwrap();
    assert_eq!(cpu.get_gr(3).unwrap(), 0x7FFFFFFFFFFFFFFF);
}

#[test]
fn test_minmax() {
    let (mut cpu, mut memory, fields) = setup_test();

    // Test unsigned minimum
    let min_u = MinMax::new(fields.clone(), MinMaxType::MinU);
    cpu.set_gr(1, 5).unwrap();
    cpu.set_gr(2, 10).unwrap();
    min_u.execute(&mut cpu, &mut memory).unwrap();
    assert_eq!(cpu.get_gr(3).unwrap(), 5);

    // Test signed minimum with negative numbers
    let min_s = MinMax::new(fields.clone(), MinMaxType::MinS);
    cpu.set_gr(1, 0xFFFFFFFFFFFFFFFF).unwrap(); // -1 in two's complement
    cpu.set_gr(2, 5).unwrap();
    min_s.execute(&mut cpu, &mut memory).unwrap();
    assert_eq!(cpu.get_gr(3).unwrap(), 0xFFFFFFFFFFFFFFFF);

    // Test unsigned maximum
    let max_u = MinMax::new(fields.clone(), MinMaxType::MaxU);
    cpu.set_gr(1, 0xFFFFFFFFFFFFFFFF).unwrap();
    cpu.set_gr(2, 5).unwrap();
    max_u.execute(&mut cpu, &mut memory).unwrap();
    assert_eq!(cpu.get_gr(3).unwrap(), 0xFFFFFFFFFFFFFFFF);
}

#[test]
fn test_extend() {
    let (mut cpu, mut memory, fields) = setup_test();

    // Test zero extension
    let zext_byte = Extend::new(fields.clone(), ExtensionSize::Byte, false);
    cpu.set_gr(1, 0xFF80).unwrap();
    zext_byte.execute(&mut cpu, &mut memory).unwrap();
    assert_eq!(cpu.get_gr(3).unwrap(), 0x80);

    // Test sign extension
    let sext_byte = Extend::new(fields.clone(), ExtensionSize::Byte, true);
    cpu.set_gr(1, 0x80).unwrap();
    sext_byte.execute(&mut cpu, &mut memory).unwrap();
    assert_eq!(cpu.get_gr(3).unwrap(), 0xFFFFFFFFFFFFFF80);

    // Test half-word extension
    let sext_half = Extend::new(fields.clone(), ExtensionSize::Half, true);
    cpu.set_gr(1, 0x8000).unwrap();
    sext_half.execute(&mut cpu, &mut memory).unwrap();
    assert_eq!(cpu.get_gr(3).unwrap(), 0xFFFFFFFFFFFF8000);
}

#[test]
fn test_merge() {
    let (mut cpu, mut memory, mut fields) = setup_test();
    fields.immediate = Some(0xF0F0F0F0F0F0F0F0u64 as i64);

    let merge = Merge::new(fields);
    cpu.set_gr(1, 0xAAAAAAAAAAAAAAAA).unwrap();
    cpu.set_gr(2, 0x5555555555555555).unwrap();
    merge.execute(&mut cpu, &mut memory).unwrap();
    assert_eq!(cpu.get_gr(3).unwrap(), 0xA5A5A5A5A5A5A5A5);
}
