use rust_ia64::cpu::instructions::system::{mov_from_cr, mov_to_cr};
use rust_ia64::cpu::instructions::{InstructionFields, RegisterType};
use rust_ia64::cpu::registers::CRIndex;
use rust_ia64::cpu::{Cpu, PSRFlags};
use rust_ia64::memory::Memory;

fn setup_test() -> (Cpu, Memory, InstructionFields) {
    let mut cpu = Cpu::new();
    let memory = Memory::new();

    // Initialize in privileged mode by default
    cpu.system_regs
        .cr
        .write(CRIndex::PSR, PSRFlags::SECURE.bits())
        .unwrap();

    let fields = InstructionFields {
        qp: 0,
        major_op: 0,
        sources: vec![RegisterType::GR(0)],
        destinations: vec![RegisterType::GR(0)],
        immediate: Some(PSRFlags::SECURE.bits() as i64),
        addressing: None,
    };
    (cpu, memory, fields)
}

#[test]
fn test_mov_to_cr() {
    let (mut cpu, _memory, fields) = setup_test();

    // Test moving a value to CR
    let test_value = 0x5678;
    cpu.gr[0] = test_value;
    mov_to_cr(&mut cpu, &fields).unwrap();
    assert_eq!(cpu.system_regs.cr.bits(), test_value);
}

#[test]
fn test_mov_from_cr() {
    let (mut cpu, _memory, fields) = setup_test();

    // Set up a test value in CR
    let test_value = 0x5678;
    cpu.system_regs.cr.update(|_| test_value);

    // Test moving from CR to GR
    mov_from_cr(&mut cpu, &fields).unwrap();
    assert_eq!(cpu.gr[0], test_value);
}
