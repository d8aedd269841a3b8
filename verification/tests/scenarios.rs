use rust_ia64::cpu::alat::ALAT;
use rust_ia64::cpu::instructions::alu::{Add, Compare, CompareType, PopCount};
use rust_ia64::cpu::instructions::memory::{Load, LoadSize, Store, StoreSize};
use rust_ia64::cpu::instructions::{AddressingMode, Instruction, InstructionFields, RegisterType};
use rust_ia64::cpu::rse::RSE;
use rust_ia64::cpu::Cpu;
use rust_ia64::memory::{Memory, Permissions};

fn fields(qp: u8) -> InstructionFields {
    InstructionFields {
        qp,
        major_op: 0,
        sources: vec![RegisterType::GR(1), RegisterType::GR(2)],
        destinations: vec![RegisterType::GR(3)],
        immediate: None,
        addressing: None,
    }
}

#[test]
fn add_of_two_registers() {
    let mut cpu = Cpu::new();
    let mut memory = Memory::new();
    cpu.set_pr(0, true).unwrap();
    cpu.set_gr(1, 5).unwrap();
    cpu.set_gr(2, 3).unwrap();
    Add::new(fields(0)).execute(&mut cpu, &mut memory).unwrap();
    assert_eq!(cpu.get_gr(3).unwrap(), 8);
}

#[test]
fn signed_compare_of_minus_one_and_zero() {
    let mut cpu = Cpu::new();
    let mut memory = Memory::new();
    cpu.set_pr(0, true).unwrap();
    cpu.set_gr(1, 0xFFFF_FFFF_FFFF_FFFF).unwrap();
    cpu.set_gr(2, 0).unwrap();
    let mut f = fields(0);
    f.destinations = vec![RegisterType::PR(1)];
    Compare::new(f.clone(), CompareType::LessThan).execute(&mut cpu, &mut memory).unwrap();
    assert!(cpu.get_pr(1).unwrap());
    // read as unsigned numbers the order is the other way round
    Compare::new(f, CompareType::LessThanU).execute(&mut cpu, &mut memory).unwrap();
    assert!(!cpu.get_pr(1).unwrap());
}

#[test]
fn a_false_predicate_suppresses_every_write() {
    let mut cpu = Cpu::new();
    let mut memory = Memory::new();
    memory.map(0x1000, 0x100, Permissions::ReadWrite).unwrap();
    memory.write_u64(0x1000, 0x1111).unwrap();
    cpu.set_pr(1, false).unwrap();
    cpu.set_gr(1, 5).unwrap();
    cpu.set_gr(2, 3).unwrap();
    cpu.set_gr(3, 0xDEAD).unwrap();

    Add::new(fields(1)).execute(&mut cpu, &mut memory).unwrap();
    assert_eq!(cpu.get_gr(3).unwrap(), 0xDEAD);
    PopCount::new(fields(1)).execute(&mut cpu, &mut memory).unwrap();
    assert_eq!(cpu.get_gr(3).unwrap(), 0xDEAD);

    let mut f = fields(1);
    f.addressing = Some(AddressingMode::Absolute(0x1000));
    Load::new(f.clone(), LoadSize::Double).execute(&mut cpu, &mut memory).unwrap();
    assert_eq!(cpu.get_gr(3).unwrap(), 0xDEAD);
    Store::new(f.clone(), StoreSize::Double).execute(&mut cpu, &mut memory).unwrap();
    assert_eq!(memory.read_u64(0x1000).unwrap(), 0x1111);

    // not even a fault is raised: the operands are not looked at
    let mut broken = fields(1);
    broken.sources = vec![RegisterType::BR(200)];
    broken.destinations = vec![];
    assert!(Add::new(broken).execute(&mut cpu, &mut memory).is_ok());

    // with the predicate set, the same instructions write
    cpu.set_pr(1, true).unwrap();
    Add::new(fields(1)).execute(&mut cpu, &mut memory).unwrap();
    assert_eq!(cpu.get_gr(3).unwrap(), 8);
    Store::new(f, StoreSize::Double).execute(&mut cpu, &mut memory).unwrap();
    assert_eq!(memory.read_u64(0x1000).unwrap(), 5);
}

#[test]
fn a_store_over_two_granules() {
    let mut alat = ALAT::new();
    alat.add_entry(0x1000, 8, 32, true).unwrap();
    alat.add_entry(0x1010, 8, 33, true).unwrap();
    // the store covers the granules at 0x1008 and 0x1010
    alat.invalidate_overlap(0x1008, 16);
    assert!(alat.check_register(32, true));
    assert!(!alat.check_register(33, true));
    alat.add_entry(0x1020, 8, 34, true).unwrap();
    assert!(alat.check_register(34, true));
    // a store that reaches into the granule at 0x1000 invalidates its entry
    alat.invalidate_overlap(0x1007, 16);
    assert!(!alat.check_register(32, true));
    assert!(alat.check_register(34, true));
}

#[test]
fn a_double_word_in_little_endian_order() {
    let mut mem = Memory::new();
    mem.map(0x1000, 0x1000, Permissions::ReadWrite).unwrap();
    mem.write_u64(0x1000, 0x0123_4567_89AB_CDEF).unwrap();
    assert_eq!(mem.read_u64(0x1000).unwrap(), 0x0123_4567_89AB_CDEF);
    assert_eq!(mem.read_u8(0x1000).unwrap(), 0xEF);
    assert_eq!(mem.read_u8(0x1007).unwrap(), 0x01);
    assert_eq!(mem.read_u16(0x1000).unwrap(), 0xCDEF);
    assert_eq!(mem.read_u32(0x1004).unwrap(), 0x0123_4567);
}

#[test]
fn a_spill_across_a_group_boundary() {
    let mut memory = Memory::new();
    memory.map(0x1000, 0x1000, Permissions::ReadWrite).unwrap();

    // 63 registers fill the slots before the last slot of the group
    let mut rse = RSE::new();
    rse.dirty_count = 63;
    rse.bspstore = 0x1000;
    rse.spill_registers(&mut memory, 63).unwrap();
    assert_eq!(rse.bspstore, 0x1000 + 63 * 8);
    assert_eq!((rse.dirty_count, rse.clean_count), (0, 63));

    // the 64th register takes the last slot, and the collection word follows it
    let mut rse = RSE::new();
    rse.dirty_count = 64;
    rse.bspstore = 0x1000;
    rse.rnat = 0xFEED_FACE_CAFE_BEEF;
    memory.write_u64(0x11F8, u64::MAX).unwrap();
    rse.spill_registers(&mut memory, 64).unwrap();
    assert_eq!(rse.bspstore, 0x1000 + 64 * 8 + 8);
    assert_eq!(memory.read_u64(0x11F8).unwrap(), 0);
    assert_eq!(memory.read_u64(0x1200).unwrap(), 0xFEED_FACE_CAFE_BEEF);
    assert_eq!((rse.dirty_count, rse.clean_count), (0, 64));
}
