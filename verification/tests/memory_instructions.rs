use rust_ia64::cpu::instructions::memory::{
    CacheHint, Load, LoadSize, MemoryOrdering, MemorySpeculation, Prefetch, PrefetchType, Semaphore,
    SemaphoreOp, Store, StoreSize,
};
use rust_ia64::cpu::instructions::{AddressingMode, Instruction, InstructionFields, RegisterType};
use rust_ia64::cpu::Cpu;
use rust_ia64::memory::{Memory, Permissions};

fn setup_test() -> (Cpu, Memory, InstructionFields) {
    let mut cpu = Cpu::new();
    let mut memory = Memory::new();
    memory.map(0x1000, 4096, Permissions::ReadWriteExecute).unwrap();

    // Initialize predicate registers
    cpu.set_pr(0, true).unwrap(); // Set p0 to true by default

    let fields = InstructionFields {
        qp: 0,
        major_op: 0,
        sources: vec![RegisterType::GR(1)],
        destinations: vec![RegisterType::GR(2)],
        immediate: None,
        addressing: Some(AddressingMode::Absolute(0x1000)),
    };
    (cpu, memory, fields)
}

#[test]
fn test_load_completers() {
    let (mut cpu, mut memory, fields) = setup_test();

    // Test load with memory ordering completers
    let completers = Some(vec![
        "acq".to_string(),
        "nt1".to_string(),
        "s".to_string(),
    ]);

    let load = Load::from_decoded(fields.clone(), LoadSize::Double, completers);

    // Verify completer values
    assert!(matches!(load.ordering, MemoryOrdering::Acquire));
    assert!(matches!(load.cache_hint, CacheHint::NonTemporal1));
    assert!(matches!(load.speculation, MemorySpeculation::Speculative));

    // Test load with default completers
    let load = Load::from_decoded(fields.clone(), LoadSize::Double, None);

    // Verify default values
    assert!(matches!(load.ordering, MemoryOrdering::Unordered));
    assert!(matches!(load.cache_hint, CacheHint::Normal));
    assert!(matches!(load.speculation, MemorySpeculation::Normal));

    // Test load with mixed completers
    let completers = Some(vec![
        "fence".to_string(),
        "".to_string(), // Empty completer should be ignored
        "nta".to_string(),
    ]);

    let load = Load::from_decoded(fields, LoadSize::Double, completers);

    // Verify mixed values
    assert!(matches!(load.ordering, MemoryOrdering::Fence));
    assert!(matches!(load.cache_hint, CacheHint::NonTemporalAll));
    assert!(matches!(load.speculation, MemorySpeculation::Normal));
}

#[test]
fn test_store_completers() {
    let (mut cpu, mut memory, fields) = setup_test();

    // Test store with memory ordering completers
    let completers = Some(vec![
        "rel".to_string(),
        "bias".to_string(),
    ]);

    let store = Store::from_decoded(fields.clone(), StoreSize::Double, completers);

    // Verify completer values
    assert!(matches!(store.ordering, MemoryOrdering::Release));
    assert!(matches!(store.cache_hint, CacheHint::Bias));

    // Test store with default completers
    let store = Store::from_decoded(fields.clone(), StoreSize::Double, None);

    // Verify default values
    assert!(matches!(store.ordering, MemoryOrdering::Unordered));
    assert!(matches!(store.cache_hint, CacheHint::Normal));

    // Test store with mixed completers
    let completers = Some(vec![
        "fence".to_string(),
        "".to_string(), // Empty completer should be ignored
        "nt1".to_string(),
    ]);

    let store = Store::from_decoded(fields, StoreSize::Double, completers);

    // Verify mixed values
    assert!(matches!(store.ordering, MemoryOrdering::Fence));
    assert!(matches!(store.cache_hint, CacheHint::NonTemporal1));
}

#[test]
fn test_memory_speculation() {
    let (mut cpu, mut memory, fields) = setup_test();

    // Test advanced load
    let completers = Some(vec!["a".to_string()]);
    let load = Load::from_decoded(fields.clone(), LoadSize::Double, completers);

    // Write test value to memory
    memory.write_u64(0x1000, 0x1234_5678_9ABC_DEF0).unwrap();

    // Execute advanced load
    load.execute(&mut cpu, &mut memory).unwrap();

    // Verify ALAT entry was created and value was loaded
    assert!(cpu.alat_check_register(2, true));
    assert_eq!(cpu.get_gr(2).unwrap(), 0x1234_5678_9ABC_DEF0);

    // Test check load with clear
    let completers = Some(vec!["c.clr".to_string()]);
    let check_load = Load::from_decoded(fields.clone(), LoadSize::Double, completers);

    // Execute check load
    check_load.execute(&mut cpu, &mut memory).unwrap();

    // Verify ALAT entry was cleared
    assert!(!cpu.alat_check_register(2, true));

    // Test check load with no clear
    let completers = Some(vec!["c.nc".to_string()]);
    let check_load = Load::from_decoded(fields, LoadSize::Double, completers);

    // Add new ALAT entry
    cpu.alat_add_entry(0x1000, 8, 2, true).unwrap();

    // Execute check load
    check_load.execute(&mut cpu, &mut memory).unwrap();

    // Verify ALAT entry still exists
    assert!(cpu.alat_check_register(2, true));
}

#[test]
fn test_load_addressing_modes() {
    let (mut cpu, mut memory, mut fields) = setup_test();

    // Test indirect addressing
    fields.addressing = Some(AddressingMode::Indirect(3));
    let load = Load::new(fields.clone(), LoadSize::Double);
    cpu.set_gr(3, 0x1000).unwrap();
    load.execute(&mut cpu, &mut memory).unwrap();

    // Test indirect with offset
    fields.addressing = Some(AddressingMode::IndirectOffset(3, 8));
    let load = Load::new(fields.clone(), LoadSize::Double);
    cpu.set_gr(3, 0x1000).unwrap();
    load.execute(&mut cpu, &mut memory).unwrap();

    // Test indirect with index
    fields.addressing = Some(AddressingMode::IndirectIndex(3, 4));
    let load = Load::new(fields.clone(), LoadSize::Double);
    cpu.set_gr(3, 0x1000).unwrap();
    cpu.set_gr(4, 16).unwrap();
    load.execute(&mut cpu, &mut memory).unwrap();

    // Test absolute addressing
    fields.addressing = Some(AddressingMode::Absolute(0x1100));
    let load = Load::new(fields.clone(), LoadSize::Double);
    load.execute(&mut cpu, &mut memory).unwrap();
}

#[test]
fn test_store_addressing_modes() {
    let (mut cpu, mut memory, mut fields) = setup_test();

    // Test indirect addressing
    fields.addressing = Some(AddressingMode::Indirect(3));
    let store = Store::new(fields.clone(), StoreSize::Double);
    cpu.set_gr(3, 0x1000).unwrap();
    cpu.set_gr(1, 0x1234_5678).unwrap();
    store.execute(&mut cpu, &mut memory).unwrap();

    // Test indirect with offset
    fields.addressing = Some(AddressingMode::IndirectOffset(3, 8));
    let store = Store::new(fields.clone(), StoreSize::Double);
    cpu.set_gr(3, 0x1000).unwrap();
    store.execute(&mut cpu, &mut memory).unwrap();

    // Test indirect with index
    fields.addressing = Some(AddressingMode::IndirectIndex(3, 4));
    let store = Store::new(fields.clone(), StoreSize::Double);
    cpu.set_gr(3, 0x1000).unwrap();
    cpu.set_gr(4, 16).unwrap();
    store.execute(&mut cpu, &mut memory).unwrap();

    // Test absolute addressing
    fields.addressing = Some(AddressingMode::Absolute(0x1100));
    let store = Store::new(fields.clone(), StoreSize::Double);
    store.execute(&mut cpu, &mut memory).unwrap();
}

#[test]
fn test_load_sizes() {
    let (mut cpu, mut memory, mut fields) = setup_test();
    fields.addressing = Some(AddressingMode::Absolute(0x1000));

    // Test byte load
    let load = Load::new(fields.clone(), LoadSize::Byte);
    load.execute(&mut cpu, &mut memory).unwrap();

    // Test half word load
    let load = Load::new(fields.clone(), LoadSize::Half);
    load.execute(&mut cpu, &mut memory).unwrap();

    // Test word load
    let load = Load::new(fields.clone(), LoadSize::Word);
    load.execute(&mut cpu, &mut memory).unwrap();

    // Test double word load
    let load = Load::new(fields.clone(), LoadSize::Double);
    load.execute(&mut cpu, &mut memory).unwrap();
}

#[test]
fn test_store_sizes() {
    let (mut cpu, mut memory, mut fields) = setup_test();
    fields.addressing = Some(AddressingMode::Absolute(0x1000));

    // Test byte store
    let store = Store::new(fields.clone(), StoreSize::Byte);
    cpu.set_gr(1, 0xFF).unwrap();
    store.execute(&mut cpu, &mut memory).unwrap();

    // Test half word store
    let store = Store::new(fields.clone(), StoreSize::Half);
    cpu.set_gr(1, 0xFFFF).unwrap();
    store.execute(&mut cpu, &mut memory).unwrap();

    // Test word store
    let store = Store::new(fields.clone(), StoreSize::Word);
    cpu.set_gr(1, 0xFFFF_FFFF).unwrap();
    store.execute(&mut cpu, &mut memory).unwrap();

    // Test double word store
    let store = Store::new(fields.clone(), StoreSize::Double);
    cpu.set_gr(1, 0xFFFF_FFFF_FFFF_FFFF).unwrap();
    store.execute(&mut cpu, &mut memory).unwrap();
}

#[test]
fn test_predicated_memory_operations() {
    let (mut cpu, mut memory, mut fields) = setup_test();
    fields.qp = 1;
    fields.addressing = Some(AddressingMode::Absolute(0x1000));

    // Test load with false predicate
    let load = Load::new(fields.clone(), LoadSize::Double);
    cpu.set_pr(1, false).unwrap();
    load.execute(&mut cpu, &mut memory).unwrap();

    // Test store with false predicate
    let store = Store::new(fields.clone(), StoreSize::Double);
    cpu.set_pr(1, false).unwrap();
    store.execute(&mut cpu, &mut memory).unwrap();

    // Test load with true predicate
    cpu.set_pr(1, true).unwrap();
    load.execute(&mut cpu, &mut memory).unwrap();

    // Test store with true predicate
    store.execute(&mut cpu, &mut memory).unwrap();
}

#[test]
fn test_semaphore_xchg() {
    let (mut cpu, mut memory, mut fields) = setup_test();
    fields.addressing = Some(AddressingMode::Absolute(0x1000));

    // Write initial value to memory
    memory.write_u64(0x1000, 0x1234_5678_9ABC_DEF0).unwrap();

    // Set up exchange value in source register
    cpu.set_gr(1, 0xFFFF_FFFF_FFFF_FFFF).unwrap();

    // Create and execute xchg instruction
    let sem = Semaphore::new(fields.clone(), SemaphoreOp::Xchg, LoadSize::Double);
    sem.execute(&mut cpu, &mut memory).unwrap();

    // Verify exchange occurred
    assert_eq!(cpu.get_gr(2).unwrap(), 0x1234_5678_9ABC_DEF0); // Old value in destination
    assert_eq!(memory.read_u64(0x1000).unwrap(), 0xFFFF_FFFF_FFFF_FFFF); // New value in memory
}

#[test]
fn test_semaphore_cmpxchg() {
    let (mut cpu, mut memory, mut fields) = setup_test();
    fields.addressing = Some(AddressingMode::Absolute(0x1000));
    fields.sources.push(RegisterType::GR(3)); // Add compare register

    // Write initial value to memory
    memory.write_u64(0x1000, 0x1234_5678_9ABC_DEF0).unwrap();

    // Set up exchange value and compare value
    cpu.set_gr(1, 0xFFFF_FFFF_FFFF_FFFF).unwrap(); // New value
    cpu.set_gr(3, 0x1234_5678_9ABC_DEF0).unwrap(); // Compare value (matches)

    // Create and execute cmpxchg instruction
    let sem = Semaphore::new(fields.clone(), SemaphoreOp::Cmpxchg, LoadSize::Double);
    sem.execute(&mut cpu, &mut memory).unwrap();

    // Verify exchange occurred
    assert_eq!(cpu.get_gr(2).unwrap(), 0x1234_5678_9ABC_DEF0); // Current value in destination
    assert_eq!(memory.read_u64(0x1000).unwrap(), 0xFFFF_FFFF_FFFF_FFFF); // New value in memory

    // Test failed compare
    memory.write_u64(0x1000, 0x1234_5678_9ABC_DEF0).unwrap();
    cpu.set_gr(3, 0xAAAA_BBBB_CCCC_DDDD).unwrap(); // Compare value (doesn't match)

    sem.execute(&mut cpu, &mut memory).unwrap();

    // Verify no exchange occurred
    assert_eq!(cpu.get_gr(2).unwrap(), 0x1234_5678_9ABC_DEF0); // Current value in destination
    assert_eq!(memory.read_u64(0x1000).unwrap(), 0x1234_5678_9ABC_DEF0); // Value unchanged in memory
}

#[test]
fn test_semaphore_fetchadd() {
    let (mut cpu, mut memory, mut fields) = setup_test();
    fields.addressing = Some(AddressingMode::Absolute(0x1000));

    // Write initial value to memory
    memory.write_u64(0x1000, 0x1000).unwrap();

    // Set up increment value
    cpu.set_gr(1, 0x10).unwrap();

    // Create and execute fetchadd instruction
    let sem = Semaphore::new(fields.clone(), SemaphoreOp::Fetchadd, LoadSize::Double);
    sem.execute(&mut cpu, &mut memory).unwrap();

    // Verify fetch and add occurred
    assert_eq!(cpu.get_gr(2).unwrap(), 0x1000); // Old value in destination
    assert_eq!(memory.read_u64(0x1000).unwrap(), 0x1010); // New value in memory
}

#[test]
fn test_semaphore_completers() {
    let (mut cpu, mut memory, fields) = setup_test();

    // Test semaphore with memory ordering completers
    let completers = Some(vec![
        "acq".to_string(),
        "nt1".to_string(),
    ]);

    let sem = Semaphore::from_decoded(fields.clone(), SemaphoreOp::Xchg, LoadSize::Double, completers);

    // Verify completer values
    assert!(matches!(sem.ordering, MemoryOrdering::Acquire));
    assert!(matches!(sem.cache_hint, CacheHint::NonTemporal1));

    // Test semaphore with default completers
    let sem = Semaphore::from_decoded(fields.clone(), SemaphoreOp::Xchg, LoadSize::Double, None);

    // Verify default values
    assert!(matches!(sem.ordering, MemoryOrdering::Unordered));
    assert!(matches!(sem.cache_hint, CacheHint::Normal));

    // Test semaphore with mixed completers
    let completers = Some(vec![
        "rel".to_string(),
        "".to_string(), // Empty completer should be ignored
        "nta".to_string(),
    ]);

    let sem = Semaphore::from_decoded(fields, SemaphoreOp::Xchg, LoadSize::Double, completers);

    // Verify mixed values
    assert!(matches!(sem.ordering, MemoryOrdering::Release));
    assert!(matches!(sem.cache_hint, CacheHint::NonTemporalAll));
}

#[test]
fn test_prefetch() {
    let (mut cpu, mut memory, mut fields) = setup_test();
    fields.addressing = Some(AddressingMode::Absolute(0x1000));

    // Test normal prefetch
    let prefetch = Prefetch::new(fields.clone(), PrefetchType::Normal);
    prefetch.execute(&mut cpu, &mut memory).unwrap();

    // Test fault prefetch with valid address
    let prefetch = Prefetch::new(fields.clone(), PrefetchType::Fault);
    prefetch.execute(&mut cpu, &mut memory).unwrap();

    // Test fault prefetch with invalid address
    fields.addressing = Some(AddressingMode::Absolute(0x2000)); // Unmapped address
    let prefetch = Prefetch::new(fields.clone(), PrefetchType::Fault);
    assert!(prefetch.execute(&mut cpu, &mut memory).is_err());

    // Test exclusive prefetch
    fields.addressing = Some(AddressingMode::Absolute(0x1000));
    let prefetch = Prefetch::new(fields.clone(), PrefetchType::Exclusive);
    prefetch.execute(&mut cpu, &mut memory).unwrap();

    // Test write back prefetch
    let prefetch = Prefetch::new(fields.clone(), PrefetchType::WriteBack);
    prefetch.execute(&mut cpu, &mut memory).unwrap();
}

#[test]
fn test_prefetch_completers() {
    let (mut cpu, mut memory, fields) = setup_test();

    // Test prefetch with cache hint completers
    let completers = Some(vec![
        "nt1".to_string(),
    ]);

    let prefetch = Prefetch::from_decoded(fields.clone(), PrefetchType::Normal, completers);

    // Verify completer values
    assert!(matches!(prefetch.cache_hint, CacheHint::NonTemporal1));

    // Test prefetch with default completers
    let prefetch = Prefetch::from_decoded(fields.clone(), PrefetchType::Normal, None);

    // Verify default values
    assert!(matches!(prefetch.cache_hint, CacheHint::Normal));

    // Test prefetch with mixed completers
    let completers = Some(vec![
        "".to_string(), // Empty completer should be ignored
        "nta".to_string(),
    ]);

    let prefetch = Prefetch::from_decoded(fields, PrefetchType::Normal, completers);

    // Verify mixed values
    assert!(matches!(prefetch.cache_hint, CacheHint::NonTemporalAll));
}

#[test]
fn test_prefetch_addressing_modes() {
    let (mut cpu, mut memory, mut fields) = setup_test();

    // Test indirect addressing
    fields.addressing = Some(AddressingMode::Indirect(3));
    let prefetch = Prefetch::new(fields.clone(), PrefetchType::Normal);
    cpu.set_gr(3, 0x1000).unwrap();
    prefetch.execute(&mut cpu, &mut memory).unwrap();

    // Test indirect with offset
    fields.addressing = Some(AddressingMode::IndirectOffset(3, 8));
    let prefetch = Prefetch::new(fields.clone(), PrefetchType::Normal);
    cpu.set_gr(3, 0x1000).unwrap();
    prefetch.execute(&mut cpu, &mut memory).unwrap();

    // Test indirect with index
    fields.addressing = Some(AddressingMode::IndirectIndex(3, 4));
    let prefetch = Prefetch::new(fields.clone(), PrefetchType::Normal);
    cpu.set_gr(3, 0x1000).unwrap();
    cpu.set_gr(4, 16).unwrap();
    prefetch.execute(&mut cpu, &mut memory).unwrap();

    // Test absolute addressing
    fields.addressing = Some(AddressingMode::Absolute(0x1100));
    let prefetch = Prefetch::new(fields.clone(), PrefetchType::Normal);
    prefetch.execute(&mut cpu, &mut memory).unwrap();
}
