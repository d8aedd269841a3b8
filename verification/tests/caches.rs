use rust_ia64::cpu::instructions::memory::{
    Load, LoadSize, Prefetch, PrefetchType, Store, StoreSize,
};
use rust_ia64::cpu::instructions::{AddressingMode, Instruction, InstructionFields, RegisterType};
use rust_ia64::cpu::rse::RSE;
use rust_ia64::cpu::Cpu;
use rust_ia64::memory::{CacheHint, CacheLevel, CacheLineState, Memory, Permissions};

fn line_state(level: &CacheLevel, addr: u64) -> Option<CacheLineState> {
    let (tag, set, _) = level.decompose_address(addr);
    level.sets[set]
        .lines
        .iter()
        .find(|l| l.state != CacheLineState::Invalid && l.tag == tag)
        .map(|l| l.state)
}

fn valid_lines(level: &CacheLevel) -> usize {
    level
        .sets
        .iter()
        .map(|s| s.lines.iter().filter(|l| l.state != CacheLineState::Invalid).count())
        .sum()
}

fn mapped() -> Memory {
    let mut memory = Memory::new();
    memory.map(0x1000, 0x1000, Permissions::ReadWrite).unwrap();
    memory
}

fn at(addr: u64) -> InstructionFields {
    InstructionFields {
        qp: 0,
        major_op: 0,
        sources: vec![RegisterType::GR(1)],
        destinations: vec![RegisterType::GR(3)],
        immediate: None,
        addressing: Some(AddressingMode::Absolute(addr)),
    }
}

#[test]
fn a_block_store_leaves_the_line_of_each_byte_in_every_level() {
    let mut memory = mapped();
    // eight bytes over the end of a 64-byte line
    memory.write_u64(0x103C, 0x1122_3344_5566_7788).unwrap();
    for level in [&memory.l1_cache, &memory.l2_cache] {
        assert_eq!(line_state(level, 0x103C), Some(CacheLineState::Modified));
        assert_eq!(line_state(level, 0x1040), Some(CacheLineState::Modified));
        assert_eq!(valid_lines(level), 2);
    }
    // the third level has lines of 128 bytes: one line holds all eight
    assert_eq!(line_state(&memory.l3_cache, 0x103C), Some(CacheLineState::Modified));
    assert_eq!(valid_lines(&memory.l3_cache), 1);
    assert_eq!(memory.read_u64(0x103C).unwrap(), 0x1122_3344_5566_7788);

    let mut memory = mapped();
    memory.write_u16(0x10BF, 0xABCD).unwrap();
    assert_eq!(line_state(&memory.l1_cache, 0x10BF), Some(CacheLineState::Modified));
    assert_eq!(line_state(&memory.l1_cache, 0x10C0), Some(CacheLineState::Modified));
    assert_eq!(valid_lines(&memory.l1_cache), 2);

    let mut memory = mapped();
    memory.write_u32(0x1100, 0xDEAD_BEEF).unwrap();
    assert_eq!(line_state(&memory.l1_cache, 0x1103), Some(CacheLineState::Modified));
    assert_eq!(valid_lines(&memory.l1_cache), 1);

    let mut memory = mapped();
    memory.write(0x1200, &[1, 2, 3]).unwrap();
    assert_eq!(line_state(&memory.l2_cache, 0x1202), Some(CacheLineState::Modified));
    memory.write_to_caches(0x1300, &[4, 5]).unwrap();
    assert_eq!(line_state(&memory.l2_cache, 0x1301), Some(CacheLineState::Modified));
    assert_eq!(valid_lines(&memory.l2_cache), 2);
    // a block of no bytes changes nothing
    memory.write_to_caches(0x1800, &[]).unwrap();
    assert_eq!(valid_lines(&memory.l2_cache), 2);
}

#[test]
fn a_store_that_stops_leaves_the_lines_of_the_bytes_it_stored() {
    let mut memory = mapped();
    // the region ends at 0x2000: two bytes are stored, the third is refused
    assert!(memory.write_bytes(0x1FFE, &[7, 8, 9]).is_err());
    assert_eq!(line_state(&memory.l1_cache, 0x1FFF), Some(CacheLineState::Modified));
    assert_eq!(valid_lines(&memory.l1_cache), 1);
    assert_eq!(memory.read_u16(0x1FFE).unwrap(), 0x0807);
    // a block store that cannot go through touches no line
    let mut memory = mapped();
    assert!(memory.write_u64(0x1FFC, 1).is_err());
    assert_eq!(valid_lines(&memory.l1_cache), 0);
    assert_eq!(valid_lines(&memory.l3_cache), 0);
}

#[test]
fn a_store_drops_the_line_from_a_bypassed_level() {
    let mut memory = mapped();
    memory.write_u8(0x1000, 1).unwrap();
    memory.write_u8(0x1080, 2).unwrap();
    assert_eq!(valid_lines(&memory.l1_cache), 2);
    memory.set_cache_hints(CacheHint::NonTemporal1);
    memory.write_u32(0x1000, 0x0403_0201).unwrap();
    // the line that was stored to is gone from the first level, the other stays
    assert_eq!(line_state(&memory.l1_cache, 0x1000), None);
    assert_eq!(line_state(&memory.l1_cache, 0x1080), Some(CacheLineState::Modified));
    assert_eq!(line_state(&memory.l2_cache, 0x1000), Some(CacheLineState::Modified));
    memory.set_cache_hints(CacheHint::Normal);
    assert_eq!(memory.read_u32(0x1000).unwrap(), 0x0403_0201);
}

#[test]
fn a_block_load_fills_the_line_of_each_byte() {
    let mut memory = mapped();
    assert_eq!(memory.read_u32(0x103E).unwrap(), 0);
    assert_eq!(line_state(&memory.l1_cache, 0x103E), Some(CacheLineState::Exclusive));
    assert_eq!(line_state(&memory.l1_cache, 0x1040), Some(CacheLineState::Exclusive));
    assert_eq!(valid_lines(&memory.l1_cache), 2);
    assert_eq!(valid_lines(&memory.l3_cache), 1);
    // a load that stops has filled the lines of the bytes before
    let mut memory = mapped();
    assert!(memory.read_u64(0x1FFC).is_err());
    assert_eq!(line_state(&memory.l1_cache, 0x1FFF), Some(CacheLineState::Exclusive));
    assert_eq!(valid_lines(&memory.l1_cache), 1);
    let mut buffer = [0u8; 4];
    let mut memory = mapped();
    memory.read_bytes(0x1100, &mut buffer).unwrap();
    assert_eq!(valid_lines(&memory.l2_cache), 1);
    assert_eq!(memory.load(0x1200, 0).unwrap(), Vec::<u8>::new());
    assert_eq!(valid_lines(&memory.l2_cache), 1);
    // a speculative load makes the same lookups and is logged
    let mut memory = mapped();
    memory.track_speculative_load(0x1400, 8).unwrap();
    assert_eq!(line_state(&memory.l1_cache, 0x1407), Some(CacheLineState::Exclusive));
    assert_eq!((valid_lines(&memory.l1_cache), memory.speculative_loads.len()), (1, 1));
}

#[test]
fn memory_instructions_leave_their_lines_in_the_caches() {
    let mut cpu = Cpu::new();
    cpu.set_pr(0, true).unwrap();
    cpu.set_gr(1, 0x0102_0304_0506_0708).unwrap();
    let mut memory = mapped();
    Prefetch::new(at(0x1234), PrefetchType::Normal).execute(&mut cpu, &mut memory).unwrap();
    assert_eq!(line_state(&memory.l1_cache, 0x1234), Some(CacheLineState::Exclusive));
    assert_eq!(valid_lines(&memory.l1_cache), 1);
    // a prefetch of what cannot be read leaves the caches alone
    Prefetch::new(at(0x8000), PrefetchType::Normal).execute(&mut cpu, &mut memory).unwrap();
    assert!(Prefetch::new(at(0x8000), PrefetchType::Fault).execute(&mut cpu, &mut memory).is_err());
    assert_eq!(valid_lines(&memory.l1_cache), 1);
    assert_eq!(valid_lines(&memory.l3_cache), 1);

    Store::new(at(0x1400), StoreSize::Double).execute(&mut cpu, &mut memory).unwrap();
    assert_eq!(line_state(&memory.l1_cache, 0x1407), Some(CacheLineState::Modified));
    Load::new(at(0x1800), LoadSize::Word).execute(&mut cpu, &mut memory).unwrap();
    assert_eq!(line_state(&memory.l1_cache, 0x1803), Some(CacheLineState::Exclusive));
    assert_eq!(valid_lines(&memory.l1_cache), 3);
    // an instruction whose predicate is false touches nothing
    let mut off = at(0x1C00);
    off.qp = 5;
    Store::new(off.clone(), StoreSize::Double).execute(&mut cpu, &mut memory).unwrap();
    Load::new(off, LoadSize::Double).execute(&mut cpu, &mut memory).unwrap();
    assert_eq!(valid_lines(&memory.l1_cache), 3);
}

#[test]
fn a_spill_and_a_fill_go_through_the_caches() {
    let mut memory = mapped();
    let mut rse = RSE::new();
    rse.bspstore = 0x11F0;
    rse.bsp = 0x11F0;
    rse.rnat = 0xAAAA;
    rse.invalid_count = 2;
    rse.allocate_registers(&mut memory, 2).unwrap();
    rse.spill_registers(&mut memory, 2).unwrap();
    // the slots at 0x11F0 and 0x11F8, the collection at 0x1200
    assert_eq!(line_state(&memory.l1_cache, 0x11F0), Some(CacheLineState::Modified));
    assert_eq!(line_state(&memory.l1_cache, 0x1200), Some(CacheLineState::Modified));
    assert_eq!(valid_lines(&memory.l1_cache), 2);
    assert_eq!(memory.read_u64(0x1200).unwrap(), 0xAAAA);
    assert_eq!(rse.bspstore, 0x1208);

    let mut memory = mapped();
    let mut rse = RSE::new();
    rse.bsp = 0x13F8;
    rse.invalid_count = 1;
    rse.fill_registers(&mut memory, 1).unwrap();
    assert_eq!(line_state(&memory.l1_cache, 0x13F8), Some(CacheLineState::Exclusive));
    assert_eq!(line_state(&memory.l1_cache, 0x1400), Some(CacheLineState::Exclusive));
    assert_eq!(valid_lines(&memory.l1_cache), 2);
}

#[test]
fn unmapping_invalidates_the_lines_and_keeps_their_tags() {
    let mut memory = mapped();
    memory.write_u8(0x1040, 9).unwrap();
    let (tag, set, _) = memory.l1_cache.decompose_address(0x1040);
    let way = memory.l1_cache.sets[set].lines.iter().position(|l| l.tag == tag && l.state != CacheLineState::Invalid).unwrap();
    let stamp = memory.l1_cache.sets[set].lines[way].last_access;
    let counter = memory.l1_cache.sets[set].access_counter;
    assert!(memory.unmap(0x5000).is_err());
    assert_eq!(valid_lines(&memory.l1_cache), 1);
    memory.unmap(0x1000).unwrap();
    assert_eq!(valid_lines(&memory.l1_cache) + valid_lines(&memory.l2_cache) + valid_lines(&memory.l3_cache), 0);
    let line = &memory.l1_cache.sets[set].lines[way];
    assert_eq!((line.tag, line.last_access, line.state), (tag, stamp, CacheLineState::Invalid));
    assert_eq!(memory.l1_cache.sets[set].access_counter, counter);
}
