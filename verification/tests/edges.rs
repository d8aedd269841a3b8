use rust_ia64::cpu::alat::{EntryState, ALAT};
use rust_ia64::cpu::instructions::alu::{
    Deposit, Extract, MinMax, MinMaxType, ParallelAdd, ParallelSize, RotateMask,
};
use rust_ia64::cpu::instructions::branch::{
    Branch, BranchImportance, BranchPrediction, BranchRSE, BranchRegisters, BranchType,
};
use rust_ia64::cpu::instructions::float::{FAdd, FDiv};
use rust_ia64::cpu::instructions::register::{BankSwitch, Rotate};
use rust_ia64::cpu::instructions::speculation::{
    AdvancedLoad, CheckLoad, ClearAlat, RecoveryBranch, StoreUpdate,
};
use rust_ia64::cpu::instructions::system::{
    mov_from_psr, mov_to_psr, rsm, rum, ssm, sum, xum, Break, MoveFromPsr, MoveToPsr, Rfi,
    PSR_USER_MASK,
};
use rust_ia64::cpu::instructions::{AddressingMode, Instruction, InstructionFields, RegisterType};
use rust_ia64::cpu::interrupts::{InterruptController, InterruptState, InterruptVector};
use rust_ia64::cpu::registers::dbr::{BreakAccessType, BreakFields};
use rust_ia64::cpu::registers::ddr::DataFields;
use rust_ia64::cpu::registers::pkr::KeyFields;
use rust_ia64::cpu::registers::rr::RegionFields;
use rust_ia64::cpu::registers::{ARFile, CRIndex, DBRFile, DDRFile, PKRFile, RRFile, AR};
use rust_ia64::cpu::rse::{BackingStore, RSEConfig, RSEMode, RSE};
use rust_ia64::cpu::syscall::{SyscallHandler, SyscallManager, SyscallNumber, SyscallRegistry};
use rust_ia64::cpu::{make_frame, Cpu, PSRFlags, ProcessorState, PSR};
use rust_ia64::decoder::instruction_format::{AFormat, BFormat, FFormat, IFormat, LFormat, MFormat, XFormat};
use rust_ia64::decoder::{Bundle, Decoder, InstructionType};
use rust_ia64::memory::{CacheLevel, CacheLine, CacheLineState, Memory, Permissions, SpeculativeStatus};
use rust_ia64::EmulatorError;

fn fields() -> InstructionFields {
    InstructionFields {
        qp: 0,
        major_op: 0,
        sources: vec![RegisterType::GR(1), RegisterType::GR(2)],
        destinations: vec![RegisterType::GR(3)],
        immediate: None,
        addressing: None,
    }
}

fn ready() -> (Cpu, Memory) {
    let mut cpu = Cpu::new();
    cpu.set_pr(0, true).unwrap();
    let mut memory = Memory::new();
    memory.map(0x1000, 0x1000, Permissions::ReadWriteExecute).unwrap();
    (cpu, memory)
}

#[test]
fn error_messages() {
    assert_eq!(EmulatorError::ExecutionError("x".to_string()).message(), "Execution error: x");
    assert_eq!(EmulatorError::DecodeError("y".to_string()).message(), "Decode error: y");
    assert_eq!(EmulatorError::MemoryError("z".to_string()).message(), "Memory error: z");
    assert_eq!(EmulatorError::CpuStateError("s".to_string()).message(), "CPU state error: s");
    assert_eq!(EmulatorError::RegisterError("r".to_string()).message(), "Register error: r");
    assert_eq!(EmulatorError::RSEError("e".to_string()).message(), "RSE error: e");
    assert_eq!(EmulatorError::InvalidAlignment.message(), "Invalid alignment");
    assert_eq!(EmulatorError::MemoryOverlap.message(), "Memory overlap");
    assert_eq!(EmulatorError::InvalidSyscall.message(), "Invalid syscall");
    assert_eq!(EmulatorError::NoSyscallContext.message(), "No syscall context");
    assert_eq!(EmulatorError::PrivilegeViolation.message(), "Privilege violation");
}

#[test]
fn every_kind_of_error_has_its_cause() {
    let (mut cpu, mut memory) = ready();
    // execution error
    let mut alat = ALAT::new();
    assert!(matches!(
        alat.update_entry_state(1, true, EntryState::Invalid),
        Err(EmulatorError::ExecutionError(_))
    ));
    // decode error
    let mut data = [0u8; 16];
    data[0] = 0x1F;
    assert!(matches!(Bundle::new(data), Err(EmulatorError::DecodeError(_))));
    // memory error
    assert!(matches!(memory.read_u8(0x9000), Err(EmulatorError::MemoryError(_))));
    // processor state error
    assert!(matches!(cpu.get_gr(128), Err(EmulatorError::CpuStateError(_))));
    assert!(matches!(cpu.set_pr(64, true), Err(EmulatorError::CpuStateError(_))));
    assert!(matches!(cpu.get_br(8), Err(EmulatorError::CpuStateError(_))));
    assert!(matches!(cpu.set_fr(128, 0), Err(EmulatorError::CpuStateError(_))));
    assert!(matches!(cpu.update_frame_markers(3, 4, 1), Err(EmulatorError::CpuStateError(_))));
    // invalid system call
    assert!(matches!(cpu.do_syscall(9999), Err(EmulatorError::InvalidSyscall)));
    assert!(matches!(cpu.do_syscall(SyscallNumber::Fork.number()), Err(EmulatorError::InvalidSyscall)));
    // no system call context
    let mut manager = SyscallManager::new();
    assert!(matches!(manager.end_syscall(&mut cpu), Err(EmulatorError::NoSyscallContext)));
    // register error
    assert!(matches!(RRFile::new().read(8), Err(EmulatorError::RegisterError(_))));
    assert!(matches!(
        ARFile::new().write(AR::CPUID2, 1),
        Err(EmulatorError::RegisterError(_))
    ));
    // register stack engine error
    let mut rse = RSE::new();
    assert!(matches!(rse.spill_registers(&mut memory, 1), Err(EmulatorError::RSEError(_))));
    assert!(matches!(rse.fill_registers(&mut memory, 1), Err(EmulatorError::RSEError(_))));
    assert!(matches!(rse.allocate_registers(&mut memory, 1), Err(EmulatorError::RSEError(_))));
    rse.invalid_count = u32::MAX;
    assert!(matches!(rse.deallocate_registers(&mut memory, 1), Err(EmulatorError::RSEError(_))));
    // privilege violation
    assert!(matches!(
        MoveToPsr::new(fields()).execute(&mut cpu),
        Err(EmulatorError::PrivilegeViolation)
    ));
}

#[test]
fn permissions_form_a_lattice() {
    let none = Permissions::NoAccess;
    let r = Permissions::Read;
    let rw = Permissions::ReadWrite;
    let rx = Permissions::ReadExecute;
    let rwx = Permissions::ReadWriteExecute;
    for a in [none, r, rw, rx, rwx] {
        assert!(a.contains(a));
        assert!(a.contains(none));
        assert!(rwx.contains(a));
    }
    assert!(rw.contains(r));
    assert!(rx.contains(r));
    assert!(!rw.contains(rx));
    assert!(!rx.contains(rw));
    assert!(!r.contains(rw));
    assert!(!none.contains(r));
    assert!(!none.can_read());
    assert!(rx.can_execute() && !rx.can_write());
}

#[test]
fn regions_do_not_overlap() {
    let mut mem = Memory::new();
    mem.map(0x2000, 0x1000, Permissions::Read).unwrap();
    // every way of overlapping is refused
    assert!(mem.map(0x2000, 0x1000, Permissions::Read).is_err());
    assert!(mem.map(0x1800, 0x1000, Permissions::Read).is_err());
    assert!(mem.map(0x2800, 0x1000, Permissions::Read).is_err());
    assert!(mem.map(0x1000, 0x3000, Permissions::Read).is_err());
    assert!(mem.map(0x2100, 0x10, Permissions::Read).is_err());
    // neighbours are fine
    assert!(mem.map(0x1000, 0x1000, Permissions::ReadWrite).is_ok());
    assert!(mem.map(0x3000, 0x1000, Permissions::ReadWrite).is_ok());
    // a region cannot reach past the end of the address space
    assert!(mem.map(u64::MAX - 0xFF, 0x200, Permissions::Read).is_err());
    assert!(mem.map(u64::MAX - 0xFF, 0x100, Permissions::ReadWrite).is_ok());
    mem.write_u8(u64::MAX, 0x5A).unwrap();
    assert_eq!(mem.read_u8(u64::MAX).unwrap(), 0x5A);
    assert!(mem.read_u16(u64::MAX).is_err());
    // unmapping goes by the base address only
    assert!(mem.unmap(0x2001).is_err());
    assert!(mem.unmap(0x2000).is_ok());
    assert!(mem.unmap(0x2000).is_err());
    assert_eq!(mem.find_region(0x1234).unwrap().base, 0x1000);
    assert!(mem.find_region(0x2000).is_err());
}

#[test]
fn wide_accesses_at_region_boundaries() {
    let mut mem = Memory::new();
    mem.map(0x1000, 0x10, Permissions::ReadWrite).unwrap();
    mem.map(0x1010, 0x10, Permissions::ReadWrite).unwrap();
    mem.map(0x1020, 0x10, Permissions::Read).unwrap();
    // byte-wise accesses cross into a neighbour
    mem.write_u16(0x100F, 0xA1B2).unwrap();
    assert_eq!(mem.read_u16(0x100F).unwrap(), 0xA1B2);
    mem.write_u32(0x100E, 0x0102_0304).unwrap();
    assert_eq!(mem.read_u32(0x100E).unwrap(), 0x0102_0304);
    // a double word is stored as one block in one region
    assert!(mem.write_u64(0x100C, 1).is_err());
    assert_eq!(mem.read_u32(0x100E).unwrap(), 0x0102_0304);
    assert!(mem.write_u64(0x1008, 0x1122_3344_5566_7788).is_ok());
    // but it is loaded byte by byte
    assert_eq!(mem.read_u64(0x100C).unwrap() & 0xFFFF_FFFF, 0x1122_3344);
    // a byte-wise store stops at the first byte that refuses it
    assert!(mem.write_u32(0x101E, 0xAABB_CCDD).is_err());
    assert_eq!(mem.read_u16(0x101E).unwrap(), 0xCCDD);
    assert_eq!(mem.read_u8(0x1020).unwrap(), 0);
    // a load that runs off the mapped memory fails
    assert!(mem.read_u64(0x102C).is_err());
    let mut buffer = vec![0xFFu8; 4];
    assert!(mem.read_bytes(0x102E, &mut buffer).is_err());
    assert_eq!(buffer, vec![0, 0, 0xFF, 0xFF]);
    let mut buffer = vec![0u8; 4];
    mem.write_bytes(0x1000, &[1, 2, 3, 4]).unwrap();
    mem.read_bytes(0x1000, &mut buffer).unwrap();
    assert_eq!(buffer, vec![1, 2, 3, 4]);
}

#[test]
fn the_speculative_log_keeps_every_attempt() {
    let mut mem = Memory::new();
    mem.map(0x1000, 0x100, Permissions::ReadWrite).unwrap();
    mem.write_u32(0x1010, 0x0A0B_0C0D).unwrap();
    assert_eq!(mem.track_speculative_load(0x1010, 4).unwrap(), SpeculativeStatus::Success);
    assert_eq!(mem.speculative_loads[0].data, vec![0x0D, 0x0C, 0x0B, 0x0A]);
    assert_eq!(mem.track_speculative_load(0x10FE, 4).unwrap(), SpeculativeStatus::Failed);
    assert!(mem.speculative_loads[1].data.is_empty());
    // the oldest entry of an address is the one that counts
    assert_eq!(mem.track_speculative_load(0x1010, 1).unwrap(), SpeculativeStatus::Success);
    mem.cancel_speculative_load(0x1010);
    assert_eq!(mem.check_speculative_load(0x1010), Some(SpeculativeStatus::Cancelled));
    assert_eq!(mem.speculative_loads[2].status, SpeculativeStatus::Success);
    mem.cancel_speculative_load(0x5555);
    assert_eq!(mem.check_speculative_load(0x5555), None);
    assert_eq!(mem.speculative_loads.len(), 3);
}

#[test]
fn cache_geometry() {
    let mem = Memory::new();
    assert_eq!((mem.l1_cache.num_sets, mem.l1_cache.line_bits, mem.l1_cache.set_bits), (64, 6, 6));
    assert_eq!((mem.l2_cache.num_sets, mem.l2_cache.line_bits, mem.l2_cache.set_bits), (512, 6, 9));
    assert_eq!((mem.l3_cache.num_sets, mem.l3_cache.line_bits, mem.l3_cache.set_bits), (4096, 7, 12));
    assert_eq!(mem.l3_cache.sets[7].lines.len(), 12);
    assert_eq!(mem.l3_cache.sets[7].lines[11].data.len(), 128);
    assert_eq!(mem.l1_cache.decompose_address(0x12345), (0x12, 0x0D, 0x05));
    assert_eq!(mem.l1_cache.compose_address(0x12, 0x0D), 0x12340);
    assert_eq!(mem.l3_cache.decompose_address(0xABCDE_F123), (0x1579B, 0xDE2, 0x23));
    assert_eq!(mem.l3_cache.compose_address(0x1579B, 0xDE2), 0xABCDE_F100);
    assert_eq!(mem.l2_cache.get_tag(0xFFFF_FFFF_FFFF_FFFF), 0xFFFF_FFFF_FFFF_FFFF >> 15);
    assert_eq!(mem.l2_cache.get_set_index(0xFFFF_FFFF_FFFF_FFFF), 511);
    assert_eq!(mem.l2_cache.get_offset(0xFFFF_FFFF_FFFF_FFFF), 63);
    let level = CacheLevel::new(1024, 2, 32);
    assert_eq!((level.num_sets, level.associativity, level.line_size), (16, 2, 32));
    let line = CacheLine::new(3, 16);
    assert_eq!((line.tag, line.data.len(), line.state, line.last_access), (3, 16, CacheLineState::Invalid, 0));
}

#[test]
fn the_least_recently_used_line_is_replaced() {
    let mut mem = Memory::new();
    mem.map(0, 0x10_0000, Permissions::ReadWrite).unwrap();
    // nine lines of one L1 set: the stride is the set count times the line size
    let stride = 64 * 64;
    for i in 0..8u64 {
        mem.write_u8(i * stride, i as u8 + 1).unwrap();
    }
    assert!(mem.l1_cache.sets[0].lines.iter().all(|l| l.state == CacheLineState::Modified));
    // use line 0 again, so that line 1 is the oldest
    assert_eq!(mem.read_u8(0).unwrap(), 1);
    mem.write_u8(8 * stride, 9).unwrap();
    let tags: Vec<u64> = mem.l1_cache.sets[0].lines.iter().map(|l| l.tag).collect();
    assert!(tags.contains(&0));
    assert!(!tags.contains(&1));
    assert!(tags.contains(&8));
    // whatever was evicted is still read correctly
    for i in 0..9u64 {
        assert_eq!(mem.read_u8(i * stride).unwrap(), i as u8 + 1);
    }
    // an installed line holds the bytes of the whole line
    mem.write_u8(0x40, 0xAA).unwrap();
    mem.l1_cache.discard(0x40);
    mem.l2_cache.discard(0x40);
    mem.l3_cache.discard(0x40);
    mem.write_u8(0x41, 0xBB).unwrap();
    assert_eq!(mem.read_u8(0x40).unwrap(), 0xAA);
    mem.flush_all_caches().unwrap();
    assert!(mem.l1_cache.sets.iter().all(|s| s.lines.iter().all(|l| l.state != CacheLineState::Modified)));
}

#[test]
fn register_field_layouts() {
    let key = KeyFields { key: 0xDEAD_BEEF, v: true, wd: false, rd: true, xd: false };
    assert_eq!(key.to_bits(), 0xDEAD_BEEF | (1 << 32) | (1 << 34));
    assert_eq!(KeyFields::from_bits(key.to_bits()), key);
    assert!(key.can_write() && key.can_execute() && !key.can_read());

    let region = RegionFields::from_bits(0xC5FF_0000_0000_1234);
    assert_eq!(region.rid, 0x05FF_0000_0000_1234);
    assert_eq!(region.ps, 0xC5);
    assert!(region.ve);
    assert_eq!(RegionFields { rid: 7, ps: 0x0C, ve: false }.to_bits(), 7 | (0x0C << 56));

    let brk = BreakFields::from_bits(0xFFFF_FFFF_FFFF_FFFF);
    assert_eq!(brk.addr, 0x0000_FFFF_FFFF_F000);
    assert_eq!((brk.mask, brk.plm), (0xFF, 0xF));
    assert!(brk.r && brk.w && brk.x && brk.ig);
    let brk = BreakFields { addr: 0x1234_5000, mask: 0, r: true, w: false, x: false, plm: 0b0101, ig: false };
    assert_eq!(brk.to_bits(), 0x1234_5000 | (1 << 56) | (0b0101 << 59));
    assert!(brk.matches(0x1234_5000, 0, BreakAccessType::Read));
    assert!(brk.matches(0x1234_5000, 2, BreakAccessType::Read));
    assert!(!brk.matches(0x1234_5000, 1, BreakAccessType::Read));
    assert!(!brk.matches(0x1234_5000, 9, BreakAccessType::Read));
    assert!(!brk.matches(0x1234_5000, 0, BreakAccessType::Write));
    assert!(!brk.matches(0x1234_5008, 0, BreakAccessType::Read));
    let masked = BreakFields { mask: 0xFF, ..brk };
    assert!(masked.matches(0x00AB_0000_1234_5000, 0, BreakAccessType::Read));

    let data = DataFields::from_bits(0xAB12_3456_789A_BCDE);
    assert_eq!((data.data, data.mask), (0x0012_3456_789A_BCDE, 0xAB));
    assert_eq!(data.to_bits(), 0xAB12_3456_789A_BCDE);
    assert!(DataFields { data: 0x42, mask: 0 }.matches(0x42));
    assert!(!DataFields { data: 0x42, mask: 0 }.matches(0x0100_0000_0000_0042));
    assert!(DataFields { data: 0x42, mask: 0x01 }.matches(0x0100_0000_0000_0042));

    assert_eq!(make_frame(10, 6, 2), 10 | (6 << 7) | (2 << 14));
    assert_eq!(PSRFlags::IC.bits() | PSRFlags::I.bits() | PSRFlags::PME.bits() | PSRFlags::BE.bits() | PSRFlags::UM.bits(), PSR_USER_MASK);
    assert_eq!((PSRFlags::DD.bits(), PSRFlags::ID.bits()), (1 << 39, 1 << 40));
    let mut psr = PSR::empty();
    psr.set(PSRFlags::RSE, true);
    psr.set(PSRFlags::DFLT, true);
    psr.set(PSRFlags::RSE, false);
    assert_eq!(psr.bits(), 0x10);
    assert!(psr.contains(PSRFlags::DFLT) && !psr.contains(PSRFlags::IFLT));
    assert_eq!(PSR::from_bits_truncate(5).bits(), 5);
}

#[test]
fn register_files() {
    let mut ar = ARFile::new();
    ar.write(AR::RSC, 1).unwrap();
    ar.write(AR::BSP, 2).unwrap();
    ar.write(AR::UNAT, 3).unwrap();
    ar.write(AR::FPSR, 4).unwrap();
    assert_eq!((ar.get_rse_config(), ar.get_bsp(), ar.get_unat(), ar.get_fpsr()), (1, 2, 3, 4));
    assert_eq!(ar.read(AR::BSP).unwrap(), 2);
    assert_eq!(ar.read(AR::CPUID1).unwrap(), 0);
    assert_eq!(AR::from_bits(44), Some(AR::ITC));
    assert_eq!(AR::from_bits(81), Some(AR::PFD17));
    assert_eq!(AR::from_bits(100), Some(AR::CPUID4));
    for bits in [0u8, 8, 20, 64, 82, 88, 96, 101, 255] {
        assert_eq!(AR::from_bits(bits), None);
    }
    assert_eq!(AR::KR7.index(), 7);
    assert_eq!(CRIndex::from_bits(81), Some(CRIndex::LRR1));
    assert_eq!(CRIndex::from_bits(3), None);
    assert_eq!(CRIndex::CMCV.index(), 74);

    let mut rr = RRFile::new();
    rr.set_rid(3, 0x1234).unwrap();
    rr.set_ps(3, 12).unwrap();
    rr.set_enabled(3, true).unwrap();
    assert_eq!((rr.get_rid(3).unwrap(), rr.get_ps(3).unwrap(), rr.is_enabled(3).unwrap()), (0x8C00_0000_0000_1234 & 0x3FFF_FFFF_FFFF_FFFF, 0x8C, true));
    assert!(rr.set_rid(8, 0).is_err());

    let mut pkr = PKRFile::new();
    for i in 0..16u32 {
        pkr.add_key(100 + i, false, i == 1, false).unwrap();
    }
    assert!(pkr.add_key(999, false, false, false).is_err());
    assert_eq!(pkr.find_key(103), Some(3));
    assert_eq!(pkr.find_key(999), None);
    assert!(pkr.check_read(100) && !pkr.check_read(101) && pkr.check_write(101));
    pkr.invalidate(103).unwrap();
    assert_eq!(pkr.find_key(103), None);
    assert!(!pkr.check_execute(103));
    pkr.add_key(999, true, false, true).unwrap();
    assert_eq!(pkr.find_key(999), Some(3));
    assert!(pkr.check_read(999) && !pkr.check_write(999) && !pkr.check_execute(999));
    assert!(pkr.read(16).is_err());

    let mut dbr = DBRFile::new();
    for _ in 0..8 {
        dbr.set_break(0x4000, 0, false, true, false, 0b1).unwrap();
    }
    assert!(dbr.set_break(0x4000, 0, true, false, false, 1).is_err());
    assert!(dbr.check_break(0x4000, 0, BreakAccessType::Write));
    assert!(!dbr.check_break(0x4000, 0, BreakAccessType::Execute));
    dbr.clear_break(2).unwrap();
    dbr.set_break(0x8000, 0, false, false, true, 0b10).unwrap();
    assert_eq!(dbr.read(2).unwrap().addr, 0x8000);
    assert!(dbr.check_break(0x8000, 1, BreakAccessType::Execute));
    assert!(dbr.clear_break(8).is_err());

    let mut ddr = DDRFile::new();
    assert!(ddr.check_match(0));
    for i in 0..8u64 {
        ddr.set_match(0x10 + i, 1).unwrap();
    }
    assert!(ddr.set_match(1, 1).is_err());
    assert!(ddr.check_match(0x12) && !ddr.check_match(0x20));
    ddr.clear_match(5).unwrap();
    ddr.set_match(0x99, 2).unwrap();
    assert_eq!(ddr.read(5).unwrap().data, 0x99);
    assert!(ddr.clear_match(8).is_err());
}

#[test]
fn alat_keeps_one_entry_to_a_register() {
    let mut alat = ALAT::new();
    alat.add_entry(0x1000, 8, 5, true).unwrap();
    alat.add_entry(0x2000, 4, 5, false).unwrap();
    alat.add_entry(0x3000, 2, 5, true).unwrap();
    assert_eq!(alat.entries.len(), 2);
    assert_eq!(alat.get_entry_info(5, true), Some((0x3000, 2, EntryState::Valid)));
    assert_eq!(alat.get_entry_info(5, false), Some((0x2000, 4, EntryState::Valid)));
    assert_eq!(alat.entries[0].register, 5);
    assert!(!alat.entries[0].is_integer);
    alat.invalidate_register(5, true);
    assert_eq!(alat.get_entry_info(5, true).unwrap().2, EntryState::Invalid);
    assert!(alat.check_register(5, false));
    alat.remove_entry(5, false);
    assert_eq!(alat.entries.len(), 1);
    assert_eq!(alat.valid_entries(), 0);
    // a store of no bytes touches nothing, a store at the top of the address space does not wrap
    alat.add_entry(u64::MAX - 3, 4, 9, true).unwrap();
    alat.invalidate_overlap(u64::MAX - 3, 0);
    assert!(alat.check_register(9, true));
    assert!(!alat.check_address(0, 8));
    assert!(alat.check_address(u64::MAX, u64::MAX));
    alat.invalidate_overlap(0, 16);
    assert!(alat.check_register(9, true));
    alat.invalidate_overlap(u64::MAX - 7, 1);
    assert!(!alat.check_register(9, true));
}

#[test]
fn engine_spills_and_fills() {
    let mut memory = Memory::new();
    memory.map(0x1000, 0x1000, Permissions::ReadWrite).unwrap();
    let mut rse = RSE::new();
    rse.dirty_count = 3;
    rse.bspstore = 0x1FF0;
    // the collection word after the second register is refused: one register is spilled,
    // and the second is in memory without having been counted
    memory.write_u64(0x1FF8, u64::MAX).unwrap();
    assert!(rse.spill_registers(&mut memory, 3).is_err());
    assert_eq!((rse.bspstore, rse.dirty_count, rse.clean_count), (0x1FF8, 2, 1));
    assert_eq!(memory.read_u64(0x1FF8).unwrap(), 0);
    assert!(rse.flush(&mut memory).is_err());

    let mut rse = RSE::new();
    rse.invalid_count = 70;
    rse.bsp = 0x1000;
    memory.write_u64(0x1200, 0x1234).unwrap();
    rse.fill_registers(&mut memory, 64).unwrap();
    assert_eq!((rse.bsp, rse.rnat, rse.invalid_count, rse.clean_count), (0x1208, 0x1234, 6, 64));
    rse.invalidate();
    assert_eq!((rse.invalid_count, rse.clean_count), (70, 0));
    rse.bsp = 0x1FF8;
    assert!(rse.fill_registers(&mut memory, 2).is_err());
    assert_eq!((rse.bsp, rse.invalid_count, rse.clean_count), (0x1FF8, 70, 0));

    let store = BackingStore::new(0x100, 0x20);
    assert_eq!((store.base, store.top, store.limit), (0x100, 0x100, 0x120));
    let mut store = store;
    assert!(!store.is_full());
    store.advance(0x18).unwrap();
    assert_eq!(store.available_space(), 8);
    assert!(store.advance(9).is_err());
    store.advance(8).unwrap();
    assert!(store.is_full());
}

#[test]
fn deallocation_by_mode() {
    let mut memory = Memory::new();
    memory.map(0x1000, 0x1000, Permissions::ReadWrite).unwrap();
    let config = |mode| RSEConfig { mode, ..RSEConfig::default() };

    let mut rse = RSE::new();
    (rse.dirty_count, rse.clean_count, rse.bspstore) = (5, 5, 0x1000);
    rse.deallocate_registers(&mut memory, 8).unwrap();
    assert_eq!((rse.dirty_count, rse.clean_count, rse.invalid_count, rse.bspstore), (0, 2, 8, 0x1000));

    let mut rse = RSE::new();
    rse.set_config(config(RSEMode::Eager));
    (rse.dirty_count, rse.clean_count, rse.bspstore) = (5, 5, 0x1000);
    rse.deallocate_registers(&mut memory, 8).unwrap();
    assert_eq!((rse.dirty_count, rse.clean_count, rse.invalid_count, rse.bspstore), (0, 7, 8, 0x1028));

    let mut rse = RSE::new();
    rse.set_config(config(RSEMode::Eager));
    (rse.dirty_count, rse.clean_count, rse.bspstore) = (5, 5, 0x1000);
    rse.deallocate_registers(&mut memory, 2).unwrap();
    assert_eq!((rse.dirty_count, rse.clean_count, rse.invalid_count, rse.bspstore), (3, 7, 2, 0x1010));

    let mut rse = RSE::new();
    rse.set_config(config(RSEMode::Enforced));
    (rse.dirty_count, rse.clean_count, rse.bspstore) = (5, 5, 0x1000);
    rse.deallocate_registers(&mut memory, 2).unwrap();
    assert_eq!((rse.dirty_count, rse.clean_count, rse.invalid_count, rse.bspstore), (0, 10, 2, 0x1028));

    let mut rse = RSE::new();
    rse.set_config(config(RSEMode::Enforced));
    (rse.dirty_count, rse.clean_count, rse.bspstore) = (5, 5, 0x1000);
    rse.deallocate_registers(&mut memory, 8).unwrap();
    assert_eq!((rse.dirty_count, rse.clean_count, rse.invalid_count, rse.bspstore), (0, 7, 8, 0x1028));
}

#[test]
fn frames_grow_and_shrink() {
    let (mut cpu, mut memory) = ready();
    cpu.rse.invalid_count = 96;
    cpu.branch_with_alloc(&mut memory, 10, 6, 2).unwrap();
    assert_eq!(cpu.cfm, 10 | (6 << 7) | (2 << 14));
    assert_eq!((cpu.rse.dirty_count, cpu.rse.invalid_count), (10, 86));
    cpu.branch_with_alloc(&mut memory, 4, 4, 0).unwrap();
    assert_eq!(cpu.cfm, 4 | (4 << 7));
    assert_eq!((cpu.rse.dirty_count, cpu.rse.invalid_count), (4, 92));
    assert!(cpu.branch_with_alloc(&mut memory, 4, 5, 0).is_err());
    assert!(cpu.branch_with_alloc(&mut memory, 127, 0, 0).is_err());
    assert_eq!(cpu.cfm, 4 | (4 << 7));
    cpu.pfs = 20 | (8 << 7) | (8 << 14);
    cpu.handle_return(&mut memory).unwrap();
    assert_eq!(cpu.cfm, cpu.pfs);
    assert_eq!((cpu.rse.dirty_count, cpu.rse.invalid_count), (0, 96));
    cpu.pfs = 1 | (2 << 7);
    assert!(cpu.handle_return(&mut memory).is_err());
    cpu.update_frame_markers(9, 9, 9).unwrap();
    assert_eq!(cpu.cfm, 9 | (9 << 7) | (9 << 14));
    cpu.rse.dirty_count = 2;
    cpu.rse.bspstore = 0x1000;
    cpu.flush_rse(&mut memory).unwrap();
    assert_eq!((cpu.get_rse_bspstore(), cpu.rse.dirty_count, cpu.rse.clean_count), (0x1010, 0, 2));
    cpu.allocate_registers(&mut memory, 3).unwrap();
    cpu.deallocate_registers(&mut memory, 1).unwrap();
    assert_eq!((cpu.rse.dirty_count, cpu.rse.clean_count, cpu.rse.invalid_count), (2, 0, 96));
    assert_eq!((cpu.get_rse_bsp(), cpu.get_rse_rnat()), (0, 0));
}

#[test]
fn processor_state() {
    let (mut cpu, _) = ready();
    cpu.set_fr(2, 1.5f64.to_bits()).unwrap();
    assert_eq!(f64::from_bits(cpu.get_fr(2).unwrap()), 1.5);
    cpu.set_br(7, 0x40).unwrap();
    cpu.alat_add_entry(0x100, 8, 3, true).unwrap();
    assert!(cpu.alat_check_register(3, true));
    assert_eq!(cpu.alat_get_entry_info(3, true), Some((0x100, 8, EntryState::Valid)));
    cpu.alat_invalidate_overlap(0x100, 1);
    cpu.alat_purge_old_entries();
    assert_eq!(cpu.alat.entries.len(), 0);
    cpu.alat_add_entry(0x100, 8, 3, true).unwrap();
    cpu.alat_remove_entry(3, true);
    cpu.alat_add_entry(0x100, 8, 3, true).unwrap();
    cpu.alat_clear();
    assert_eq!(cpu.alat.valid_entries(), 0);

    cpu.system_regs.pkr.add_key(7, true, false, false).unwrap();
    assert!(cpu.check_protection_key(7, true, false, true));
    assert!(!cpu.check_protection_key(7, true, true, false));
    assert!(cpu.check_protection_key(8, false, false, false));
    assert!(!cpu.check_protection_key(8, true, false, false));
    cpu.system_regs.dbr.set_break(0x2000, 0, true, false, false, 1).unwrap();
    assert!(cpu.check_breakpoint(0x2000, 0, BreakAccessType::Read));
    assert!(cpu.check_data_match(0));
    cpu.system_regs.rr.write(5, RegionFields { rid: 0x77, ps: 14, ve: true }).unwrap();
    let addr = 5u64 << 61 | 0x1234;
    assert_eq!(cpu.get_region_id(addr).unwrap(), 0x8E00_0000_0000_0077 & 0x3FFF_FFFF_FFFF_FFFF);
    assert_eq!(cpu.get_page_size(addr).unwrap(), 0x8E);
    assert!(cpu.is_region_enabled(addr).unwrap());
    assert!(!cpu.is_region_enabled(0).unwrap());

    let state = ProcessorState { gr: [3; 128], fr: [4; 128], pr: [true; 64], br: [5; 8], ip: 0x600, cfm: 7, psr: 0x2 };
    cpu.restore_state(&state).unwrap();
    assert_eq!((cpu.gr[1], cpu.fr[127], cpu.pr[63], cpu.br[7], cpu.ip, cpu.cfm, cpu.get_psr()), (3, 4, true, 5, 0x600, 7, 2));
    assert_eq!((cpu.gr[0], cpu.get_gr(0).unwrap(), cpu.get_gr(127).unwrap()), (0, 0, 3));
    cpu.set_gr(0, 7).unwrap();
    assert_eq!(cpu.get_gr(0).unwrap(), 0);
    cpu.reset().unwrap();
    assert_eq!((cpu.gr[0], cpu.fr[127], cpu.pr[63], cpu.br[7], cpu.ip, cpu.cfm, cpu.get_psr()), (0, 0, false, 0, 0, 0, 0));
    cpu.set_gr(4, 4).unwrap();
    cpu.raise_interrupt(InterruptVector::BreakFault, 1);
    cpu.init().unwrap();
    assert_eq!((cpu.gr[4], cpu.get_isr(), cpu.interrupt_nesting_level()), (0, 0, 0));
    assert!(cpu.current_interrupt().is_none() && cpu.get_syscall_context().is_none());
    let config = RSEConfig { mode: RSEMode::Enforced, ..RSEConfig::default() };
    cpu.set_rse_config(config);
    assert_eq!(cpu.get_rse_config(), config);
}

#[test]
fn interrupts_through_the_processor() {
    let mut cpu = Cpu::new();
    cpu.register_interrupt_handler(InterruptVector::ExtInt, 0x9000, 0).unwrap();
    cpu.register_interrupt_handler(InterruptVector::FPTrap, 0xA000, 3).unwrap();
    cpu.ip = 0x100;
    // nothing is delivered while interrupts are off
    cpu.raise_interrupt(InterruptVector::DebugFault, 0);
    assert_eq!(cpu.check_interrupts(), None);
    cpu.clear_pending_interrupts();
    cpu.set_interrupts_enabled(true);
    assert_eq!(cpu.get_psr(), PSRFlags::I.bits());
    cpu.raise_interrupt(InterruptVector::ExtInt, 11);
    assert_eq!(cpu.check_interrupts(), Some(0x9000));
    assert_eq!(cpu.get_psr(), PSRFlags::IC.bits());
    assert_eq!(cpu.current_interrupt().unwrap().info, 11);
    assert_eq!(cpu.current_interrupt().unwrap().psr, PSRFlags::I.bits());
    assert_eq!(cpu.interrupt_nesting_level(), 1);
    cpu.ip = 0x9000;
    cpu.return_from_interrupt().unwrap();
    assert_eq!((cpu.ip, cpu.get_psr(), cpu.interrupt_nesting_level()), (0x100, PSRFlags::I.bits(), 0));
    assert!(cpu.return_from_interrupt().is_err());
    // a handler that asks for more privilege than the interrupt has drops it
    cpu.raise_interrupt(InterruptVector::FPTrap, 0);
    assert_eq!(cpu.check_interrupts(), None);
    assert!(cpu.interrupt_ctrl.pending.is_empty());
    cpu.raise_interrupt(InterruptVector::DebugFault, 0);
    cpu.clear_pending_interrupts();
    assert_eq!(cpu.check_interrupts(), None);

    // an interrupt that was current and is taken up again after a return is put back when another comes
    let mut controller = InterruptController::new();
    controller.register_handler(InterruptVector::ExtInt, 0x1000, 0).unwrap();
    controller.register_handler(InterruptVector::DebugFault, 0x2000, 0).unwrap();
    controller.set_interrupts_enabled(true);
    let state = |vector| InterruptState { vector, ip: 0, psr: 0, bundle: [0; 16], info: 0 };
    controller.raise_interrupt(state(InterruptVector::ExtInt));
    controller.raise_interrupt(state(InterruptVector::DebugFault));
    assert_eq!(controller.check_interrupts(), Some(0x2000));
    assert_eq!(controller.return_from_interrupt(), Some(0x1000));
    assert_eq!(controller.nesting_level(), 0);
    controller.raise_interrupt(state(InterruptVector::DebugFault));
    assert_eq!(controller.check_interrupts(), Some(0x2000));
    assert_eq!(controller.pending.len(), 1);
    assert_eq!(controller.pending[0].vector, InterruptVector::ExtInt);
    controller.table.set_handler_enabled(InterruptVector::ExtInt, false).unwrap();
    assert_eq!(controller.return_from_interrupt(), None);
    assert!(controller.current_interrupt().is_none() && controller.pending.is_empty());
}

#[test]
fn system_calls() {
    let mut cpu = Cpu::new();
    for (i, reg) in (32..40).enumerate() {
        cpu.gr[reg] = 100 + i as u64;
    }
    cpu.gr[9] = 55;
    cpu.do_syscall(SyscallNumber::GetPid.number()).unwrap();
    assert_eq!((cpu.gr[8], cpu.gr[9]), (1, 0));
    cpu.do_syscall(4).unwrap();
    assert_eq!((cpu.gr[8], cpu.gr[9]), (102, 0));
    cpu.register_syscall_handler(SyscallNumber::Close, SyscallHandler::Exit);
    cpu.gr[8] = 9;
    cpu.do_syscall(SyscallNumber::Close.number()).unwrap();
    assert_eq!(cpu.gr[8], 0);
    assert!(cpu.get_syscall_context().is_none());

    let mut manager = SyscallManager::empty();
    assert_eq!(manager.get_handler(SyscallNumber::Exit), None);
    manager.init_default_handlers();
    assert_eq!(manager.get_handler(SyscallNumber::Read), Some(SyscallHandler::Read));
    manager.begin_syscall(&cpu, 3).unwrap();
    let context = manager.current.unwrap();
    assert_eq!(context.number, SyscallNumber::Read);
    assert_eq!(context.params, [100, 101, 102, 103, 104, 105, 106, 107]);
    assert_eq!(context.get_param(8), None);
    assert!(manager.begin_syscall(&cpu, 0).is_err());
    manager.current.as_mut().unwrap().set_error(13);
    manager.current.as_mut().unwrap().set_return(0, 77);
    manager.current.as_mut().unwrap().set_return(2, 1);
    manager.current.as_mut().unwrap().set_param(8, 1);
    manager.end_syscall(&mut cpu).unwrap();
    assert_eq!((cpu.gr[8], cpu.gr[9]), (77, 13));
    assert_eq!(SyscallNumber::try_from(102).unwrap(), SyscallNumber::Shutdown);
    assert!(SyscallNumber::try_from(8).is_err());
    let mut registry = SyscallRegistry::new();
    registry.register(SyscallNumber::Mmap, SyscallHandler::Write);
    assert_eq!(registry.get(SyscallNumber::Mmap), Some(SyscallHandler::Write));
    assert_eq!(registry.get(SyscallNumber::Munmap), None);
}

#[test]
fn slot_formats() {
    let all = (1u64 << 41) - 1;
    let a = AFormat::decode(all);
    assert_eq!((a.predicate, a.major_opcode, a.x2, a.ve, a.x4, a.r2, a.r3, a.r1), (0x3F, 0xFF, 0x7F, true, 3, 0x7F, 0x7F, 0x07));
    let i = IFormat::decode(0b1010101 << 29 | 0x81 << 21);
    assert_eq!((i.imm8, i.r2, i.r1), (0x81, 0b1010101, 0));
    let m = MFormat::decode(2 << 14 | 1 << 16 | 3 << 18 | 99 << 20 | 5 << 27 | 64 << 34 | 17);
    assert_eq!((m.predicate, m.x2, m.hint, m.x4, m.r3, m.r1, m.imm7), (17, 2, 1, 3, 99, 5, 64));
    let f = FFormat::decode(1 << 40 | 9 << 33 | 8 << 26 | 7 << 19);
    assert_eq!((f.f1, f.f3, f.f2, f.sf), (9, 8, 7, true));
    let b = BFormat::decode(2 << 39 | 0xABCDE << 19 | 1 << 18 | 2 << 16 | 1 << 14);
    assert_eq!((b.p, b.imm20, b.d, b.wh, b.btype), (2, 0xABCDE, true, 2, 1));
    let x = XFormat::decode(0x12 | 0x2A << 8 | 1 << 14 | 0x123_4567 << 15);
    assert_eq!((x.major_opcode, x.x2, x.ve, x.imm27), (0x12, 0x2A, true, 0x123_4567));
    let l = LFormat::decode(0x15 | 0x1FF_FFFF_FFFE << 5);
    assert_eq!((l.template, l.imm41), (0x15, 0x1FF_FFFF_FFFE));
    assert_eq!(MFormat::default(), MFormat::decode(0));
}

fn bundle_of(template: u8, s0: u64, s1: u64, s2: u64) -> [u8; 16] {
    rust_ia64::decoder::encode(template, s0, s1, s2).to_le_bytes()
}

#[test]
fn bundles_decode_by_their_template() {
    let m = 1 << 14 | 2 << 16 | 3 << 18 | 33 << 20;
    let b = 2 << 14 | 1 << 16 | 1 << 18 | 5 << 19;
    let mut bundle = Bundle::new(bundle_of(0b00001, m, 0x81 << 21, b)).unwrap();
    bundle.decode().unwrap();
    assert_eq!(bundle.instructions.len(), 3);
    assert_eq!(bundle.instructions[0].itype, InstructionType::M(MFormat::decode(m)));
    assert_eq!(bundle.instructions[0].completers, Some(vec!["acq".to_string(), "nt".to_string(), "advanced".to_string()]));
    assert_eq!(bundle.instructions[1].itype, InstructionType::I(IFormat::decode(0x81 << 21)));
    assert_eq!(bundle.instructions[1].completers, None);
    assert_eq!(bundle.instructions[2].itype, InstructionType::B(BFormat::decode(b)));
    assert_eq!(bundle.instructions[2].completers, Some(vec!["ret".to_string(), "spnt".to_string(), "dealloc".to_string()]));
    // decoding again does not pile up
    bundle.decode().unwrap();
    assert_eq!(bundle.instructions.len(), 3);

    let mut bundle = Bundle::new(bundle_of(0b00100, 0, 0x1F | 7 << 5, 0x33)).unwrap();
    bundle.decode().unwrap();
    assert_eq!(bundle.instructions[1].itype, InstructionType::L(LFormat { template: 0x1F, imm41: 7 }));
    assert_eq!(bundle.instructions[2].itype, InstructionType::X(XFormat::decode(0x33)));
    assert_eq!(bundle.instructions[0].completers, Some(vec!["none".to_string(); 3]));

    let mut bundle = Bundle::new(bundle_of(0b01010, 1 << 21, 0, 1 << 21 | 5)).unwrap();
    bundle.decode().unwrap();
    assert_eq!(bundle.instructions[0].completers, Some(vec!["ve".to_string()]));
    assert_eq!(bundle.instructions[1].completers, None);
    assert!(matches!(bundle.instructions[2].itype, InstructionType::A(a) if a.predicate == 5 && a.ve));

    let mut bundle = Bundle::new(bundle_of(0b01000, 1 << 40, 3 << 14 | 3 << 16, 0)).unwrap();
    bundle.decode().unwrap();
    assert_eq!(bundle.instructions[0].completers, Some(vec!["double".to_string()]));
    assert_eq!(bundle.instructions[1].completers, Some(vec!["reserved".to_string(), "dpnt".to_string(), "none".to_string()]));
    assert!(matches!(bundle.instructions[2].itype, InstructionType::I(_)));

    let mut bundle = Bundle::new(bundle_of(0b00011, 0, 0, 0)).unwrap();
    bundle.decode().unwrap();
    assert_eq!(bundle.instructions[2].completers, Some(vec!["single".to_string()]));
    assert!(matches!(bundle.instructions[1].itype, InstructionType::M(_)));
}

#[test]
fn the_decoder_steps_through_a_bundle() {
    let mut decoder = Decoder::new();
    assert_eq!(decoder.next_instruction(), None);
    // FBI: the tag in bits 0..5, the slots from bits 5, 46 and 87
    let data = ((0x1AAu128 << 5) | (0x2BBu128 << 46) | (0x3CCu128 << 87) | 0b01000).to_le_bytes();
    decoder.load_bundle(data).unwrap();
    assert_eq!(decoder.current_type(), Some(InstructionType::F(FFormat::default())));
    assert!(decoder.has_stop_bit());
    assert_eq!(decoder.next_instruction(), Some(0x1AA));
    assert_eq!(decoder.current_type(), Some(InstructionType::B(BFormat::default())));
    assert_eq!(decoder.next_instruction(), Some(0x2BB));
    assert_eq!(decoder.current_type(), Some(InstructionType::I(IFormat::default())));
    assert_eq!(decoder.next_instruction(), Some(0x3CC));
    assert!(!decoder.has_more_instructions());
    assert_eq!(decoder.current_type(), None);
    assert_eq!(decoder.next_instruction(), None);
    // MLX and AAA name the formats of their own units
    let mut mlx = [0u8; 16];
    mlx[0] = 0b00100;
    decoder.load_bundle(mlx).unwrap();
    assert_eq!(decoder.current_type(), Some(InstructionType::M(MFormat::default())));
    decoder.next_instruction();
    assert_eq!(decoder.current_type(), Some(InstructionType::L(LFormat::default())));
    decoder.next_instruction();
    assert_eq!(decoder.current_type(), Some(InstructionType::X(XFormat::default())));
    let mut aaa = [0u8; 16];
    aaa[0] = 0b01010;
    decoder.load_bundle(aaa).unwrap();
    assert_eq!(decoder.current_type(), Some(InstructionType::A(AFormat::default())));
    decoder.next_instruction();
    decoder.next_instruction();
    decoder.next_instruction();
    // a tag that names no template leaves the decoder as it was
    let mut bad = [0u8; 16];
    bad[0] = 0b00110;
    assert!(decoder.load_bundle(bad).is_err());
    assert_eq!(decoder.current_slot, 3);
}

#[test]
fn field_instructions() {
    let (mut cpu, mut memory) = ready();
    cpu.set_gr(1, 0xFFFF_FFFF_FFFF_FFFF).unwrap();
    cpu.set_gr(2, 0xAB).unwrap();
    let mut f = fields();
    f.immediate = Some(0x0808);
    Deposit::new(f.clone()).execute(&mut cpu, &mut memory).unwrap();
    assert_eq!(cpu.get_gr(3).unwrap(), 0xFFFF_FFFF_FFFF_ABFF);
    cpu.set_gr(1, 0x1234_5678).unwrap();
    Extract::new(f.clone()).execute(&mut cpu, &mut memory).unwrap();
    assert_eq!(cpu.get_gr(3).unwrap(), 0x56);
    // a length of 64 counts as a length of none
    f.immediate = Some(0x4000);
    Extract::new(f.clone()).execute(&mut cpu, &mut memory).unwrap();
    assert_eq!(cpu.get_gr(3).unwrap(), 0);
    f.immediate = Some(0xFF00FF00FF00FF00u64 as i64);
    cpu.set_gr(1, 0x1234_5678_90AB_CDEF).unwrap();
    cpu.set_gr(2, 64 + 8).unwrap();
    RotateMask::new(f.clone()).execute(&mut cpu, &mut memory).unwrap();
    assert_eq!(cpu.get_gr(3).unwrap(), 0x3400_7800_AB00_EF00);
    cpu.set_gr(2, 0).unwrap();
    RotateMask::new(f).execute(&mut cpu, &mut memory).unwrap();
    assert_eq!(cpu.get_gr(3).unwrap(), 0x1200_5600_9000_CD00);

    cpu.set_gr(1, 0xFFFF_FFFF_0000_00FF).unwrap();
    cpu.set_gr(2, 0x0000_0001_0000_0001).unwrap();
    ParallelAdd::new(fields(), ParallelSize::Word).execute(&mut cpu, &mut memory).unwrap();
    assert_eq!(cpu.get_gr(3).unwrap(), 0x0000_0000_0000_0100);
    ParallelAdd::new(fields(), ParallelSize::Byte).execute(&mut cpu, &mut memory).unwrap();
    assert_eq!(cpu.get_gr(3).unwrap(), 0xFFFF_FF00_0000_0000);
    cpu.set_gr(1, (-7i64) as u64).unwrap();
    cpu.set_gr(2, 3).unwrap();
    MinMax::new(fields(), MinMaxType::MaxS).execute(&mut cpu, &mut memory).unwrap();
    assert_eq!(cpu.get_gr(3).unwrap(), 3);
    MinMax::new(fields(), MinMaxType::MinS).execute(&mut cpu, &mut memory).unwrap();
    assert_eq!(cpu.get_gr(3).unwrap(), (-7i64) as u64);
    MinMax::new(fields(), MinMaxType::MinU).execute(&mut cpu, &mut memory).unwrap();
    assert_eq!(cpu.get_gr(3).unwrap(), 3);
}

#[test]
fn operands_that_cannot_be_used() {
    let (mut cpu, mut memory) = ready();
    let run = |f: InstructionFields, cpu: &mut Cpu, memory: &mut Memory| {
        rust_ia64::cpu::instructions::alu::Add::new(f).execute(cpu, memory)
    };
    let mut f = fields();
    f.qp = 64;
    assert!(matches!(run(f, &mut cpu, &mut memory), Err(EmulatorError::CpuStateError(_))));
    let mut f = fields();
    f.sources = vec![RegisterType::GR(1)];
    assert!(matches!(run(f, &mut cpu, &mut memory), Err(EmulatorError::ExecutionError(_))));
    let mut f = fields();
    f.sources = vec![RegisterType::GR(1), RegisterType::FR(2)];
    assert!(matches!(run(f, &mut cpu, &mut memory), Err(EmulatorError::ExecutionError(_))));
    let mut f = fields();
    f.sources = vec![RegisterType::GR(200), RegisterType::GR(2)];
    assert!(matches!(run(f, &mut cpu, &mut memory), Err(EmulatorError::CpuStateError(_))));
    let mut f = fields();
    f.destinations = vec![];
    assert!(matches!(run(f, &mut cpu, &mut memory), Err(EmulatorError::ExecutionError(_))));
    let mut f = fields();
    f.destinations = vec![RegisterType::PR(3)];
    assert!(matches!(run(f, &mut cpu, &mut memory), Err(EmulatorError::ExecutionError(_))));
    let mut f = fields();
    f.destinations = vec![RegisterType::GR(0)];
    cpu.set_gr(1, 9).unwrap();
    assert!(run(f, &mut cpu, &mut memory).is_ok());
    assert_eq!(cpu.get_gr(0).unwrap(), 0);
    assert_eq!(RegisterType::DDR(9).get_reg_num(), 9);
    let f = InstructionFields::new(1, 2, vec![], vec![RegisterType::AR(1)], Some(-1), None);
    assert_eq!((f.qp, f.major_op, f.immediate), (1, 2, Some(-1)));
}

#[test]
fn branches() {
    let (mut cpu, mut memory) = ready();
    let branch = |t, f| Branch::new(f, t, BranchPrediction::StaticTake, BranchRSE::Normal, BranchImportance::Normal, BranchRegisters::Few);
    let mut f = fields();
    f.immediate = Some(-32);
    f.destinations = vec![];
    cpu.ip = 0x1000;
    cpu.set_gr(1, (-3i64) as u64).unwrap();
    cpu.set_gr(2, 2).unwrap();
    branch(BranchType::GreaterEqual, f.clone()).execute(&mut cpu, &mut memory).unwrap();
    assert_eq!(cpu.ip, 0x1000);
    branch(BranchType::LessEqual, f.clone()).execute(&mut cpu, &mut memory).unwrap();
    assert_eq!(cpu.ip, 0x0FE0);
    branch(BranchType::NotEqual, f.clone()).execute(&mut cpu, &mut memory).unwrap();
    assert_eq!(cpu.ip, 0x0FC0);
    branch(BranchType::GreaterThan, f.clone()).execute(&mut cpu, &mut memory).unwrap();
    assert_eq!(cpu.ip, 0x0FC0);
    // the link register takes the address of the next bundle, wrapping
    cpu.ip = u64::MAX - 7;
    f.destinations = vec![RegisterType::BR(0)];
    f.immediate = Some(16);
    let b = branch(BranchType::Unconditional, f.clone());
    assert_eq!(b.calc_target(&cpu).unwrap(), 8);
    assert!(b.check_condition(&cpu).unwrap());
    b.execute(&mut cpu, &mut memory).unwrap();
    assert_eq!((cpu.ip, cpu.get_br(0).unwrap()), (8, 8));
    // a link register that does not exist stops the branch
    f.destinations = vec![RegisterType::BR(8)];
    assert!(branch(BranchType::Unconditional, f.clone()).execute(&mut cpu, &mut memory).is_err());
    assert_eq!(cpu.ip, 8);
    f.immediate = None;
    f.sources = vec![RegisterType::GR(1)];
    assert!(branch(BranchType::Unconditional, f).execute(&mut cpu, &mut memory).is_err());
}

#[test]
fn advanced_loads_and_checks() {
    let (mut cpu, mut memory) = ready();
    memory.write_u64(0x1040, 0x4045_0000_0000_0000).unwrap();
    let mut f = fields();
    f.addressing = Some(AddressingMode::IndirectOffset(4, -0x40));
    f.destinations = vec![RegisterType::FR(6)];
    cpu.set_gr(4, 0x1080).unwrap();
    let load = AdvancedLoad::new(f.clone());
    assert_eq!(load.calc_effective_address(&cpu).unwrap(), 0x1040);
    load.execute(&mut cpu, &mut memory).unwrap();
    assert_eq!(f64::from_bits(cpu.get_fr(6).unwrap()), 42.0);
    assert_eq!(cpu.alat_get_entry_info(6, false), Some((0x1040, 8, EntryState::Valid)));
    assert_eq!((load.latency(), CheckLoad::new(f.clone()).latency()), (2, 1));

    // while the entry is valid the check goes on, after a store it recovers
    let mut c = fields();
    c.sources = vec![RegisterType::FR(6)];
    c.immediate = Some(0x7000);
    cpu.ip = 0x10;
    CheckLoad::new(c.clone()).execute(&mut cpu, &mut memory).unwrap();
    assert_eq!(cpu.ip, 0x10);
    let mut s = fields();
    s.addressing = Some(AddressingMode::Absolute(0x1044));
    s.sources = vec![RegisterType::GR(4)];
    let store = StoreUpdate::new(s.clone());
    store.execute(&mut cpu, &mut memory).unwrap();
    assert_eq!(memory.read_u64(0x1044).unwrap(), 0x1080);
    assert_eq!(cpu.alat_get_entry_info(6, false).unwrap().2, EntryState::Invalidated);
    CheckLoad::new(c).execute(&mut cpu, &mut memory).unwrap();
    assert_eq!(cpu.ip, 0x7000);
    assert_eq!((store.latency(), store.calc_effective_address(&cpu).unwrap()), (2, 0x1044));
    s.addressing = Some(AddressingMode::Absolute(0x3000));
    assert!(StoreUpdate::new(s).execute(&mut cpu, &mut memory).is_err());

    let mut r = fields();
    r.sources = vec![RegisterType::BR(2)];
    cpu.set_br(2, 0x5550).unwrap();
    let recovery = RecoveryBranch::new(r);
    recovery.execute(&mut cpu, &mut memory).unwrap();
    assert_eq!((cpu.ip, recovery.latency()), (0x5550, 2));
    let clear = ClearAlat::new(fields());
    clear.execute(&mut cpu, &mut memory).unwrap();
    assert_eq!((cpu.alat.entries.len(), clear.latency()), (0, 1));
}

#[test]
fn register_rotation() {
    let (mut cpu, mut memory) = ready();
    for i in 1..128 {
        cpu.set_gr(i, i as u64).unwrap();
    }
    cpu.set_gr(1, 128 + 3).unwrap();
    Rotate::new(fields()).execute(&mut cpu, &mut memory).unwrap();
    assert_eq!(cpu.get_gr(0).unwrap(), 0);
    assert_eq!(cpu.get_gr(1).unwrap(), 4);
    assert_eq!(cpu.get_gr(124).unwrap(), 127);
    assert_eq!(cpu.get_gr(125).unwrap(), 0);
    assert_eq!(cpu.get_gr(126).unwrap(), 131);
    assert_eq!(cpu.get_gr(127).unwrap(), 2);
    assert!(matches!(
        BankSwitch::new(fields()).execute(&mut cpu, &mut memory),
        Err(EmulatorError::ExecutionError(_))
    ));
    cpu.set_pr(0, false).unwrap();
    assert!(BankSwitch::new(fields()).execute(&mut cpu, &mut memory).is_ok());
}

#[test]
fn status_register_instructions() {
    let mut cpu = Cpu::new();
    cpu.set_pr(0, true).unwrap();
    let secure = PSRFlags::SECURE.bits();
    let mut f = fields();
    f.sources = vec![RegisterType::GR(5)];
    f.destinations = vec![RegisterType::GR(6)];
    cpu.set_gr(5, u64::MAX).unwrap();
    assert!(MoveFromPsr::new(f.clone()).execute(&mut cpu).is_err());
    cpu.system_regs.cr.write(CRIndex::PSR, secure).unwrap();
    MoveToPsr::new(f.clone()).execute(&mut cpu).unwrap();
    assert_eq!(cpu.get_psr(), secure | PSR_USER_MASK);
    MoveFromPsr::new(f.clone()).execute(&mut cpu).unwrap();
    assert_eq!(cpu.get_gr(6).unwrap(), secure | 0x6049);
    assert!(matches!(Rfi::new(f.clone()).execute(&mut cpu), Err(EmulatorError::ExecutionError(_))));
    assert!(matches!(Break::new(f.clone()).execute(&mut cpu), Err(EmulatorError::ExecutionError(_))));
    cpu.set_pr(0, false).unwrap();
    cpu.set_gr(5, 0).unwrap();
    assert!(MoveToPsr::new(f.clone()).execute(&mut cpu).is_ok());
    assert!(Break::new(f.clone()).execute(&mut cpu).is_ok());
    assert_eq!(cpu.get_psr(), secure | PSR_USER_MASK);

    cpu.set_gr(5, 0x4001 | secure).unwrap();
    rum(&mut cpu, &f).unwrap();
    assert_eq!(cpu.get_psr(), secure | 0x2048);
    xum(&mut cpu, &f).unwrap();
    assert_eq!(cpu.get_psr(), secure | 0x2048);
    sum(&mut cpu, &f).unwrap();
    assert_eq!(cpu.get_psr(), secure | 0x6049);
    f.immediate = Some(-1);
    rsm(&mut cpu, &f).unwrap();
    assert_eq!(cpu.get_psr(), secure);
    f.immediate = Some(0x48);
    ssm(&mut cpu, &f).unwrap();
    assert_eq!(cpu.get_psr(), secure | 0x48);
    f.immediate = None;
    ssm(&mut cpu, &f).unwrap();
    assert_eq!(cpu.get_psr(), secure | 0x48);

    cpu.set_gr(7, 0xFFFF_0000_0000_0001).unwrap();
    mov_to_psr(&mut cpu, &IFormat { r2: 7, ..IFormat::default() }).unwrap();
    assert_eq!(cpu.get_psr(), 1);
    assert!(matches!(
        mov_from_psr(&mut cpu, &MFormat { r1: 8, ..MFormat::default() }),
        Err(EmulatorError::PrivilegeViolation)
    ));
    cpu.system_regs.cr.write(CRIndex::PSR, secure | 4).unwrap();
    mov_from_psr(&mut cpu, &MFormat { r1: 8, ..MFormat::default() }).unwrap();
    assert_eq!(cpu.get_gr(8).unwrap(), secure | 4);
}

#[test]
fn floating_point_registers() {
    let (mut cpu, _) = ready();
    let mut f = fields();
    f.sources = vec![RegisterType::FR(1), RegisterType::FR(2)];
    f.destinations = vec![RegisterType::FR(3)];
    cpu.set_fr(1, 3.5f64.to_bits()).unwrap();
    cpu.set_fr(2, 0.25f64.to_bits()).unwrap();
    let add = FAdd::new(f.clone());
    let (a, b) = add.operands(&cpu).unwrap().unwrap();
    add.commit(&mut cpu, (f64::from_bits(a) + f64::from_bits(b)).to_bits()).unwrap();
    assert_eq!(f64::from_bits(cpu.get_fr(3).unwrap()), 3.75);
    let div = FDiv::new(f.clone());
    assert_eq!(div.operands(&cpu).unwrap(), Some((3.5f64.to_bits(), 0.25f64.to_bits())));
    cpu.set_fr(2, (-0.0f64).to_bits()).unwrap();
    assert!(matches!(div.operands(&cpu), Err(EmulatorError::ExecutionError(_))));
    assert!(add.operands(&cpu).is_ok());
    cpu.set_fr(2, 0.0f64.to_bits()).unwrap();
    assert!(div.operands(&cpu).is_err());
    cpu.set_pr(0, false).unwrap();
    assert_eq!(div.operands(&cpu).unwrap(), None);
    f.destinations = vec![RegisterType::GR(3)];
    assert!(FAdd::new(f).commit(&mut cpu, 0).is_err());
}

#[test]
fn nothing_is_taken_while_the_controller_is_off_or_idle() {
    let mut cpu = Cpu::new();
    cpu.register_interrupt_handler(InterruptVector::ExtInt, 0x9000, 0).unwrap();
    cpu.set_interrupts_enabled(true);
    // the status register allows interrupts, the controller has none pending
    assert_eq!(cpu.check_interrupts(), None);
    assert_eq!((cpu.get_psr(), cpu.interrupt_nesting_level()), (PSRFlags::I.bits(), 0));
    // the status register allows interrupts, the controller is switched off
    cpu.raise_interrupt(InterruptVector::ExtInt, 5);
    cpu.interrupt_ctrl.set_interrupts_enabled(false);
    assert_eq!(cpu.check_interrupts(), None);
    assert_eq!(cpu.interrupt_ctrl.pending.len(), 1);
    assert_eq!(cpu.interrupt_ctrl.pending[0].info, 5);
    assert!(cpu.current_interrupt().is_none());
    assert_eq!((cpu.get_psr(), cpu.interrupt_nesting_level(), cpu.ip), (PSRFlags::I.bits(), 0, 0));
}

#[test]
fn a_return_takes_up_the_interrupt_that_waits() {
    let mut cpu = Cpu::new();
    cpu.register_interrupt_handler(InterruptVector::ExtInt, 0x9000, 0).unwrap();
    cpu.register_interrupt_handler(InterruptVector::DebugFault, 0xB000, 0).unwrap();
    cpu.set_interrupts_enabled(true);
    cpu.ip = 0x100;
    cpu.raise_interrupt(InterruptVector::ExtInt, 1);
    assert_eq!(cpu.check_interrupts(), Some(0x9000));
    assert_eq!(cpu.interrupt_nesting_level(), 1);
    cpu.ip = 0x9000;
    cpu.raise_interrupt(InterruptVector::DebugFault, 2);
    cpu.raise_interrupt(InterruptVector::ExtInt, 3);
    cpu.return_from_interrupt().unwrap();
    // the interrupt raised last is current now, the other still waits
    assert_eq!((cpu.ip, cpu.interrupt_nesting_level()), (0x9000, 0));
    assert_eq!(cpu.current_interrupt().unwrap().info, 3);
    assert_eq!(cpu.interrupt_ctrl.pending.len(), 1);
    assert_eq!(cpu.interrupt_ctrl.pending[0].info, 2);
    // at nesting level zero a return only restores the status register and the address
    cpu.return_from_interrupt().unwrap();
    assert_eq!((cpu.ip, cpu.interrupt_nesting_level()), (0x9000, 0));
    assert_eq!(cpu.current_interrupt().unwrap().info, 3);
    assert_eq!(cpu.interrupt_ctrl.pending.len(), 1);
    // a handler that is switched off is passed over: nothing is current after the return
    cpu.set_interrupts_enabled(true);
    assert_eq!(cpu.check_interrupts(), Some(0xB000));
    assert_eq!((cpu.interrupt_nesting_level(), cpu.interrupt_ctrl.pending.len()), (1, 1));
    cpu.interrupt_ctrl.table.set_handler_enabled(InterruptVector::ExtInt, false).unwrap();
    cpu.ip = 0xB000;
    cpu.return_from_interrupt().unwrap();
    assert!(cpu.current_interrupt().is_none());
    assert!(cpu.interrupt_ctrl.pending.is_empty());
    assert_eq!((cpu.ip, cpu.interrupt_nesting_level()), (0x9000, 0));
}
