use rust_ia64::cpu::alat::{EntryState, ALAT};
use rust_ia64::cpu::instructions::alu::{SaturatingAdd, Shift, ShiftType, TestBit};
use rust_ia64::cpu::instructions::{Instruction, InstructionFields, RegisterType};
use rust_ia64::cpu::registers::{CRFile, CRIndex};
use rust_ia64::cpu::rse::{LoadStoreOrder, RSEConfig, RSEMode, RSE};
use rust_ia64::cpu::Cpu;
use rust_ia64::decoder::{bits_of, encode, slot_field, template_field, Bundle};
use rust_ia64::memory::{CacheHint, Memory, Permissions};

fn binary_fields() -> InstructionFields {
    InstructionFields {
        qp: 0,
        major_op: 0,
        sources: vec![RegisterType::GR(1), RegisterType::GR(2)],
        destinations: vec![RegisterType::GR(3)],
        immediate: None,
        addressing: None,
    }
}

fn ready_cpu() -> (Cpu, Memory) {
    let mut cpu = Cpu::new();
    cpu.set_pr(0, true).unwrap();
    (cpu, Memory::new())
}

#[test]
fn bundle_fields_rebuild_the_bundle() {
    let data: [u8; 16] = [
        0x09, 0x5A, 0xC3, 0x17, 0xFE, 0x01, 0x80, 0x7F, 0x33, 0xAA, 0x55, 0x10, 0xEF, 0xCD, 0xAB, 0x89,
    ];
    assert!(Bundle::new(data).is_ok());
    let bits = bits_of(&data);
    assert_eq!(bits, u128::from_le_bytes(data));
    let rebuilt = encode(
        template_field(bits),
        slot_field(bits, 0),
        slot_field(bits, 1),
        slot_field(bits, 2),
    );
    assert_eq!(rebuilt, bits);
    assert_eq!(template_field(bits), 0x09);
    assert_eq!(slot_field(bits, 0), ((bits >> 5) & ((1u128 << 41) - 1)) as u64);
    assert_eq!(slot_field(bits, 2), (bits >> 87) as u64);
}

#[test]
fn stored_values_are_loaded_back_at_every_width() {
    let mut mem = Memory::new();
    mem.map(0x4000, 0x100, Permissions::ReadWrite).unwrap();
    mem.write_u8(0x4001, 0xA5).unwrap();
    assert_eq!(mem.read_u8(0x4001).unwrap(), 0xA5);
    mem.write_u16(0x4003, 0xBEEF).unwrap();
    assert_eq!(mem.read_u16(0x4003).unwrap(), 0xBEEF);
    mem.write_u32(0x4009, 0xDEAD_BEEF).unwrap();
    assert_eq!(mem.read_u32(0x4009).unwrap(), 0xDEAD_BEEF);
    mem.write_u64(0x403D, 0x0123_4567_89AB_CDEF).unwrap();
    assert_eq!(mem.read_u64(0x403D).unwrap(), 0x0123_4567_89AB_CDEF);
    // the earlier values are still there
    assert_eq!(mem.read_u8(0x4001).unwrap(), 0xA5);
    assert_eq!(mem.read_u16(0x4003).unwrap(), 0xBEEF);
}

#[test]
fn a_store_invalidates_valid_entries_and_leaves_the_others() {
    let mut alat = ALAT::new();
    alat.add_entry(0x2000, 8, 1, true).unwrap();
    alat.add_entry(0x2008, 8, 2, true).unwrap();
    alat.add_entry(0x2004, 4, 3, false).unwrap();
    alat.update_entry_state(2, true, EntryState::Invalid).unwrap();
    alat.invalidate_overlap(0x2006, 4);
    // valid and touched
    assert_eq!(alat.get_entry_info(1, true).unwrap().2, EntryState::Invalidated);
    assert_eq!(alat.get_entry_info(3, false).unwrap().2, EntryState::Invalidated);
    // touched, but not valid before
    assert_eq!(alat.get_entry_info(2, true).unwrap().2, EntryState::Invalid);
}

#[test]
fn lazy_allocation_and_deallocation_cancel() {
    let mut rse = RSE::new();
    let mut memory = Memory::new();
    rse.dirty_count = 4;
    rse.invalid_count = 20;
    rse.allocate_registers(&mut memory, 7).unwrap();
    assert_eq!((rse.dirty_count, rse.clean_count, rse.invalid_count), (11, 0, 13));
    rse.deallocate_registers(&mut memory, 7).unwrap();
    assert_eq!((rse.dirty_count, rse.clean_count, rse.invalid_count), (4, 0, 20));
}

#[test]
fn allocation_that_takes_clean_registers_is_not_undone() {
    let mut rse = RSE::new();
    let mut memory = Memory::new();
    rse.clean_count = 3;
    rse.invalid_count = 20;
    rse.allocate_registers(&mut memory, 7).unwrap();
    assert_eq!((rse.dirty_count, rse.clean_count, rse.invalid_count), (7, 0, 16));
    rse.deallocate_registers(&mut memory, 7).unwrap();
    assert_eq!((rse.dirty_count, rse.clean_count, rse.invalid_count), (0, 0, 23));
}

#[test]
fn general_register_zero_stays_zero() {
    let mut cpu = Cpu::new();
    for value in [1u64, 0x1234, u64::MAX] {
        assert!(cpu.set_gr(0, value).is_ok());
        assert_eq!(cpu.get_gr(0).unwrap(), 0);
    }
    cpu.set_gr(1, 7).unwrap();
    assert_eq!(cpu.get_gr(1).unwrap(), 7);
    assert_eq!(cpu.get_gr(0).unwrap(), 0);
    // The register reads zero whatever its word in the register file holds.
    cpu.gr[0] = 5;
    assert_eq!(cpu.get_gr(0).unwrap(), 0);
    cpu.set_gr(0, 9).unwrap();
    assert_eq!(cpu.get_gr(0).unwrap(), 0);
}

#[test]
fn status_register_writes_keep_the_reserved_bits() {
    let mut cr = CRFile::from_bits_truncate(0xABCD_0000_0000_1234);
    cr.write(CRIndex::PSR, 0xFFFF_FFFF_FFFF_FFFF).unwrap();
    assert_eq!(cr.read(CRIndex::PSR), 0xABCD_FFFF_FFFF_FFFF);
    cr.write(CRIndex::PSR, 0).unwrap();
    assert_eq!(cr.read(CRIndex::PSR), 0xABCD_0000_0000_0000);
    cr.write(CRIndex::PSR, 0x1111_2222_3333_4444).unwrap();
    assert_eq!(cr.read(CRIndex::PSR), 0xABCD_2222_3333_4444);
}

#[test]
fn task_priority_writes_keep_the_upper_bits() {
    let mut cr = CRFile::new();
    cr.write(CRIndex::LID, 0xFFFF_FFFF_FFFF_FFFF).unwrap();
    assert_eq!(cr.read(CRIndex::LID), 0xFFFF_FFFF_FFFF_FFFF);
    cr.registers[65] = 0x5555_0000_0000_0000;
    cr.write(CRIndex::TPR, 0xFFFF_FFFF_FFFF_ABCD).unwrap();
    assert_eq!(cr.get_tpr(), 0x5555_0000_0000_ABCD);
}

#[test]
fn a_region_can_be_mapped_again_after_unmapping() {
    let mut mem = Memory::new();
    assert!(mem.map(0x8000, 0x200, Permissions::ReadWrite).is_ok());
    mem.write_u8(0x8010, 9).unwrap();
    assert!(mem.unmap(0x8000).is_ok());
    assert!(mem.read_u8(0x8010).is_err());
    assert!(mem.map(0x8000, 0x200, Permissions::ReadWrite).is_ok());
    // the new region is zero-filled, whatever the caches held
    assert_eq!(mem.read_u8(0x8010).unwrap(), 0);
}

#[test]
fn a_flush_changes_no_value() {
    let mut mem = Memory::new();
    mem.map(0x1000, 0x1000, Permissions::ReadWrite).unwrap();
    for i in 0..64u64 {
        mem.write_u64(0x1000 + i * 8, i * 0x0101_0101).unwrap();
    }
    mem.flush_all_caches().unwrap();
    for i in 0..64u64 {
        assert_eq!(mem.read_u64(0x1000 + i * 8).unwrap(), i * 0x0101_0101);
    }
    mem.write_u8(0x1000, 0x77).unwrap();
    mem.flush_all_caches().unwrap();
    assert_eq!(mem.read_u8(0x1000).unwrap(), 0x77);
}

#[test]
fn values_survive_every_cache_hint() {
    let mut mem = Memory::new();
    mem.map(0x1000, 0x1000, Permissions::ReadWrite).unwrap();
    mem.write_u8(0x1040, 1).unwrap();
    assert_eq!(mem.read_u8(0x1040).unwrap(), 1);
    // a store that bypasses the caches must not leave a stale line behind
    mem.set_cache_hints(CacheHint::NonTemporalAll);
    mem.write_u8(0x1040, 2).unwrap();
    mem.set_cache_hints(CacheHint::Normal);
    assert_eq!(mem.read_u8(0x1040).unwrap(), 2);
    mem.set_cache_hints(CacheHint::NonTemporal1);
    mem.write_u8(0x1040, 3).unwrap();
    mem.set_cache_hints(CacheHint::Bias);
    assert_eq!(mem.read_u8(0x1040).unwrap(), 3);
}

#[test]
fn purging_twice_is_purging_once() {
    let mut alat = ALAT::new();
    for i in 0..10u32 {
        alat.add_entry(0x1000 + 8 * i as u64, 8, i, i % 2 == 0).unwrap();
    }
    alat.invalidate_overlap(0x1000, 24);
    alat.update_entry_state(7, false, EntryState::Invalid).unwrap();
    alat.purge_old_entries();
    let once: Vec<_> = alat.entries.clone();
    assert_eq!(once.len(), 6);
    alat.purge_old_entries();
    assert_eq!(alat.entries, once);
}

#[test]
fn shift_amounts_count_modulo_64() {
    let (mut cpu, mut memory) = ready_cpu();
    let left = Shift::new(binary_fields(), ShiftType::Left);
    cpu.set_gr(1, 0x1).unwrap();
    cpu.set_gr(2, 64 + 4).unwrap();
    left.execute(&mut cpu, &mut memory).unwrap();
    assert_eq!(cpu.get_gr(3).unwrap(), 0x10);
    cpu.set_gr(2, 64).unwrap();
    left.execute(&mut cpu, &mut memory).unwrap();
    assert_eq!(cpu.get_gr(3).unwrap(), 0x1);

    let logical = Shift::new(binary_fields(), ShiftType::RightLogical);
    cpu.set_gr(1, 0x8000_0000_0000_0000).unwrap();
    cpu.set_gr(2, 128 + 63).unwrap();
    logical.execute(&mut cpu, &mut memory).unwrap();
    assert_eq!(cpu.get_gr(3).unwrap(), 1);

    let arithmetic = Shift::new(binary_fields(), ShiftType::RightArithmetic);
    cpu.set_gr(2, 64 + 63).unwrap();
    arithmetic.execute(&mut cpu, &mut memory).unwrap();
    assert_eq!(cpu.get_gr(3).unwrap(), u64::MAX);
    cpu.set_gr(1, 0x4000_0000_0000_0000).unwrap();
    cpu.set_gr(2, 64 + 62).unwrap();
    arithmetic.execute(&mut cpu, &mut memory).unwrap();
    assert_eq!(cpu.get_gr(3).unwrap(), 1);
}

#[test]
fn a_bit_past_the_word_is_never_set() {
    let (mut cpu, mut memory) = ready_cpu();
    let mut fields = binary_fields();
    fields.destinations = vec![RegisterType::PR(5)];
    let tbit = TestBit::new(fields);
    cpu.set_gr(1, u64::MAX).unwrap();
    for pos in [64u64, 65, 127, 128, u64::MAX] {
        cpu.set_pr(5, true).unwrap();
        cpu.set_gr(2, pos).unwrap();
        tbit.execute(&mut cpu, &mut memory).unwrap();
        assert!(!cpu.get_pr(5).unwrap());
    }
    cpu.set_gr(2, 63).unwrap();
    tbit.execute(&mut cpu, &mut memory).unwrap();
    assert!(cpu.get_pr(5).unwrap());
}

#[test]
fn saturating_sums_stop_at_the_ends() {
    let (mut cpu, mut memory) = ready_cpu();
    let signed = SaturatingAdd::new(binary_fields(), true);
    cpu.set_gr(1, i64::MAX as u64).unwrap();
    cpu.set_gr(2, 1).unwrap();
    signed.execute(&mut cpu, &mut memory).unwrap();
    assert_eq!(cpu.get_gr(3).unwrap(), i64::MAX as u64);
    cpu.set_gr(1, i64::MIN as u64).unwrap();
    cpu.set_gr(2, (-1i64) as u64).unwrap();
    signed.execute(&mut cpu, &mut memory).unwrap();
    assert_eq!(cpu.get_gr(3).unwrap(), i64::MIN as u64);
    cpu.set_gr(1, (-5i64) as u64).unwrap();
    cpu.set_gr(2, 3).unwrap();
    signed.execute(&mut cpu, &mut memory).unwrap();
    assert_eq!(cpu.get_gr(3).unwrap(), (-2i64) as u64);

    let unsigned = SaturatingAdd::new(binary_fields(), false);
    cpu.set_gr(1, u64::MAX).unwrap();
    cpu.set_gr(2, 1).unwrap();
    unsigned.execute(&mut cpu, &mut memory).unwrap();
    assert_eq!(cpu.get_gr(3).unwrap(), u64::MAX);
    cpu.set_gr(1, 40).unwrap();
    cpu.set_gr(2, 2).unwrap();
    unsigned.execute(&mut cpu, &mut memory).unwrap();
    assert_eq!(cpu.get_gr(3).unwrap(), 42);
}

#[test]
fn unknown_templates_are_decode_errors() {
    for tag in 0u8..32 {
        let mut data = [0u8; 16];
        data[0] = tag | 0xE0;
        let known = matches!(tag, 0 | 1 | 2 | 3 | 4 | 8 | 9 | 10);
        match Bundle::new(data) {
            Ok(bundle) => {
                assert!(known);
                assert_eq!(bundle.template.bits(), tag);
            }
            Err(e) => {
                assert!(!known);
                assert!(matches!(e, rust_ia64::EmulatorError::DecodeError(_)));
            }
        }
    }
    for tag in [0b00110u8, 0b00111, 0b01011] {
        let mut data = [0u8; 16];
        data[0] = tag;
        assert!(Bundle::new(data).is_err());
    }
}

#[test]
fn configuration_survives_its_register_image() {
    let config = RSEConfig {
        mode: RSEMode::Eager,
        load_store_order: LoadStoreOrder::Release,
        store_intensity: 7,
        load_intensity: 4,
    };
    let bits = config.to_bits();
    assert_eq!(bits, (1 << 16) | (1 << 18) | (7 << 19) | (4 << 23));
    assert_eq!(RSEConfig::from_bits(bits), config);
    assert_eq!(RSEConfig::from_bits(3 << 16).mode, RSEMode::Lazy);
    assert_eq!(RSEConfig::from_bits(0).mode, RSEMode::Enforced);
}
