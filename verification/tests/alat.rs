use rust_ia64::cpu::alat::{Entry, EntryState, ALAT, MAX_ALAT_ENTRIES};

#[test]
fn test_alat_entry_creation() {
    let entry = Entry::new(0x1000, 8, 32, true);
    assert_eq!(entry.address, 0x1000);
    assert_eq!(entry.size, 8);
    assert_eq!(entry.register, 32);
    assert_eq!(entry.state, EntryState::Valid);
    assert!(entry.is_integer);
}

#[test]
fn test_alat_basic_operations() {
    let mut alat = ALAT::new();

    // Add entry
    assert!(alat.add_entry(0x1000, 8, 32, true).is_ok());
    assert_eq!(alat.valid_entries(), 1);

    // Check register
    assert!(alat.check_register(32, true));
    assert!(!alat.check_register(32, false));
    assert!(!alat.check_register(33, true));

    // Check address
    assert!(alat.check_address(0x1000, 8));
    assert!(!alat.check_address(0x2000, 8));

    // Invalidate overlap
    alat.invalidate_overlap(0x1004, 8);
    assert!(!alat.check_register(32, true));

    // Clear
    alat.clear();
    assert_eq!(alat.valid_entries(), 0);
}

#[test]
fn test_alat_capacity() {
    let mut alat = ALAT::new();

    // Fill ALAT
    for i in 0..MAX_ALAT_ENTRIES + 5 {
        assert!(alat
            .add_entry(0x1000 * (i as u64), 8, i as u32, true)
            .is_ok());
    }

    // Check capacity
    assert_eq!(alat.valid_entries(), MAX_ALAT_ENTRIES);

    // Check oldest entries were removed
    assert!(!alat.check_register(0, true));
    assert!(!alat.check_register(1, true));
    assert!(!alat.check_register(2, true));
    assert!(!alat.check_register(3, true));
    assert!(!alat.check_register(4, true));
}

#[test]
fn test_alat_entry_state_management() {
    let mut alat = ALAT::new();

    // Add entry
    assert!(alat.add_entry(0x1000, 8, 32, true).is_ok());

    // Update state
    assert!(alat
        .update_entry_state(32, true, EntryState::Invalidated)
        .is_ok());
    assert!(!alat.check_register(32, true));

    // Try updating non-existent entry
    assert!(alat
        .update_entry_state(33, true, EntryState::Invalid)
        .is_err());
}

#[test]
fn test_alat_entry_info() {
    let mut alat = ALAT::new();

    // Add entry
    assert!(alat.add_entry(0x1000, 8, 32, true).is_ok());

    // Get entry info
    let info = alat.get_entry_info(32, true);
    assert!(info.is_some());
    let (addr, size, state) = info.unwrap();
    assert_eq!(addr, 0x1000);
    assert_eq!(size, 8);
    assert_eq!(state, EntryState::Valid);

    // Get non-existent entry info
    assert!(alat.get_entry_info(33, true).is_none());
}

#[test]
fn test_alat_purge() {
    let mut alat = ALAT::new();

    // Add entries
    assert!(alat.add_entry(0x1000, 8, 32, true).is_ok());
    assert!(alat.add_entry(0x1010, 8, 33, true).is_ok());

    // Invalidate one entry
    assert!(alat
        .update_entry_state(32, true, EntryState::Invalidated)
        .is_ok());

    // Purge old entries
    alat.purge_old_entries();

    // Check only valid entries remain
    assert_eq!(alat.valid_entries(), 1);
    assert!(!alat.check_register(32, true));
    assert!(alat.check_register(33, true));
}
