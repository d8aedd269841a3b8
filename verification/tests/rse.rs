use rust_ia64::cpu::rse::{LoadStoreOrder, RSEConfig, RSEMode, RSE};
use rust_ia64::memory::Memory;

#[test]
fn test_rse_config() {
    let mut rse = RSE::new();

    let config = RSEConfig {
        mode: RSEMode::Eager,
        load_store_order: LoadStoreOrder::Release,
        store_intensity: 7,
        load_intensity: 4,
    };

    rse.set_config(config);
    let read_config = rse.get_config();

    assert_eq!(read_config.mode, RSEMode::Eager);
    assert_eq!(read_config.load_store_order, LoadStoreOrder::Release);
    assert_eq!(read_config.store_intensity, 7);
    assert_eq!(read_config.load_intensity, 4);
}

#[test]
fn test_rse_allocation() {
    let mut rse = RSE::new();
    let mut memory = Memory::new();

    // Set up initial state
    rse.clean_count = 5;
    rse.invalid_count = 10;

    // Allocate 8 registers
    assert!(rse.allocate_registers(&mut memory, 8).is_ok());

    // Check state after allocation
    assert_eq!(rse.clean_count, 0);
    assert_eq!(rse.dirty_count, 8);
    assert_eq!(rse.invalid_count, 7);
}

#[test]
fn test_rse_invalidate() {
    let mut rse = RSE::new();

    // Set up initial state
    rse.clean_count = 10;

    // Invalidate clean registers
    rse.invalidate();

    // Check state after invalidation
    assert_eq!(rse.clean_count, 0);
    assert_eq!(rse.invalid_count, 10);
}
