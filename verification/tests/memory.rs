use rust_ia64::memory::{
    CacheHint, CacheLineState, Memory, Permissions, SpeculativeStatus, WritePolicy,
};

#[test]
fn test_permissions() {
    let perm = Permissions::ReadWriteExecute;
    assert!(perm.can_read());
    assert!(perm.can_write());
    assert!(perm.can_execute());

    let perm = Permissions::ReadWrite;
    assert!(perm.can_read());
    assert!(perm.can_write());
    assert!(!perm.can_execute());

    let perm = Permissions::Read;
    assert!(perm.can_read());
    assert!(!perm.can_write());
    assert!(!perm.can_execute());
}

#[test]
fn test_memory_mapping() {
    let mut mem = Memory::new();

    // Map region
    assert!(mem.map(0x1000, 0x1000, Permissions::ReadWrite).is_ok());

    // Try to map overlapping region
    assert!(mem.map(0x1800, 0x1000, Permissions::ReadWrite).is_err());

    // Unmap region
    assert!(mem.unmap(0x1000).is_ok());

    // Try to unmap non-existent region
    assert!(mem.unmap(0x2000).is_err());
}

#[test]
fn test_memory_access() {
    let mut mem = Memory::new();
    mem.map(0x1000, 0x1000, Permissions::ReadWrite).unwrap();

    // Write and read byte
    mem.write_u8(0x1000, 0x42).unwrap();
    assert_eq!(mem.read_u8(0x1000).unwrap(), 0x42);

    // Write and read u64
    mem.write_u64(0x1008, 0x0123456789ABCDEF).unwrap();
    assert_eq!(mem.read_u64(0x1008).unwrap(), 0x0123456789ABCDEF);

    // Try to access unmapped memory
    assert!(mem.read_u8(0x2000).is_err());
    assert!(mem.write_u8(0x2000, 0x42).is_err());
}

#[test]
fn test_memory_permissions() {
    let mut mem = Memory::new();

    // Read-only memory
    mem.map(0x1000, 0x1000, Permissions::Read).unwrap();
    assert!(mem.read_u8(0x1000).is_ok());
    assert!(mem.write_u8(0x1000, 0x42).is_err());

    // No access memory
    mem.map(0x2000, 0x1000, Permissions::NoAccess).unwrap();
    assert!(mem.read_u8(0x2000).is_err());
    assert!(mem.write_u8(0x2000, 0x42).is_err());
}

#[test]
fn test_memory_boundaries() {
    let mut mem = Memory::new();
    mem.map(0x1000, 0x1000, Permissions::ReadWrite).unwrap();

    // Access at region boundaries
    assert!(mem.read_u8(0x1000).is_ok());
    assert!(mem.read_u8(0x1FFF).is_ok());
    assert!(mem.read_u8(0x2000).is_err());

    // Write u64 at region boundary should fail
    assert!(mem.write_u64(0x1FF9, 0x42).is_err());
}

#[test]
fn test_cache_hints() {
    let mut mem = Memory::new();
    mem.map(0x1000, 4096, Permissions::ReadWriteExecute)
        .unwrap();

    // Write some data
    mem.write_u8(0x1000, 0x42).unwrap();

    // Test normal caching
    mem.set_cache_hints(CacheHint::Normal);
    let val = mem.read_u8(0x1000).unwrap();
    assert_eq!(val, 0x42);

    // Test L1 bypass
    mem.set_cache_hints(CacheHint::NonTemporal1);
    let val = mem.read_u8(0x1000).unwrap();
    assert_eq!(val, 0x42);

    // Test all cache bypass
    mem.set_cache_hints(CacheHint::NonTemporalAll);
    let val = mem.read_u8(0x1000).unwrap();
    assert_eq!(val, 0x42);

    // Test cache bias
    mem.set_cache_hints(CacheHint::Bias);
    let val = mem.read_u8(0x1000).unwrap();
    assert_eq!(val, 0x42);
}

#[test]
fn test_write_back_caching() {
    let mut mem = Memory::new();
    mem.map(0x1000, 4096, Permissions::ReadWriteExecute)
        .unwrap();

    // Configure L1 cache as write-back
    mem.l1_cache.write_policy = WritePolicy::WriteBack;

    // Write data to cache
    mem.write_u64(0x1000, 0x1234567890ABCDEF).unwrap();

    // Data should be in L1 cache but not in memory yet
    let cache_line = mem.l1_cache.sets[0]
        .lines
        .iter()
        .find(|line| line.state == CacheLineState::Modified)
        .unwrap();
    assert!(cache_line.is_dirty());

    // Reading should hit the cache
    assert_eq!(mem.read_u64(0x1000).unwrap(), 0x1234567890ABCDEF);

    // Flush cache
    mem.flush_all_caches().unwrap();

    // Cache line should no longer be dirty
    let cache_line = mem.l1_cache.sets[0]
        .lines
        .iter()
        .find(|line| line.state == CacheLineState::Exclusive)
        .unwrap();
    assert!(!cache_line.is_dirty());

    // Data should still be readable from memory
    assert_eq!(mem.read_u64(0x1000).unwrap(), 0x1234567890ABCDEF);
}

#[test]
fn test_write_back_eviction() {
    let mut mem = Memory::new();
    mem.map(0x1000, 4096, Permissions::ReadWriteExecute)
        .unwrap();

    // Configure L1 cache as write-back
    mem.l1_cache.write_policy = WritePolicy::WriteBack;

    // Fill cache set with data
    for i in 0..8 {
        // L1 is 8-way associative
        mem.write_u64(0x1000 + i * 64, i as u64).unwrap(); // Each cache line is 64 bytes
    }

    // Write one more value to cause eviction
    mem.write_u64(0x1000 + 8 * 64, 8).unwrap();

    // First value should have been written back to memory
    assert_eq!(mem.read_u64(0x1000).unwrap(), 0);
}

#[test]
fn test_speculative_loads() {
    let mut mem = Memory::new();
    mem.map(0x1000, 4096, Permissions::ReadWriteExecute)
        .unwrap();

    // Write some test data
    mem.write_u64(0x1000, 0x1234567890ABCDEF).unwrap();

    // Track successful speculative load
    let status = mem.track_speculative_load(0x1000, 8).unwrap();
    assert_eq!(status, SpeculativeStatus::Success);

    // Check load status
    assert_eq!(
        mem.check_speculative_load(0x1000),
        Some(SpeculativeStatus::Success)
    );

    // Cancel a load
    mem.cancel_speculative_load(0x1000);
    assert_eq!(
        mem.check_speculative_load(0x1000),
        Some(SpeculativeStatus::Cancelled)
    );

    // Track failed load (unmapped memory)
    let status = mem.track_speculative_load(0x2000, 8).unwrap();
    assert_eq!(status, SpeculativeStatus::Failed);
    assert_eq!(
        mem.check_speculative_load(0x2000),
        Some(SpeculativeStatus::Failed)
    );

    // Check non-existent load
    assert_eq!(mem.check_speculative_load(0x3000), None);
}
