use rust_ia64::cpu::mmu::{MMU, PAGE_SIZE};
use rust_ia64::memory::Permissions;

#[test]
fn test_tlb_basic() {
    let mut mmu = MMU::new();

    // Add TLB entry
    mmu.add_tlb_entry(0x1000, 0x2000, Permissions::ReadWrite);

    // Translate address
    let vaddr = 0x1000 * PAGE_SIZE + 0x123;
    let paddr = mmu.translate(vaddr).unwrap();
    assert_eq!(paddr, 0x2000 * PAGE_SIZE + 0x123);
}

#[test]
fn test_tlb_permissions() {
    let mut mmu = MMU::new();

    // Add TLB entry with read-only permissions
    mmu.add_tlb_entry(0x1000, 0x2000, Permissions::Read);

    // Check permissions
    let vaddr = 0x1000 * PAGE_SIZE;
    assert!(mmu.check_permissions(vaddr, Permissions::Read).is_ok());
    assert!(mmu.check_permissions(vaddr, Permissions::ReadWrite).is_err());
}

#[test]
fn test_tlb_miss() {
    let mmu = MMU::new();

    // Try to translate non-existent mapping
    let result = mmu.translate(0x1000);
    assert!(result.is_err());
}

#[test]
fn test_tlb_invalidation() {
    let mut mmu = MMU::new();

    // Add TLB entry
    mmu.add_tlb_entry(0x1000, 0x2000, Permissions::ReadWrite);

    // Invalidate entry
    mmu.invalidate_entry(0x1000);

    // Try to translate - should fail
    let result = mmu.translate(0x1000 * PAGE_SIZE);
    assert!(result.is_err());
}

#[test]
fn test_tlb_flush() {
    let mut mmu = MMU::new();

    // Add multiple TLB entries
    mmu.add_tlb_entry(0x1000, 0x2000, Permissions::ReadWrite);
    mmu.add_tlb_entry(0x3000, 0x4000, Permissions::ReadWrite);

    // Flush TLB
    mmu.flush_tlb();

    // Try to translate - should fail
    let result1 = mmu.translate(0x1000 * PAGE_SIZE);
    let result2 = mmu.translate(0x3000 * PAGE_SIZE);
    assert!(result1.is_err());
    assert!(result2.is_err());
}
