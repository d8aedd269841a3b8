//! Memory Management Unit (MMU) implementation
//!
//! This module implements the IA-64 MMU including TLB management,
//! virtual address translation, and memory protection.

use vstd::prelude::*;
use vstd::string::*;
use crate::memory::Permissions;
use crate::{is_execution_error, EmulatorError};

verus! {

/// Page size (4KB)
pub const PAGE_SIZE: u64 = 4096;

/// TLB entry
#[derive(Debug, Clone, Copy)]
pub struct TLBEntry {
    /// Virtual page number
    pub vpn: u64,
    /// Physical page number
    pub ppn: u64,
    /// Page permissions
    pub permissions: Permissions,
    /// Valid bit
    pub valid: bool,
}

/// Whether entry `i` is the oldest valid entry for the page `vpn`.
pub open spec fn is_translation(tlb: Seq<TLBEntry>, vpn: u64, i: int) -> bool {
    &&& 0 <= i < tlb.len()
    &&& tlb[i].valid && tlb[i].vpn == vpn
    &&& forall|j: int| 0 <= j < i ==> !((#[trigger] tlb[j]).valid && tlb[j].vpn == vpn)
}

/// Whether some valid entry translates the page `vpn`.
pub open spec fn has_translation(tlb: Seq<TLBEntry>, vpn: u64) -> bool {
    exists|i: int| 0 <= i < tlb.len() && (#[trigger] tlb[i]).valid && tlb[i].vpn == vpn
}

/// The physical address of the byte at offset `offset` of the physical page
/// `ppn`, wrapping at the end of the address space.
pub open spec fn physical_address(ppn: u64, offset: u64) -> u64 {
    ppn.wrapping_mul(PAGE_SIZE).wrapping_add(offset)
}

/// Memory Management Unit
#[derive(Debug)]
pub struct MMU {
    /// TLB entries
    pub tlb: Vec<TLBEntry>,
    /// Page table base register
    pub ptbr: u64,
}

impl MMU {
    /// Create new MMU instance, with an empty TLB.
    pub fn new() -> (m: Self)
        ensures
            m.tlb@.len() == 0,
            m.ptbr == 0,
    {
        Self { tlb: Vec::new(), ptbr: 0 }
    }

    /// Add TLB entry
    pub fn add_tlb_entry(&mut self, vpn: u64, ppn: u64, permissions: Permissions)
        ensures
            final(self).tlb@ == old(self).tlb@.push(TLBEntry { vpn, ppn, permissions, valid: true }),
            final(self).ptbr == old(self).ptbr,
    {
        let entry = TLBEntry { vpn, ppn, permissions, valid: true };
        self.tlb.push(entry);
    }

    /// Find the oldest valid entry for the page `vpn`.
    pub fn find_entry(&self, vpn: u64) -> (r: Option<usize>)
        ensures
            match r {
                Some(i) => is_translation(self.tlb@, vpn, i as int),
                None => !has_translation(self.tlb@, vpn),
            },
    {
        let mut i: usize = 0;
        while i < self.tlb.len()
            invariant
                i <= self.tlb@.len(),
                forall|j: int| 0 <= j < i ==> !((#[trigger] self.tlb@[j]).valid && self.tlb@[j].vpn == vpn),
            decreases self.tlb@.len() - i,
        {
            let e = self.tlb[i];
            if e.valid && e.vpn == vpn {
                return Some(i);
            }
            i = i + 1;
        }
        None
    }

    /// Translate virtual address through the oldest valid entry for its
    /// page; without one the TLB misses.
    pub fn translate(&self, vaddr: u64) -> (r: Result<u64, EmulatorError>)
        ensures
            match r {
                Ok(paddr) => exists|i: int| #[trigger]
                    is_translation(self.tlb@, (vaddr / PAGE_SIZE) as u64, i) && paddr == physical_address(
                        self.tlb@[i].ppn,
                        (vaddr % PAGE_SIZE) as u64,
                    ),
                Err(_) => !has_translation(self.tlb@, (vaddr / PAGE_SIZE) as u64) && is_execution_error(
                    r,
                    "TLB miss"@,
                ),
            },
    {
        let vpn = vaddr / PAGE_SIZE;
        let offset = vaddr % PAGE_SIZE;
        match self.find_entry(vpn) {
            Some(i) => {
                Ok(self.tlb[i].ppn.wrapping_mul(PAGE_SIZE).wrapping_add(offset))
            },
            None => Err(EmulatorError::ExecutionError(String::from_str("TLB miss"))),
        }
    }

    /// Check memory access permissions: the oldest valid entry for the page
    /// must grant what is required.
    pub fn check_permissions(&self, vaddr: u64, required: Permissions) -> (r: Result<(), EmulatorError>)
        ensures
            match r {
                Ok(_) => exists|i: int| #[trigger]
                    is_translation(self.tlb@, (vaddr / PAGE_SIZE) as u64, i)
                        && self.tlb@[i].permissions.spec_contains(required),
                Err(_) => if has_translation(self.tlb@, (vaddr / PAGE_SIZE) as u64) {
                    is_execution_error(r, "Permission denied"@) && exists|i: int| #[trigger]
                        is_translation(self.tlb@, (vaddr / PAGE_SIZE) as u64, i)
                            && !self.tlb@[i].permissions.spec_contains(required)
                } else {
                    is_execution_error(r, "TLB miss"@)
                },
            },
    {
        let vpn = vaddr / PAGE_SIZE;
        match self.find_entry(vpn) {
            Some(i) => {
                if self.tlb[i].permissions.contains(required) {
                    Ok(())
                } else {
                    Err(EmulatorError::ExecutionError(String::from_str("Permission denied")))
                }
            },
            None => Err(EmulatorError::ExecutionError(String::from_str("TLB miss"))),
        }
    }

    /// Invalidate TLB entry: every entry for the page loses its valid bit.
    pub fn invalidate_entry(&mut self, vpn: u64)
        ensures
            final(self).ptbr == old(self).ptbr,
            final(self).tlb@.len() == old(self).tlb@.len(),
            forall|i: int|
                0 <= i < old(self).tlb@.len() ==> (#[trigger] final(self).tlb@[i]) == if old(self).tlb@[i].vpn == vpn {
                    TLBEntry { valid: false, ..old(self).tlb@[i] }
                } else {
                    old(self).tlb@[i]
                },
            !has_translation(final(self).tlb@, vpn),
    {
        let mut i: usize = 0;
        while i < self.tlb.len()
            invariant
                i <= self.tlb@.len(),
                self.ptbr == old(self).ptbr,
                self.tlb@.len() == old(self).tlb@.len(),
                forall|j: int|
                    0 <= j < i ==> (#[trigger] self.tlb@[j]) == if old(self).tlb@[j].vpn == vpn {
                        TLBEntry { valid: false, ..old(self).tlb@[j] }
                    } else {
                        old(self).tlb@[j]
                    },
                forall|j: int| i <= j < self.tlb@.len() ==> (#[trigger] self.tlb@[j]) == old(self).tlb@[j],
            decreases self.tlb@.len() - i,
        {
            if self.tlb[i].vpn == vpn {
                self.tlb[i].valid = false;
            }
            i = i + 1;
        }
    }

    /// Flush entire TLB
    pub fn flush_tlb(&mut self)
        ensures
            final(self).tlb@.len() == 0,
            final(self).ptbr == old(self).ptbr,
    {
        self.tlb.clear();
    }
}

} // verus!
