//! The system register banks.

use vstd::prelude::*;

/// Application Register module
pub mod ar;
/// Control Register module
pub mod cr;
/// Data Breakpoint Register module
pub mod dbr;
/// Data Debug Register module
pub mod ddr;
/// Protection Key Register module
pub mod pkr;
/// Region Register module
pub mod rr;

pub use self::ar::{ARFile, AR};
pub use self::cr::{CRFile, CRIndex};
pub use self::dbr::{BreakAccessType, BreakFields, DBRFile};
pub use self::ddr::{DDRFile, DataFields};
pub use self::pkr::{KeyFields, PKRFile};
pub use self::rr::{RRFile, RegionFields};

verus! {

/// Register state for IA-64 CPU
#[derive(Debug)]
pub struct RegisterState {
    /// Application registers
    pub ar: ARFile,
    /// Control registers
    pub cr: CRFile,
    /// Region registers
    pub rr: RRFile,
    /// Protection key registers
    pub pkr: PKRFile,
    /// Debug break registers
    pub dbr: DBRFile,
    /// Debug data registers
    pub ddr: DDRFile,
}

impl RegisterState {
    /// Whether every register of every bank is zero.
    pub open spec fn is_reset(&self) -> bool {
        &&& forall|i: int| 0 <= i < 128 ==> self.ar.regs@[i] == 0
        &&& forall|i: int| 0 <= i < 128 ==> self.cr.registers@[i] == 0
        &&& forall|i: int| 0 <= i < 8 ==> self.rr.regs@[i] == 0
        &&& forall|i: int| 0 <= i < 16 ==> self.pkr.regs@[i] == 0
        &&& forall|i: int| 0 <= i < 8 ==> self.dbr.regs@[i] == 0
        &&& forall|i: int| 0 <= i < 8 ==> self.ddr.regs@[i] == 0
    }

    /// Create new register state, every register zero.
    pub fn new() -> (s: Self)
        ensures
            s.is_reset(),
    {
        Self {
            ar: ARFile::new(),
            cr: CRFile::new(),
            rr: RRFile::new(),
            pkr: PKRFile::new(),
            dbr: DBRFile::new(),
            ddr: DDRFile::new(),
        }
    }
}

impl Default for RegisterState {
    fn default() -> (s: Self)
        ensures
            s.is_reset(),
    {
        Self::new()
    }
}

} // verus!
