//! Region registers.

use vstd::prelude::*;
use vstd::string::*;
use crate::{is_register_error, EmulatorError};

verus! {

/// Number of region registers
pub const NUM_RR: usize = 8;

/// The bits of a region register that hold the region ID: the low 62.
pub const RID_MASK: u64 = 0x3FFF_FFFF_FFFF_FFFF;

/// Region register fields
#[derive(Debug, Clone, Copy, PartialEq, Eq, Structural)]
pub struct RegionFields {
    /// Virtual Region ID
    pub rid: u64,
    /// Page size
    pub ps: u8,
    /// Virtual Region Enable
    pub ve: bool,
}

impl RegionFields {
    /// The fields of a raw register value: the region ID in the low 62 bits,
    /// the page size in bits 56..64, the enable flag in bit 63.
    pub open spec fn spec_from_bits(bits: u64) -> RegionFields {
        RegionFields {
            rid: bits & RID_MASK,
            ps: ((bits >> 56) & 0xFF) as u8,
            ve: (bits >> 63) != 0,
        }
    }

    /// The raw register value of the fields.
    pub open spec fn spec_to_bits(&self) -> u64 {
        (self.rid & RID_MASK) | ((self.ps as u64) << 56) | (if self.ve {
            1u64 << 63
        } else {
            0u64
        })
    }

    /// Create from raw bits
    #[verifier::when_used_as_spec(spec_from_bits)]
    pub fn from_bits(bits: u64) -> (f: Self)
        ensures
            f == Self::spec_from_bits(bits),
    {
        Self { rid: bits & RID_MASK, ps: ((bits >> 56) & 0xFF) as u8, ve: (bits >> 63) != 0 }
    }

    /// Convert to raw bits
    #[verifier::when_used_as_spec(spec_to_bits)]
    pub fn to_bits(&self) -> (bits: u64)
        ensures
            bits == self.spec_to_bits(),
    {
        (self.rid & RID_MASK) | ((self.ps as u64) << 56) | (if self.ve {
            1u64 << 63
        } else {
            0u64
        })
    }
}

/// Region register file
#[derive(Debug)]
pub struct RRFile {
    /// Register values
    pub regs: [u64; 8],
}

impl RRFile {
    /// Create new register file, every register zero.
    pub fn new() -> (f: Self)
        ensures
            forall|i: int| 0 <= i < 8 ==> f.regs@[i] == 0,
    {
        Self { regs: [0; 8] }
    }

    /// Read register value
    pub fn read(&self, index: usize) -> (r: Result<RegionFields, EmulatorError>)
        ensures
            index < 8 ==> r == Ok::<RegionFields, EmulatorError>(
                RegionFields::spec_from_bits(self.regs@[index as int]),
            ),
            index >= 8 ==> is_register_error(r, "Invalid region register index"@),
    {
        if index >= NUM_RR {
            return Err(EmulatorError::RegisterError(String::from_str("Invalid region register index")));
        }
        Ok(RegionFields::from_bits(self.regs[index]))
    }

    /// Write register value
    pub fn write(&mut self, index: usize, fields: RegionFields) -> (r: Result<(), EmulatorError>)
        ensures
            index < 8 ==> r is Ok && final(self).regs@ == old(self).regs@.update(
                index as int,
                fields.spec_to_bits(),
            ),
            index >= 8 ==> is_register_error(r, "Invalid region register index"@) && *final(self)
                == *old(self),
    {
        if index >= NUM_RR {
            return Err(EmulatorError::RegisterError(String::from_str("Invalid region register index")));
        }
        self.regs[index] = fields.to_bits();
        Ok(())
    }

    /// Get virtual region ID for a region
    pub fn get_rid(&self, index: usize) -> (r: Result<u64, EmulatorError>)
        ensures
            index < 8 ==> r == Ok::<u64, EmulatorError>(
                RegionFields::spec_from_bits(self.regs@[index as int]).rid,
            ),
            index >= 8 ==> is_register_error(r, "Invalid region register index"@),
    {
        match self.read(index) {
            Ok(f) => Ok(f.rid),
            Err(e) => Err(e),
        }
    }

    /// Get page size for a region
    pub fn get_ps(&self, index: usize) -> (r: Result<u8, EmulatorError>)
        ensures
            index < 8 ==> r == Ok::<u8, EmulatorError>(
                RegionFields::spec_from_bits(self.regs@[index as int]).ps,
            ),
            index >= 8 ==> is_register_error(r, "Invalid region register index"@),
    {
        match self.read(index) {
            Ok(f) => Ok(f.ps),
            Err(e) => Err(e),
        }
    }

    /// Check if region is enabled
    pub fn is_enabled(&self, index: usize) -> (r: Result<bool, EmulatorError>)
        ensures
            index < 8 ==> r == Ok::<bool, EmulatorError>(
                RegionFields::spec_from_bits(self.regs@[index as int]).ve,
            ),
            index >= 8 ==> is_register_error(r, "Invalid region register index"@),
    {
        match self.read(index) {
            Ok(f) => Ok(f.ve),
            Err(e) => Err(e),
        }
    }

    /// Enable/disable a region
    pub fn set_enabled(&mut self, index: usize, enabled: bool) -> (r: Result<(), EmulatorError>)
        ensures
            index < 8 ==> r is Ok && final(self).regs@ == old(self).regs@.update(
                index as int,
                (RegionFields {
                    ve: enabled,
                    ..RegionFields::spec_from_bits(old(self).regs@[index as int])
                }).spec_to_bits(),
            ),
            index >= 8 ==> is_register_error(r, "Invalid region register index"@) && *final(self)
                == *old(self),
    {
        let mut fields = match self.read(index) {
            Ok(f) => f,
            Err(e) => {
                return Err(e);
            },
        };
        fields.ve = enabled;
        self.write(index, fields)
    }

    /// Set page size for a region
    pub fn set_ps(&mut self, index: usize, ps: u8) -> (r: Result<(), EmulatorError>)
        ensures
            index < 8 ==> r is Ok && final(self).regs@ == old(self).regs@.update(
                index as int,
                (RegionFields {
                    ps,
                    ..RegionFields::spec_from_bits(old(self).regs@[index as int])
                }).spec_to_bits(),
            ),
            index >= 8 ==> is_register_error(r, "Invalid region register index"@) && *final(self)
                == *old(self),
    {
        let mut fields = match self.read(index) {
            Ok(f) => f,
            Err(e) => {
                return Err(e);
            },
        };
        fields.ps = ps;
        self.write(index, fields)
    }

    /// Set virtual region ID for a region
    pub fn set_rid(&mut self, index: usize, rid: u64) -> (r: Result<(), EmulatorError>)
        ensures
            index < 8 ==> r is Ok && final(self).regs@ == old(self).regs@.update(
                index as int,
                (RegionFields {
                    rid,
                    ..RegionFields::spec_from_bits(old(self).regs@[index as int])
                }).spec_to_bits(),
            ),
            index >= 8 ==> is_register_error(r, "Invalid region register index"@) && *final(self)
                == *old(self),
    {
        let mut fields = match self.read(index) {
            Ok(f) => f,
            Err(e) => {
                return Err(e);
            },
        };
        fields.rid = rid;
        self.write(index, fields)
    }
}

} // verus!
