//! Debug break registers.

use vstd::prelude::*;
use vstd::string::*;
use crate::cpu::registers::pkr::flag_bit;
use crate::{is_register_error, EmulatorError};

verus! {

/// Number of debug break registers
pub const NUM_DBR: usize = 8;

/// The bits of a debug break register that hold the break address: 12..48.
pub const BREAK_ADDR_MASK: u64 = 0x0000_FFFF_FFFF_F000;

/// Debug break register fields
#[derive(Debug, Clone, Copy, PartialEq, Eq, Structural)]
pub struct BreakFields {
    /// Break address
    pub addr: u64,
    /// Mask
    pub mask: u64,
    /// Read break enable
    pub r: bool,
    /// Write break enable
    pub w: bool,
    /// Execute break enable
    pub x: bool,
    /// Privilege level mask
    pub plm: u8,
    /// Ignore mask
    pub ig: bool,
}

/// Type of access for break matching
#[derive(Debug, Clone, Copy, PartialEq, Eq, Structural)]
pub enum BreakAccessType {
    /// Memory read
    Read,
    /// Memory write
    Write,
    /// Instruction execute
    Execute,
}

impl BreakFields {
    /// The fields of a raw register value: the address in bits 12..48, the
    /// mask in bits 48..56, the read, write and execute enables in bits 56,
    /// 57 and 58, the privilege level mask in bits 59..63 and the ignore bit
    /// in bit 63.
    pub open spec fn spec_from_bits(bits: u64) -> BreakFields {
        BreakFields {
            addr: bits & BREAK_ADDR_MASK,
            mask: (bits >> 48) & 0xFF,
            r: ((bits >> 56) & 1) != 0,
            w: ((bits >> 57) & 1) != 0,
            x: ((bits >> 58) & 1) != 0,
            plm: ((bits >> 59) & 0xF) as u8,
            ig: ((bits >> 63) & 1) != 0,
        }
    }

    /// The raw register value of the fields.
    pub open spec fn spec_to_bits(&self) -> u64 {
        (self.addr & BREAK_ADDR_MASK) | ((self.mask & 0xFF) << 48) | flag_bit(self.r, 56) | flag_bit(
            self.w,
            57,
        ) | flag_bit(self.x, 58) | (((self.plm & 0xF) as u64) << 59) | flag_bit(self.ig, 63)
    }

    /// Whether the privilege level mask enables level `pl`.
    pub open spec fn level_enabled(&self, pl: u8) -> bool {
        pl < 8 && (self.plm & (1u8 << pl)) != 0
    }

    /// Whether the break is armed for the kind of access.
    pub open spec fn access_enabled(&self, access_type: BreakAccessType) -> bool {
        match access_type {
            BreakAccessType::Read => self.r,
            BreakAccessType::Write => self.w,
            BreakAccessType::Execute => self.x,
        }
    }

    /// Whether an access to `addr` at privilege level `pl` hits the break:
    /// the level is enabled, the kind of access is armed, and the address
    /// agrees with the break address outside the masked bits.
    pub open spec fn spec_matches(&self, addr: u64, pl: u8, access_type: BreakAccessType) -> bool {
        &&& self.level_enabled(pl)
        &&& self.access_enabled(access_type)
        &&& (addr & !(self.mask << 48)) == (self.addr & !(self.mask << 48))
    }

    /// Create from raw bits
    #[verifier::when_used_as_spec(spec_from_bits)]
    pub fn from_bits(bits: u64) -> (f: Self)
        ensures
            f == Self::spec_from_bits(bits),
    {
        Self {
            addr: bits & BREAK_ADDR_MASK,
            mask: (bits >> 48) & 0xFF,
            r: ((bits >> 56) & 1) != 0,
            w: ((bits >> 57) & 1) != 0,
            x: ((bits >> 58) & 1) != 0,
            plm: ((bits >> 59) & 0xF) as u8,
            ig: ((bits >> 63) & 1) != 0,
        }
    }

    /// Convert to raw bits
    #[verifier::when_used_as_spec(spec_to_bits)]
    pub fn to_bits(&self) -> (bits: u64)
        ensures
            bits == self.spec_to_bits(),
    {
        let r: u64 = if self.r {
            1u64 << 56
        } else {
            0
        };
        let w: u64 = if self.w {
            1u64 << 57
        } else {
            0
        };
        let x: u64 = if self.x {
            1u64 << 58
        } else {
            0
        };
        let ig: u64 = if self.ig {
            1u64 << 63
        } else {
            0
        };
        (self.addr & BREAK_ADDR_MASK) | ((self.mask & 0xFF) << 48) | r | w | x | (((self.plm
            & 0xF) as u64) << 59) | ig
    }

    /// Check if address matches break condition
    #[verifier::when_used_as_spec(spec_matches)]
    pub fn matches(&self, addr: u64, pl: u8, access_type: BreakAccessType) -> (b: bool)
        ensures
            b == self.spec_matches(addr, pl, access_type),
    {
        // Check privilege level
        if pl >= 8 || (self.plm & (1u8 << pl)) == 0 {
            return false;
        }
        // Check access type
        let armed = match access_type {
            BreakAccessType::Read => self.r,
            BreakAccessType::Write => self.w,
            BreakAccessType::Execute => self.x,
        };
        if !armed {
            return false;
        }
        // Check address match with mask
        let mask = !(self.mask << 48);
        (addr & mask) == (self.addr & mask)
    }
}

/// Whether a register value holds no armed break.
pub open spec fn is_unused_break(bits: u64) -> bool {
    let f = BreakFields::spec_from_bits(bits);
    !f.r && !f.w && !f.x
}

/// Whether register `i` is the first that holds no armed break.
pub open spec fn is_first_unused_break(regs: Seq<u64>, i: int) -> bool {
    &&& 0 <= i < regs.len()
    &&& is_unused_break(regs[i])
    &&& forall|j: int| 0 <= j < i ==> !is_unused_break(#[trigger] regs[j])
}

/// Debug break register file
#[derive(Debug)]
pub struct DBRFile {
    /// Register values
    pub regs: [u64; 8],
}

impl DBRFile {
    /// Create new register file, every register zero.
    pub fn new() -> (f: Self)
        ensures
            forall|i: int| 0 <= i < 8 ==> f.regs@[i] == 0,
    {
        Self { regs: [0; 8] }
    }

    /// Read register value
    pub fn read(&self, index: usize) -> (r: Result<BreakFields, EmulatorError>)
        ensures
            index < 8 ==> r == Ok::<BreakFields, EmulatorError>(
                BreakFields::spec_from_bits(self.regs@[index as int]),
            ),
            index >= 8 ==> is_register_error(r, "Invalid debug break register index"@),
    {
        if index >= NUM_DBR {
            return Err(
                EmulatorError::RegisterError(String::from_str("Invalid debug break register index")),
            );
        }
        Ok(BreakFields::from_bits(self.regs[index]))
    }

    /// Write register value
    pub fn write(&mut self, index: usize, fields: BreakFields) -> (r: Result<(), EmulatorError>)
        ensures
            index < 8 ==> r is Ok && final(self).regs@ == old(self).regs@.update(
                index as int,
                fields.spec_to_bits(),
            ),
            index >= 8 ==> is_register_error(r, "Invalid debug break register index"@) && *final(self)
                == *old(self),
    {
        if index >= NUM_DBR {
            return Err(
                EmulatorError::RegisterError(String::from_str("Invalid debug break register index")),
            );
        }
        self.regs[index] = fields.to_bits();
        Ok(())
    }

    /// Whether some register's break is hit by the access.
    pub open spec fn spec_check_break(&self, addr: u64, pl: u8, access_type: BreakAccessType) -> bool {
        exists|i: int|
            0 <= i < 8 && BreakFields::spec_from_bits(#[trigger] self.regs@[i]).spec_matches(
                addr,
                pl,
                access_type,
            )
    }

    /// Check if any breakpoint matches
    #[verifier::when_used_as_spec(spec_check_break)]
    pub fn check_break(&self, addr: u64, pl: u8, access_type: BreakAccessType) -> (b: bool)
        ensures
            b == self.spec_check_break(addr, pl, access_type),
    {
        let mut i: usize = 0;
        while i < NUM_DBR
            invariant
                i <= 8,
                forall|j: int|
                    0 <= j < i ==> !BreakFields::spec_from_bits(#[trigger] self.regs@[j]).spec_matches(
                        addr,
                        pl,
                        access_type,
                    ),
            decreases 8 - i,
        {
            let fields = BreakFields::from_bits(self.regs[i]);
            if fields.matches(addr, pl, access_type) {
                return true;
            }
            i = i + 1;
        }
        false
    }

    /// Set a new breakpoint in the first register that holds no armed break.
    pub fn set_break(&mut self, addr: u64, mask: u64, r: bool, w: bool, x: bool, plm: u8) -> (res: Result<
        (),
        EmulatorError,
    >)
        ensures
            match res {
                Ok(_) => exists|i: int| #[trigger]
                    is_first_unused_break(old(self).regs@, i) && final(self).regs@ == old(self).regs@.update(
                        i,
                        (BreakFields { addr, mask, r, w, x, plm, ig: false }).spec_to_bits(),
                    ),
                Err(_) => is_register_error(res, "No free debug break registers"@) && *final(self)
                    == *old(self) && forall|i: int|
                    0 <= i < 8 ==> !is_unused_break(#[trigger] old(self).regs@[i]),
            },
    {
        let mut i: usize = 0;
        while i < NUM_DBR
            invariant
                i <= 8,
                *self == *old(self),
                forall|j: int| 0 <= j < i ==> !is_unused_break(#[trigger] self.regs@[j]),
            decreases 8 - i,
        {
            let fields = BreakFields::from_bits(self.regs[i]);
            if !fields.r && !fields.w && !fields.x {
                self.regs[i] = (BreakFields { addr, mask, r, w, x, plm, ig: false }).to_bits();
                assert(is_first_unused_break(old(self).regs@, i as int));
                return Ok(());
            }
            i = i + 1;
        }
        Err(EmulatorError::RegisterError(String::from_str("No free debug break registers")))
    }

    /// Clear a breakpoint: the register keeps its fields but is armed for
    /// no kind of access.
    pub fn clear_break(&mut self, index: usize) -> (r: Result<(), EmulatorError>)
        ensures
            index < 8 ==> r is Ok && final(self).regs@ == old(self).regs@.update(
                index as int,
                (BreakFields {
                    r: false,
                    w: false,
                    x: false,
                    ..BreakFields::spec_from_bits(old(self).regs@[index as int])
                }).spec_to_bits(),
            ),
            index >= 8 ==> is_register_error(r, "Invalid debug break register index"@) && *final(self)
                == *old(self),
    {
        if index >= NUM_DBR {
            return Err(
                EmulatorError::RegisterError(String::from_str("Invalid debug break register index")),
            );
        }
        let mut fields = BreakFields::from_bits(self.regs[index]);
        fields.r = false;
        fields.w = false;
        fields.x = false;
        self.regs[index] = fields.to_bits();
        Ok(())
    }
}

} // verus!
