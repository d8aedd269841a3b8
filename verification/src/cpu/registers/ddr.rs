//! Debug data registers.

use vstd::prelude::*;
use vstd::string::*;
use crate::{is_register_error, EmulatorError};

verus! {

/// Number of debug data registers
pub const NUM_DDR: usize = 8;

/// The bits of a debug data register that hold the data pattern: the low 56.
pub const DATA_MASK: u64 = 0x00FF_FFFF_FFFF_FFFF;

/// Debug data register fields
#[derive(Debug, Clone, Copy, PartialEq, Eq, Structural)]
pub struct DataFields {
    /// Data value
    pub data: u64,
    /// Data mask
    pub mask: u64,
}

impl DataFields {
    /// The fields of a raw register value: the data pattern in the low 56
    /// bits, the mask in bits 56..64.
    pub open spec fn spec_from_bits(bits: u64) -> DataFields {
        DataFields { data: bits & DATA_MASK, mask: (bits >> 56) & 0xFF }
    }

    /// The raw register value of the fields.
    pub open spec fn spec_to_bits(&self) -> u64 {
        (self.data & DATA_MASK) | (self.mask << 56)
    }

    /// Whether `value` agrees with the data pattern outside the masked bits.
    pub open spec fn spec_matches(&self, value: u64) -> bool {
        (value & !(self.mask << 56)) == (self.data & !(self.mask << 56))
    }

    /// Create from raw bits
    #[verifier::when_used_as_spec(spec_from_bits)]
    pub fn from_bits(bits: u64) -> (f: Self)
        ensures
            f == Self::spec_from_bits(bits),
    {
        Self { data: bits & DATA_MASK, mask: (bits >> 56) & 0xFF }
    }

    /// Convert to raw bits
    #[verifier::when_used_as_spec(spec_to_bits)]
    pub fn to_bits(&self) -> (bits: u64)
        ensures
            bits == self.spec_to_bits(),
    {
        (self.data & DATA_MASK) | (self.mask << 56)
    }

    /// Check if value matches data pattern
    #[verifier::when_used_as_spec(spec_matches)]
    pub fn matches(&self, value: u64) -> (b: bool)
        ensures
            b == self.spec_matches(value),
    {
        let mask = !(self.mask << 56);
        (value & mask) == (self.data & mask)
    }
}

/// Packing data fields into a register value and unpacking them gives back
/// a pattern of 56 bits and a mask of eight.
pub proof fn lemma_data_fields_round_trip(f: DataFields)
    requires
        f.data & DATA_MASK == f.data,
        f.mask & 0xFF == f.mask,
    ensures
        DataFields::spec_from_bits(f.spec_to_bits()) == f,
{
    let d = f.data;
    let m = f.mask;
    assert((((d & 0x00FF_FFFF_FFFF_FFFF) | (m << 56)) & 0x00FF_FFFF_FFFF_FFFF) == d && ((((d
        & 0x00FF_FFFF_FFFF_FFFF) | (m << 56)) >> 56) & 0xFF) == m) by (bit_vector)
        requires
            d & 0x00FF_FFFF_FFFF_FFFF == d,
            m & 0xFF == m,
    ;
}

/// Whether register `i` is the first whose mask is zero.
pub open spec fn is_first_unused_match(regs: Seq<u64>, i: int) -> bool {
    &&& 0 <= i < regs.len()
    &&& DataFields::spec_from_bits(regs[i]).mask == 0
    &&& forall|j: int| 0 <= j < i ==> DataFields::spec_from_bits(#[trigger] regs[j]).mask != 0
}

/// Debug data register file
#[derive(Debug)]
pub struct DDRFile {
    /// Register values
    pub regs: [u64; 8],
}

impl DDRFile {
    /// Create new register file, every register zero.
    pub fn new() -> (f: Self)
        ensures
            forall|i: int| 0 <= i < 8 ==> f.regs@[i] == 0,
    {
        Self { regs: [0; 8] }
    }

    /// Read register value
    pub fn read(&self, index: usize) -> (r: Result<DataFields, EmulatorError>)
        ensures
            index < 8 ==> r == Ok::<DataFields, EmulatorError>(
                DataFields::spec_from_bits(self.regs@[index as int]),
            ),
            index >= 8 ==> is_register_error(r, "Invalid debug data register index"@),
    {
        if index >= NUM_DDR {
            return Err(
                EmulatorError::RegisterError(String::from_str("Invalid debug data register index")),
            );
        }
        Ok(DataFields::from_bits(self.regs[index]))
    }

    /// Write register value
    pub fn write(&mut self, index: usize, fields: DataFields) -> (r: Result<(), EmulatorError>)
        ensures
            index < 8 ==> r is Ok && final(self).regs@ == old(self).regs@.update(
                index as int,
                fields.spec_to_bits(),
            ),
            index >= 8 ==> is_register_error(r, "Invalid debug data register index"@) && *final(self)
                == *old(self),
    {
        if index >= NUM_DDR {
            return Err(
                EmulatorError::RegisterError(String::from_str("Invalid debug data register index")),
            );
        }
        self.regs[index] = fields.to_bits();
        Ok(())
    }

    /// Whether some register's pattern matches `value`.
    pub open spec fn spec_check_match(&self, value: u64) -> bool {
        exists|i: int|
            0 <= i < 8 && DataFields::spec_from_bits(#[trigger] self.regs@[i]).spec_matches(value)
    }

    /// Check if any data register matches value
    #[verifier::when_used_as_spec(spec_check_match)]
    pub fn check_match(&self, value: u64) -> (b: bool)
        ensures
            b == self.spec_check_match(value),
    {
        let mut i: usize = 0;
        while i < NUM_DDR
            invariant
                i <= 8,
                forall|j: int|
                    0 <= j < i ==> !DataFields::spec_from_bits(#[trigger] self.regs@[j]).spec_matches(
                        value,
                    ),
            decreases 8 - i,
        {
            let fields = DataFields::from_bits(self.regs[i]);
            if fields.matches(value) {
                return true;
            }
            i = i + 1;
        }
        false
    }

    /// Set a new data match value in the first register whose mask is zero.
    pub fn set_match(&mut self, data: u64, mask: u64) -> (r: Result<(), EmulatorError>)
        ensures
            match r {
                Ok(_) => exists|i: int| #[trigger]
                    is_first_unused_match(old(self).regs@, i) && final(self).regs@ == old(self).regs@.update(
                        i,
                        (DataFields { data, mask }).spec_to_bits(),
                    ),
                Err(_) => is_register_error(r, "No free debug data registers"@) && *final(self) == *old(self) && forall|i: int|
                    0 <= i < 8 ==> DataFields::spec_from_bits(#[trigger] old(self).regs@[i]).mask != 0,
            },
    {
        let mut i: usize = 0;
        while i < NUM_DDR
            invariant
                i <= 8,
                *self == *old(self),
                forall|j: int| 0 <= j < i ==> DataFields::spec_from_bits(#[trigger] self.regs@[j]).mask != 0,
            decreases 8 - i,
        {
            let fields = DataFields::from_bits(self.regs[i]);
            if fields.mask == 0 {
                self.regs[i] = (DataFields { data, mask }).to_bits();
                assert(is_first_unused_match(old(self).regs@, i as int));
                return Ok(());
            }
            i = i + 1;
        }
        Err(EmulatorError::RegisterError(String::from_str("No free debug data registers")))
    }

    /// Clear a data match: the register keeps its pattern and loses its
    /// mask.
    pub fn clear_match(&mut self, index: usize) -> (r: Result<(), EmulatorError>)
        ensures
            index < 8 ==> r is Ok && final(self).regs@ == old(self).regs@.update(
                index as int,
                (DataFields {
                    mask: 0,
                    ..DataFields::spec_from_bits(old(self).regs@[index as int])
                }).spec_to_bits(),
            ),
            index >= 8 ==> is_register_error(r, "Invalid debug data register index"@) && *final(self)
                == *old(self),
    {
        if index >= NUM_DDR {
            return Err(
                EmulatorError::RegisterError(String::from_str("Invalid debug data register index")),
            );
        }
        let mut fields = DataFields::from_bits(self.regs[index]);
        fields.mask = 0;
        self.regs[index] = fields.to_bits();
        Ok(())
    }
}

impl Default for DDRFile {
    fn default() -> (f: Self)
        ensures
            forall|i: int| 0 <= i < 8 ==> f.regs@[i] == 0,
    {
        Self::new()
    }
}

} // verus!
