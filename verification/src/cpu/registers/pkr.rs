//! Protection key registers.

use vstd::prelude::*;
use vstd::string::*;
use crate::{is_register_error, EmulatorError};

verus! {

/// Number of protection key registers
pub const NUM_PKR: usize = 16;

/// Protection key fields
#[derive(Debug, Clone, Copy, PartialEq, Eq, Structural)]
pub struct KeyFields {
    /// Key value
    pub key: u32,
    /// Valid bit
    pub v: bool,
    /// Write disable
    pub wd: bool,
    /// Read disable
    pub rd: bool,
    /// Execute disable
    pub xd: bool,
}

/// The word with bit `pos` set if `flag` holds, and no other bit.
pub open spec fn flag_bit(flag: bool, pos: u64) -> u64 {
    if flag {
        1u64 << pos
    } else {
        0u64
    }
}

impl KeyFields {
    /// The fields of a raw register value: the key in bits 0..32, then the
    /// valid, write-disable, read-disable and execute-disable bits.
    pub open spec fn spec_from_bits(bits: u64) -> KeyFields {
        KeyFields {
            key: (bits & 0xFFFF_FFFF) as u32,
            v: ((bits >> 32) & 1) != 0,
            wd: ((bits >> 33) & 1) != 0,
            rd: ((bits >> 34) & 1) != 0,
            xd: ((bits >> 35) & 1) != 0,
        }
    }

    /// The raw register value of the fields.
    pub open spec fn spec_to_bits(&self) -> u64 {
        (self.key as u64) | flag_bit(self.v, 32) | flag_bit(self.wd, 33) | flag_bit(self.rd, 34)
            | flag_bit(self.xd, 35)
    }

    /// Whether the key allows read access.
    pub open spec fn spec_can_read(&self) -> bool {
        self.v && !self.rd
    }

    /// Whether the key allows write access.
    pub open spec fn spec_can_write(&self) -> bool {
        self.v && !self.wd
    }

    /// Whether the key allows execute access.
    pub open spec fn spec_can_execute(&self) -> bool {
        self.v && !self.xd
    }

    /// Create from raw bits
    #[verifier::when_used_as_spec(spec_from_bits)]
    pub fn from_bits(bits: u64) -> (f: Self)
        ensures
            f == Self::spec_from_bits(bits),
    {
        Self {
            key: (bits & 0xFFFF_FFFF) as u32,
            v: ((bits >> 32) & 1) != 0,
            wd: ((bits >> 33) & 1) != 0,
            rd: ((bits >> 34) & 1) != 0,
            xd: ((bits >> 35) & 1) != 0,
        }
    }

    /// Convert to raw bits
    #[verifier::when_used_as_spec(spec_to_bits)]
    pub fn to_bits(&self) -> (bits: u64)
        ensures
            bits == self.spec_to_bits(),
    {
        let v: u64 = if self.v {
            1u64 << 32
        } else {
            0
        };
        let wd: u64 = if self.wd {
            1u64 << 33
        } else {
            0
        };
        let rd: u64 = if self.rd {
            1u64 << 34
        } else {
            0
        };
        let xd: u64 = if self.xd {
            1u64 << 35
        } else {
            0
        };
        (self.key as u64) | v | wd | rd | xd
    }

    /// Check if key allows read access
    #[verifier::when_used_as_spec(spec_can_read)]
    pub fn can_read(&self) -> (b: bool)
        ensures
            b == self.spec_can_read(),
    {
        self.v && !self.rd
    }

    /// Check if key allows write access
    #[verifier::when_used_as_spec(spec_can_write)]
    pub fn can_write(&self) -> (b: bool)
        ensures
            b == self.spec_can_write(),
    {
        self.v && !self.wd
    }

    /// Check if key allows execute access
    #[verifier::when_used_as_spec(spec_can_execute)]
    pub fn can_execute(&self) -> (b: bool)
        ensures
            b == self.spec_can_execute(),
    {
        self.v && !self.xd
    }
}

/// Packing key fields into a register value and unpacking them gives the
/// fields back.
pub proof fn lemma_key_fields_round_trip(f: KeyFields)
    ensures
        KeyFields::spec_from_bits(f.spec_to_bits()) == f,
{
    let k = f.key;
    let a = flag_bit(f.v, 32);
    let b = flag_bit(f.wd, 33);
    let c = flag_bit(f.rd, 34);
    let d = flag_bit(f.xd, 35);
    let bits = (k as u64) | a | b | c | d;
    assert((bits & 0xFFFF_FFFF) as u32 == k && (((bits >> 32) & 1) != 0) == (a != 0) && (((bits >> 33)
        & 1) != 0) == (b != 0) && (((bits >> 34) & 1) != 0) == (c != 0) && (((bits >> 35) & 1) != 0)
        == (d != 0)) by (bit_vector)
        requires
            bits == (k as u64) | a | b | c | d,
            a == 0 || a == 1u64 << 32,
            b == 0 || b == 1u64 << 33,
            c == 0 || c == 1u64 << 34,
            d == 0 || d == 1u64 << 35,
    ;
    assert(1u64 << 32 != 0 && 1u64 << 33 != 0 && 1u64 << 34 != 0 && 1u64 << 35 != 0) by (bit_vector);
}

/// Whether the key `key` is found at register `i`: that register is the
/// first valid one that holds the key.
pub open spec fn is_key_at(regs: Seq<u64>, key: u32, i: int) -> bool {
    &&& 0 <= i < regs.len()
    &&& KeyFields::spec_from_bits(regs[i]).v
    &&& KeyFields::spec_from_bits(regs[i]).key == key
    &&& forall|j: int|
        0 <= j < i ==> !(KeyFields::spec_from_bits(#[trigger] regs[j]).v && KeyFields::spec_from_bits(
            regs[j],
        ).key == key)
}

/// Whether some valid register holds the key `key`.
pub open spec fn has_key(regs: Seq<u64>, key: u32) -> bool {
    exists|i: int|
        0 <= i < regs.len() && KeyFields::spec_from_bits(#[trigger] regs[i]).v
            && KeyFields::spec_from_bits(regs[i]).key == key
}

/// Whether register `i` is the first that holds no valid key.
pub open spec fn is_first_free_key(regs: Seq<u64>, i: int) -> bool {
    &&& 0 <= i < regs.len()
    &&& !KeyFields::spec_from_bits(regs[i]).v
    &&& forall|j: int| 0 <= j < i ==> KeyFields::spec_from_bits(#[trigger] regs[j]).v
}

/// Protection key register file
#[derive(Debug)]
pub struct PKRFile {
    /// Register values
    pub regs: [u64; 16],
}

impl PKRFile {
    /// Create new register file, every register zero.
    pub fn new() -> (f: Self)
        ensures
            forall|i: int| 0 <= i < 16 ==> f.regs@[i] == 0,
    {
        Self { regs: [0; 16] }
    }

    /// Read register value
    pub fn read(&self, index: usize) -> (r: Result<KeyFields, EmulatorError>)
        ensures
            index < 16 ==> r == Ok::<KeyFields, EmulatorError>(
                KeyFields::spec_from_bits(self.regs@[index as int]),
            ),
            index >= 16 ==> is_register_error(r, "Invalid protection key register index"@),
    {
        if index >= NUM_PKR {
            return Err(
                EmulatorError::RegisterError(String::from_str("Invalid protection key register index")),
            );
        }
        Ok(KeyFields::from_bits(self.regs[index]))
    }

    /// Write register value
    pub fn write(&mut self, index: usize, fields: KeyFields) -> (r: Result<(), EmulatorError>)
        ensures
            index < 16 ==> r is Ok && final(self).regs@ == old(self).regs@.update(
                index as int,
                fields.spec_to_bits(),
            ),
            index >= 16 ==> is_register_error(r, "Invalid protection key register index"@) && *final(self) == *old(self),
    {
        if index >= NUM_PKR {
            return Err(
                EmulatorError::RegisterError(String::from_str("Invalid protection key register index")),
            );
        }
        self.regs[index] = fields.to_bits();
        Ok(())
    }

    /// Find key by value: the first valid register that holds it.
    pub fn find_key(&self, key: u32) -> (r: Option<usize>)
        ensures
            match r {
                Some(i) => is_key_at(self.regs@, key, i as int),
                None => !has_key(self.regs@, key),
            },
    {
        let mut i: usize = 0;
        while i < NUM_PKR
            invariant
                i <= 16,
                forall|j: int|
                    0 <= j < i ==> !(KeyFields::spec_from_bits(#[trigger] self.regs@[j]).v
                        && KeyFields::spec_from_bits(self.regs@[j]).key == key),
            decreases 16 - i,
        {
            let fields = KeyFields::from_bits(self.regs[i]);
            if fields.v && fields.key == key {
                return Some(i);
            }
            i = i + 1;
        }
        None
    }

    /// What a lookup of `key` finds: the fields of the first valid register
    /// that holds it.
    pub open spec fn spec_lookup(&self, key: u32) -> Option<KeyFields> {
        if has_key(self.regs@, key) {
            Some(KeyFields::spec_from_bits(self.regs@[choose|i: int| is_key_at(self.regs@, key, i)]))
        } else {
            None
        }
    }

    /// Look a key up and hand back its fields.
    pub fn lookup(&self, key: u32) -> (r: Option<KeyFields>)
        ensures
            r == self.spec_lookup(key),
    {
        match self.find_key(key) {
            Some(i) => {
                proof {
                    let j = choose|j: int| is_key_at(self.regs@, key, j);
                }
                Some(KeyFields::from_bits(self.regs[i]))
            },
            None => None,
        }
    }

    /// Check if a key allows read access
    pub fn check_read(&self, key: u32) -> (b: bool)
        ensures
            b == (self.spec_lookup(key) matches Some(f) && f.spec_can_read()),
    {
        match self.lookup(key) {
            Some(f) => f.can_read(),
            None => false,
        }
    }

    /// Check if a key allows write access
    pub fn check_write(&self, key: u32) -> (b: bool)
        ensures
            b == (self.spec_lookup(key) matches Some(f) && f.spec_can_write()),
    {
        match self.lookup(key) {
            Some(f) => f.can_write(),
            None => false,
        }
    }

    /// Check if a key allows execute access
    pub fn check_execute(&self, key: u32) -> (b: bool)
        ensures
            b == (self.spec_lookup(key) matches Some(f) && f.spec_can_execute()),
    {
        match self.lookup(key) {
            Some(f) => f.can_execute(),
            None => false,
        }
    }

    /// Invalidate a key: the first valid register that holds it loses its
    /// valid bit.
    pub fn invalidate(&mut self, key: u32) -> (r: Result<(), EmulatorError>)
        ensures
            r is Ok,
            !has_key(old(self).regs@, key) ==> *final(self) == *old(self),
            has_key(old(self).regs@, key) ==> exists|i: int| #[trigger]
                is_key_at(old(self).regs@, key, i) && final(self).regs@ == old(self).regs@.update(
                    i,
                    (KeyFields { v: false, ..KeyFields::spec_from_bits(old(self).regs@[i]) }).spec_to_bits(),
                ),
    {
        match self.find_key(key) {
            Some(index) => {
                let mut fields = KeyFields::from_bits(self.regs[index]);
                fields.v = false;
                self.regs[index] = fields.to_bits();
            },
            None => {},
        }
        Ok(())
    }

    /// Add a new key in the first register that holds no valid key.
    pub fn add_key(&mut self, key: u32, wd: bool, rd: bool, xd: bool) -> (r: Result<
        (),
        EmulatorError,
    >)
        ensures
            match r {
                Ok(_) => exists|i: int| #[trigger]
                    is_first_free_key(old(self).regs@, i) && final(self).regs@ == old(self).regs@.update(
                        i,
                        (KeyFields { key, v: true, wd, rd, xd }).spec_to_bits(),
                    ),
                Err(_) => is_register_error(r, "No free protection key registers"@) && *final(self)
                    == *old(self) && forall|i: int|
                    0 <= i < 16 ==> KeyFields::spec_from_bits(#[trigger] old(self).regs@[i]).v,
            },
    {
        let mut i: usize = 0;
        while i < NUM_PKR
            invariant
                i <= 16,
                *self == *old(self),
                forall|j: int| 0 <= j < i ==> KeyFields::spec_from_bits(#[trigger] self.regs@[j]).v,
            decreases 16 - i,
        {
            let fields = KeyFields::from_bits(self.regs[i]);
            if !fields.v {
                self.regs[i] = (KeyFields { key, v: true, wd, rd, xd }).to_bits();
                assert(is_first_free_key(old(self).regs@, i as int));
                return Ok(());
            }
            i = i + 1;
        }
        Err(EmulatorError::RegisterError(String::from_str("No free protection key registers")))
    }
}

impl Default for PKRFile {
    fn default() -> (f: Self)
        ensures
            forall|i: int| 0 <= i < 16 ==> f.regs@[i] == 0,
    {
        Self::new()
    }
}

} // verus!
