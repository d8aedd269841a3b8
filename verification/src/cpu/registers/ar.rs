//! Application registers.

use vstd::prelude::*;
use vstd::string::*;
use crate::{is_register_error, EmulatorError};

verus! {

/// Number of application registers
pub const NUM_AR: usize = 128;

/// Application Register numbers
#[derive(Debug, Clone, Copy, PartialEq, Eq, Structural)]
pub enum AR {
    /// Kernel Register 1
    KR1,
    /// Kernel Register 2
    KR2,
    /// Kernel Register 3
    KR3,
    /// Kernel Register 4
    KR4,
    /// Kernel Register 5
    KR5,
    /// Kernel Register 6
    KR6,
    /// Kernel Register 7
    KR7,
    /// RSE Configuration Register
    RSC,
    /// Backing Store Pointer
    BSP,
    /// Backing Store Pointer for Memory Stores
    BSPSTORE,
    /// RSE NaT Collection Register
    RNAT,
    /// Compare and Exchange Compare Value Register
    CCV,
    /// User NaT Collection Register
    UNAT,
    /// Floating-point Status Register
    FPSR,
    /// Interval Time Counter Register
    ITC,
    /// Performance Data Register 1
    PFD1,
    /// Performance Data Register 2
    PFD2,
    /// Performance Data Register 3
    PFD3,
    /// Performance Data Register 4
    PFD4,
    /// Performance Data Register 5
    PFD5,
    /// Performance Data Register 6
    PFD6,
    /// Performance Data Register 7
    PFD7,
    /// Performance Data Register 8
    PFD8,
    /// Performance Data Register 9
    PFD9,
    /// Performance Data Register 10
    PFD10,
    /// Performance Data Register 11
    PFD11,
    /// Performance Data Register 12
    PFD12,
    /// Performance Data Register 13
    PFD13,
    /// Performance Data Register 14
    PFD14,
    /// Performance Data Register 15
    PFD15,
    /// Performance Data Register 16
    PFD16,
    /// Performance Data Register 17
    PFD17,
    /// Performance Counter Register 1
    PFC1,
    /// Performance Counter Register 2
    PFC2,
    /// Performance Counter Register 3
    PFC3,
    /// Performance Counter Register 4
    PFC4,
    /// Performance Counter Register 5
    PFC5,
    /// Performance Counter Register 6
    PFC6,
    /// Performance Counter Register 7
    PFC7,
    /// CPUID Register 1
    CPUID1,
    /// CPUID Register 2
    CPUID2,
    /// CPUID Register 3
    CPUID3,
    /// CPUID Register 4
    CPUID4,
}

impl AR {
    /// The register's number in the bank.
    pub open spec fn spec_index(self) -> int {
        match self {
            AR::KR1 => 1,
            AR::KR2 => 2,
            AR::KR3 => 3,
            AR::KR4 => 4,
            AR::KR5 => 5,
            AR::KR6 => 6,
            AR::KR7 => 7,
            AR::RSC => 16,
            AR::BSP => 17,
            AR::BSPSTORE => 18,
            AR::RNAT => 19,
            AR::CCV => 32,
            AR::UNAT => 36,
            AR::FPSR => 40,
            AR::ITC => 44,
            AR::PFD1 => 65,
            AR::PFD2 => 66,
            AR::PFD3 => 67,
            AR::PFD4 => 68,
            AR::PFD5 => 69,
            AR::PFD6 => 70,
            AR::PFD7 => 71,
            AR::PFD8 => 72,
            AR::PFD9 => 73,
            AR::PFD10 => 74,
            AR::PFD11 => 75,
            AR::PFD12 => 76,
            AR::PFD13 => 77,
            AR::PFD14 => 78,
            AR::PFD15 => 79,
            AR::PFD16 => 80,
            AR::PFD17 => 81,
            AR::PFC1 => 89,
            AR::PFC2 => 90,
            AR::PFC3 => 91,
            AR::PFC4 => 92,
            AR::PFC5 => 93,
            AR::PFC6 => 94,
            AR::PFC7 => 95,
            AR::CPUID1 => 97,
            AR::CPUID2 => 98,
            AR::CPUID3 => 99,
            AR::CPUID4 => 100,
        }
    }

    /// The register's number in the bank.
    #[verifier::when_used_as_spec(spec_index_usize)]
    pub fn index(self) -> (r: usize)
        ensures
            r == self.spec_index(),
            r < 128,
    {
        match self {
            AR::KR1 => 1,
            AR::KR2 => 2,
            AR::KR3 => 3,
            AR::KR4 => 4,
            AR::KR5 => 5,
            AR::KR6 => 6,
            AR::KR7 => 7,
            AR::RSC => 16,
            AR::BSP => 17,
            AR::BSPSTORE => 18,
            AR::RNAT => 19,
            AR::CCV => 32,
            AR::UNAT => 36,
            AR::FPSR => 40,
            AR::ITC => 44,
            AR::PFD1 => 65,
            AR::PFD2 => 66,
            AR::PFD3 => 67,
            AR::PFD4 => 68,
            AR::PFD5 => 69,
            AR::PFD6 => 70,
            AR::PFD7 => 71,
            AR::PFD8 => 72,
            AR::PFD9 => 73,
            AR::PFD10 => 74,
            AR::PFD11 => 75,
            AR::PFD12 => 76,
            AR::PFD13 => 77,
            AR::PFD14 => 78,
            AR::PFD15 => 79,
            AR::PFD16 => 80,
            AR::PFD17 => 81,
            AR::PFC1 => 89,
            AR::PFC2 => 90,
            AR::PFC3 => 91,
            AR::PFC4 => 92,
            AR::PFC5 => 93,
            AR::PFC6 => 94,
            AR::PFC7 => 95,
            AR::CPUID1 => 97,
            AR::CPUID2 => 98,
            AR::CPUID3 => 99,
            AR::CPUID4 => 100,
        }
    }

    /// The register's number in the bank, as a machine word.
    pub open spec fn spec_index_usize(self) -> usize {
        self.spec_index() as usize
    }

    /// Try to create from raw bits: the register with that number, if the
    /// bank has one.
    pub fn from_bits(bits: u8) -> (r: Option<Self>)
        ensures
            match r {
                Some(reg) => reg.spec_index() == bits,
                None => forall|reg: AR| reg.spec_index() != bits,
            },
    {
        match bits {
            1 => Some(AR::KR1),
            2 => Some(AR::KR2),
            3 => Some(AR::KR3),
            4 => Some(AR::KR4),
            5 => Some(AR::KR5),
            6 => Some(AR::KR6),
            7 => Some(AR::KR7),
            16 => Some(AR::RSC),
            17 => Some(AR::BSP),
            18 => Some(AR::BSPSTORE),
            19 => Some(AR::RNAT),
            32 => Some(AR::CCV),
            36 => Some(AR::UNAT),
            40 => Some(AR::FPSR),
            44 => Some(AR::ITC),
            65 => Some(AR::PFD1),
            66 => Some(AR::PFD2),
            67 => Some(AR::PFD3),
            68 => Some(AR::PFD4),
            69 => Some(AR::PFD5),
            70 => Some(AR::PFD6),
            71 => Some(AR::PFD7),
            72 => Some(AR::PFD8),
            73 => Some(AR::PFD9),
            74 => Some(AR::PFD10),
            75 => Some(AR::PFD11),
            76 => Some(AR::PFD12),
            77 => Some(AR::PFD13),
            78 => Some(AR::PFD14),
            79 => Some(AR::PFD15),
            80 => Some(AR::PFD16),
            81 => Some(AR::PFD17),
            89 => Some(AR::PFC1),
            90 => Some(AR::PFC2),
            91 => Some(AR::PFC3),
            92 => Some(AR::PFC4),
            93 => Some(AR::PFC5),
            94 => Some(AR::PFC6),
            95 => Some(AR::PFC7),
            97 => Some(AR::CPUID1),
            98 => Some(AR::CPUID2),
            99 => Some(AR::CPUID3),
            100 => Some(AR::CPUID4),
            _ => None,
        }
    }
}

/// Application register file
#[derive(Debug)]
pub struct ARFile {
    /// Register values
    pub regs: [u64; 128],
}

impl ARFile {
    /// Whether a register rejects writes: the CPUID registers do.
    pub open spec fn is_read_only(index: AR) -> bool {
        index is CPUID1 || index is CPUID2 || index is CPUID3 || index is CPUID4
    }

    /// Create new register file, every register zero.
    pub fn new() -> (f: Self)
        ensures
            forall|i: int| 0 <= i < 128 ==> f.regs@[i] == 0,
    {
        Self { regs: [0; 128] }
    }

    /// Read register value
    pub fn read(&self, index: AR) -> (r: Result<u64, EmulatorError>)
        ensures
            r matches Ok(v) && v == self.regs@[index.spec_index()],
    {
        Ok(self.regs[index.index()])
    }

    /// Write register value. The CPUID registers are read-only.
    pub fn write(&mut self, index: AR, value: u64) -> (r: Result<(), EmulatorError>)
        ensures
            Self::is_read_only(index) ==> is_register_error(r, "CPUID registers are read-only"@)
                && *final(self) == *old(self),
            !Self::is_read_only(index) ==> r is Ok && final(self).regs@ == old(self).regs@.update(
                index.spec_index(),
                value,
            ),
    {
        match index {
            AR::CPUID1 | AR::CPUID2 | AR::CPUID3 | AR::CPUID4 => Err(
                EmulatorError::RegisterError(String::from_str("CPUID registers are read-only")),
            ),
            _ => {
                self.regs[index.index()] = value;
                Ok(())
            },
        }
    }

    /// Get RSE configuration
    pub fn get_rse_config(&self) -> (v: u64)
        ensures
            v == self.regs@[16],
    {
        self.regs[AR::RSC.index()]
    }

    /// Get backing store pointer
    pub fn get_bsp(&self) -> (v: u64)
        ensures
            v == self.regs@[17],
    {
        self.regs[AR::BSP.index()]
    }

    /// Get UNAT collection register
    pub fn get_unat(&self) -> (v: u64)
        ensures
            v == self.regs@[36],
    {
        self.regs[AR::UNAT.index()]
    }

    /// Get floating-point status register
    pub fn get_fpsr(&self) -> (v: u64)
        ensures
            v == self.regs@[40],
    {
        self.regs[AR::FPSR.index()]
    }
}

impl Default for ARFile {
    fn default() -> (f: Self)
        ensures
            forall|i: int| 0 <= i < 128 ==> f.regs@[i] == 0,
    {
        Self::new()
    }
}

} // verus!
