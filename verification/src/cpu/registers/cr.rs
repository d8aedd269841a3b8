//! Control registers.

use vstd::prelude::*;
use crate::cpu::{PSRFlags, PSR};
use crate::EmulatorError;

verus! {

/// Number of control registers
pub const NUM_CR: usize = 128;

/// The bits of the PSR that a register write can change; the upper sixteen
/// are reserved and keep their value.
pub const PSR_WRITABLE_MASK: u64 = 0x0000_FFFF_FFFF_FFFF;

/// The bits of the TPR that a register write can change.
pub const TPR_WRITABLE_MASK: u64 = 0x0000_0000_0000_FFFF;

/// Control register indices
#[derive(Debug, Clone, Copy, PartialEq, Eq, Structural)]
pub enum CRIndex {
    /// Processor Status Register
    PSR,
    /// Interval Timer Match Register
    ITM,
    /// Interval Timer Vector
    ITV,
    /// Page Table Address
    PTA,
    /// Interruption Status Register
    ISR,
    /// Interruption Processor Status Register
    IPSR,
    /// Interruption Faulting Address
    IFA,
    /// Interruption TLB Insertion Register
    ITIR,
    /// Interruption Instruction Previous Address
    IIPA,
    /// Interruption Function State
    IFS,
    /// Interruption Immediate
    IIM,
    /// Interruption Hash Address
    IHA,
    /// Interruption Vector Address
    IVA,
    /// Page Table Status Register
    PTS,
    /// TLB Purge History
    TPHA,
    /// External Interrupt Vector Register
    XIVA,
    /// Local ID
    LID,
    /// Task Priority Register
    TPR,
    /// External Interrupt Request Register 0
    IRR0,
    /// External Interrupt Request Register 1
    IRR1,
    /// External Interrupt Request Register 2
    IRR2,
    /// External Interrupt Request Register 3
    IRR3,
    /// Interval Timer Configuration Register
    ITC,
    /// Performance Monitor Vector
    PMV,
    /// Corrected Machine Check Vector
    CMCV,
    /// Local Redirection Register 0
    LRR0,
    /// Local Redirection Register 1
    LRR1,
}

impl CRIndex {
    /// The register's number in the bank.
    pub open spec fn spec_index(self) -> int {
        match self {
            CRIndex::PSR => 0,
            CRIndex::ITM => 1,
            CRIndex::ITV => 2,
            CRIndex::PTA => 8,
            CRIndex::ISR => 16,
            CRIndex::IPSR => 17,
            CRIndex::IFA => 18,
            CRIndex::ITIR => 19,
            CRIndex::IIPA => 20,
            CRIndex::IFS => 21,
            CRIndex::IIM => 22,
            CRIndex::IHA => 23,
            CRIndex::IVA => 24,
            CRIndex::PTS => 25,
            CRIndex::TPHA => 26,
            CRIndex::XIVA => 27,
            CRIndex::LID => 64,
            CRIndex::TPR => 65,
            CRIndex::IRR0 => 66,
            CRIndex::IRR1 => 67,
            CRIndex::IRR2 => 68,
            CRIndex::IRR3 => 69,
            CRIndex::ITC => 72,
            CRIndex::PMV => 73,
            CRIndex::CMCV => 74,
            CRIndex::LRR0 => 80,
            CRIndex::LRR1 => 81,
        }
    }

    /// The register's number in the bank.
    #[verifier::when_used_as_spec(spec_index_usize)]
    pub fn index(self) -> (r: usize)
        ensures
            r == self.spec_index(),
            r < 128,
    {
        match self {
            CRIndex::PSR => 0,
            CRIndex::ITM => 1,
            CRIndex::ITV => 2,
            CRIndex::PTA => 8,
            CRIndex::ISR => 16,
            CRIndex::IPSR => 17,
            CRIndex::IFA => 18,
            CRIndex::ITIR => 19,
            CRIndex::IIPA => 20,
            CRIndex::IFS => 21,
            CRIndex::IIM => 22,
            CRIndex::IHA => 23,
            CRIndex::IVA => 24,
            CRIndex::PTS => 25,
            CRIndex::TPHA => 26,
            CRIndex::XIVA => 27,
            CRIndex::LID => 64,
            CRIndex::TPR => 65,
            CRIndex::IRR0 => 66,
            CRIndex::IRR1 => 67,
            CRIndex::IRR2 => 68,
            CRIndex::IRR3 => 69,
            CRIndex::ITC => 72,
            CRIndex::PMV => 73,
            CRIndex::CMCV => 74,
            CRIndex::LRR0 => 80,
            CRIndex::LRR1 => 81,
        }
    }

    /// The register's number in the bank, as a machine word.
    pub open spec fn spec_index_usize(self) -> usize {
        self.spec_index() as usize
    }

    /// Try to create from raw bits: the register with that number, if the
    /// bank has one.
    pub fn from_bits(bits: u8) -> (r: Option<Self>)
        ensures
            match r {
                Some(reg) => reg.spec_index() == bits,
                None => forall|reg: CRIndex| reg.spec_index() != bits,
            },
    {
        match bits {
            0 => Some(CRIndex::PSR),
            1 => Some(CRIndex::ITM),
            2 => Some(CRIndex::ITV),
            8 => Some(CRIndex::PTA),
            16 => Some(CRIndex::ISR),
            17 => Some(CRIndex::IPSR),
            18 => Some(CRIndex::IFA),
            19 => Some(CRIndex::ITIR),
            20 => Some(CRIndex::IIPA),
            21 => Some(CRIndex::IFS),
            22 => Some(CRIndex::IIM),
            23 => Some(CRIndex::IHA),
            24 => Some(CRIndex::IVA),
            25 => Some(CRIndex::PTS),
            26 => Some(CRIndex::TPHA),
            27 => Some(CRIndex::XIVA),
            64 => Some(CRIndex::LID),
            65 => Some(CRIndex::TPR),
            66 => Some(CRIndex::IRR0),
            67 => Some(CRIndex::IRR1),
            68 => Some(CRIndex::IRR2),
            69 => Some(CRIndex::IRR3),
            72 => Some(CRIndex::ITC),
            73 => Some(CRIndex::PMV),
            74 => Some(CRIndex::CMCV),
            80 => Some(CRIndex::LRR0),
            81 => Some(CRIndex::LRR1),
            _ => None,
        }
    }
}

/// The bits of `index` that a write can change.
pub open spec fn writable_mask(index: CRIndex) -> u64 {
    match index {
        CRIndex::PSR => PSR_WRITABLE_MASK,
        CRIndex::TPR => TPR_WRITABLE_MASK,
        _ => 0xFFFF_FFFF_FFFF_FFFFu64,
    }
}

/// The value of a register after `value` is written over `current` under
/// the writable bits `mask`.
pub open spec fn masked_write(current: u64, value: u64, mask: u64) -> u64 {
    (current & !mask) | (value & mask)
}

/// A write under a mask leaves every bit outside the mask as it was and
/// takes every bit inside the mask from the value written.
pub proof fn lemma_masked_write(current: u64, value: u64, mask: u64)
    ensures
        masked_write(current, value, mask) & !mask == current & !mask,
        masked_write(current, value, mask) & mask == value & mask,
        masked_write(current, value, 0xFFFF_FFFF_FFFF_FFFFu64) == value,
{
    assert(((current & !mask) | (value & mask)) & !mask == current & !mask && ((current & !mask) | (
    value & mask)) & mask == value & mask && ((current & !0xFFFF_FFFF_FFFF_FFFFu64) | (value
        & 0xFFFF_FFFF_FFFF_FFFFu64)) == value) by (bit_vector);
}

/// Control register file
#[derive(Debug)]
pub struct CRFile {
    /// Register values
    pub registers: [u64; 128],
}

impl CRFile {
    /// Create new register file, every register zero.
    pub fn new() -> (f: Self)
        ensures
            forall|i: int| 0 <= i < 128 ==> f.registers@[i] == 0,
    {
        Self { registers: [0; 128] }
    }

    /// Read register value
    pub fn read(&self, index: CRIndex) -> (v: u64)
        ensures
            v == self.registers@[index.spec_index()],
    {
        self.registers[index.index()]
    }

    /// Write register value. The PSR keeps its reserved upper sixteen bits
    /// and the TPR everything above its low sixteen bits; any other register
    /// takes the value whole.
    pub fn write(&mut self, index: CRIndex, value: u64) -> (r: Result<(), EmulatorError>)
        ensures
            r is Ok,
            final(self).registers@ == old(self).registers@.update(
                index.spec_index(),
                masked_write(old(self).registers@[index.spec_index()], value, writable_mask(index)),
            ),
            final(self).registers@[index.spec_index()] & !writable_mask(index) == old(self).registers@[index.spec_index()] & !writable_mask(index),
            final(self).registers@[index.spec_index()] & writable_mask(index) == value & writable_mask(
                index,
            ),
    {
        let i = index.index();
        let current = self.registers[i];
        proof {
            lemma_masked_write(current, value, writable_mask(index));
        }
        match index {
            CRIndex::PSR => {
                self.registers[i] = (current & !PSR_WRITABLE_MASK) | (value & PSR_WRITABLE_MASK);
            },
            CRIndex::TPR => {
                self.registers[i] = (current & !TPR_WRITABLE_MASK) | (value & TPR_WRITABLE_MASK);
            },
            _ => {
                self.registers[i] = value;
            },
        }
        Ok(())
    }

    /// Get processor status register
    pub fn get_psr(&self) -> (v: u64)
        ensures
            v == self.registers@[0],
    {
        self.read(CRIndex::PSR)
    }

    /// Get interruption status register
    pub fn get_isr(&self) -> (v: u64)
        ensures
            v == self.registers@[16],
    {
        self.read(CRIndex::ISR)
    }

    /// Get task priority register
    pub fn get_tpr(&self) -> (v: u64)
        ensures
            v == self.registers@[65],
    {
        self.read(CRIndex::TPR)
    }

    /// Get external interrupt request registers
    pub fn get_irr(&self) -> (v: [u64; 4])
        ensures
            v@ == seq![
                self.registers@[66],
                self.registers@[67],
                self.registers@[68],
                self.registers@[69],
            ],
    {
        let v = [
            self.read(CRIndex::IRR0),
            self.read(CRIndex::IRR1),
            self.read(CRIndex::IRR2),
            self.read(CRIndex::IRR3),
        ];
        assert(v@ =~= seq![
            self.registers@[66],
            self.registers@[67],
            self.registers@[68],
            self.registers@[69],
        ]);
        v
    }

    /// Returns the raw bits of the processor status register
    pub fn bits(&self) -> (v: u64)
        ensures
            v == self.registers@[0],
    {
        self.registers[0]
    }

    /// Whether the processor status register has every bit of `flags` set.
    pub open spec fn spec_contains(&self, flags: PSRFlags) -> bool {
        self.registers@[0] & flags.spec_bits() == flags.spec_bits()
    }

    /// Checks if the control register contains the specified flags
    #[verifier::when_used_as_spec(spec_contains)]
    pub fn contains(&self, flags: PSRFlags) -> (b: bool)
        ensures
            b == self.spec_contains(flags),
    {
        self.bits() & flags.bits() == flags.bits()
    }

    /// Updates the processor status register using the provided function
    pub fn update<F>(&mut self, f: F)
        where F: FnOnce(u64) -> u64
        requires
            f.requires((old(self).registers@[0],)),
        ensures
            f.ensures((old(self).registers@[0],), final(self).registers@[0]),
            final(self).registers@ == old(self).registers@.update(0, final(self).registers@[0]),
    {
        let v = f(self.registers[0]);
        self.registers[0] = v;
    }

    /// Creates a new CRFile from raw bits: the processor status register
    /// holds `bits`, every other register zero.
    pub fn from_bits_truncate(bits: u64) -> (f: Self)
        ensures
            f.registers@[0] == bits,
            forall|i: int| 1 <= i < 128 ==> f.registers@[i] == 0,
    {
        let mut cr = Self::new();
        cr.registers[0] = bits;
        cr
    }

    /// Sets or clears the specified flags in the processor status register
    pub fn set(&mut self, flags: PSRFlags, value: bool)
        ensures
            final(self).registers@ == old(self).registers@.update(
                0,
                if value {
                    old(self).registers@[0] | flags.spec_bits()
                } else {
                    old(self).registers@[0] & !flags.spec_bits()
                },
            ),
    {
        if value {
            self.registers[0] = self.registers[0] | flags.bits();
        } else {
            self.registers[0] = self.registers[0] & !flags.bits();
        }
    }

    /// The register file that holds the bits of `psr` in the processor
    /// status register and zero everywhere else.
    pub fn from_psr(psr: PSR) -> (f: Self)
        ensures
            f.registers@[0] == psr.0,
            forall|i: int| 1 <= i < 128 ==> f.registers@[i] == 0,
    {
        Self::from_bits_truncate(psr.bits())
    }
}

/// The register file that holds `bits` in the processor status register
/// and zero everywhere else.
pub open spec fn spec_from_psr(bits: u64) -> CRFile {
    choose|f: CRFile| f.registers@[0] == bits && forall|i: int| 1 <= i < 128 ==> f.registers@[i] == 0
}

impl From<PSR> for CRFile {
    fn from(psr: PSR) -> (f: Self) {
        let f = Self::from_bits_truncate(psr.bits());
        proof {
            let g = spec_from_psr(psr.0);
            vstd::array::axiom_array_ext_equal(f.registers, g.registers);
        }
        f
    }
}

impl vstd::std_specs::convert::FromSpecImpl<PSR> for CRFile {
    open spec fn obeys_from_spec() -> bool {
        true
    }

    open spec fn from_spec(psr: PSR) -> Self {
        spec_from_psr(psr.0)
    }
}

impl Default for CRFile {
    fn default() -> (f: Self)
        ensures
            forall|i: int| 0 <= i < 128 ==> f.registers@[i] == 0,
    {
        Self::new()
    }
}

} // verus!
