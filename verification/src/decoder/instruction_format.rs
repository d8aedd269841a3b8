//! IA-64 instruction format definitions
//!
//! Each format is a fixed layout of bit fields in an instruction slot. A
//! field is read by shifting the slot down to the field and masking it to
//! the field's width.

use vstd::prelude::*;

verus! {

/// A-type instruction format (ALU)
#[derive(Debug, Clone, Copy, PartialEq, Eq, Structural)]
pub struct AFormat {
    /// Predicate register (qp) [0:5]
    pub predicate: u8,
    /// Major opcode [6:13]
    pub major_opcode: u8,
    /// x2 field [14:20]
    pub x2: u8,
    /// ve field [21:21]
    pub ve: bool,
    /// x4 field [22:23]
    pub x4: u8,
    /// First source register (r2) [24:30]
    pub r2: u8,
    /// Second source register (r3) [31:37]
    pub r3: u8,
    /// Target register (r1) [38:44]
    pub r1: u8,
}

impl AFormat {
    /// The fields of an A-format slot.
    pub open spec fn spec_decode(bits: u64) -> AFormat {
        AFormat {
            predicate: (bits & 0x3F) as u8,
            major_opcode: ((bits >> 6) & 0xFF) as u8,
            x2: ((bits >> 14) & 0x7F) as u8,
            ve: ((bits >> 21) & 0x1) != 0,
            x4: ((bits >> 22) & 0x3) as u8,
            r2: ((bits >> 24) & 0x7F) as u8,
            r3: ((bits >> 31) & 0x7F) as u8,
            r1: ((bits >> 38) & 0x7F) as u8,
        }
    }

    /// Decodes a 64-bit instruction into an A-format instruction
    #[verifier::when_used_as_spec(spec_decode)]
    pub fn decode(bits: u64) -> (f: Self)
        ensures
            f == Self::spec_decode(bits),
    {
        Self {
            predicate: (bits & 0x3F) as u8,
            major_opcode: ((bits >> 6) & 0xFF) as u8,
            x2: ((bits >> 14) & 0x7F) as u8,
            ve: ((bits >> 21) & 0x1) != 0,
            x4: ((bits >> 22) & 0x3) as u8,
            r2: ((bits >> 24) & 0x7F) as u8,
            r3: ((bits >> 31) & 0x7F) as u8,
            r1: ((bits >> 38) & 0x7F) as u8,
        }
    }

    /// The format with every field zero.
    pub open spec fn spec_default() -> AFormat {
        AFormat {
            predicate: 0,
            major_opcode: 0,
            x2: 0,
            ve: false,
            x4: 0,
            r2: 0,
            r3: 0,
            r1: 0,
        }
    }
}

impl Default for AFormat {
    fn default() -> (f: Self)
        ensures
            f == AFormat::spec_default(),
    {
        Self {
            predicate: 0,
            major_opcode: 0,
            x2: 0,
            ve: false,
            x4: 0,
            r2: 0,
            r3: 0,
            r1: 0,
        }
    }
}

/// I-type instruction format (Integer)
#[derive(Debug, Clone, Copy, PartialEq, Eq, Structural)]
pub struct IFormat {
    /// Predicate register (qp) [0:5]
    pub predicate: u8,
    /// Major opcode [6:13]
    pub major_opcode: u8,
    /// x2 field [14:20]
    pub x2: u8,
    /// Immediate8 [21:28]
    pub imm8: u8,
    /// First source register (r2) [29:35]
    pub r2: u8,
    /// Target register (r1) [36:42]
    pub r1: u8,
}

impl IFormat {
    /// The fields of an I-format slot.
    pub open spec fn spec_decode(bits: u64) -> IFormat {
        IFormat {
            predicate: (bits & 0x3F) as u8,
            major_opcode: ((bits >> 6) & 0xFF) as u8,
            x2: ((bits >> 14) & 0x7F) as u8,
            imm8: ((bits >> 21) & 0xFF) as u8,
            r2: ((bits >> 29) & 0x7F) as u8,
            r1: ((bits >> 36) & 0x7F) as u8,
        }
    }

    /// Decodes a 64-bit instruction into an I-format instruction
    #[verifier::when_used_as_spec(spec_decode)]
    pub fn decode(bits: u64) -> (f: Self)
        ensures
            f == Self::spec_decode(bits),
    {
        Self {
            predicate: (bits & 0x3F) as u8,
            major_opcode: ((bits >> 6) & 0xFF) as u8,
            x2: ((bits >> 14) & 0x7F) as u8,
            imm8: ((bits >> 21) & 0xFF) as u8,
            r2: ((bits >> 29) & 0x7F) as u8,
            r1: ((bits >> 36) & 0x7F) as u8,
        }
    }

    /// The format with every field zero.
    pub open spec fn spec_default() -> IFormat {
        IFormat {
            predicate: 0,
            major_opcode: 0,
            x2: 0,
            imm8: 0,
            r2: 0,
            r1: 0,
        }
    }
}

impl Default for IFormat {
    fn default() -> (f: Self)
        ensures
            f == IFormat::spec_default(),
    {
        Self {
            predicate: 0,
            major_opcode: 0,
            x2: 0,
            imm8: 0,
            r2: 0,
            r1: 0,
        }
    }
}

/// M-type instruction format (Memory)
#[derive(Debug, Clone, Copy, PartialEq, Eq, Structural)]
pub struct MFormat {
    /// Predicate register (qp) [0:5]
    pub predicate: u8,
    /// Major opcode [6:13]
    pub major_opcode: u8,
    /// x2 field [14:15]
    pub x2: u8,
    /// Hint [16:17]
    pub hint: u8,
    /// x4 field [18:19]
    pub x4: u8,
    /// Base register (r3) [20:26]
    pub r3: u8,
    /// Target register (r1) [27:33]
    pub r1: u8,
    /// Immediate7 [34:40]
    pub imm7: u8,
}

impl MFormat {
    /// The fields of an M-format slot.
    pub open spec fn spec_decode(bits: u64) -> MFormat {
        MFormat {
            predicate: (bits & 0x3F) as u8,
            major_opcode: ((bits >> 6) & 0xFF) as u8,
            x2: ((bits >> 14) & 0x3) as u8,
            hint: ((bits >> 16) & 0x3) as u8,
            x4: ((bits >> 18) & 0x3) as u8,
            r3: ((bits >> 20) & 0x7F) as u8,
            r1: ((bits >> 27) & 0x7F) as u8,
            imm7: ((bits >> 34) & 0x7F) as u8,
        }
    }

    /// Decodes a 64-bit instruction into an M-format instruction
    #[verifier::when_used_as_spec(spec_decode)]
    pub fn decode(bits: u64) -> (f: Self)
        ensures
            f == Self::spec_decode(bits),
    {
        Self {
            predicate: (bits & 0x3F) as u8,
            major_opcode: ((bits >> 6) & 0xFF) as u8,
            x2: ((bits >> 14) & 0x3) as u8,
            hint: ((bits >> 16) & 0x3) as u8,
            x4: ((bits >> 18) & 0x3) as u8,
            r3: ((bits >> 20) & 0x7F) as u8,
            r1: ((bits >> 27) & 0x7F) as u8,
            imm7: ((bits >> 34) & 0x7F) as u8,
        }
    }

    /// The format with every field zero.
    pub open spec fn spec_default() -> MFormat {
        MFormat {
            predicate: 0,
            major_opcode: 0,
            x2: 0,
            hint: 0,
            x4: 0,
            r3: 0,
            r1: 0,
            imm7: 0,
        }
    }
}

impl Default for MFormat {
    fn default() -> (f: Self)
        ensures
            f == MFormat::spec_default(),
    {
        Self {
            predicate: 0,
            major_opcode: 0,
            x2: 0,
            hint: 0,
            x4: 0,
            r3: 0,
            r1: 0,
            imm7: 0,
        }
    }
}

/// F-type instruction format (Floating-point)
#[derive(Debug, Clone, Copy, PartialEq, Eq, Structural)]
pub struct FFormat {
    /// Predicate register (qp) [0:5]
    pub predicate: u8,
    /// Major opcode [6:13]
    pub major_opcode: u8,
    /// x2 field [14:18]
    pub x2: u8,
    /// First source register (f2) [19:25]
    pub f2: u8,
    /// Second source register (f3) [26:32]
    pub f3: u8,
    /// Target register (f1) [33:39]
    pub f1: u8,
    /// sf field [40:40]
    pub sf: bool,
}

impl FFormat {
    /// The fields of an F-format slot.
    pub open spec fn spec_decode(bits: u64) -> FFormat {
        FFormat {
            predicate: (bits & 0x3F) as u8,
            major_opcode: ((bits >> 6) & 0xFF) as u8,
            x2: ((bits >> 14) & 0x1F) as u8,
            f2: ((bits >> 19) & 0x7F) as u8,
            f3: ((bits >> 26) & 0x7F) as u8,
            f1: ((bits >> 33) & 0x7F) as u8,
            sf: ((bits >> 40) & 0x1) != 0,
        }
    }

    /// Decodes a 64-bit instruction into an F-format instruction
    #[verifier::when_used_as_spec(spec_decode)]
    pub fn decode(bits: u64) -> (f: Self)
        ensures
            f == Self::spec_decode(bits),
    {
        Self {
            predicate: (bits & 0x3F) as u8,
            major_opcode: ((bits >> 6) & 0xFF) as u8,
            x2: ((bits >> 14) & 0x1F) as u8,
            f2: ((bits >> 19) & 0x7F) as u8,
            f3: ((bits >> 26) & 0x7F) as u8,
            f1: ((bits >> 33) & 0x7F) as u8,
            sf: ((bits >> 40) & 0x1) != 0,
        }
    }

    /// The format with every field zero.
    pub open spec fn spec_default() -> FFormat {
        FFormat {
            predicate: 0,
            major_opcode: 0,
            x2: 0,
            f2: 0,
            f3: 0,
            f1: 0,
            sf: false,
        }
    }
}

impl Default for FFormat {
    fn default() -> (f: Self)
        ensures
            f == FFormat::spec_default(),
    {
        Self {
            predicate: 0,
            major_opcode: 0,
            x2: 0,
            f2: 0,
            f3: 0,
            f1: 0,
            sf: false,
        }
    }
}

/// B-type instruction format (Branch)
#[derive(Debug, Clone, Copy, PartialEq, Eq, Structural)]
pub struct BFormat {
    /// Predicate register (qp) [0:5]
    pub predicate: u8,
    /// Major opcode [6:13]
    pub major_opcode: u8,
    /// btype field [14:15]
    pub btype: u8,
    /// wh field [16:17]
    pub wh: u8,
    /// d field [18:18]
    pub d: bool,
    /// Immediate20 [19:38]
    pub imm20: u32,
    /// p field [39:40]
    pub p: u8,
}

impl BFormat {
    /// The fields of a B-format slot.
    pub open spec fn spec_decode(bits: u64) -> BFormat {
        BFormat {
            predicate: (bits & 0x3F) as u8,
            major_opcode: ((bits >> 6) & 0xFF) as u8,
            btype: ((bits >> 14) & 0x3) as u8,
            wh: ((bits >> 16) & 0x3) as u8,
            d: ((bits >> 18) & 0x1) != 0,
            imm20: ((bits >> 19) & 0xFFFFF) as u32,
            p: ((bits >> 39) & 0x3) as u8,
        }
    }

    /// Decodes a 64-bit instruction into an B-format instruction
    #[verifier::when_used_as_spec(spec_decode)]
    pub fn decode(bits: u64) -> (f: Self)
        ensures
            f == Self::spec_decode(bits),
    {
        Self {
            predicate: (bits & 0x3F) as u8,
            major_opcode: ((bits >> 6) & 0xFF) as u8,
            btype: ((bits >> 14) & 0x3) as u8,
            wh: ((bits >> 16) & 0x3) as u8,
            d: ((bits >> 18) & 0x1) != 0,
            imm20: ((bits >> 19) & 0xFFFFF) as u32,
            p: ((bits >> 39) & 0x3) as u8,
        }
    }

    /// The format with every field zero.
    pub open spec fn spec_default() -> BFormat {
        BFormat {
            predicate: 0,
            major_opcode: 0,
            btype: 0,
            wh: 0,
            d: false,
            imm20: 0,
            p: 0,
        }
    }
}

impl Default for BFormat {
    fn default() -> (f: Self)
        ensures
            f == BFormat::spec_default(),
    {
        Self {
            predicate: 0,
            major_opcode: 0,
            btype: 0,
            wh: 0,
            d: false,
            imm20: 0,
            p: 0,
        }
    }
}

/// X-type instruction format (Extended)
#[derive(Debug, Clone, Copy, PartialEq, Eq, Structural)]
pub struct XFormat {
    /// Major opcode [0:7]
    pub major_opcode: u8,
    /// x2 field [8:13]
    pub x2: u8,
    /// ve field [14:14]
    pub ve: bool,
    /// Immediate27 [15:41]
    pub imm27: u32,
}

impl XFormat {
    /// The fields of an X-format slot.
    pub open spec fn spec_decode(bits: u64) -> XFormat {
        XFormat {
            major_opcode: (bits & 0xFF) as u8,
            x2: ((bits >> 8) & 0x3F) as u8,
            ve: ((bits >> 14) & 0x1) != 0,
            imm27: ((bits >> 15) & 0x7FFFFFF) as u32,
        }
    }

    /// Decodes a 64-bit instruction into an X-format instruction
    #[verifier::when_used_as_spec(spec_decode)]
    pub fn decode(bits: u64) -> (f: Self)
        ensures
            f == Self::spec_decode(bits),
    {
        Self {
            major_opcode: (bits & 0xFF) as u8,
            x2: ((bits >> 8) & 0x3F) as u8,
            ve: ((bits >> 14) & 0x1) != 0,
            imm27: ((bits >> 15) & 0x7FFFFFF) as u32,
        }
    }

    /// The format with every field zero.
    pub open spec fn spec_default() -> XFormat {
        XFormat {
            major_opcode: 0,
            x2: 0,
            ve: false,
            imm27: 0,
        }
    }
}

impl Default for XFormat {
    fn default() -> (f: Self)
        ensures
            f == XFormat::spec_default(),
    {
        Self {
            major_opcode: 0,
            x2: 0,
            ve: false,
            imm27: 0,
        }
    }
}

/// L-type instruction format (Long immediate)
#[derive(Debug, Clone, Copy, PartialEq, Eq, Structural)]
pub struct LFormat {
    /// Template [0:4]
    pub template: u8,
    /// Immediate41 [5:45]
    pub imm41: u64,
}

impl LFormat {
    /// The fields of an L-format slot.
    pub open spec fn spec_decode(bits: u64) -> LFormat {
        LFormat {
            template: (bits & 0x1F) as u8,
            imm41: (bits >> 5) & 0x1FF_FFFF_FFFF,
        }
    }

    /// Decodes a 64-bit instruction into an L-format instruction
    #[verifier::when_used_as_spec(spec_decode)]
    pub fn decode(bits: u64) -> (f: Self)
        ensures
            f == Self::spec_decode(bits),
    {
        Self {
            template: (bits & 0x1F) as u8,
            imm41: (bits >> 5) & 0x1FF_FFFF_FFFF,
        }
    }

    /// The format with every field zero.
    pub open spec fn spec_default() -> LFormat {
        LFormat {
            template: 0,
            imm41: 0,
        }
    }
}

impl Default for LFormat {
    fn default() -> (f: Self)
        ensures
            f == LFormat::spec_default(),
    {
        Self {
            template: 0,
            imm41: 0,
        }
    }
}

/// The qualifying predicate of a slot: bits 0..6. Every format that is
/// predicated keeps it there, and it is always below 64.
pub open spec fn qualifying_predicate(bits: u64) -> u8 {
    (bits & 0x3F) as u8
}

/// The formats that carry a qualifying predicate read it from bits 0..6,
/// and what they read names one of the 64 predicate registers.
pub proof fn lemma_predicate_field(bits: u64)
    ensures
        AFormat::spec_decode(bits).predicate == qualifying_predicate(bits),
        IFormat::spec_decode(bits).predicate == qualifying_predicate(bits),
        MFormat::spec_decode(bits).predicate == qualifying_predicate(bits),
        FFormat::spec_decode(bits).predicate == qualifying_predicate(bits),
        BFormat::spec_decode(bits).predicate == qualifying_predicate(bits),
        qualifying_predicate(bits) < 64,
        MFormat::spec_decode(bits).x2 < 4 && MFormat::spec_decode(bits).hint < 4 && MFormat::spec_decode(
            bits,
        ).x4 < 4,
        BFormat::spec_decode(bits).btype < 4 && BFormat::spec_decode(bits).wh < 4,
{
    assert(((bits & 0x3F) as u8) < 64 && (((bits >> 14) & 0x3) as u8) < 4 && (((bits >> 16) & 0x3) as u8)
        < 4 && (((bits >> 18) & 0x3) as u8) < 4) by (bit_vector);
}

} // verus!
