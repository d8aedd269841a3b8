//! Instruction decoder for IA-64 architecture
//!
//! This module implements the instruction decoder for IA-64 instructions,
//! handling the EPIC (Explicitly Parallel Instruction Computing) format.
//!
//! A bundle is 128 bits, little-endian: a template in bits 0..5 and three
//! slots of 41 bits in bits 5..46, 46..87 and 87..128.

use vstd::prelude::*;
use vstd::string::*;
use crate::{is_decode_error, EmulatorError};

pub mod bundle;
/// Module containing instruction format definitions and parsing
pub mod instruction_format;

use self::instruction_format::{AFormat, BFormat, FFormat, IFormat, LFormat, MFormat, XFormat};

verus! {

/// The 41 low bits of a 128-bit word.
pub const SLOT_MASK_128: u128 = 0x1FF_FFFF_FFFF;

/// IA-64 instruction bundle template types
#[derive(Debug, Clone, Copy, PartialEq, Eq, Structural)]
pub enum BundleTemplate {
    /// MII: Memory + I-unit + I-unit
    MII,
    /// MIB: Memory + I-unit + B-unit
    MIB,
    /// MMI: Memory + Memory + I-unit
    MMI,
    /// MMF: Memory + Memory + F-unit
    MMF,
    /// MLX: Memory + Long immediate
    MLX,
    /// FBI: F-unit + B-unit + I-unit
    FBI,
    /// BBB: B-unit + B-unit + B-unit
    BBB,
    /// AAA: A-unit + A-unit + A-unit
    AAA,
}

/// The functional units that a slot can be meant for.
#[derive(Debug, Clone, Copy, PartialEq, Eq, Structural)]
pub enum Unit {
    /// Memory
    M,
    /// Integer
    I,
    /// Floating point
    F,
    /// Branch
    B,
    /// ALU
    A,
    /// Long immediate, first half
    L,
    /// Long immediate, second half
    X,
}

impl BundleTemplate {
    /// The five bits that name the template.
    pub open spec fn spec_bits(self) -> u8 {
        match self {
            BundleTemplate::MII => 0b00000,
            BundleTemplate::MIB => 0b00001,
            BundleTemplate::MMI => 0b00010,
            BundleTemplate::MMF => 0b00011,
            BundleTemplate::MLX => 0b00100,
            BundleTemplate::FBI => 0b01000,
            BundleTemplate::BBB => 0b01001,
            BundleTemplate::AAA => 0b01010,
        }
    }

    /// The five bits that name the template.
    #[verifier::when_used_as_spec(spec_bits)]
    pub fn bits(self) -> (b: u8)
        ensures
            b == self.spec_bits(),
    {
        match self {
            BundleTemplate::MII => 0b00000,
            BundleTemplate::MIB => 0b00001,
            BundleTemplate::MMI => 0b00010,
            BundleTemplate::MMF => 0b00011,
            BundleTemplate::MLX => 0b00100,
            BundleTemplate::FBI => 0b01000,
            BundleTemplate::BBB => 0b01001,
            BundleTemplate::AAA => 0b01010,
        }
    }

    /// Whether five bits name a template.
    pub open spec fn is_template(bits: u8) -> bool {
        exists|t: BundleTemplate| t.spec_bits() == bits
    }

    /// Try to create from raw bits
    pub fn from_bits(bits: u8) -> (r: Option<Self>)
        ensures
            match r {
                Some(t) => t.spec_bits() == bits,
                None => !Self::is_template(bits),
            },
    {
        match bits {
            0b00000 => Some(Self::MII),
            0b00001 => Some(Self::MIB),
            0b00010 => Some(Self::MMI),
            0b00011 => Some(Self::MMF),
            0b00100 => Some(Self::MLX),
            0b01000 => Some(Self::FBI),
            0b01001 => Some(Self::BBB),
            0b01010 => Some(Self::AAA),
            _ => None,
        }
    }

    /// The unit that slot `slot` of a bundle with this template is meant
    /// for.
    pub open spec fn unit(self, slot: int) -> Unit {
        match self {
            BundleTemplate::MII => if slot == 0 {
                Unit::M
            } else {
                Unit::I
            },
            BundleTemplate::MIB => if slot == 0 {
                Unit::M
            } else if slot == 1 {
                Unit::I
            } else {
                Unit::B
            },
            BundleTemplate::MMI => if slot == 2 {
                Unit::I
            } else {
                Unit::M
            },
            BundleTemplate::MMF => if slot == 2 {
                Unit::F
            } else {
                Unit::M
            },
            BundleTemplate::MLX => if slot == 0 {
                Unit::M
            } else if slot == 1 {
                Unit::L
            } else {
                Unit::X
            },
            BundleTemplate::FBI => if slot == 0 {
                Unit::F
            } else if slot == 1 {
                Unit::B
            } else {
                Unit::I
            },
            BundleTemplate::BBB => Unit::B,
            BundleTemplate::AAA => Unit::A,
        }
    }
}

/// The templates that the decoder knows are exactly the eight of its table;
/// every other tag, such as 00110, 00111 or 01011, names none.
pub proof fn lemma_templates(bits: u8)
    ensures
        BundleTemplate::is_template(bits) <==> (bits == 0 || bits == 1 || bits == 2 || bits == 3 || bits
            == 4 || bits == 8 || bits == 9 || bits == 10),
        !BundleTemplate::is_template(0b00110),
        !BundleTemplate::is_template(0b00111),
        !BundleTemplate::is_template(0b01011),
{
    if bits == 0 {
        assert(BundleTemplate::MII.spec_bits() == bits);
    } else if bits == 1 {
        assert(BundleTemplate::MIB.spec_bits() == bits);
    } else if bits == 2 {
        assert(BundleTemplate::MMI.spec_bits() == bits);
    } else if bits == 3 {
        assert(BundleTemplate::MMF.spec_bits() == bits);
    } else if bits == 4 {
        assert(BundleTemplate::MLX.spec_bits() == bits);
    } else if bits == 8 {
        assert(BundleTemplate::FBI.spec_bits() == bits);
    } else if bits == 9 {
        assert(BundleTemplate::BBB.spec_bits() == bits);
    } else if bits == 10 {
        assert(BundleTemplate::AAA.spec_bits() == bits);
    }
}

/// Instruction types
#[derive(Debug, Clone, Copy, PartialEq, Eq, Structural)]
pub enum InstructionType {
    /// A-type (integer ALU)
    A(AFormat),
    /// I-type (non-ALU integer)
    I(IFormat),
    /// M-type (memory)
    M(MFormat),
    /// F-type (floating-point)
    F(FFormat),
    /// B-type (branch)
    B(BFormat),
    /// L-type (long immediate)
    L(LFormat),
    /// X-type (extended)
    X(XFormat),
}

/// Decoded IA-64 instruction
#[derive(Debug)]
pub struct Instruction {
    /// Type of instruction with format details
    pub itype: InstructionType,
    /// Completers (if any)
    pub completers: Option<Vec<String>>,
}

/// The texts of a list of completers.
pub open spec fn completer_views(completers: Option<Vec<String>>) -> Option<Seq<Seq<char>>> {
    match completers {
        Some(v) => Some(Seq::new(v@.len(), |i: int| v@[i]@)),
        None => None,
    }
}

/// The completer that names a memory ordering.
pub open spec fn ordering_completer(x2: u8) -> Seq<char> {
    if x2 == 0 {
        "none"@
    } else if x2 == 1 {
        "acq"@
    } else if x2 == 2 {
        "rel"@
    } else {
        "fence"@
    }
}

/// The completer that names a cache hint.
pub open spec fn hint_completer(hint: u8) -> Seq<char> {
    if hint == 0 {
        "none"@
    } else if hint == 1 {
        "temporal"@
    } else if hint == 2 {
        "nt"@
    } else {
        "reserved"@
    }
}

/// The completer that names a kind of speculation.
pub open spec fn speculation_completer(x4: u8) -> Seq<char> {
    if x4 == 0 {
        "none"@
    } else if x4 == 1 {
        "spec"@
    } else if x4 == 2 {
        "check"@
    } else {
        "advanced"@
    }
}

/// The completer that names a branch type.
pub open spec fn branch_type_completer(btype: u8) -> Seq<char> {
    if btype == 0 {
        "cond"@
    } else if btype == 1 {
        "call"@
    } else if btype == 2 {
        "ret"@
    } else {
        "reserved"@
    }
}

/// The completer that names a branch hint.
pub open spec fn branch_hint_completer(wh: u8) -> Seq<char> {
    if wh == 0 {
        "sptk"@
    } else if wh == 1 {
        "spnt"@
    } else if wh == 2 {
        "dptk"@
    } else {
        "dpnt"@
    }
}

/// The completers that the decoder attaches to an instruction.
pub open spec fn completers_of(itype: InstructionType) -> Option<Seq<Seq<char>>> {
    match itype {
        InstructionType::M(f) => Some(
            seq![ordering_completer(f.x2), hint_completer(f.hint), speculation_completer(f.x4)],
        ),
        InstructionType::B(f) => Some(
            seq![
                branch_type_completer(f.btype),
                branch_hint_completer(f.wh),
                if f.d {
                    "dealloc"@
                } else {
                    "none"@
                },
            ],
        ),
        InstructionType::F(f) => Some(
            seq![
                if f.sf {
                    "double"@
                } else {
                    "single"@
                },
            ],
        ),
        InstructionType::A(f) => if f.ve {
            Some(seq!["ve"@])
        } else {
            None
        },
        _ => None,
    }
}

/// The instruction that a slot decodes to when it is meant for `unit`.
pub open spec fn decode_unit(unit: Unit, bits: u64) -> InstructionType {
    match unit {
        Unit::M => InstructionType::M(MFormat::spec_decode(bits)),
        Unit::I => InstructionType::I(IFormat::spec_decode(bits)),
        Unit::F => InstructionType::F(FFormat::spec_decode(bits)),
        Unit::B => InstructionType::B(BFormat::spec_decode(bits)),
        Unit::A => InstructionType::A(AFormat::spec_decode(bits)),
        Unit::L => InstructionType::L(LFormat::spec_decode(bits)),
        Unit::X => InstructionType::X(XFormat::spec_decode(bits)),
    }
}

/// The 128 bits of a bundle, from its sixteen bytes in little-endian order.
pub open spec fn bundle_bits(data: Seq<u8>) -> u128 {
    (data[0] as u128) | ((data[1] as u128) << 8) | ((data[2] as u128) << 16) | ((data[3] as u128) << 24) | ((data[4] as u128) << 32) | ((data[5] as u128) << 40) | ((data[6] as u128) << 48) | ((data[7] as u128) << 56) | ((data[8] as u128) << 64) | ((data[9] as u128) << 72) | ((data[10] as u128) << 80) | ((data[11] as u128) << 88) | ((data[12] as u128) << 96) | ((data[13] as u128) << 104) | ((data[14] as u128) << 112) | ((data[15] as u128) << 120)
}

/// The template tag of a bundle: bits 0..5.
pub open spec fn template_of(bits: u128) -> u8 {
    (bits & 0x1F) as u8
}

/// Slot `slot` of a bundle: 41 bits from bit 5, 46 or 87.
pub open spec fn slot_of(bits: u128, slot: int) -> u64 {
    if slot == 0 {
        ((bits >> 5) & SLOT_MASK_128) as u64
    } else if slot == 1 {
        ((bits >> 46) & SLOT_MASK_128) as u64
    } else {
        ((bits >> 87) & SLOT_MASK_128) as u64
    }
}

/// The bundle that holds a template tag and three slots.
pub open spec fn encode_bundle(template: u8, slot0: u64, slot1: u64, slot2: u64) -> u128 {
    (template as u128) | ((slot0 as u128) << 5) | ((slot1 as u128) << 46) | ((slot2 as u128) << 87)
}

/// Putting the template tag and the three slots of a bundle together again
/// gives the bundle back; and a tag of five bits with three slots of 41 bits
/// is what its encoding decodes to.
pub proof fn lemma_bundle_round_trip(bits: u128, template: u8, s0: u64, s1: u64, s2: u64)
    ensures
        encode_bundle(template_of(bits), slot_of(bits, 0), slot_of(bits, 1), slot_of(bits, 2)) == bits,
        template < 32 && s0 <= 0x1FF_FFFF_FFFF && s1 <= 0x1FF_FFFF_FFFF && s2 <= 0x1FF_FFFF_FFFF ==> {
            let e = encode_bundle(template, s0, s1, s2);
            template_of(e) == template && slot_of(e, 0) == s0 && slot_of(e, 1) == s1 && slot_of(e, 2)
                == s2
        },
{
    assert((((bits & 0x1F) as u8) as u128) | (((((bits >> 5) & 0x1FF_FFFF_FFFF) as u64) as u128) << 5) | ((
    (((bits >> 46) & 0x1FF_FFFF_FFFF) as u64) as u128) << 46) | (((((bits >> 87)
        & 0x1FF_FFFF_FFFF) as u64) as u128) << 87) == bits) by (bit_vector);
    if template < 32 && s0 <= 0x1FF_FFFF_FFFF && s1 <= 0x1FF_FFFF_FFFF && s2 <= 0x1FF_FFFF_FFFF {
        let e = (template as u128) | ((s0 as u128) << 5) | ((s1 as u128) << 46) | ((s2 as u128) << 87);
        assert((e & 0x1F) as u8 == template && ((e >> 5) & 0x1FF_FFFF_FFFF) as u64 == s0 && ((e >> 46)
            & 0x1FF_FFFF_FFFF) as u64 == s1 && ((e >> 87) & 0x1FF_FFFF_FFFF) as u64 == s2)
            by (bit_vector)
            requires
                e == (template as u128) | ((s0 as u128) << 5) | ((s1 as u128) << 46) | ((s2 as u128)
                    << 87),
                template < 32,
                s0 <= 0x1FF_FFFF_FFFF,
                s1 <= 0x1FF_FFFF_FFFF,
                s2 <= 0x1FF_FFFF_FFFF,
        ;
    }
}

/// The 128 bits of a bundle, from its sixteen bytes in little-endian order.
pub fn bits_of(data: &[u8; 16]) -> (bits: u128)
    ensures
        bits == bundle_bits(data@),
{
    (data[0] as u128) | ((data[1] as u128) << 8) | ((data[2] as u128) << 16) | ((data[3] as u128) << 24) | ((data[4] as u128) << 32) | ((data[5] as u128) << 40) | ((data[6] as u128) << 48) | ((data[7] as u128) << 56) | ((data[8] as u128) << 64) | ((data[9] as u128) << 72) | ((data[10] as u128) << 80) | ((data[11] as u128) << 88) | ((data[12] as u128) << 96) | ((data[13] as u128) << 104) | ((data[14] as u128) << 112) | ((data[15] as u128) << 120)
}

/// The template tag of a bundle.
pub fn template_field(bits: u128) -> (tag: u8)
    ensures
        tag == template_of(bits),
{
    (bits & 0x1F) as u8
}

/// Slot `slot` of a bundle; a slot past the third reads as the third.
pub fn slot_field(bits: u128, slot: usize) -> (value: u64)
    ensures
        value == slot_of(bits, slot as int),
{
    if slot == 0 {
        ((bits >> 5) & SLOT_MASK_128) as u64
    } else if slot == 1 {
        ((bits >> 46) & SLOT_MASK_128) as u64
    } else {
        ((bits >> 87) & SLOT_MASK_128) as u64
    }
}

/// Put a template tag and three slots together into a bundle.
pub fn encode(template: u8, slot0: u64, slot1: u64, slot2: u64) -> (bits: u128)
    ensures
        bits == encode_bundle(template, slot0, slot1, slot2),
{
    (template as u128) | ((slot0 as u128) << 5) | ((slot1 as u128) << 46) | ((slot2 as u128) << 87)
}

/// IA-64 instruction bundle (128 bits)
#[derive(Debug)]
pub struct Bundle {
    /// Raw bundle data
    pub data: [u8; 16],
    /// Template type
    pub template: BundleTemplate,
    /// Decoded instructions
    pub instructions: Vec<Instruction>,
}

impl Bundle {
    /// The template is the one that the data names.
    pub open spec fn wf(&self) -> bool {
        self.template.spec_bits() == template_of(bundle_bits(self.data@))
    }

    /// Whether `instruction` is what slot `slot` of this bundle decodes to.
    pub open spec fn is_decoded(&self, slot: int, instruction: Instruction) -> bool {
        &&& instruction.itype == decode_unit(
            self.template.unit(slot),
            slot_of(bundle_bits(self.data@), slot),
        )
        &&& completer_views(instruction.completers) == completers_of(instruction.itype)
    }

    /// Create a new bundle from raw data. A bundle whose tag names no
    /// template is a decode error.
    pub fn new(data: [u8; 16]) -> (r: Result<Self, EmulatorError>)
        ensures
            BundleTemplate::is_template(template_of(bundle_bits(data@))) ==> (r matches Ok(b) && b.wf()
                && b.data == data && b.instructions@.len() == 0),
            !BundleTemplate::is_template(template_of(bundle_bits(data@))) ==> is_decode_error(
                r,
                "Invalid bundle template"@,
            ),
    {
        let bits = bits_of(&data);
        let template_bits = template_field(bits);
        match BundleTemplate::from_bits(template_bits) {
            Some(template) => Ok(Self { data, template, instructions: Vec::new() }),
            None => Err(EmulatorError::DecodeError(String::from_str("Invalid bundle template"))),
        }
    }

    /// Decode the instructions in the bundle: one for each slot, by the
    /// unit that the template assigns to the slot.
    pub fn decode(&mut self) -> (r: Result<(), EmulatorError>)
        ensures
            r is Ok,
            final(self).data == old(self).data,
            final(self).template == old(self).template,
            final(self).instructions@.len() == 3,
            forall|slot: int|
                0 <= slot < 3 ==> old(self).is_decoded(slot, #[trigger] final(self).instructions@[slot]),
    {
        // Clear any previously decoded instructions
        self.instructions.clear();
        let bits = bits_of(&self.data);
        let s0 = slot_field(bits, 0);
        let s1 = slot_field(bits, 1);
        let s2 = slot_field(bits, 2);
        match self.template {
            BundleTemplate::MII => {
                let _ = self.decode_m_unit(s0);
                let _ = self.decode_i_unit(s1);
                let _ = self.decode_i_unit(s2);
            },
            BundleTemplate::MIB => {
                let _ = self.decode_m_unit(s0);
                let _ = self.decode_i_unit(s1);
                let _ = self.decode_b_unit(s2);
            },
            BundleTemplate::MMI => {
                let _ = self.decode_m_unit(s0);
                let _ = self.decode_m_unit(s1);
                let _ = self.decode_i_unit(s2);
            },
            BundleTemplate::MMF => {
                let _ = self.decode_m_unit(s0);
                let _ = self.decode_m_unit(s1);
                let _ = self.decode_f_unit(s2);
            },
            BundleTemplate::MLX => {
                let _ = self.decode_m_unit(s0);
                // Decode L-X unit pair (82 bits total)
                let _ = self.decode_lx_unit(s1, s2);
            },
            BundleTemplate::FBI => {
                let _ = self.decode_f_unit(s0);
                let _ = self.decode_b_unit(s1);
                let _ = self.decode_i_unit(s2);
            },
            BundleTemplate::BBB => {
                let _ = self.decode_b_unit(s0);
                let _ = self.decode_b_unit(s1);
                let _ = self.decode_b_unit(s2);
            },
            BundleTemplate::AAA => {
                let _ = self.decode_a_unit(s0);
                let _ = self.decode_a_unit(s1);
                let _ = self.decode_a_unit(s2);
            },
        }
        Ok(())
    }

    /// Decode M-unit instruction
    fn decode_m_unit(&mut self, bits: u64) -> (r: Result<(), EmulatorError>)
        ensures
            r is Ok,
            final(self).data == old(self).data,
            final(self).template == old(self).template,
            final(self).instructions@.len() == old(self).instructions@.len() + 1,
            final(self).instructions@.drop_last() == old(self).instructions@,
            final(self).instructions@.last().itype == decode_unit(Unit::M, bits),
            completer_views(final(self).instructions@.last().completers) == completers_of(
                decode_unit(Unit::M, bits),
            ),
    {
        let format = MFormat::decode(bits);
        let ordering = if format.x2 == 0 {
            String::from_str("none")
        } else if format.x2 == 1 {
            String::from_str("acq")
        } else if format.x2 == 2 {
            String::from_str("rel")
        } else {
            String::from_str("fence")
        };
        let cache = if format.hint == 0 {
            String::from_str("none")
        } else if format.hint == 1 {
            String::from_str("temporal")
        } else if format.hint == 2 {
            String::from_str("nt")
        } else {
            String::from_str("reserved")
        };
        let speculation = if format.x4 == 0 {
            String::from_str("none")
        } else if format.x4 == 1 {
            String::from_str("spec")
        } else if format.x4 == 2 {
            String::from_str("check")
        } else {
            String::from_str("advanced")
        };
        let completers = Some(vec![ordering, cache, speculation]);
        self.instructions.push(Instruction { itype: InstructionType::M(format), completers });
        Ok(())
    }

    /// Decode I-unit instruction
    fn decode_i_unit(&mut self, bits: u64) -> (r: Result<(), EmulatorError>)
        ensures
            r is Ok,
            final(self).data == old(self).data,
            final(self).template == old(self).template,
            final(self).instructions@.len() == old(self).instructions@.len() + 1,
            final(self).instructions@.drop_last() == old(self).instructions@,
            final(self).instructions@.last().itype == decode_unit(Unit::I, bits),
            completer_views(final(self).instructions@.last().completers) == completers_of(
                decode_unit(Unit::I, bits),
            ),
    {
        let format = IFormat::decode(bits);
        self.instructions.push(Instruction { itype: InstructionType::I(format), completers: None });
        Ok(())
    }

    /// Decode B-unit instruction
    fn decode_b_unit(&mut self, bits: u64) -> (r: Result<(), EmulatorError>)
        ensures
            r is Ok,
            final(self).data == old(self).data,
            final(self).template == old(self).template,
            final(self).instructions@.len() == old(self).instructions@.len() + 1,
            final(self).instructions@.drop_last() == old(self).instructions@,
            final(self).instructions@.last().itype == decode_unit(Unit::B, bits),
            completer_views(final(self).instructions@.last().completers) == completers_of(
                decode_unit(Unit::B, bits),
            ),
    {
        let format = BFormat::decode(bits);
        let btype = if format.btype == 0 {
            String::from_str("cond")
        } else if format.btype == 1 {
            String::from_str("call")
        } else if format.btype == 2 {
            String::from_str("ret")
        } else {
            String::from_str("reserved")
        };
        let hint = if format.wh == 0 {
            String::from_str("sptk")
        } else if format.wh == 1 {
            String::from_str("spnt")
        } else if format.wh == 2 {
            String::from_str("dptk")
        } else {
            String::from_str("dpnt")
        };
        let dealloc = if format.d {
            String::from_str("dealloc")
        } else {
            String::from_str("none")
        };
        let completers = Some(vec![btype, hint, dealloc]);
        self.instructions.push(Instruction { itype: InstructionType::B(format), completers });
        Ok(())
    }

    /// Decode F-unit instruction
    fn decode_f_unit(&mut self, bits: u64) -> (r: Result<(), EmulatorError>)
        ensures
            r is Ok,
            final(self).data == old(self).data,
            final(self).template == old(self).template,
            final(self).instructions@.len() == old(self).instructions@.len() + 1,
            final(self).instructions@.drop_last() == old(self).instructions@,
            final(self).instructions@.last().itype == decode_unit(Unit::F, bits),
            completer_views(final(self).instructions@.last().completers) == completers_of(
                decode_unit(Unit::F, bits),
            ),
    {
        let format = FFormat::decode(bits);
        let precision = if format.sf {
            String::from_str("double")
        } else {
            String::from_str("single")
        };
        let completers = Some(vec![precision]);
        self.instructions.push(Instruction { itype: InstructionType::F(format), completers });
        Ok(())
    }

    /// Decode L-X unit instruction pair
    fn decode_lx_unit(&mut self, l_bits: u64, x_bits: u64) -> (r: Result<(), EmulatorError>)
        ensures
            r is Ok,
            final(self).data == old(self).data,
            final(self).template == old(self).template,
            final(self).instructions@.len() == old(self).instructions@.len() + 2,
            final(self).instructions@.drop_last().drop_last() == old(self).instructions@,
            final(self).instructions@[old(self).instructions@.len() as int].itype == decode_unit(
                Unit::L,
                l_bits,
            ),
            final(self).instructions@[old(self).instructions@.len() as int].completers is None,
            final(self).instructions@.last().itype == decode_unit(Unit::X, x_bits),
            final(self).instructions@.last().completers is None,
    {
        let l_format = LFormat::decode(l_bits);
        let x_format = XFormat::decode(x_bits);
        self.instructions.push(Instruction { itype: InstructionType::L(l_format), completers: None });
        self.instructions.push(Instruction { itype: InstructionType::X(x_format), completers: None });
        Ok(())
    }

    /// Decode A-unit instruction
    fn decode_a_unit(&mut self, bits: u64) -> (r: Result<(), EmulatorError>)
        ensures
            r is Ok,
            final(self).data == old(self).data,
            final(self).template == old(self).template,
            final(self).instructions@.len() == old(self).instructions@.len() + 1,
            final(self).instructions@.drop_last() == old(self).instructions@,
            final(self).instructions@.last().itype == decode_unit(Unit::A, bits),
            completer_views(final(self).instructions@.last().completers) == completers_of(
                decode_unit(Unit::A, bits),
            ),
    {
        let format = AFormat::decode(bits);
        let completers = if format.ve {
            let c = Some(vec![String::from_str("ve")]);
            c
        } else {
            None
        };
        self.instructions.push(Instruction { itype: InstructionType::A(format), completers });
        Ok(())
    }
}

/// The field of `len` bits that starts at bit `start` of `value`. Bits past
/// the 64th read as zero.
pub open spec fn spec_extract_bits(value: u64, start: u32, len: u32) -> u64 {
    if start >= 64 {
        0
    } else if len >= 64 {
        value >> start
    } else {
        (value >> start) & (((1u64 << len) - 1) as u64)
    }
}

/// Extract bits from a value
#[verifier::when_used_as_spec(spec_extract_bits)]
pub fn extract_bits(value: u64, start: u32, len: u32) -> (r: u64)
    ensures
        r == spec_extract_bits(value, start, len),
{
    if start >= 64 {
        0
    } else if len >= 64 {
        value >> start
    } else {
        assert((1u64 << len) >= 1) by (bit_vector)
            requires
                len < 64,
        ;
        (value >> start) & ((1u64 << len) - 1)
    }
}

/// Instruction decoder
#[derive(Debug)]
pub struct Decoder {
    /// Current bundle being decoded
    pub current_bundle: Option<bundle::Bundle>,
    /// Current slot index in bundle
    pub current_slot: usize,
}

impl Decoder {
    /// Create new decoder instance, with no bundle loaded.
    pub fn new() -> (d: Self)
        ensures
            d.current_bundle is None,
            d.current_slot == 0,
    {
        Self { current_bundle: None, current_slot: 0 }
    }

    /// Load a new bundle and start at its first slot. A bundle whose tag
    /// names no template is a decode error, and the decoder keeps what it
    /// had.
    pub fn load_bundle(&mut self, data: [u8; 16]) -> (r: Result<(), EmulatorError>)
        ensures
            match bundle::BundleTemplate::spec_from_bits(template_of(bundle_bits(data@))) {
                Some(t) => r is Ok && final(self).current_slot == 0 && (final(self).current_bundle matches Some(b)
                    && b.data == bundle_bits(data@) && b.template == t && b.wf()),
                None => is_decode_error(r, "Invalid bundle template"@) && *final(self) == *old(self),
            },
    {
        let bundle_data = bits_of(&data);
        match bundle::Bundle::new(bundle_data) {
            Ok(b) => {
                self.current_bundle = Some(b);
                self.current_slot = 0;
                Ok(())
            },
            Err(e) => Err(e),
        }
    }

    /// Get next instruction: the slot that the decoder stands at, after
    /// which it stands at the next.
    pub fn next_instruction(&mut self) -> (r: Option<u64>)
        ensures
            final(self).current_bundle == old(self).current_bundle,
            match old(self).current_bundle {
                Some(b) => if old(self).current_slot < 3 {
                    r == b.slots@[old(self).current_slot as int] && final(self).current_slot == old(self).current_slot + 1
                } else {
                    r is None && final(self).current_slot == old(self).current_slot
                },
                None => r is None && final(self).current_slot == old(self).current_slot,
            },
    {
        match &self.current_bundle {
            Some(bundle) => {
                if self.current_slot < 3 {
                    let slot = bundle.slots[self.current_slot];
                    self.current_slot = self.current_slot + 1;
                    return slot;
                }
            },
            None => {},
        }
        None
    }

    /// Check if there are more instructions in current bundle
    pub fn has_more_instructions(&self) -> (b: bool)
        ensures
            b == (self.current_bundle matches Some(bundle) && self.current_slot < 3
                && bundle.slots@[self.current_slot as int] is Some),
    {
        match &self.current_bundle {
            Some(bundle) => self.current_slot < 3 && bundle.slots[self.current_slot].is_some(),
            None => false,
        }
    }

    /// Get type of current instruction: the format of the unit that the
    /// current slot is meant for, with every field zero.
    pub fn current_type(&self) -> (r: Option<InstructionType>)
        ensures
            r == match self.current_bundle {
                Some(bundle) => if self.current_slot < 3 {
                    Some(
                        match bundle.template.slot_type(self.current_slot as int) {
                            bundle::SlotType::M => InstructionType::M(MFormat::spec_default()),
                            bundle::SlotType::I => InstructionType::I(IFormat::spec_default()),
                            bundle::SlotType::B => InstructionType::B(BFormat::spec_default()),
                            bundle::SlotType::F => InstructionType::F(FFormat::spec_default()),
                            bundle::SlotType::A => InstructionType::A(AFormat::spec_default()),
                            bundle::SlotType::L => InstructionType::L(LFormat::spec_default()),
                            bundle::SlotType::X => InstructionType::X(XFormat::spec_default()),
                        },
                    )
                } else {
                    None
                },
                None => None,
            },
    {
        match &self.current_bundle {
            Some(bundle) => {
                if self.current_slot < 3 {
                    match bundle.get_slot_type(self.current_slot) {
                        Ok(slot_type) => match slot_type {
                            bundle::SlotType::M => Some(InstructionType::M(MFormat::default())),
                            bundle::SlotType::I => Some(InstructionType::I(IFormat::default())),
                            bundle::SlotType::B => Some(InstructionType::B(BFormat::default())),
                            bundle::SlotType::F => Some(InstructionType::F(FFormat::default())),
                            bundle::SlotType::A => Some(InstructionType::A(AFormat::default())),
                            bundle::SlotType::L => Some(InstructionType::L(LFormat::default())),
                            bundle::SlotType::X => Some(InstructionType::X(XFormat::default())),
                        },
                        Err(_) => None,
                    }
                } else {
                    None
                }
            },
            None => None,
        }
    }

    /// Check if current instruction has a stop bit
    pub fn has_stop_bit(&self) -> (b: bool)
        ensures
            b == (self.current_bundle matches Some(bundle) && self.current_slot < 3
                && bundle.slots@[self.current_slot as int] is Some),
    {
        match &self.current_bundle {
            Some(bundle) => {
                if self.current_slot < 3 {
                    bundle.slots[self.current_slot].is_some()
                } else {
                    false
                }
            },
            None => false,
        }
    }
}

} // verus!
