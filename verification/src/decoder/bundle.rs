//! Instruction bundle implementation
//!
//! This module implements the slot view of an instruction bundle that the
//! sequential decoder steps through: a template tag in bits 0..5 and three
//! slots of 41 bits in bits 5..46, 46..87 and 87..128.

use vstd::prelude::*;
use vstd::string::*;
use super::{encode_bundle, lemma_bundle_round_trip, slot_field, slot_of, template_field, template_of};
use crate::{is_decode_error, EmulatorError};

verus! {

/// Bundle template types
#[derive(Debug, Clone, Copy, PartialEq, Eq, Structural)]
pub enum BundleTemplate {
    /// MII: Memory + I-unit + I-unit
    MII,
    /// MIB: Memory + I-unit + B-unit
    MIB,
    /// MMI: Memory + Memory + I-unit
    MMI,
    /// MMF: Memory + Memory + F-unit
    MMF,
    /// MLX: Memory + Long immediate
    MLX,
    /// FBI: F-unit + B-unit + I-unit
    FBI,
    /// BBB: B-unit + B-unit + B-unit
    BBB,
    /// AAA: A-unit + A-unit + A-unit
    AAA,
}

impl BundleTemplate {
    /// The five bits that name the template.
    pub open spec fn spec_bits(self) -> u8 {
        match self {
            BundleTemplate::MII => 0b00000,
            BundleTemplate::MIB => 0b00001,
            BundleTemplate::MMI => 0b00010,
            BundleTemplate::MMF => 0b00011,
            BundleTemplate::MLX => 0b00100,
            BundleTemplate::FBI => 0b01000,
            BundleTemplate::BBB => 0b01001,
            BundleTemplate::AAA => 0b01010,
        }
    }

    /// The template that a tag names, if it names one.
    pub open spec fn spec_from_bits(bits: u8) -> Option<BundleTemplate> {
        if bits == 0b00000 {
            Some(BundleTemplate::MII)
        } else if bits == 0b00001 {
            Some(BundleTemplate::MIB)
        } else if bits == 0b00010 {
            Some(BundleTemplate::MMI)
        } else if bits == 0b00011 {
            Some(BundleTemplate::MMF)
        } else if bits == 0b00100 {
            Some(BundleTemplate::MLX)
        } else if bits == 0b01000 {
            Some(BundleTemplate::FBI)
        } else if bits == 0b01001 {
            Some(BundleTemplate::BBB)
        } else if bits == 0b01010 {
            Some(BundleTemplate::AAA)
        } else {
            None
        }
    }

    /// Create from template bits
    pub fn from_bits(bits: u8) -> (r: Result<Self, EmulatorError>)
        ensures
            match Self::spec_from_bits(bits) {
                Some(t) => r matches Ok(v) && v == t && v.spec_bits() == bits,
                None => is_decode_error(r, "Invalid bundle template"@),
            },
    {
        match bits {
            0b00000 => Ok(BundleTemplate::MII),
            0b00001 => Ok(BundleTemplate::MIB),
            0b00010 => Ok(BundleTemplate::MMI),
            0b00011 => Ok(BundleTemplate::MMF),
            0b00100 => Ok(BundleTemplate::MLX),
            0b01000 => Ok(BundleTemplate::FBI),
            0b01001 => Ok(BundleTemplate::BBB),
            0b01010 => Ok(BundleTemplate::AAA),
            _ => Err(EmulatorError::DecodeError(String::from_str("Invalid bundle template"))),
        }
    }

    /// The unit that executes slot `slot` of a bundle with this template.
    pub open spec fn slot_type(self, slot: int) -> SlotType {
        match self {
            BundleTemplate::MII => if slot == 0 {
                SlotType::M
            } else {
                SlotType::I
            },
            BundleTemplate::MIB => if slot == 0 {
                SlotType::M
            } else if slot == 1 {
                SlotType::I
            } else {
                SlotType::B
            },
            BundleTemplate::MMI => if slot == 2 {
                SlotType::I
            } else {
                SlotType::M
            },
            BundleTemplate::MMF => if slot == 2 {
                SlotType::F
            } else {
                SlotType::M
            },
            BundleTemplate::MLX => if slot == 0 {
                SlotType::M
            } else if slot == 1 {
                SlotType::L
            } else {
                SlotType::X
            },
            BundleTemplate::FBI => if slot == 0 {
                SlotType::F
            } else if slot == 1 {
                SlotType::B
            } else {
                SlotType::I
            },
            BundleTemplate::BBB => SlotType::B,
            BundleTemplate::AAA => SlotType::A,
        }
    }
}

/// Instruction slot types
#[derive(Debug, Clone, Copy, PartialEq, Eq, Structural)]
pub enum SlotType {
    /// M-unit (memory)
    M,
    /// I-unit (integer)
    I,
    /// B-unit (branch)
    B,
    /// F-unit (floating point)
    F,
    /// A-unit (ALU)
    A,
    /// Long immediate, first half
    L,
    /// Long immediate, second half
    X,
}

/// Instruction bundle
#[derive(Debug)]
pub struct Bundle {
    /// Raw bundle data
    pub data: u128,
    /// Bundle template
    pub template: BundleTemplate,
    /// Instruction slots
    pub slots: [Option<u64>; 3],
}

impl Bundle {
    /// Whether the template and the slots are those of the raw data: each
    /// slot is a word of 41 bits, and put together again, they give the
    /// data back.
    pub open spec fn wf(&self) -> bool {
        &&& self.template.spec_bits() == template_of(self.data)
        &&& slot_of(self.data, 0) <= 0x1FF_FFFF_FFFF
        &&& slot_of(self.data, 1) <= 0x1FF_FFFF_FFFF
        &&& slot_of(self.data, 2) <= 0x1FF_FFFF_FFFF
        &&& self.slots@ == seq![
            Some(slot_of(self.data, 0)),
            Some(slot_of(self.data, 1)),
            Some(slot_of(self.data, 2)),
        ]
        &&& encode_bundle(
            self.template.spec_bits(),
            slot_of(self.data, 0),
            slot_of(self.data, 1),
            slot_of(self.data, 2),
        ) == self.data
    }

    /// Create new bundle: the template is the one that bits 0..5 name and
    /// the slots are the 41 bits from bits 5, 46 and 87. A bundle whose tag
    /// names no template is a decode error.
    pub fn new(data: u128) -> (r: Result<Self, EmulatorError>)
        ensures
            match BundleTemplate::spec_from_bits(template_of(data)) {
                Some(t) => r matches Ok(b) && b.data == data && b.template == t && b.wf(),
                None => is_decode_error(r, "Invalid bundle template"@),
            },
    {
        // Extract template bits (bits 0-4)
        let template = match BundleTemplate::from_bits(template_field(data)) {
            Ok(t) => t,
            Err(e) => {
                return Err(e);
            },
        };
        // Extract instruction slots (41 bits each)
        let slots = [Some(slot_field(data, 0)), Some(slot_field(data, 1)), Some(slot_field(data, 2))];
        proof {
            lemma_bundle_is_its_fields(data);
        }
        Ok(Self { data, template, slots })
    }

    /// Get slot type
    pub fn get_slot_type(&self, slot: usize) -> (r: Result<SlotType, EmulatorError>)
        ensures
            slot < 3 ==> r == Ok::<SlotType, EmulatorError>(self.template.slot_type(slot as int)),
            slot >= 3 ==> is_decode_error(r, "Invalid slot index"@),
    {
        if slot >= 3 {
            return Err(EmulatorError::DecodeError(String::from_str("Invalid slot index")));
        }
        match self.template {
            BundleTemplate::MII => if slot == 0 {
                Ok(SlotType::M)
            } else {
                Ok(SlotType::I)
            },
            BundleTemplate::MIB => if slot == 0 {
                Ok(SlotType::M)
            } else if slot == 1 {
                Ok(SlotType::I)
            } else {
                Ok(SlotType::B)
            },
            BundleTemplate::MMI => if slot == 2 {
                Ok(SlotType::I)
            } else {
                Ok(SlotType::M)
            },
            BundleTemplate::MMF => if slot == 2 {
                Ok(SlotType::F)
            } else {
                Ok(SlotType::M)
            },
            BundleTemplate::MLX => if slot == 0 {
                Ok(SlotType::M)
            } else if slot == 1 {
                Ok(SlotType::L)
            } else {
                Ok(SlotType::X)
            },
            BundleTemplate::FBI => if slot == 0 {
                Ok(SlotType::F)
            } else if slot == 1 {
                Ok(SlotType::B)
            } else {
                Ok(SlotType::I)
            },
            BundleTemplate::BBB => Ok(SlotType::B),
            BundleTemplate::AAA => Ok(SlotType::A),
        }
    }
}

/// A bundle is made from exactly the data whose low five bits are one of
/// the eight template tags, whatever the other bits hold, and the template
/// and slots of the bundle that is made, put together again, are the data.
pub proof fn lemma_bundle_is_its_fields(data: u128)
    ensures
        BundleTemplate::spec_from_bits(template_of(data)) is Some <==> (data & 0x1F == 0 || data & 0x1F
            == 1 || data & 0x1F == 2 || data & 0x1F == 3 || data & 0x1F == 4 || data & 0x1F == 8
            || data & 0x1F == 9 || data & 0x1F == 10),
        BundleTemplate::spec_from_bits(template_of(data)) matches Some(t) ==> encode_bundle(
            t.spec_bits(),
            slot_of(data, 0),
            slot_of(data, 1),
            slot_of(data, 2),
        ) == data,
        slot_of(data, 0) <= 0x1FF_FFFF_FFFF && slot_of(data, 1) <= 0x1FF_FFFF_FFFF && slot_of(data, 2)
            <= 0x1FF_FFFF_FFFF,
{
    lemma_bundle_round_trip(data, 0, 0, 0, 0);
    assert(data & 0x1F < 32 && (data >> 5) & 0x1FF_FFFF_FFFF <= 0x1FF_FFFF_FFFF && (data >> 46)
        & 0x1FF_FFFF_FFFF <= 0x1FF_FFFF_FFFF && (data >> 87) & 0x1FF_FFFF_FFFF <= 0x1FF_FFFF_FFFF)
        by (bit_vector);
}

} // verus!
