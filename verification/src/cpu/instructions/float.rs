//! Floating-point (F-type) instruction implementations
//!
//! This module implements the register side of the floating-point
//! instructions for the IA-64 architecture: the predicate, the operands and
//! the result. A floating-point register holds the 64 bits of an IEEE-754
//! double. The arithmetic on those bits is the host's, and the host does it
//! between `operands` and `commit`.

use vstd::prelude::*;
use vstd::string::*;
use super::{
    check_predicate,
    execution_fault,
    fails,
    spec_predicate,
    state_fault,
    Fault,
    InstructionFields,
    RegisterType,
};
use crate::cpu::Cpu;
use crate::EmulatorError;

verus! {

/// The bits of a double without its sign.
pub const MAGNITUDE_MASK: u64 = 0x7FFF_FFFF_FFFF_FFFF;

/// Whether the bits are those of a zero, positive or negative.
pub open spec fn is_zero_bits(bits: u64) -> bool {
    bits & MAGNITUDE_MASK == 0
}

/// The bits of source operand `i`, which must be a floating-point
/// register.
pub open spec fn spec_source_fr(cpu: Cpu, fields: InstructionFields, i: int) -> Result<u64, Fault> {
    if i >= fields.sources@.len() {
        Err(execution_fault("Missing source operand"@))
    } else {
        match fields.sources@[i] {
            RegisterType::FR(reg) => if reg < 128 {
                Ok(cpu.fr@[reg as int])
            } else {
                Err(state_fault("Invalid floating point register index"@))
            },
            _ => Err(execution_fault("Invalid source register type"@)),
        }
    }
}

/// What a floating-point instruction starts from: a fault, nothing if its
/// predicate is false, or the bits of its two operands.
pub open spec fn spec_float_operands(cpu: Cpu, fields: InstructionFields) -> Result<
    Option<(u64, u64)>,
    Fault,
> {
    match spec_predicate(cpu, fields.qp) {
        Err(f) => Err(f),
        Ok(false) => Ok(None),
        Ok(true) => match spec_source_fr(cpu, fields, 0) {
            Err(f) => Err(f),
            Ok(a) => match spec_source_fr(cpu, fields, 1) {
                Err(f) => Err(f),
                Ok(b) => Ok(Some((a, b))),
            },
        },
    }
}

/// What a division starts from: as any floating-point instruction, but a
/// divisor that is zero is a fault.
pub open spec fn spec_dividend_and_divisor(cpu: Cpu, fields: InstructionFields) -> Result<
    Option<(u64, u64)>,
    Fault,
> {
    match spec_float_operands(cpu, fields) {
        Ok(Some((a, b))) => if is_zero_bits(b) {
            Err(execution_fault("Division by zero"@))
        } else {
            Ok(Some((a, b)))
        },
        other => other,
    }
}

/// Whether `after` and `r` are what writing `bits` to the floating-point
/// register that destination operand 0 names makes of `before`.
pub open spec fn wrote_fr(
    before: Cpu,
    after: Cpu,
    fields: InstructionFields,
    bits: u64,
    r: Result<(), EmulatorError>,
) -> bool {
    if fields.destinations@.len() == 0 {
        fails(r, execution_fault("Missing destination operand"@)) && after == before
    } else {
        match fields.destinations@[0] {
            RegisterType::FR(reg) => if reg < 128 {
                r is Ok && after == (Cpu { fr: after.fr, ..before }) && after.fr@ == before.fr@.update(
                    reg as int,
                    bits,
                )
            } else {
                fails(r, state_fault("Invalid floating point register index"@)) && after == before
            },
            _ => fails(r, execution_fault("Invalid destination register type"@)) && after == before,
        }
    }
}

/// Read source operand `i`, which must be a floating-point register.
pub fn source_fr(cpu: &Cpu, fields: &InstructionFields, i: usize) -> (r: Result<u64, EmulatorError>)
    ensures
        match spec_source_fr(*cpu, *fields, i as int) {
            Ok(v) => r == Ok::<u64, EmulatorError>(v),
            Err(f) => fails(r, f),
        },
{
    if i >= fields.sources.len() {
        return Err(EmulatorError::ExecutionError(String::from_str("Missing source operand")));
    }
    match fields.sources[i] {
        RegisterType::FR(reg) => cpu.get_fr(reg as usize),
        _ => Err(EmulatorError::ExecutionError(String::from_str("Invalid source register type"))),
    }
}

/// Evaluate the predicate and read the two floating-point sources.
pub fn read_float_operands(cpu: &Cpu, fields: &InstructionFields) -> (r: Result<
    Option<(u64, u64)>,
    EmulatorError,
>)
    ensures
        match spec_float_operands(*cpu, *fields) {
            Ok(v) => r == Ok::<Option<(u64, u64)>, EmulatorError>(v),
            Err(f) => fails(r, f),
        },
{
    match check_predicate(cpu, fields.qp) {
        Ok(true) => {},
        Ok(false) => {
            return Ok(None);
        },
        Err(e) => {
            return Err(e);
        },
    }
    let a = match source_fr(cpu, fields, 0) {
        Ok(v) => v,
        Err(e) => {
            return Err(e);
        },
    };
    match source_fr(cpu, fields, 1) {
        Ok(b) => Ok(Some((a, b))),
        Err(e) => Err(e),
    }
}

/// Read the operands of a division and refuse a divisor that is zero.
pub fn read_dividend_and_divisor(cpu: &Cpu, fields: &InstructionFields) -> (r: Result<
    Option<(u64, u64)>,
    EmulatorError,
>)
    ensures
        match spec_dividend_and_divisor(*cpu, *fields) {
            Ok(v) => r == Ok::<Option<(u64, u64)>, EmulatorError>(v),
            Err(f) => fails(r, f),
        },
{
    match read_float_operands(cpu, fields) {
        Ok(Some((a, b))) => {
            if b & MAGNITUDE_MASK == 0 {
                Err(EmulatorError::ExecutionError(String::from_str("Division by zero")))
            } else {
                Ok(Some((a, b)))
            }
        },
        Ok(None) => Ok(None),
        Err(e) => Err(e),
    }
}

/// Write `bits` to the floating-point register that destination operand 0
/// names.
pub fn write_fr(cpu: &mut Cpu, fields: &InstructionFields, bits: u64) -> (r: Result<(), EmulatorError>)
    ensures
        wrote_fr(*old(cpu), *final(cpu), *fields, bits, r),
{
    if fields.destinations.len() == 0 {
        return Err(EmulatorError::ExecutionError(String::from_str("Missing destination operand")));
    }
    match fields.destinations[0] {
        RegisterType::FR(reg) => cpu.set_fr(reg as usize, bits),
        _ => Err(EmulatorError::ExecutionError(String::from_str("Invalid destination register type"))),
    }
}

/// Floating-point add instruction
#[derive(Debug)]
pub struct FAdd {
    /// The decoded fields
    pub fields: InstructionFields,
}

impl FAdd {
    /// Create new FADD instruction
    pub fn new(fields: InstructionFields) -> (i: Self)
        ensures
            i.fields == fields,
    {
        Self { fields }
    }

    /// Read the operands: the bits of the two floating-point sources, or
    /// nothing if the predicate is false.
    pub fn operands(&self, cpu: &Cpu) -> (r: Result<Option<(u64, u64)>, EmulatorError>)
        ensures
            match spec_float_operands(*cpu, self.fields) {
                Ok(v) => r == Ok::<Option<(u64, u64)>, EmulatorError>(v),
                Err(f) => fails(r, f),
            },
    {
        read_float_operands(cpu, &self.fields)
    }

    /// Write the bits of the result to the floating-point destination.
    pub fn commit(&self, cpu: &mut Cpu, result: u64) -> (r: Result<(), EmulatorError>)
        ensures
            wrote_fr(*old(cpu), *final(cpu), self.fields, result, r),
    {
        write_fr(cpu, &self.fields, result)
    }
}

/// Floating-point subtract instruction
#[derive(Debug)]
pub struct FSub {
    /// The decoded fields
    pub fields: InstructionFields,
}

impl FSub {
    /// Create new FSUB instruction
    pub fn new(fields: InstructionFields) -> (i: Self)
        ensures
            i.fields == fields,
    {
        Self { fields }
    }

    /// Read the operands: the bits of the two floating-point sources, or
    /// nothing if the predicate is false.
    pub fn operands(&self, cpu: &Cpu) -> (r: Result<Option<(u64, u64)>, EmulatorError>)
        ensures
            match spec_float_operands(*cpu, self.fields) {
                Ok(v) => r == Ok::<Option<(u64, u64)>, EmulatorError>(v),
                Err(f) => fails(r, f),
            },
    {
        read_float_operands(cpu, &self.fields)
    }

    /// Write the bits of the result to the floating-point destination.
    pub fn commit(&self, cpu: &mut Cpu, result: u64) -> (r: Result<(), EmulatorError>)
        ensures
            wrote_fr(*old(cpu), *final(cpu), self.fields, result, r),
    {
        write_fr(cpu, &self.fields, result)
    }
}

/// Floating-point multiply instruction
#[derive(Debug)]
pub struct FMul {
    /// The decoded fields
    pub fields: InstructionFields,
}

impl FMul {
    /// Create new FMUL instruction
    pub fn new(fields: InstructionFields) -> (i: Self)
        ensures
            i.fields == fields,
    {
        Self { fields }
    }

    /// Read the operands: the bits of the two floating-point sources, or
    /// nothing if the predicate is false.
    pub fn operands(&self, cpu: &Cpu) -> (r: Result<Option<(u64, u64)>, EmulatorError>)
        ensures
            match spec_float_operands(*cpu, self.fields) {
                Ok(v) => r == Ok::<Option<(u64, u64)>, EmulatorError>(v),
                Err(f) => fails(r, f),
            },
    {
        read_float_operands(cpu, &self.fields)
    }

    /// Write the bits of the result to the floating-point destination.
    pub fn commit(&self, cpu: &mut Cpu, result: u64) -> (r: Result<(), EmulatorError>)
        ensures
            wrote_fr(*old(cpu), *final(cpu), self.fields, result, r),
    {
        write_fr(cpu, &self.fields, result)
    }
}

/// Floating-point divide instruction
#[derive(Debug)]
pub struct FDiv {
    /// The decoded fields
    pub fields: InstructionFields,
}

impl FDiv {
    /// Create new FDIV instruction
    pub fn new(fields: InstructionFields) -> (i: Self)
        ensures
            i.fields == fields,
    {
        Self { fields }
    }

    /// Read the operands: the bits of the two floating-point sources, or
    /// nothing if the predicate is false. A divisor that is zero, of either sign, is a fault.
    pub fn operands(&self, cpu: &Cpu) -> (r: Result<Option<(u64, u64)>, EmulatorError>)
        ensures
            match spec_dividend_and_divisor(*cpu, self.fields) {
                Ok(v) => r == Ok::<Option<(u64, u64)>, EmulatorError>(v),
                Err(f) => fails(r, f),
            },
    {
        read_dividend_and_divisor(cpu, &self.fields)
    }

    /// Write the bits of the result to the floating-point destination.
    pub fn commit(&self, cpu: &mut Cpu, result: u64) -> (r: Result<(), EmulatorError>)
        ensures
            wrote_fr(*old(cpu), *final(cpu), self.fields, result, r),
    {
        write_fr(cpu, &self.fields, result)
    }
}

} // verus!
