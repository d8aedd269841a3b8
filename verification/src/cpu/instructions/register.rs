//! Register instruction implementations
//!
//! This module implements the instructions that move the general register
//! file as a whole.

use vstd::prelude::*;
use vstd::string::*;
use super::{
    check_predicate,
    fails,
    read_operand,
    spec_operand,
    spec_predicate,
    suppressed,
    Instruction,
    InstructionFields,
};
use crate::cpu::{gr_value, Cpu};
use crate::memory::Memory;
use crate::{is_execution_error, EmulatorError};

verus! {

/// The general registers after a rotation by `amount`: register `i` takes
/// the value that register `(i + amount) mod 128` reads as, except register
/// 0, which is wired to zero and takes no write.
pub open spec fn rotated_registers(gr: Seq<u64>, amount: int) -> Seq<u64> {
    Seq::new(
        128,
        |i: int|
            if i == 0 {
                gr[0]
            } else {
                gr_value(gr, (i + amount) % 128)
            },
    )
}

/// Register rotation instruction
#[derive(Debug)]
pub struct Rotate {
    /// The decoded fields
    pub fields: InstructionFields,
}

impl Rotate {
    /// Create new rotate instruction
    pub fn new(fields: InstructionFields) -> (i: Self)
        ensures
            i.fields == fields,
    {
        Self { fields }
    }

    /// The effect of the rotation on the processor: the general registers
    /// rotate by the low seven bits of the source.
    pub open spec fn effect(&self, before: Cpu, after: Cpu, r: Result<(), EmulatorError>) -> bool {
        match spec_operand(before, self.fields) {
            Err(f) => fails(r, f) && after == before,
            Ok(None) => r is Ok && after == before,
            Ok(Some(rot)) => r is Ok && after == (Cpu { gr: after.gr, ..before }) && after.gr@
                == rotated_registers(before.gr@, (rot & 0x7F) as int),
        }
    }
}

impl Instruction for Rotate {
    open spec fn qualifying_predicate(&self) -> u8 {
        self.fields.qp
    }

    fn execute(&self, cpu: &mut Cpu, _memory: &mut Memory) -> (r: Result<(), EmulatorError>)
        ensures
            *final(_memory) == *old(_memory),
            self.effect(*old(cpu), *final(cpu), r),
    {
        // Get rotation amount
        let rot = match read_operand(cpu, &self.fields) {
            Ok(Some(v)) => v,
            Ok(None) => {
                return Ok(());
            },
            Err(e) => {
                return Err(e);
            },
        };
        assert(rot & 0x7F < 128) by (bit_vector);
        let rot_amount = (rot & 0x7F) as usize;  // Limit to 128 registers
        // Perform rotation
        let source = cpu.gr;
        let mut i: usize = 1;
        while i < 128
            invariant
                1 <= i <= 128,
                rot_amount < 128,
                source == old(cpu).gr,
                *cpu == (Cpu { gr: cpu.gr, ..*old(cpu) }),
                cpu.gr@[0] == source@[0],
                forall|j: int| 1 <= j < i ==> cpu.gr@[j] == gr_value(source@, (j + rot_amount) % 128),
            decreases 128 - i,
        {
            let src_idx = (i + rot_amount) % 128;
            cpu.gr[i] = if src_idx == 0 {
                0
            } else {
                source[src_idx]
            };
            i = i + 1;
        }
        assert(cpu.gr@ =~= rotated_registers(old(cpu).gr@, rot_amount as int));
        Ok(())
    }
}

/// Whether an instruction that the emulator does not provide ended as it
/// should: suppressed if its predicate is false, with a fault if the
/// predicate or the operand cannot be read, and otherwise with the report
/// `detail`. The processor is left alone in every case.
pub open spec fn not_provided(
    before: Cpu,
    after: Cpu,
    fields: InstructionFields,
    reads_operand: bool,
    detail: Seq<char>,
    r: Result<(), EmulatorError>,
) -> bool {
    &&& after == before
    &&& if reads_operand {
        match spec_operand(before, fields) {
            Err(f) => fails(r, f),
            Ok(None) => r is Ok,
            Ok(Some(_)) => is_execution_error(r, detail),
        }
    } else {
        match spec_predicate(before, fields.qp) {
            Err(f) => fails(r, f),
            Ok(false) => r is Ok,
            Ok(true) => is_execution_error(r, detail),
        }
    }
}

/// Register bank switch instruction
#[derive(Debug)]
pub struct BankSwitch {
    /// The decoded fields
    pub fields: InstructionFields,
}

impl BankSwitch {
    /// Create new bank switch instruction
    pub fn new(fields: InstructionFields) -> (i: Self)
        ensures
            i.fields == fields,
    {
        Self { fields }
    }
}

impl Instruction for BankSwitch {
    open spec fn qualifying_predicate(&self) -> u8 {
        self.fields.qp
    }

    /// The emulator has one register bank: the instruction reads the bank
    /// number and reports that there is nothing to switch to.
    fn execute(&self, cpu: &mut Cpu, _memory: &mut Memory) -> (r: Result<(), EmulatorError>)
        ensures
            *final(_memory) == *old(_memory),
            not_provided(
                *old(cpu),
                *final(cpu),
                self.fields,
                true,
                "Register bank switching not implemented"@,
                r,
            ),
    {
        match read_operand(cpu, &self.fields) {
            Ok(Some(_)) => Err(
                EmulatorError::ExecutionError(String::from_str("Register bank switching not implemented")),
            ),
            Ok(None) => Ok(()),
            Err(e) => Err(e),
        }
    }
}

/// Move to register stack instruction
#[derive(Debug)]
pub struct MoveToRegStack {
    /// The decoded fields
    pub fields: InstructionFields,
}

impl MoveToRegStack {
    /// Create new move to register stack instruction
    pub fn new(fields: InstructionFields) -> (i: Self)
        ensures
            i.fields == fields,
    {
        Self { fields }
    }
}

impl Instruction for MoveToRegStack {
    open spec fn qualifying_predicate(&self) -> u8 {
        self.fields.qp
    }

    /// The emulator keeps no register stack of its own: the instruction
    /// reads its source and reports that it has nowhere to put it.
    fn execute(&self, cpu: &mut Cpu, _memory: &mut Memory) -> (r: Result<(), EmulatorError>)
        ensures
            *final(_memory) == *old(_memory),
            not_provided(
                *old(cpu),
                *final(cpu),
                self.fields,
                true,
                "Register stack operations not implemented"@,
                r,
            ),
    {
        match read_operand(cpu, &self.fields) {
            Ok(Some(_)) => Err(
                EmulatorError::ExecutionError(String::from_str("Register stack operations not implemented")),
            ),
            Ok(None) => Ok(()),
            Err(e) => Err(e),
        }
    }
}

/// Move from register stack instruction
#[derive(Debug)]
pub struct MoveFromRegStack {
    /// The decoded fields
    pub fields: InstructionFields,
}

impl MoveFromRegStack {
    /// Create new move from register stack instruction
    pub fn new(fields: InstructionFields) -> (i: Self)
        ensures
            i.fields == fields,
    {
        Self { fields }
    }
}

impl Instruction for MoveFromRegStack {
    open spec fn qualifying_predicate(&self) -> u8 {
        self.fields.qp
    }

    /// The emulator keeps no register stack of its own: the instruction
    /// reports that it has nothing to read.
    fn execute(&self, cpu: &mut Cpu, _memory: &mut Memory) -> (r: Result<(), EmulatorError>)
        ensures
            *final(_memory) == *old(_memory),
            not_provided(
                *old(cpu),
                *final(cpu),
                self.fields,
                false,
                "Register stack operations not implemented"@,
                r,
            ),
    {
        match check_predicate(cpu, self.fields.qp) {
            Ok(true) => Err(
                EmulatorError::ExecutionError(String::from_str("Register stack operations not implemented")),
            ),
            Ok(false) => Ok(()),
            Err(e) => Err(e),
        }
    }
}

} // verus!
