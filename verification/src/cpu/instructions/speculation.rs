//! Speculation instruction implementations
//!
//! This module implements the instructions that work with the ALAT:
//! advanced loads, check loads, recovery branches and the stores that
//! invalidate what they touch.

use vstd::prelude::*;
use vstd::string::*;
use super::memory::{effective_address, loaded_sized, spec_effective_address, stored_sized, LoadSize};
use super::{
    check_predicate,
    execution_fault,
    fails,
    immediate_bits,
    spec_predicate,
    state_fault,
    suppressed,
    unsigned,
    Fault,
    Instruction,
    InstructionFields,
    RegisterType,
};
use crate::cpu::alat::{spec_add, spec_invalidate};
use crate::cpu::{gr_after_write, gr_value, Cpu};
use crate::memory::{bytes_of, can_load, can_store, store_bytes, u64_from_le, u64_to_le, Memory, RegionView};
use crate::EmulatorError;

verus! {

/// A register that the ALAT can watch: a general or a floating-point
/// register, by its number.
pub struct Watched {
    /// The register's number
    pub register: u8,
    /// Whether the register is a general register
    pub is_integer: bool,
}

/// The register that operand `i` of `operands` names, which must be a
/// general or a floating-point register.
pub open spec fn spec_tracked(operands: Seq<RegisterType>, i: int, missing: Seq<char>, wrong: Seq<
    char,
>) -> Result<Watched, Fault> {
    if i >= operands.len() {
        Err(execution_fault(missing))
    } else {
        match operands[i] {
            RegisterType::GR(reg) => Ok(Watched { register: reg, is_integer: true }),
            RegisterType::FR(reg) => Ok(Watched { register: reg, is_integer: false }),
            _ => Err(execution_fault(wrong)),
        }
    }
}

/// The register that destination operand 0 names.
pub open spec fn spec_tracked_target(fields: InstructionFields) -> Result<Watched, Fault> {
    spec_tracked(
        fields.destinations@,
        0,
        "Missing destination operand"@,
        "Invalid destination register type"@,
    )
}

/// The register that source operand 0 names.
pub open spec fn spec_tracked_source(fields: InstructionFields) -> Result<Watched, Fault> {
    spec_tracked(fields.sources@, 0, "Missing source operand"@, "Invalid source register type"@)
}

/// The register that destination operand 0 names, as its number and
/// whether it is a general register.
pub fn tracked_target(fields: &InstructionFields) -> (r: Result<(u8, bool), EmulatorError>)
    ensures
        match spec_tracked_target(*fields) {
            Ok(t) => r == Ok::<(u8, bool), EmulatorError>((t.register, t.is_integer)),
            Err(f) => fails(r, f),
        },
{
    if fields.destinations.len() == 0 {
        return Err(EmulatorError::ExecutionError(String::from_str("Missing destination operand")));
    }
    match fields.destinations[0] {
        RegisterType::GR(reg) => Ok((reg, true)),
        RegisterType::FR(reg) => Ok((reg, false)),
        _ => Err(EmulatorError::ExecutionError(String::from_str("Invalid destination register type"))),
    }
}

/// The register that source operand 0 names, as its number and whether it
/// is a general register.
pub fn tracked_source(fields: &InstructionFields) -> (r: Result<(u8, bool), EmulatorError>)
    ensures
        match spec_tracked_source(*fields) {
            Ok(t) => r == Ok::<(u8, bool), EmulatorError>((t.register, t.is_integer)),
            Err(f) => fails(r, f),
        },
{
    if fields.sources.len() == 0 {
        return Err(EmulatorError::ExecutionError(String::from_str("Missing source operand")));
    }
    match fields.sources[0] {
        RegisterType::GR(reg) => Ok((reg, true)),
        RegisterType::FR(reg) => Ok((reg, false)),
        _ => Err(EmulatorError::ExecutionError(String::from_str("Invalid source register type"))),
    }
}

/// Advanced load instruction (ld.a)
#[derive(Debug)]
pub struct AdvancedLoad {
    /// The decoded fields
    pub fields: InstructionFields,
}

impl AdvancedLoad {
    /// The cycles that an advanced load takes.
    pub fn latency(&self) -> (cycles: u32)
        ensures
            cycles == 2,
    {
        2
    }

    /// Create new advanced load instruction
    pub fn new(fields: InstructionFields) -> (i: Self)
        ensures
            i.fields == fields,
    {
        Self { fields }
    }

    /// Calculate effective address
    pub fn calc_effective_address(&self, cpu: &Cpu) -> (r: Result<u64, EmulatorError>)
        ensures
            match spec_effective_address(*cpu, self.fields) {
                Ok(a) => r == Ok::<u64, EmulatorError>(a),
                Err(f) => fails(r, f),
            },
    {
        effective_address(cpu, &self.fields)
    }

    /// The effect of the load, once its predicate holds and its address is
    /// `addr`: eight bytes are loaded, the target register enters the ALAT,
    /// and the target takes the value. A load that memory refuses, or a
    /// target that is no general or floating-point register, leaves the
    /// processor as it was; a target whose number is out of range fails
    /// after the ALAT has taken its entry.
    pub open spec fn access(
        &self,
        before: Cpu,
        rs: Seq<RegionView>,
        addr: u64,
        after: Cpu,
        r: Result<(), EmulatorError>,
    ) -> bool {
        if !can_load(rs, addr as int, 8) {
            (r matches Err(EmulatorError::MemoryError(_))) && after == before
        } else {
            match spec_tracked_target(self.fields) {
                Err(f) => fails(r, f) && after == before,
                Ok(t) => {
                    let value = u64_from_le(bytes_of(rs, addr as int, 8));
                    &&& after == (Cpu { alat: after.alat, gr: after.gr, fr: after.fr, ..before })
                    &&& after.alat.entries@ == spec_add(
                        before.alat.entries@,
                        addr,
                        8,
                        t.register as u32,
                        t.is_integer,
                    )
                    &&& if t.register >= 128 {
                        fails(
                            r,
                            state_fault(
                                if t.is_integer {
                                    "Invalid general register index"@
                                } else {
                                    "Invalid floating point register index"@
                                },
                            ),
                        ) && after.gr == before.gr && after.fr == before.fr
                    } else if t.is_integer {
                        r is Ok && after.fr == before.fr && after.gr@ == gr_after_write(
                            before.gr@,
                            t.register as int,
                            value,
                        )
                    } else {
                        r is Ok && after.gr == before.gr && after.fr@ == before.fr@.update(
                            t.register as int,
                            value,
                        )
                    }
                },
            }
        }
    }

    /// What the load leaves in the caches: a load that reaches its access
    /// loads its eight bytes one after the other; any other leaves the
    /// memory as it was.
    pub open spec fn lookup(&self, cpu: Cpu, before: Memory, after: Memory) -> bool {
        match (spec_predicate(cpu, self.fields.qp), spec_effective_address(cpu, self.fields)) {
            (Ok(true), Ok(addr)) => loaded_sized(before, after, LoadSize::Double, addr),
            _ => after == before,
        }
    }

    /// The effect of the load on the processor.
    pub open spec fn effect(
        &self,
        before: Cpu,
        rs: Seq<RegionView>,
        after: Cpu,
        r: Result<(), EmulatorError>,
    ) -> bool {
        match spec_predicate(before, self.fields.qp) {
            Err(f) => fails(r, f) && after == before,
            Ok(false) => r is Ok && after == before,
            Ok(true) => match spec_effective_address(before, self.fields) {
                Err(f) => fails(r, f) && after == before,
                Ok(addr) => self.access(before, rs, addr, after, r),
            },
        }
    }
}

impl Instruction for AdvancedLoad {
    open spec fn qualifying_predicate(&self) -> u8 {
        self.fields.qp
    }

    fn execute(&self, cpu: &mut Cpu, memory: &mut Memory) -> (r: Result<(), EmulatorError>)
        ensures
            final(memory)@ == old(memory)@,
            self.effect(*old(cpu), old(memory)@.regions, *final(cpu), r),
            self.lookup(*old(cpu), *old(memory), *final(memory)),
    {
        match check_predicate(cpu, self.fields.qp) {
            Ok(true) => {},
            Ok(false) => {
                return Ok(());
            },
            Err(e) => {
                return Err(e);
            },
        }
        // Calculate effective address
        let addr = match self.calc_effective_address(cpu) {
            Ok(a) => a,
            Err(e) => {
                return Err(e);
            },
        };
        // Load value from memory
        let value = match memory.read_u64(addr) {
            Ok(v) => v,
            Err(e) => {
                return Err(e);
            },
        };
        // Get destination register
        let (reg, is_integer) = match tracked_target(&self.fields) {
            Ok(t) => t,
            Err(e) => {
                return Err(e);
            },
        };
        // Add entry to ALAT
        let _ = cpu.alat_add_entry(addr, 8, reg as u32, is_integer);
        // Write value to register
        if is_integer {
            cpu.set_gr(reg as usize, value)
        } else {
            cpu.set_fr(reg as usize, value)
        }
    }
}

/// Check load instruction (chk.a)
#[derive(Debug)]
pub struct CheckLoad {
    /// The decoded fields
    pub fields: InstructionFields,
}

impl CheckLoad {
    /// The cycles that a check takes.
    pub fn latency(&self) -> (cycles: u32)
        ensures
            cycles == 1,
    {
        1
    }

    /// Create new check load instruction
    pub fn new(fields: InstructionFields) -> (i: Self)
        ensures
            i.fields == fields,
    {
        Self { fields }
    }

    /// The effect of the check on the processor: if the register that
    /// source operand 0 names has no valid ALAT entry, execution goes on at
    /// the recovery address that the immediate holds, if it holds one.
    pub open spec fn effect(&self, before: Cpu, after: Cpu, r: Result<(), EmulatorError>) -> bool {
        match spec_predicate(before, self.fields.qp) {
            Err(f) => fails(r, f) && after == before,
            Ok(false) => r is Ok && after == before,
            Ok(true) => match spec_tracked_source(self.fields) {
                Err(f) => fails(r, f) && after == before,
                Ok(t) => r is Ok && after == if before.alat.spec_check_register(
                    t.register as u32,
                    t.is_integer,
                ) {
                    before
                } else {
                    match self.fields.immediate {
                        Some(recovery) => Cpu { ip: unsigned(recovery as int), ..before },
                        None => before,
                    }
                },
            },
        }
    }
}

impl Instruction for CheckLoad {
    open spec fn qualifying_predicate(&self) -> u8 {
        self.fields.qp
    }

    fn execute(&self, cpu: &mut Cpu, _memory: &mut Memory) -> (r: Result<(), EmulatorError>)
        ensures
            *final(_memory) == *old(_memory),
            self.effect(*old(cpu), *final(cpu), r),
    {
        match check_predicate(cpu, self.fields.qp) {
            Ok(true) => {},
            Ok(false) => {
                return Ok(());
            },
            Err(e) => {
                return Err(e);
            },
        }
        // Get register to check
        let (reg, is_integer) = match tracked_source(&self.fields) {
            Ok(t) => t,
            Err(e) => {
                return Err(e);
            },
        };
        // Check if entry exists in ALAT
        if !cpu.alat_check_register(reg as u32, is_integer) {
            // Entry not found or invalid - branch to recovery code
            match self.fields.immediate {
                Some(recovery) => {
                    cpu.ip = immediate_bits(recovery);
                },
                None => {},
            }
        }
        Ok(())
    }
}

/// Speculation recovery branch instruction
#[derive(Debug)]
pub struct RecoveryBranch {
    /// The decoded fields
    pub fields: InstructionFields,
}

impl RecoveryBranch {
    /// The cycles that a recovery branch takes.
    pub fn latency(&self) -> (cycles: u32)
        ensures
            cycles == 2,
    {
        2
    }

    /// Create new recovery branch instruction
    pub fn new(fields: InstructionFields) -> (i: Self)
        ensures
            i.fields == fields,
    {
        Self { fields }
    }

    /// The branch register that source operand 0 names.
    pub open spec fn spec_target(&self, cpu: Cpu) -> Result<u64, Fault> {
        if self.fields.sources@.len() == 0 {
            Err(execution_fault("Missing source operand"@))
        } else {
            match self.fields.sources@[0] {
                RegisterType::BR(reg) => if reg < 8 {
                    Ok(cpu.br@[reg as int])
                } else {
                    Err(state_fault("Invalid branch register index"@))
                },
                _ => Err(execution_fault("Invalid source register type"@)),
            }
        }
    }

    /// The effect of the branch on the processor: execution goes on at the
    /// address in the branch register that source operand 0 names.
    pub open spec fn effect(&self, before: Cpu, after: Cpu, r: Result<(), EmulatorError>) -> bool {
        match spec_predicate(before, self.fields.qp) {
            Err(f) => fails(r, f) && after == before,
            Ok(false) => r is Ok && after == before,
            Ok(true) => match self.spec_target(before) {
                Err(f) => fails(r, f) && after == before,
                Ok(target) => r is Ok && after == (Cpu { ip: target, ..before }),
            },
        }
    }
}

impl Instruction for RecoveryBranch {
    open spec fn qualifying_predicate(&self) -> u8 {
        self.fields.qp
    }

    fn execute(&self, cpu: &mut Cpu, _memory: &mut Memory) -> (r: Result<(), EmulatorError>)
        ensures
            *final(_memory) == *old(_memory),
            self.effect(*old(cpu), *final(cpu), r),
    {
        match check_predicate(cpu, self.fields.qp) {
            Ok(true) => {},
            Ok(false) => {
                return Ok(());
            },
            Err(e) => {
                return Err(e);
            },
        }
        // Get target address
        if self.fields.sources.len() == 0 {
            return Err(EmulatorError::ExecutionError(String::from_str("Missing source operand")));
        }
        let target = match self.fields.sources[0] {
            RegisterType::BR(reg) => match cpu.get_br(reg as usize) {
                Ok(t) => t,
                Err(e) => {
                    return Err(e);
                },
            },
            _ => {
                return Err(
                    EmulatorError::ExecutionError(String::from_str("Invalid source register type")),
                );
            },
        };
        // Update IP to recovery code
        cpu.ip = target;
        Ok(())
    }
}

/// Clear ALAT instruction
#[derive(Debug)]
pub struct ClearAlat {
    /// The decoded fields
    pub fields: InstructionFields,
}

impl ClearAlat {
    /// The cycles that clearing the ALAT takes.
    pub fn latency(&self) -> (cycles: u32)
        ensures
            cycles == 1,
    {
        1
    }

    /// Create new clear ALAT instruction
    pub fn new(fields: InstructionFields) -> (i: Self)
        ensures
            i.fields == fields,
    {
        Self { fields }
    }

    /// The effect on the processor: the ALAT loses every entry.
    pub open spec fn effect(&self, before: Cpu, after: Cpu, r: Result<(), EmulatorError>) -> bool {
        match spec_predicate(before, self.fields.qp) {
            Err(f) => fails(r, f) && after == before,
            Ok(false) => r is Ok && after == before,
            Ok(true) => r is Ok && after == (Cpu { alat: after.alat, ..before })
                && after.alat.entries@.len() == 0,
        }
    }
}

impl Instruction for ClearAlat {
    open spec fn qualifying_predicate(&self) -> u8 {
        self.fields.qp
    }

    fn execute(&self, cpu: &mut Cpu, _memory: &mut Memory) -> (r: Result<(), EmulatorError>)
        ensures
            *final(_memory) == *old(_memory),
            self.effect(*old(cpu), *final(cpu), r),
    {
        match check_predicate(cpu, self.fields.qp) {
            Ok(true) => {},
            Ok(false) => {
                return Ok(());
            },
            Err(e) => {
                return Err(e);
            },
        }
        cpu.alat_clear();
        Ok(())
    }
}

/// Store with ALAT update instruction
#[derive(Debug)]
pub struct StoreUpdate {
    /// The decoded fields
    pub fields: InstructionFields,
}

impl StoreUpdate {
    /// The cycles that a store takes.
    pub fn latency(&self) -> (cycles: u32)
        ensures
            cycles == 2,
    {
        2
    }

    /// Create new store with ALAT update instruction
    pub fn new(fields: InstructionFields) -> (i: Self)
        ensures
            i.fields == fields,
    {
        Self { fields }
    }

    /// Calculate effective address
    pub fn calc_effective_address(&self, cpu: &Cpu) -> (r: Result<u64, EmulatorError>)
        ensures
            match spec_effective_address(*cpu, self.fields) {
                Ok(a) => r == Ok::<u64, EmulatorError>(a),
                Err(f) => fails(r, f),
            },
    {
        effective_address(cpu, &self.fields)
    }

    /// The value of the general or floating-point register that source
    /// operand 0 names.
    pub open spec fn spec_value(&self, cpu: Cpu) -> Result<u64, Fault> {
        match spec_tracked_source(self.fields) {
            Err(f) => Err(f),
            Ok(t) => if t.register >= 128 {
                Err(
                    state_fault(
                        if t.is_integer {
                            "Invalid general register index"@
                        } else {
                            "Invalid floating point register index"@
                        },
                    ),
                )
            } else if t.is_integer {
                Ok(gr_value(cpu.gr@, t.register as int))
            } else {
                Ok(cpu.fr@[t.register as int])
            },
        }
    }

    /// What the store leaves in the caches: a store that reaches its access
    /// stores its eight bytes as one block or not at all; any other leaves
    /// the memory as it was.
    pub open spec fn written(&self, cpu: Cpu, before: Memory, after: Memory) -> bool {
        match (
            spec_predicate(cpu, self.fields.qp),
            spec_effective_address(cpu, self.fields),
            self.spec_value(cpu),
        ) {
            (Ok(true), Ok(addr), Ok(value)) => stored_sized(before, after, LoadSize::Double, addr, value),
            _ => after == before,
        }
    }

    /// The effect of the store on the processor and on memory: the eight
    /// bytes of the source are stored at the effective address as one block,
    /// and the ALAT entries that the store touches are invalidated. A store
    /// that fails changes nothing.
    pub open spec fn effect(
        &self,
        before: Cpu,
        rs: Seq<RegionView>,
        after: Cpu,
        regions: Seq<RegionView>,
        r: Result<(), EmulatorError>,
    ) -> bool {
        match spec_predicate(before, self.fields.qp) {
            Err(f) => fails(r, f) && after == before && regions == rs,
            Ok(false) => r is Ok && after == before && regions == rs,
            Ok(true) => match spec_effective_address(before, self.fields) {
                Err(f) => fails(r, f) && after == before && regions == rs,
                Ok(addr) => match self.spec_value(before) {
                    Err(f) => fails(r, f) && after == before && regions == rs,
                    Ok(value) => if can_store(rs, addr as int, 8) {
                        &&& r is Ok
                        &&& regions == store_bytes(rs, addr as int, u64_to_le(value))
                        &&& after == (Cpu { alat: after.alat, ..before })
                        &&& after.alat.entries@ == spec_invalidate(before.alat.entries@, addr, 8)
                    } else {
                        (r matches Err(EmulatorError::MemoryError(_))) && after == before && regions == rs
                    },
                },
            },
        }
    }
}

impl Instruction for StoreUpdate {
    open spec fn qualifying_predicate(&self) -> u8 {
        self.fields.qp
    }

    fn execute(&self, cpu: &mut Cpu, memory: &mut Memory) -> (r: Result<(), EmulatorError>)
        ensures
            final(memory)@.loads == old(memory)@.loads,
            final(memory)@.bypass == old(memory)@.bypass,
            suppressed(*old(cpu), self.fields.qp) ==> *final(memory) == *old(memory),
            self.effect(*old(cpu), old(memory)@.regions, *final(cpu), final(memory)@.regions, r),
            self.written(*old(cpu), *old(memory), *final(memory)),
    {
        match check_predicate(cpu, self.fields.qp) {
            Ok(true) => {},
            Ok(false) => {
                return Ok(());
            },
            Err(e) => {
                return Err(e);
            },
        }
        // Calculate effective address
        let addr = match self.calc_effective_address(cpu) {
            Ok(a) => a,
            Err(e) => {
                return Err(e);
            },
        };
        // Get value to store
        let (reg, is_integer) = match tracked_source(&self.fields) {
            Ok(t) => t,
            Err(e) => {
                return Err(e);
            },
        };
        let value = match if is_integer {
            cpu.get_gr(reg as usize)
        } else {
            cpu.get_fr(reg as usize)
        } {
            Ok(v) => v,
            Err(e) => {
                return Err(e);
            },
        };
        // Store value to memory
        match memory.write_u64(addr, value) {
            Ok(_) => {},
            Err(e) => {
                return Err(e);
            },
        }
        // Invalidate overlapping ALAT entries
        cpu.alat_invalidate_overlap(addr, 8);
        Ok(())
    }
}

} // verus!
