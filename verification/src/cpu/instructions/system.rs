//! System instruction implementations
//!
//! This module implements the instructions that read and write the
//! processor status register.
//!
//! The user mask is the set of status bits that unprivileged code may
//! change: UM, BE, PME, IC and I, that is bits 0, 3, 6, 13 and 14.

use vstd::prelude::*;
use vstd::string::*;
use super::{
    check_predicate,
    execution_fault,
    fails,
    immediate_bits,
    spec_predicate,
    state_fault,
    unsigned,
    Fault,
    InstructionFields,
    RegisterType,
};
use crate::cpu::registers::cr::{masked_write, PSR_WRITABLE_MASK};
use crate::cpu::registers::RegisterState;
use crate::cpu::{gr_after_write, gr_value, Cpu, PSRFlags};
use crate::decoder::instruction_format::{IFormat, MFormat};
use crate::EmulatorError;

verus! {

/// PSR user mask - bits that can be modified by user-level code: UM (bit
/// 0), BE (bit 3), PME (bit 6), IC (bit 13) and I (bit 14).
pub const PSR_USER_MASK: u64 = 0x0000_0000_0000_6049;

/// The secure bit of the status register.
pub const PSR_SECURE: u64 = 0x2;

/// The user mask is made of the five flags that it names, and all of it can
/// be written to the status register.
pub proof fn lemma_user_mask()
    ensures
        PSR_USER_MASK == PSRFlags::UM.spec_bits() | PSRFlags::BE.spec_bits() | PSRFlags::PME.spec_bits()
            | PSRFlags::IC.spec_bits() | PSRFlags::I.spec_bits(),
        PSR_USER_MASK & PSR_WRITABLE_MASK == PSR_USER_MASK,
        PSR_SECURE == PSRFlags::SECURE.spec_bits(),
{
    assert(0x6049u64 == 0x1u64 | 0x8u64 | 0x40u64 | 0x2000u64 | 0x4000u64 && 0x6049u64
        & 0x0000_FFFF_FFFF_FFFFu64 == 0x6049u64) by (bit_vector);
}

/// Whether the processor runs privileged: the secure bit of the status
/// register is set.
pub open spec fn is_privileged(cpu: Cpu) -> bool {
    cpu.system_regs.cr.registers@[0] & PSR_SECURE == PSR_SECURE
}

/// Whether `after` is `before` with the status register written with
/// `value`, under the register's write mask.
pub open spec fn wrote_psr(before: Cpu, after: Cpu, value: u64) -> bool {
    &&& after == (Cpu {
        system_regs: RegisterState { cr: after.system_regs.cr, ..before.system_regs },
        ..before
    })
    &&& after.system_regs.cr.registers@ == before.system_regs.cr.registers@.update(
        0,
        masked_write(before.system_regs.cr.registers@[0], value, PSR_WRITABLE_MASK),
    )
}

/// The general register that operand `i` of `operands` names, whatever kind
/// of register the operand is.
pub open spec fn spec_numbered_gr(cpu: Cpu, operands: Seq<RegisterType>, i: int, missing: Seq<
    char,
>) -> Result<int, Fault> {
    if i >= operands.len() {
        Err(execution_fault(missing))
    } else if operands[i].spec_reg_num() < 128 {
        Ok(operands[i].spec_reg_num() as int)
    } else {
        Err(state_fault("Invalid general register index"@))
    }
}

/// Whether a privileged instruction with the qualifying predicate `qp` gets
/// to run: its predicate holds and the processor runs privileged.
pub open spec fn runs(cpu: Cpu, qp: u8) -> bool {
    spec_predicate(cpu, qp) == Ok::<bool, Fault>(true) && is_privileged(cpu)
}

/// What becomes of a privileged instruction that does not get to run: a
/// predicate that cannot be read is a fault, a false predicate suppresses
/// the instruction, and without privilege the instruction is refused. The
/// processor is left alone in each case.
pub open spec fn gated(before: Cpu, after: Cpu, qp: u8, r: Result<(), EmulatorError>) -> bool {
    match spec_predicate(before, qp) {
        Err(f) => fails(r, f) && after == before,
        Ok(false) => r is Ok && after == before,
        Ok(true) => !is_privileged(before) ==> (r matches Err(EmulatorError::PrivilegeViolation))
            && after == before,
    }
}

/// Evaluate the predicate of a privileged instruction and check the
/// privilege: whether the instruction gets to run.
pub fn enter(cpu: &Cpu, qp: u8) -> (r: Result<bool, EmulatorError>)
    ensures
        match spec_predicate(*cpu, qp) {
            Err(f) => fails(r, f),
            Ok(false) => r == Ok::<bool, EmulatorError>(false),
            Ok(true) => if is_privileged(*cpu) {
                r == Ok::<bool, EmulatorError>(true)
            } else {
                r matches Err(EmulatorError::PrivilegeViolation)
            },
        },
{
    match check_predicate(cpu, qp) {
        Ok(true) => {},
        Ok(false) => {
            return Ok(false);
        },
        Err(e) => {
            return Err(e);
        },
    }
    if !check_privileged(cpu) {
        return Err(EmulatorError::PrivilegeViolation);
    }
    Ok(true)
}

/// Whether the processor runs privileged.
pub fn check_privileged(cpu: &Cpu) -> (b: bool)
    ensures
        b == is_privileged(*cpu),
{
    cpu.system_regs.cr.contains(PSRFlags::SECURE)
}

/// Write `value` to the status register, under the register's write mask.
pub fn write_psr(cpu: &mut Cpu, value: u64)
    ensures
        wrote_psr(*old(cpu), *final(cpu), value),
{
    let _ = cpu.system_regs.cr.write(crate::cpu::registers::CRIndex::PSR, value);
}

/// Move to PSR instruction
#[derive(Debug)]
pub struct MoveToPsr {
    /// The decoded fields
    pub fields: InstructionFields,
}

impl MoveToPsr {
    /// Create new move to PSR instruction
    pub fn new(fields: InstructionFields) -> (i: Self)
        ensures
            i.fields == fields,
    {
        Self { fields }
    }

    /// Execute the instruction: the user-mask bits of the status register
    /// take the bits of the general register that source operand 0 numbers.
    /// Without privilege the instruction is refused.
    pub fn execute(&self, cpu: &mut Cpu) -> (r: Result<(), EmulatorError>)
        ensures
            gated(*old(cpu), *final(cpu), self.fields.qp, r),
            runs(*old(cpu), self.fields.qp) ==> match spec_numbered_gr(
                *old(cpu),
                self.fields.sources@,
                0,
                "Missing source operand"@,
            ) {
                Ok(reg) => r is Ok && wrote_psr(
                    *old(cpu),
                    *final(cpu),
                    masked_write(
                        old(cpu).system_regs.cr.registers@[0],
                        gr_value(old(cpu).gr@, reg),
                        PSR_USER_MASK,
                    ),
                ),
                Err(f) => fails(r, f) && *final(cpu) == *old(cpu),
            },
    {
        match enter(cpu, self.fields.qp) {
            Ok(true) => {},
            Ok(false) => {
                return Ok(());
            },
            Err(e) => {
                return Err(e);
            },
        }
        if self.fields.sources.len() == 0 {
            return Err(EmulatorError::ExecutionError(String::from_str("Missing source operand")));
        }
        // Get source value
        let value = match cpu.get_gr(self.fields.sources[0].get_reg_num()) {
            Ok(v) => v,
            Err(e) => {
                return Err(e);
            },
        };
        // Only modify the bits specified by PSR_USER_MASK
        let old_psr = cpu.system_regs.cr.read(crate::cpu::registers::CRIndex::PSR);
        let new_psr = (old_psr & !PSR_USER_MASK) | (value & PSR_USER_MASK);
        write_psr(cpu, new_psr);
        Ok(())
    }
}

/// Move from PSR instruction
#[derive(Debug)]
pub struct MoveFromPsr {
    /// The decoded fields
    pub fields: InstructionFields,
}

impl MoveFromPsr {
    /// Create new move from PSR instruction
    pub fn new(fields: InstructionFields) -> (i: Self)
        ensures
            i.fields == fields,
    {
        Self { fields }
    }

    /// Execute the instruction: the general register that destination
    /// operand 0 numbers takes the status register. Without privilege the
    /// instruction is refused.
    pub fn execute(&self, cpu: &mut Cpu) -> (r: Result<(), EmulatorError>)
        ensures
            gated(*old(cpu), *final(cpu), self.fields.qp, r),
            runs(*old(cpu), self.fields.qp) ==> match spec_numbered_gr(
                *old(cpu),
                self.fields.destinations@,
                0,
                "Missing destination operand"@,
            ) {
                Ok(reg) => r is Ok && *final(cpu) == (Cpu { gr: final(cpu).gr, ..*old(cpu) }) && final(cpu).gr@ == gr_after_write(old(cpu).gr@, reg, old(cpu).system_regs.cr.registers@[0]),
                Err(f) => fails(r, f) && *final(cpu) == *old(cpu),
            },
    {
        match enter(cpu, self.fields.qp) {
            Ok(true) => {},
            Ok(false) => {
                return Ok(());
            },
            Err(e) => {
                return Err(e);
            },
        }
        if self.fields.destinations.len() == 0 {
            return Err(EmulatorError::ExecutionError(String::from_str("Missing destination operand")));
        }
        // Get PSR value
        let psr = cpu.system_regs.cr.read(crate::cpu::registers::CRIndex::PSR);
        // Write to destination register
        cpu.set_gr(self.fields.destinations[0].get_reg_num(), psr)
    }
}

/// Return from interrupt instruction
#[derive(Debug)]
pub struct Rfi {
    /// The decoded fields
    pub fields: InstructionFields,
}

impl Rfi {
    /// Create new RFI instruction
    pub fn new(fields: InstructionFields) -> (i: Self)
        ensures
            i.fields == fields,
    {
        Self { fields }
    }

    /// Execute the instruction. A false predicate suppresses the
    /// instruction and without privilege it is refused; otherwise it reports
    /// that the emulator does not provide it. The processor is left alone in
    /// every case.
    pub fn execute(&self, cpu: &mut Cpu) -> (r: Result<(), EmulatorError>)
        ensures
            *final(cpu) == *old(cpu),
            gated(*old(cpu), *final(cpu), self.fields.qp, r),
            runs(*old(cpu), self.fields.qp) ==> crate::is_execution_error(
                r,
                "RFI instruction not implemented"@,
            ),
    {
        match enter(cpu, self.fields.qp) {
            Ok(true) => {},
            Ok(false) => {
                return Ok(());
            },
            Err(e) => {
                return Err(e);
            },
        }
        Err(EmulatorError::ExecutionError(String::from_str("RFI instruction not implemented")))
    }
}

/// Break instruction
#[derive(Debug)]
pub struct Break {
    /// The decoded fields
    pub fields: InstructionFields,
}

impl Break {
    /// Create new break instruction
    pub fn new(fields: InstructionFields) -> (i: Self)
        ensures
            i.fields == fields,
    {
        Self { fields }
    }

    /// Execute the instruction: unless a false predicate suppresses it, it
    /// stops execution with an error.
    pub fn execute(&self, _cpu: &mut Cpu) -> (r: Result<(), EmulatorError>)
        ensures
            *final(_cpu) == *old(_cpu),
            match spec_predicate(*old(_cpu), self.fields.qp) {
                Err(f) => fails(r, f),
                Ok(false) => r is Ok,
                Ok(true) => crate::is_execution_error(r, "Break instruction executed"@),
            },
    {
        match check_predicate(_cpu, self.fields.qp) {
            Ok(true) => {},
            Ok(false) => {
                return Ok(());
            },
            Err(e) => {
                return Err(e);
            },
        }
        Err(EmulatorError::ExecutionError(String::from_str("Break instruction executed")))
    }
}

/// The register number in a format field, as a general register.
pub open spec fn spec_format_gr(reg: u8) -> Result<int, Fault> {
    if reg < 128 {
        Ok(reg as int)
    } else {
        Err(state_fault("Invalid general register index"@))
    }
}

/// Move to PSR: the secure bit and the user-mask bits of the status
/// register take the bits of the general register `r2`. Without privilege
/// the instruction is refused. The qualifying predicate is left to the
/// caller.
pub fn mov_to_psr(cpu: &mut Cpu, fields: &IFormat) -> (r: Result<(), EmulatorError>)
    ensures
        !is_privileged(*old(cpu)) ==> (r matches Err(EmulatorError::PrivilegeViolation)) && *final(cpu)
            == *old(cpu),
        is_privileged(*old(cpu)) ==> match spec_format_gr(fields.r2) {
            Ok(reg) => r is Ok && wrote_psr(
                *old(cpu),
                *final(cpu),
                masked_write(
                    old(cpu).system_regs.cr.registers@[0],
                    gr_value(old(cpu).gr@, reg),
                    PSR_SECURE | PSR_USER_MASK,
                ),
            ),
            Err(f) => fails(r, f) && *final(cpu) == *old(cpu),
        },
{
    let psr = cpu.system_regs.cr.read(crate::cpu::registers::CRIndex::PSR);
    if psr & PSR_SECURE == 0 {
        return Err(EmulatorError::PrivilegeViolation);
    }
    assert(psr & 0x2 != 0 ==> psr & 0x2 == 0x2) by (bit_vector);
    let value = match cpu.get_gr(fields.r2 as usize) {
        Ok(v) => v,
        Err(e) => {
            return Err(e);
        },
    };
    let writable_mask = PSR_SECURE | PSR_USER_MASK;
    let new_psr = (psr & !writable_mask) | (value & writable_mask);
    write_psr(cpu, new_psr);
    Ok(())
}

/// Move from PSR: the general register `r1` takes the status register.
/// Without privilege the instruction is refused. The qualifying predicate is
/// left to the caller.
pub fn mov_from_psr(cpu: &mut Cpu, fields: &MFormat) -> (r: Result<(), EmulatorError>)
    ensures
        !is_privileged(*old(cpu)) ==> (r matches Err(EmulatorError::PrivilegeViolation)) && *final(cpu)
            == *old(cpu),
        is_privileged(*old(cpu)) ==> match spec_format_gr(fields.r1) {
            Ok(reg) => r is Ok && *final(cpu) == (Cpu { gr: final(cpu).gr, ..*old(cpu) }) && final(cpu).gr@ == gr_after_write(old(cpu).gr@, reg, old(cpu).system_regs.cr.registers@[0]),
            Err(f) => fails(r, f) && *final(cpu) == *old(cpu),
        },
{
    if !check_privileged(cpu) {
        return Err(EmulatorError::PrivilegeViolation);
    }
    let psr = cpu.system_regs.cr.read(crate::cpu::registers::CRIndex::PSR);
    cpu.set_gr(fields.r1 as usize, psr)
}

/// The general register that the first operand names, if it names one; an
/// instruction whose first operand is no general register does nothing.
pub open spec fn spec_first_gr(operands: Seq<RegisterType>) -> Option<u8> {
    if operands.len() > 0 {
        match operands[0] {
            RegisterType::GR(reg) => Some(reg),
            _ => None,
        }
    } else {
        None
    }
}

/// The general register that the first operand names, if it names one.
pub fn first_gr(operands: &Vec<RegisterType>) -> (r: Option<u8>)
    ensures
        r == spec_first_gr(operands@),
{
    if operands.len() > 0 {
        match operands[0] {
            RegisterType::GR(reg) => Some(reg),
            _ => None,
        }
    } else {
        None
    }
}

/// The user-mask bits that a user-mask instruction works on: those of the
/// general register that source operand 0 names.
pub open spec fn spec_register_mask(cpu: Cpu, fields: InstructionFields) -> Result<Option<u64>, Fault> {
    match spec_first_gr(fields.sources@) {
        None => Ok(None),
        Some(reg) => if reg < 128 {
            Ok(Some(gr_value(cpu.gr@, reg as int) & PSR_USER_MASK))
        } else {
            Err(state_fault("Invalid general register index"@))
        },
    }
}

/// The user-mask bits that a system-mask instruction works on: those of
/// the immediate.
pub open spec fn spec_immediate_mask(fields: InstructionFields) -> Option<u64> {
    match fields.immediate {
        Some(imm) => Some(unsigned(imm as int) & PSR_USER_MASK),
        None => None,
    }
}

/// Whether `after` and `r` are what an instruction that changes the status
/// register under `mask` makes of `before`, where `change` tells the new
/// value of the register from its old value and the mask.
pub open spec fn changed_psr(
    before: Cpu,
    after: Cpu,
    r: Result<(), EmulatorError>,
    mask: Result<Option<u64>, Fault>,
    change: spec_fn(u64, u64) -> u64,
) -> bool {
    match mask {
        Err(f) => fails(r, f) && after == before,
        Ok(None) => r is Ok && after == before,
        Ok(Some(m)) => r is Ok && wrote_psr(
            before,
            after,
            change(before.system_regs.cr.registers@[0], m),
        ),
    }
}

/// Read the user-mask bits of the general register that source operand 0
/// names.
pub fn register_mask(cpu: &Cpu, fields: &InstructionFields) -> (r: Result<Option<u64>, EmulatorError>)
    ensures
        match spec_register_mask(*cpu, *fields) {
            Ok(m) => r == Ok::<Option<u64>, EmulatorError>(m),
            Err(f) => fails(r, f),
        },
{
    match first_gr(&fields.sources) {
        None => Ok(None),
        Some(reg) => match cpu.get_gr(reg as usize) {
            Ok(v) => Ok(Some(v & PSR_USER_MASK)),
            Err(e) => Err(e),
        },
    }
}

/// Reset user mask: the user-mask bits that are set in the source register
/// are cleared in the status register.
pub fn rum(cpu: &mut Cpu, fields: &InstructionFields) -> (r: Result<(), EmulatorError>)
    ensures
        changed_psr(
            *old(cpu),
            *final(cpu),
            r,
            spec_register_mask(*old(cpu), *fields),
            |psr: u64, mask: u64| psr & !mask,
        ),
{
    match register_mask(cpu, fields) {
        Ok(Some(mask)) => {
            let psr = cpu.system_regs.cr.read(crate::cpu::registers::CRIndex::PSR);
            write_psr(cpu, psr & !mask);
            Ok(())
        },
        Ok(None) => Ok(()),
        Err(e) => Err(e),
    }
}

/// Set user mask: the user-mask bits that are set in the source register
/// are set in the status register.
pub fn sum(cpu: &mut Cpu, fields: &InstructionFields) -> (r: Result<(), EmulatorError>)
    ensures
        changed_psr(
            *old(cpu),
            *final(cpu),
            r,
            spec_register_mask(*old(cpu), *fields),
            |psr: u64, mask: u64| psr | mask,
        ),
{
    match register_mask(cpu, fields) {
        Ok(Some(mask)) => {
            let psr = cpu.system_regs.cr.read(crate::cpu::registers::CRIndex::PSR);
            write_psr(cpu, psr | mask);
            Ok(())
        },
        Ok(None) => Ok(()),
        Err(e) => Err(e),
    }
}

/// Exchange user mask: the user-mask bits that are set in the source
/// register are taken out of the status register and put back in.
pub fn xum(cpu: &mut Cpu, fields: &InstructionFields) -> (r: Result<(), EmulatorError>)
    ensures
        changed_psr(
            *old(cpu),
            *final(cpu),
            r,
            spec_register_mask(*old(cpu), *fields),
            |psr: u64, mask: u64| (psr & !mask) | (mask & psr),
        ),
{
    match register_mask(cpu, fields) {
        Ok(Some(mask)) => {
            let psr = cpu.system_regs.cr.read(crate::cpu::registers::CRIndex::PSR);
            write_psr(cpu, (psr & !mask) | (mask & psr));
            Ok(())
        },
        Ok(None) => Ok(()),
        Err(e) => Err(e),
    }
}

/// Set system mask: the user-mask bits that are set in the immediate are
/// set in the status register.
pub fn ssm(cpu: &mut Cpu, fields: &InstructionFields) -> (r: Result<(), EmulatorError>)
    ensures
        changed_psr(
            *old(cpu),
            *final(cpu),
            r,
            Ok(spec_immediate_mask(*fields)),
            |psr: u64, mask: u64| psr | mask,
        ),
{
    match fields.immediate {
        Some(imm) => {
            let mask = immediate_bits(imm) & PSR_USER_MASK;
            let psr = cpu.system_regs.cr.read(crate::cpu::registers::CRIndex::PSR);
            write_psr(cpu, psr | mask);
            Ok(())
        },
        None => Ok(()),
    }
}

/// Reset system mask: the user-mask bits that are set in the immediate are
/// cleared in the status register.
pub fn rsm(cpu: &mut Cpu, fields: &InstructionFields) -> (r: Result<(), EmulatorError>)
    ensures
        changed_psr(
            *old(cpu),
            *final(cpu),
            r,
            Ok(spec_immediate_mask(*fields)),
            |psr: u64, mask: u64| psr & !mask,
        ),
{
    match fields.immediate {
        Some(imm) => {
            let mask = immediate_bits(imm) & PSR_USER_MASK;
            let psr = cpu.system_regs.cr.read(crate::cpu::registers::CRIndex::PSR);
            write_psr(cpu, psr & !mask);
            Ok(())
        },
        None => Ok(()),
    }
}

/// Move to control register: the status register takes the word that the
/// register file holds for the general register that source operand 0
/// names, every bit of it. The register file is read directly, register 0
/// included.
pub fn mov_to_cr(cpu: &mut Cpu, fields: &InstructionFields) -> (r: Result<(), EmulatorError>)
    ensures
        match spec_first_gr(fields.sources@) {
            None => r is Ok && *final(cpu) == *old(cpu),
            Some(reg) => if reg < 128 {
                &&& r is Ok
                &&& *final(cpu) == (Cpu {
                    system_regs: RegisterState {
                        cr: final(cpu).system_regs.cr,
                        ..old(cpu).system_regs
                    },
                    ..*old(cpu)
                })
                &&& final(cpu).system_regs.cr.registers@ == old(cpu).system_regs.cr.registers@.update(
                    0,
                    old(cpu).gr@[reg as int],
                )
            } else {
                fails(r, state_fault("Invalid general register index"@)) && *final(cpu) == *old(cpu)
            },
        },
{
    match first_gr(&fields.sources) {
        Some(reg) => {
            if reg >= 128 {
                return Err(
                    EmulatorError::CpuStateError(String::from_str("Invalid general register index")),
                );
            }
            let value = cpu.gr[reg as usize];
            cpu.system_regs.cr.registers[0] = value;
            Ok(())
        },
        None => Ok(()),
    }
}

/// Move from control register: the general register that destination
/// operand 0 names takes the status register. The register file is written
/// directly, register 0 included.
pub fn mov_from_cr(cpu: &mut Cpu, fields: &InstructionFields) -> (r: Result<(), EmulatorError>)
    ensures
        match spec_first_gr(fields.destinations@) {
            None => r is Ok && *final(cpu) == *old(cpu),
            Some(reg) => if reg < 128 {
                &&& r is Ok
                &&& *final(cpu) == (Cpu { gr: final(cpu).gr, ..*old(cpu) })
                &&& final(cpu).gr@ == old(cpu).gr@.update(
                    reg as int,
                    old(cpu).system_regs.cr.registers@[0],
                )
            } else {
                fails(r, state_fault("Invalid general register index"@)) && *final(cpu) == *old(cpu)
            },
        },
{
    match first_gr(&fields.destinations) {
        Some(reg) => {
            if reg >= 128 {
                return Err(
                    EmulatorError::CpuStateError(String::from_str("Invalid general register index")),
                );
            }
            let value = cpu.system_regs.cr.bits();
            cpu.gr[reg as usize] = value;
            Ok(())
        },
        None => Ok(()),
    }
}

} // verus!
