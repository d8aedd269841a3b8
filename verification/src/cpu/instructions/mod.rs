//! CPU instruction implementations
//!
//! This module contains implementations of the IA-64 instruction set.
//!
//! Every instruction carries a qualifying predicate. An instruction whose
//! predicate register is false does nothing at all: it reads no operand,
//! raises no fault and changes no state.

use vstd::prelude::*;
use vstd::string::*;
use crate::cpu::{gr_after_write, gr_value, Cpu};
use crate::memory::Memory;
use crate::{is_cpu_state_error, is_execution_error, EmulatorError};

pub mod alu;
pub mod branch;
pub mod float;
pub mod memory;
pub mod register;
pub mod speculation;
pub mod system;

verus! {

/// Instruction completion type
#[derive(Debug, Clone, Copy, PartialEq, Eq, Structural)]
pub enum CompletionType {
    /// Instruction completed normally
    Normal,
    /// Instruction caused a branch
    Branch(u64),  // Target address
    /// Instruction caused an exception
    Exception(Exception),
}

/// Exception types that can occur during instruction execution
#[derive(Debug, Clone, Copy, PartialEq, Eq, Structural)]
pub enum Exception {
    /// Invalid operation
    InvalidOperation,
    /// Illegal instruction
    IllegalInstruction,
    /// Privileged operation
    PrivilegedOperation,
    /// Memory access fault
    MemoryFault,
    /// Floating point exception
    FloatingPoint,
    /// Debug exception
    Debug,
}

/// Register types
#[derive(Debug, Clone, Copy, PartialEq, Eq, Structural)]
pub enum RegisterType {
    /// General register
    GR(u8),
    /// Floating point register
    FR(u8),
    /// Predicate register
    PR(u8),
    /// Branch register
    BR(u8),
    /// Address register
    AR(u8),
    /// Control register
    CR(u8),
    /// Return register
    RR(u8),
    /// Predicate key register
    PKR(u8),
    /// Data buffer register
    DBR(u8),
    /// Data descriptor register
    DDR(u8),
}

/// Addressing modes
#[derive(Debug, Clone, Copy, PartialEq, Eq, Structural)]
pub enum AddressingMode {
    /// Register indirect
    Indirect(u8),
    /// Register indirect with offset
    IndirectOffset(u8, i64),
    /// Register indirect with index
    IndirectIndex(u8, u8),
    /// Absolute address
    Absolute(u64),
}

/// Common instruction format fields
#[derive(Debug, Clone)]
pub struct InstructionFields {
    /// Predicate register
    pub qp: u8,
    /// Major opcode
    pub major_op: u8,
    /// Source registers
    pub sources: Vec<RegisterType>,
    /// Destination registers
    pub destinations: Vec<RegisterType>,
    /// Immediate value if present
    pub immediate: Option<i64>,
    /// Addressing mode if present
    pub addressing: Option<AddressingMode>,
}

impl InstructionFields {
    /// Create new instruction fields
    pub fn new(
        qp: u8,
        major_op: u8,
        sources: Vec<RegisterType>,
        destinations: Vec<RegisterType>,
        immediate: Option<i64>,
        addressing: Option<AddressingMode>,
    ) -> (f: Self)
        ensures
            f.qp == qp,
            f.major_op == major_op,
            f.sources == sources,
            f.destinations == destinations,
            f.immediate == immediate,
            f.addressing == addressing,
    {
        Self { qp, major_op, sources, destinations, immediate, addressing }
    }
}

impl RegisterType {
    /// The register's number within its bank.
    pub open spec fn spec_reg_num(&self) -> usize {
        match self {
            RegisterType::GR(n) => *n as usize,
            RegisterType::FR(n) => *n as usize,
            RegisterType::PR(n) => *n as usize,
            RegisterType::BR(n) => *n as usize,
            RegisterType::AR(n) => *n as usize,
            RegisterType::CR(n) => *n as usize,
            RegisterType::RR(n) => *n as usize,
            RegisterType::PKR(n) => *n as usize,
            RegisterType::DBR(n) => *n as usize,
            RegisterType::DDR(n) => *n as usize,
        }
    }

    /// Gets the register number from the register type
    #[verifier::when_used_as_spec(spec_reg_num)]
    pub fn get_reg_num(&self) -> (n: usize)
        ensures
            n == self.spec_reg_num(),
    {
        match self {
            RegisterType::GR(n) => *n as usize,
            RegisterType::FR(n) => *n as usize,
            RegisterType::PR(n) => *n as usize,
            RegisterType::BR(n) => *n as usize,
            RegisterType::AR(n) => *n as usize,
            RegisterType::CR(n) => *n as usize,
            RegisterType::RR(n) => *n as usize,
            RegisterType::PKR(n) => *n as usize,
            RegisterType::DBR(n) => *n as usize,
            RegisterType::DDR(n) => *n as usize,
        }
    }
}

/// Why an instruction fails before it has any effect: the kind of error
/// (a processor-state error or an execution error) and its detail.
pub struct Fault {
    /// Whether the error is a processor-state error rather than an
    /// execution error
    pub state_error: bool,
    /// The detail of the error
    pub detail: Seq<char>,
}

/// Whether `r` is the error that `fault` describes.
pub open spec fn fails<T>(r: Result<T, EmulatorError>, fault: Fault) -> bool {
    if fault.state_error {
        is_cpu_state_error(r, fault.detail)
    } else {
        is_execution_error(r, fault.detail)
    }
}

/// The fault of an execution error with the detail `detail`.
pub open spec fn execution_fault(detail: Seq<char>) -> Fault {
    Fault { state_error: false, detail }
}

/// The fault of a processor-state error with the detail `detail`.
pub open spec fn state_fault(detail: Seq<char>) -> Fault {
    Fault { state_error: true, detail }
}

/// The value of the qualifying predicate `qp`.
pub open spec fn spec_predicate(cpu: Cpu, qp: u8) -> Result<bool, Fault> {
    if qp < 64 {
        Ok(cpu.pr@[qp as int])
    } else {
        Err(state_fault("Invalid predicate register index"@))
    }
}

/// The value of source operand `i`, which must be a general register.
pub open spec fn spec_source_gr(cpu: Cpu, fields: InstructionFields, i: int) -> Result<u64, Fault> {
    if i >= fields.sources@.len() {
        Err(execution_fault("Missing source operand"@))
    } else {
        match fields.sources@[i] {
            RegisterType::GR(reg) => if reg < 128 {
                Ok(gr_value(cpu.gr@, reg as int))
            } else {
                Err(state_fault("Invalid general register index"@))
            },
            _ => Err(execution_fault("Invalid source register type"@)),
        }
    }
}

/// The general register that destination operand `i` names.
pub open spec fn spec_dest_gr(fields: InstructionFields, i: int) -> Result<int, Fault> {
    if i >= fields.destinations@.len() {
        Err(execution_fault("Missing destination operand"@))
    } else {
        match fields.destinations@[i] {
            RegisterType::GR(reg) => if reg < 128 {
                Ok(reg as int)
            } else {
                Err(state_fault("Invalid general register index"@))
            },
            _ => Err(execution_fault("Invalid destination register type"@)),
        }
    }
}

/// The predicate register that destination operand `i` names.
pub open spec fn spec_dest_pr(fields: InstructionFields, i: int) -> Result<int, Fault> {
    if i >= fields.destinations@.len() {
        Err(execution_fault("Missing destination operand"@))
    } else {
        match fields.destinations@[i] {
            RegisterType::PR(reg) => if reg < 64 {
                Ok(reg as int)
            } else {
                Err(state_fault("Invalid predicate register index"@))
            },
            _ => Err(execution_fault("Invalid destination register type"@)),
        }
    }
}

/// What an instruction with one general-register source starts from: a
/// fault, nothing if its predicate is false, or the operand.
pub open spec fn spec_operand(cpu: Cpu, fields: InstructionFields) -> Result<Option<u64>, Fault> {
    match spec_predicate(cpu, fields.qp) {
        Err(f) => Err(f),
        Ok(false) => Ok(None),
        Ok(true) => match spec_source_gr(cpu, fields, 0) {
            Err(f) => Err(f),
            Ok(a) => Ok(Some(a)),
        },
    }
}

/// What an instruction with two general-register sources starts from: a
/// fault, nothing if its predicate is false, or the two operands.
pub open spec fn spec_operands(cpu: Cpu, fields: InstructionFields) -> Result<Option<(u64, u64)>, Fault> {
    match spec_operand(cpu, fields) {
        Err(f) => Err(f),
        Ok(None) => Ok(None),
        Ok(Some(a)) => match spec_source_gr(cpu, fields, 1) {
            Err(f) => Err(f),
            Ok(b) => Ok(Some((a, b))),
        },
    }
}

/// Whether `after` and `r` are what writing `value` to the general register
/// that destination operand 0 names makes of `before`.
pub open spec fn wrote_gr(
    before: Cpu,
    after: Cpu,
    fields: InstructionFields,
    value: u64,
    r: Result<(), EmulatorError>,
) -> bool {
    match spec_dest_gr(fields, 0) {
        Ok(d) => r is Ok && after == (Cpu { gr: after.gr, ..before }) && after.gr@ == gr_after_write(
            before.gr@,
            d,
            value,
        ),
        Err(f) => fails(r, f) && after == before,
    }
}

/// Whether `after` and `r` are what writing `value` to the predicate
/// register that destination operand 0 names makes of `before`.
pub open spec fn wrote_pr(
    before: Cpu,
    after: Cpu,
    fields: InstructionFields,
    value: bool,
    r: Result<(), EmulatorError>,
) -> bool {
    match spec_dest_pr(fields, 0) {
        Ok(d) => r is Ok && after == (Cpu { pr: after.pr, ..before }) && after.pr@ == before.pr@.update(
            d,
            value,
        ),
        Err(f) => fails(r, f) && after == before,
    }
}

/// The effect of an instruction that computes `value` from one general
/// register and writes it to a general register.
pub open spec fn unary_to_gr(
    before: Cpu,
    after: Cpu,
    fields: InstructionFields,
    r: Result<(), EmulatorError>,
    value: spec_fn(u64) -> u64,
) -> bool {
    match spec_operand(before, fields) {
        Err(f) => fails(r, f) && after == before,
        Ok(None) => r is Ok && after == before,
        Ok(Some(a)) => wrote_gr(before, after, fields, value(a), r),
    }
}

/// The effect of an instruction that computes `value` from two general
/// registers and writes it to a general register.
pub open spec fn binary_to_gr(
    before: Cpu,
    after: Cpu,
    fields: InstructionFields,
    r: Result<(), EmulatorError>,
    value: spec_fn(u64, u64) -> u64,
) -> bool {
    match spec_operands(before, fields) {
        Err(f) => fails(r, f) && after == before,
        Ok(None) => r is Ok && after == before,
        Ok(Some((a, b))) => wrote_gr(before, after, fields, value(a, b), r),
    }
}

/// The effect of an instruction that computes `value` from two general
/// registers and writes it to a predicate register.
pub open spec fn binary_to_pr(
    before: Cpu,
    after: Cpu,
    fields: InstructionFields,
    r: Result<(), EmulatorError>,
    value: spec_fn(u64, u64) -> bool,
) -> bool {
    match spec_operands(before, fields) {
        Err(f) => fails(r, f) && after == before,
        Ok(None) => r is Ok && after == before,
        Ok(Some((a, b))) => wrote_pr(before, after, fields, value(a, b), r),
    }
}

/// Whether an instruction with the qualifying predicate `qp` is suppressed
/// in the state `cpu`: the predicate register exists and is false.
pub open spec fn suppressed(cpu: Cpu, qp: u8) -> bool {
    qp < 64 && !cpu.pr@[qp as int]
}

/// A suppressed instruction of any of the three register shapes leaves the
/// processor as it was and succeeds.
pub proof fn lemma_suppressed_has_no_effect(
    before: Cpu,
    after: Cpu,
    fields: InstructionFields,
    r: Result<(), EmulatorError>,
    f1: spec_fn(u64) -> u64,
    f2: spec_fn(u64, u64) -> u64,
    f3: spec_fn(u64, u64) -> bool,
)
    requires
        suppressed(before, fields.qp),
    ensures
        unary_to_gr(before, after, fields, r, f1) ==> r is Ok && after == before,
        binary_to_gr(before, after, fields, r, f2) ==> r is Ok && after == before,
        binary_to_pr(before, after, fields, r, f3) ==> r is Ok && after == before,
{
}

/// Common trait for all instructions
pub trait Instruction {
    /// The instruction's qualifying predicate.
    spec fn qualifying_predicate(&self) -> u8;

    /// Execute the instruction. An instruction whose qualifying predicate
    /// is false succeeds without any effect.
    fn execute(&self, cpu: &mut Cpu, memory: &mut Memory) -> (r: Result<(), EmulatorError>)
        requires
            old(cpu).wf(),
            old(memory).wf(),
        ensures
            final(cpu).wf(),
            final(memory).wf(),
            suppressed(*old(cpu), self.qualifying_predicate()) ==> r is Ok && *final(cpu) == *old(cpu)
                && *final(memory) == *old(memory),
    ;
}

/// Evaluate the qualifying predicate `qp`.
pub fn check_predicate(cpu: &Cpu, qp: u8) -> (r: Result<bool, EmulatorError>)
    ensures
        match spec_predicate(*cpu, qp) {
            Ok(b) => r == Ok::<bool, EmulatorError>(b),
            Err(f) => fails(r, f),
        },
{
    cpu.get_pr(qp as usize)
}

/// Read source operand `i`, which must be a general register.
pub fn source_gr(cpu: &Cpu, fields: &InstructionFields, i: usize) -> (r: Result<u64, EmulatorError>)
    ensures
        match spec_source_gr(*cpu, *fields, i as int) {
            Ok(v) => r == Ok::<u64, EmulatorError>(v),
            Err(f) => fails(r, f),
        },
{
    if i >= fields.sources.len() {
        return Err(EmulatorError::ExecutionError(String::from_str("Missing source operand")));
    }
    match fields.sources[i] {
        RegisterType::GR(reg) => cpu.get_gr(reg as usize),
        _ => Err(EmulatorError::ExecutionError(String::from_str("Invalid source register type"))),
    }
}

/// Evaluate the predicate and read one general-register source.
pub fn read_operand(cpu: &Cpu, fields: &InstructionFields) -> (r: Result<Option<u64>, EmulatorError>)
    ensures
        match spec_operand(*cpu, *fields) {
            Ok(v) => r == Ok::<Option<u64>, EmulatorError>(v),
            Err(f) => fails(r, f),
        },
{
    match check_predicate(cpu, fields.qp) {
        Ok(true) => {},
        Ok(false) => {
            return Ok(None);
        },
        Err(e) => {
            return Err(e);
        },
    }
    match source_gr(cpu, fields, 0) {
        Ok(a) => Ok(Some(a)),
        Err(e) => Err(e),
    }
}

/// Evaluate the predicate and read two general-register sources.
pub fn read_operands(cpu: &Cpu, fields: &InstructionFields) -> (r: Result<
    Option<(u64, u64)>,
    EmulatorError,
>)
    ensures
        match spec_operands(*cpu, *fields) {
            Ok(v) => r == Ok::<Option<(u64, u64)>, EmulatorError>(v),
            Err(f) => fails(r, f),
        },
{
    let a = match read_operand(cpu, fields) {
        Ok(Some(a)) => a,
        Ok(None) => {
            return Ok(None);
        },
        Err(e) => {
            return Err(e);
        },
    };
    match source_gr(cpu, fields, 1) {
        Ok(b) => Ok(Some((a, b))),
        Err(e) => Err(e),
    }
}

/// Write `value` to the general register that destination operand 0 names.
pub fn write_gr(cpu: &mut Cpu, fields: &InstructionFields, value: u64) -> (r: Result<(), EmulatorError>)
    ensures
        wrote_gr(*old(cpu), *final(cpu), *fields, value, r),
{
    if fields.destinations.len() == 0 {
        return Err(EmulatorError::ExecutionError(String::from_str("Missing destination operand")));
    }
    match fields.destinations[0] {
        RegisterType::GR(reg) => cpu.set_gr(reg as usize, value),
        _ => Err(EmulatorError::ExecutionError(String::from_str("Invalid destination register type"))),
    }
}

/// Write `value` to the predicate register that destination operand 0
/// names.
pub fn write_pr(cpu: &mut Cpu, fields: &InstructionFields, value: bool) -> (r: Result<(), EmulatorError>)
    ensures
        wrote_pr(*old(cpu), *final(cpu), *fields, value, r),
{
    if fields.destinations.len() == 0 {
        return Err(EmulatorError::ExecutionError(String::from_str("Missing destination operand")));
    }
    match fields.destinations[0] {
        RegisterType::PR(reg) => cpu.set_pr(reg as usize, value),
        _ => Err(EmulatorError::ExecutionError(String::from_str("Invalid destination register type"))),
    }
}

/// The value of a word read as a two's-complement number.
pub open spec fn signed(x: u64) -> int {
    if x < 0x8000_0000_0000_0000 {
        x as int
    } else {
        x as int - 0x1_0000_0000_0000_0000
    }
}

/// The word that holds a two's-complement number.
pub open spec fn unsigned(x: int) -> u64 {
    if x >= 0 {
        x as u64
    } else {
        (x + 0x1_0000_0000_0000_0000) as u64
    }
}

/// Whether `a` is less than `b` when both are read as two's-complement
/// numbers.
pub fn signed_less(a: u64, b: u64) -> (r: bool)
    ensures
        r == (signed(a) < signed(b)),
{
    let a_negative = a >= 0x8000_0000_0000_0000;
    let b_negative = b >= 0x8000_0000_0000_0000;
    if a_negative != b_negative {
        a_negative
    } else {
        a < b
    }
}

/// The word that holds the two's-complement number `x`.
pub fn immediate_bits(x: i64) -> (r: u64)
    ensures
        r == unsigned(x as int),
        signed(r) == x,
{
    if x >= 0 {
        x as u64
    } else {
        ((x as i128) + 0x1_0000_0000_0000_0000i128) as u64
    }
}

} // verus!
