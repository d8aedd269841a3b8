//! Branch (B-type) instruction implementations
//!
//! This module implements the branch instructions for the IA-64 architecture.

use vstd::prelude::*;
use vstd::string::*;
use super::{
    execution_fault,
    fails,
    immediate_bits,
    check_predicate,
    signed,
    signed_less,
    source_gr,
    spec_predicate,
    spec_source_gr,
    state_fault,
    unsigned,
    Fault,
    Instruction,
    InstructionFields,
    RegisterType,
};
use crate::cpu::Cpu;
use crate::memory::Memory;
use crate::EmulatorError;

verus! {

/// Branch types
#[derive(Debug, Clone, Copy, PartialEq, Eq, Structural)]
pub enum BranchType {
    /// Unconditional branch
    Unconditional,
    /// Branch if equal
    Equal,
    /// Branch if not equal
    NotEqual,
    /// Branch if less than
    LessThan,
    /// Branch if less than or equal
    LessEqual,
    /// Branch if greater than
    GreaterThan,
    /// Branch if greater than or equal
    GreaterEqual,
}

impl BranchType {
    /// Whether the branch is taken on the operands `a` and `b`, which the
    /// ordering conditions read as two's-complement numbers.
    pub open spec fn taken(self, a: u64, b: u64) -> bool {
        match self {
            BranchType::Unconditional => true,
            BranchType::Equal => a == b,
            BranchType::NotEqual => a != b,
            BranchType::LessThan => signed(a) < signed(b),
            BranchType::LessEqual => signed(a) <= signed(b),
            BranchType::GreaterThan => signed(a) > signed(b),
            BranchType::GreaterEqual => signed(a) >= signed(b),
        }
    }
}

/// Branch prediction type
#[derive(Debug, Clone, Copy, PartialEq, Eq, Structural)]
pub enum BranchPrediction {
    /// Static prediction take branch
    StaticTake,
    /// Static prediction not taken
    StaticNotTaken,
    /// Dynamic prediction take branch
    DynamicTake,
    /// Dynamic prediction not taken
    DynamicNotTaken,
}

/// Branch RSE behavior
#[derive(Debug, Clone, Copy, PartialEq, Eq, Structural)]
pub enum BranchRSE {
    /// Normal RSE operation
    Normal,
    /// Clear RSE on branch
    Clear,
}

/// Branch importance
#[derive(Debug, Clone, Copy, PartialEq, Eq, Structural)]
pub enum BranchImportance {
    /// Normal branch
    Normal,
    /// Important branch (for branch trace)
    Important,
}

/// Branch register stack impact
#[derive(Debug, Clone, Copy, PartialEq, Eq, Structural)]
pub enum BranchRegisters {
    /// Few registers to save
    Few,
    /// Many registers to save
    Many,
}

/// What the completers of a branch say.
#[derive(Debug, Clone, Copy, PartialEq, Eq, Structural)]
pub struct BranchHints {
    /// Prediction
    pub prediction: BranchPrediction,
    /// RSE behavior
    pub rse_behavior: BranchRSE,
    /// Importance
    pub importance: BranchImportance,
    /// Register stack impact
    pub registers: BranchRegisters,
}

impl BranchHints {
    /// The hints of a branch without completers.
    pub open spec fn initial() -> BranchHints {
        BranchHints {
            prediction: BranchPrediction::StaticTake,
            rse_behavior: BranchRSE::Normal,
            importance: BranchImportance::Normal,
            registers: BranchRegisters::Few,
        }
    }

    /// The hints after one more completer. A completer that the branch
    /// does not know, the empty one among them, changes nothing.
    pub open spec fn with(self, completer: Seq<char>) -> BranchHints {
        if completer == "sptk"@ {
            BranchHints { prediction: BranchPrediction::StaticTake, ..self }
        } else if completer == "spnt"@ {
            BranchHints { prediction: BranchPrediction::StaticNotTaken, ..self }
        } else if completer == "dptk"@ {
            BranchHints { prediction: BranchPrediction::DynamicTake, ..self }
        } else if completer == "dpnt"@ {
            BranchHints { prediction: BranchPrediction::DynamicNotTaken, ..self }
        } else if completer == "clr"@ {
            BranchHints { rse_behavior: BranchRSE::Clear, ..self }
        } else if completer == "imp"@ {
            BranchHints { importance: BranchImportance::Important, ..self }
        } else if completer == "few"@ {
            BranchHints { registers: BranchRegisters::Few, ..self }
        } else if completer == "many"@ {
            BranchHints { registers: BranchRegisters::Many, ..self }
        } else {
            self
        }
    }

    /// The hints after the `n` first completers of a list, taken in order.
    pub open spec fn after(completers: Seq<String>, n: nat) -> BranchHints
        decreases n,
    {
        if n == 0 {
            Self::initial()
        } else {
            Self::after(completers, (n - 1) as nat).with(completers[n - 1]@)
        }
    }

    /// The hints that a list of completers gives, if there is a list.
    pub open spec fn of(completers: Option<Vec<String>>) -> BranchHints {
        match completers {
            Some(list) => Self::after(list@, list@.len()),
            None => Self::initial(),
        }
    }
}

/// Whether a completer is the text `text`.
pub fn is_completer(completer: &String, text: &str) -> (b: bool)
    ensures
        b == (completer@ == text@),
{
    let other = String::from_str(text);
    *completer == other
}

/// Branch instruction
#[derive(Debug)]
pub struct Branch {
    /// The decoded fields
    pub fields: InstructionFields,
    /// The condition
    pub branch_type: BranchType,
    /// Prediction
    pub prediction: BranchPrediction,
    /// RSE behavior
    pub rse_behavior: BranchRSE,
    /// Importance
    pub importance: BranchImportance,
    /// Register stack impact
    pub registers: BranchRegisters,
}

impl Branch {
    /// Create new branch instruction
    pub fn new(
        fields: InstructionFields,
        branch_type: BranchType,
        prediction: BranchPrediction,
        rse_behavior: BranchRSE,
        importance: BranchImportance,
        registers: BranchRegisters,
    ) -> (b: Self)
        ensures
            b.fields == fields,
            b.branch_type == branch_type,
            b.hints() == (BranchHints { prediction, rse_behavior, importance, registers }),
    {
        Self { fields, branch_type, prediction, rse_behavior, importance, registers }
    }

    /// The hints that the branch carries.
    pub open spec fn hints(&self) -> BranchHints {
        BranchHints {
            prediction: self.prediction,
            rse_behavior: self.rse_behavior,
            importance: self.importance,
            registers: self.registers,
        }
    }

    /// Create new branch instruction from decoded instruction: the
    /// completers are read in order, each one setting its hint.
    pub fn from_decoded(
        fields: InstructionFields,
        branch_type: BranchType,
        completers: Option<Vec<String>>,
    ) -> (b: Self)
        ensures
            b.fields == fields,
            b.branch_type == branch_type,
            b.hints() == BranchHints::of(completers),
    {
        // Default values
        let mut prediction = BranchPrediction::StaticTake;
        let mut rse_behavior = BranchRSE::Normal;
        let mut importance = BranchImportance::Normal;
        let mut registers = BranchRegisters::Few;
        // Parse completers if present
        match &completers {
            Some(list) => {
                let mut i: usize = 0;
                while i < list.len()
                    invariant
                        i <= list@.len(),
                        (BranchHints { prediction, rse_behavior, importance, registers })
                            == BranchHints::after(list@, i as nat),
                    decreases list@.len() - i,
                {
                    let completer = &list[i];
                    if is_completer(completer, "sptk") {
                        prediction = BranchPrediction::StaticTake;
                    } else if is_completer(completer, "spnt") {
                        prediction = BranchPrediction::StaticNotTaken;
                    } else if is_completer(completer, "dptk") {
                        prediction = BranchPrediction::DynamicTake;
                    } else if is_completer(completer, "dpnt") {
                        prediction = BranchPrediction::DynamicNotTaken;
                    } else if is_completer(completer, "clr") {
                        rse_behavior = BranchRSE::Clear;
                    } else if is_completer(completer, "imp") {
                        importance = BranchImportance::Important;
                    } else if is_completer(completer, "few") {
                        registers = BranchRegisters::Few;
                    } else if is_completer(completer, "many") {
                        registers = BranchRegisters::Many;
                    }
                    i = i + 1;
                }
            },
            None => {},
        }
        Self::new(fields, branch_type, prediction, rse_behavior, importance, registers)
    }

    /// Where the branch goes: relative to the instruction pointer by the
    /// immediate if there is one, otherwise to the address in the branch
    /// register that source operand 0 names.
    pub open spec fn spec_target(&self, cpu: Cpu) -> Result<u64, Fault> {
        match self.fields.immediate {
            Some(offset) => Ok(cpu.ip.wrapping_add(unsigned(offset as int))),
            None => if self.fields.sources@.len() == 0 {
                Err(execution_fault("Missing source operand"@))
            } else {
                match self.fields.sources@[0] {
                    RegisterType::BR(reg) => if reg < 8 {
                        Ok(cpu.br@[reg as int])
                    } else {
                        Err(state_fault("Invalid branch register index"@))
                    },
                    _ => Err(execution_fault("Invalid branch target register type"@)),
                }
            },
        }
    }

    /// Whether the branch is taken: an unconditional branch always, a
    /// conditional one by its condition on the two general-register sources.
    pub open spec fn spec_condition(&self, cpu: Cpu) -> Result<bool, Fault> {
        if self.branch_type == BranchType::Unconditional {
            Ok(true)
        } else {
            match spec_source_gr(cpu, self.fields, 0) {
                Err(f) => Err(f),
                Ok(a) => match spec_source_gr(cpu, self.fields, 1) {
                    Err(f) => Err(f),
                    Ok(b) => Ok(self.branch_type.taken(a, b)),
                },
            }
        }
    }

    /// The branch register that takes the return address, if destination
    /// operand 0 names one.
    pub open spec fn spec_link(&self) -> Option<u8> {
        if self.fields.destinations@.len() > 0 {
            match self.fields.destinations@[0] {
                RegisterType::BR(reg) => Some(reg),
                _ => None,
            }
        } else {
            None
        }
    }

    /// Calculate branch target address
    pub fn calc_target(&self, cpu: &Cpu) -> (r: Result<u64, EmulatorError>)
        ensures
            match self.spec_target(*cpu) {
                Ok(t) => r == Ok::<u64, EmulatorError>(t),
                Err(f) => fails(r, f),
            },
    {
        match self.fields.immediate {
            Some(offset) => {
                // IP-relative branch
                Ok(cpu.ip.wrapping_add(immediate_bits(offset)))
            },
            None => {
                // Register-indirect branch
                if self.fields.sources.len() == 0 {
                    return Err(EmulatorError::ExecutionError(String::from_str("Missing source operand")));
                }
                match self.fields.sources[0] {
                    RegisterType::BR(reg) => cpu.get_br(reg as usize),
                    _ => Err(
                        EmulatorError::ExecutionError(
                            String::from_str("Invalid branch target register type"),
                        ),
                    ),
                }
            },
        }
    }

    /// Check branch condition
    pub fn check_condition(&self, cpu: &Cpu) -> (r: Result<bool, EmulatorError>)
        ensures
            match self.spec_condition(*cpu) {
                Ok(b) => r == Ok::<bool, EmulatorError>(b),
                Err(f) => fails(r, f),
            },
    {
        match self.branch_type {
            BranchType::Unconditional => {
                return Ok(true);
            },
            _ => {},
        }
        let src1 = match source_gr(cpu, &self.fields, 0) {
            Ok(v) => v,
            Err(e) => {
                return Err(e);
            },
        };
        let src2 = match source_gr(cpu, &self.fields, 1) {
            Ok(v) => v,
            Err(e) => {
                return Err(e);
            },
        };
        match self.branch_type {
            BranchType::Unconditional => Ok(true),
            BranchType::Equal => Ok(src1 == src2),
            BranchType::NotEqual => Ok(src1 != src2),
            BranchType::LessThan => Ok(signed_less(src1, src2)),
            BranchType::LessEqual => Ok(!signed_less(src2, src1)),
            BranchType::GreaterThan => Ok(signed_less(src2, src1)),
            BranchType::GreaterEqual => Ok(!signed_less(src1, src2)),
        }
    }

    /// The effect of the branch on the processor.
    ///
    /// A branch that is not taken changes nothing. A taken branch saves the
    /// address of the next bundle, `ip + 16`, in its link register if it has
    /// one, and then moves the instruction pointer to its target. A fault
    /// leaves the processor as it was.
    pub open spec fn effect(&self, before: Cpu, after: Cpu, r: Result<(), EmulatorError>) -> bool {
        match spec_predicate(before, self.fields.qp) {
            Err(f) => fails(r, f) && after == before,
            Ok(false) => r is Ok && after == before,
            Ok(true) => match self.spec_condition(before) {
                Err(f) => fails(r, f) && after == before,
                Ok(false) => r is Ok && after == before,
                Ok(true) => match self.spec_target(before) {
                    Err(f) => fails(r, f) && after == before,
                    Ok(target) => match self.spec_link() {
                        None => r is Ok && after == (Cpu { ip: target, ..before }),
                        Some(reg) => if reg < 8 {
                            r is Ok && after == (Cpu { ip: target, br: after.br, ..before })
                                && after.br@ == before.br@.update(
                                reg as int,
                                before.ip.wrapping_add(16),
                            )
                        } else {
                            fails(r, state_fault("Invalid branch register index"@)) && after == before
                        },
                    },
                },
            },
        }
    }
}

impl Instruction for Branch {
    open spec fn qualifying_predicate(&self) -> u8 {
        self.fields.qp
    }

    fn execute(&self, cpu: &mut Cpu, _memory: &mut Memory) -> (r: Result<(), EmulatorError>)
        ensures
            *final(_memory) == *old(_memory),
            self.effect(*old(cpu), *final(cpu), r),
    {
        // Check predicate
        match check_predicate(cpu, self.fields.qp) {
            Ok(true) => {},
            Ok(false) => {
                return Ok(());
            },
            Err(e) => {
                return Err(e);
            },
        }
        // Check branch condition
        let taken = match self.check_condition(cpu) {
            Ok(t) => t,
            Err(e) => {
                return Err(e);
            },
        };
        if taken {
            // Calculate target address
            let target = match self.calc_target(cpu) {
                Ok(t) => t,
                Err(e) => {
                    return Err(e);
                },
            };
            // Update branch register if specified
            if self.fields.destinations.len() > 0 {
                match self.fields.destinations[0] {
                    RegisterType::BR(reg) => {
                        // Save return address
                        match cpu.set_br(reg as usize, cpu.ip.wrapping_add(16)) {
                            Ok(_) => {},
                            Err(e) => {
                                return Err(e);
                            },
                        }
                    },
                    _ => {},
                }
            }
            // Update IP
            cpu.ip = target;
        }
        Ok(())
    }
}

} // verus!
