//! An emulator core for a 64-bit explicitly-parallel (EPIC) architecture in the
//! style of IA-64.
//!
//! The crate holds the bundle decoder, the register files, the Advanced Load
//! Address Table, the Register Stack Engine and a memory manager with a
//! three-level cache. Every function carries a contract that Verus proves.

use vstd::prelude::*;
use vstd::string::*;

pub mod cpu;
pub mod decoder;
pub mod memory;

verus! {

/// Main error type for the emulator
#[derive(Debug)]
pub enum EmulatorError {
    /// Error during instruction execution
    ExecutionError(String),
    /// Error during instruction decoding
    DecodeError(String),
    /// Error during memory access
    MemoryError(String),
    /// Error in CPU state
    CpuStateError(String),
    /// Memory access is not properly aligned
    InvalidAlignment,
    /// Memory regions overlap
    MemoryOverlap,
    /// Invalid system call number
    InvalidSyscall,
    /// No system call context available
    NoSyscallContext,
    /// Error when accessing or manipulating registers
    RegisterError(String),
    /// Error related to Register Stack Engine operations
    RSEError(String),
    /// Error when attempting to execute privileged instructions in user mode
    PrivilegeViolation,
}

/// Result type for emulator operations
pub type EmulatorResult<T> = Result<T, EmulatorError>;

impl EmulatorError {
    /// The text that introduces each kind of error in a rendered message.
    pub open spec fn prefix(&self) -> Seq<char> {
        match self {
            EmulatorError::ExecutionError(_) => "Execution error: "@,
            EmulatorError::DecodeError(_) => "Decode error: "@,
            EmulatorError::MemoryError(_) => "Memory error: "@,
            EmulatorError::CpuStateError(_) => "CPU state error: "@,
            EmulatorError::InvalidAlignment => "Invalid alignment"@,
            EmulatorError::MemoryOverlap => "Memory overlap"@,
            EmulatorError::InvalidSyscall => "Invalid syscall"@,
            EmulatorError::NoSyscallContext => "No syscall context"@,
            EmulatorError::RegisterError(_) => "Register error: "@,
            EmulatorError::RSEError(_) => "RSE error: "@,
            EmulatorError::PrivilegeViolation => "Privilege violation"@,
        }
    }

    /// The detail carried by the error, empty for the kinds that carry none.
    pub open spec fn detail(&self) -> Seq<char> {
        match self {
            EmulatorError::ExecutionError(m) => m@,
            EmulatorError::DecodeError(m) => m@,
            EmulatorError::MemoryError(m) => m@,
            EmulatorError::CpuStateError(m) => m@,
            EmulatorError::RegisterError(m) => m@,
            EmulatorError::RSEError(m) => m@,
            _ => Seq::empty(),
        }
    }

    /// Render the error as a human-readable message: the kind's prefix
    /// followed by the detail.
    pub fn message(&self) -> (s: String)
        ensures
            s@ == self.prefix() + self.detail(),
    {
        assert(self.detail().len() == 0 ==> self.prefix() + self.detail() =~= self.prefix());
        match self {
            EmulatorError::ExecutionError(m) => String::from_str("Execution error: ").concat(
                m.as_str(),
            ),
            EmulatorError::DecodeError(m) => String::from_str("Decode error: ").concat(m.as_str()),
            EmulatorError::MemoryError(m) => String::from_str("Memory error: ").concat(m.as_str()),
            EmulatorError::CpuStateError(m) => String::from_str("CPU state error: ").concat(
                m.as_str(),
            ),
            EmulatorError::InvalidAlignment => String::from_str("Invalid alignment"),
            EmulatorError::MemoryOverlap => String::from_str("Memory overlap"),
            EmulatorError::InvalidSyscall => String::from_str("Invalid syscall"),
            EmulatorError::NoSyscallContext => String::from_str("No syscall context"),
            EmulatorError::RegisterError(m) => String::from_str("Register error: ").concat(
                m.as_str(),
            ),
            EmulatorError::RSEError(m) => String::from_str("RSE error: ").concat(m.as_str()),
            EmulatorError::PrivilegeViolation => String::from_str("Privilege violation"),
        }
    }
}

/// Whether `r` is an execution error with the detail `detail`.
pub open spec fn is_execution_error<T>(r: Result<T, EmulatorError>, detail: Seq<char>) -> bool {
    r matches Err(EmulatorError::ExecutionError(m)) && m@ == detail
}

/// Whether `r` is a decode error with the detail `detail`.
pub open spec fn is_decode_error<T>(r: Result<T, EmulatorError>, detail: Seq<char>) -> bool {
    r matches Err(EmulatorError::DecodeError(m)) && m@ == detail
}

/// Whether `r` is a CPU state error with the detail `detail`.
pub open spec fn is_cpu_state_error<T>(r: Result<T, EmulatorError>, detail: Seq<char>) -> bool {
    r matches Err(EmulatorError::CpuStateError(m)) && m@ == detail
}

/// Whether `r` is a register error with the detail `detail`.
pub open spec fn is_register_error<T>(r: Result<T, EmulatorError>, detail: Seq<char>) -> bool {
    r matches Err(EmulatorError::RegisterError(m)) && m@ == detail
}

/// Whether `r` is a Register Stack Engine error with the detail `detail`.
pub open spec fn is_rse_error<T>(r: Result<T, EmulatorError>, detail: Seq<char>) -> bool {
    r matches Err(EmulatorError::RSEError(m)) && m@ == detail
}

} // verus!
