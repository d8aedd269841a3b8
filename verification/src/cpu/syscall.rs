//! System Call Interface
//!
//! This module implements the IA-64 system call interface, handling transitions
//! between user and kernel mode, parameter passing, and system service dispatching.
//!
//! A call takes up to eight parameters from GR32..GR39 and hands its result
//! back in GR8 and its error code in GR9, where zero means no error.

use vstd::prelude::*;
use vstd::string::*;
use std::collections::HashMap;
use super::Cpu;
use crate::{is_execution_error, EmulatorError};

verus! {

broadcast use vstd::std_specs::hash::group_hash_axioms;

/// System call numbers
#[derive(Debug, Clone, Copy, PartialEq, Eq, Hash, Structural)]
pub enum SyscallNumber {
    /// Exit the current process
    Exit,
    /// Create a new process
    Fork,
    /// Read from a file descriptor
    Read,
    /// Write to a file descriptor
    Write,
    /// Open a file
    Open,
    /// Close a file descriptor
    Close,
    /// Wait for a child process
    WaitPid,
    /// Execute a program
    Execve,
    /// Change current directory
    ChDir,
    /// Get current time
    Time,
    /// Create a directory
    MkDir,
    /// Remove a directory
    RmDir,
    /// Change program break
    Break,
    /// Get process ID
    GetPid,
    /// Mount a filesystem
    Mount,
    /// Unmount a filesystem
    Unmount,
    /// Set user ID
    SetUid,
    /// Get user ID
    GetUid,
    /// Get current time of day
    GetTimeOfDay,
    /// Map memory pages
    Mmap,
    /// Unmap memory pages
    Munmap,
    /// Truncate a file
    Truncate,
    /// Truncate a file by descriptor
    Ftruncate,
    /// Create a socket
    Socket,
    /// Connect to a socket
    Connect,
    /// Accept a connection
    Accept,
    /// Send data through socket
    Send,
    /// Receive data from socket
    Recv,
    /// Shutdown a socket
    Shutdown,
}

impl SyscallNumber {
    /// The number that a guest passes to ask for the call.
    pub open spec fn spec_number(self) -> u64 {
        match self {
            SyscallNumber::Exit => 1,
            SyscallNumber::Fork => 2,
            SyscallNumber::Read => 3,
            SyscallNumber::Write => 4,
            SyscallNumber::Open => 5,
            SyscallNumber::Close => 6,
            SyscallNumber::WaitPid => 7,
            SyscallNumber::Execve => 11,
            SyscallNumber::ChDir => 12,
            SyscallNumber::Time => 13,
            SyscallNumber::MkDir => 14,
            SyscallNumber::RmDir => 15,
            SyscallNumber::Break => 17,
            SyscallNumber::GetPid => 20,
            SyscallNumber::Mount => 21,
            SyscallNumber::Unmount => 22,
            SyscallNumber::SetUid => 23,
            SyscallNumber::GetUid => 24,
            SyscallNumber::GetTimeOfDay => 78,
            SyscallNumber::Mmap => 90,
            SyscallNumber::Munmap => 91,
            SyscallNumber::Truncate => 92,
            SyscallNumber::Ftruncate => 93,
            SyscallNumber::Socket => 97,
            SyscallNumber::Connect => 98,
            SyscallNumber::Accept => 99,
            SyscallNumber::Send => 100,
            SyscallNumber::Recv => 101,
            SyscallNumber::Shutdown => 102,
        }
    }

    /// The number that a guest passes to ask for the call.
    #[verifier::when_used_as_spec(spec_number)]
    pub fn number(self) -> (v: u64)
        ensures
            v == self.spec_number(),
    {
        match self {
            SyscallNumber::Exit => 1,
            SyscallNumber::Fork => 2,
            SyscallNumber::Read => 3,
            SyscallNumber::Write => 4,
            SyscallNumber::Open => 5,
            SyscallNumber::Close => 6,
            SyscallNumber::WaitPid => 7,
            SyscallNumber::Execve => 11,
            SyscallNumber::ChDir => 12,
            SyscallNumber::Time => 13,
            SyscallNumber::MkDir => 14,
            SyscallNumber::RmDir => 15,
            SyscallNumber::Break => 17,
            SyscallNumber::GetPid => 20,
            SyscallNumber::Mount => 21,
            SyscallNumber::Unmount => 22,
            SyscallNumber::SetUid => 23,
            SyscallNumber::GetUid => 24,
            SyscallNumber::GetTimeOfDay => 78,
            SyscallNumber::Mmap => 90,
            SyscallNumber::Munmap => 91,
            SyscallNumber::Truncate => 92,
            SyscallNumber::Ftruncate => 93,
            SyscallNumber::Socket => 97,
            SyscallNumber::Connect => 98,
            SyscallNumber::Accept => 99,
            SyscallNumber::Send => 100,
            SyscallNumber::Recv => 101,
            SyscallNumber::Shutdown => 102,
        }
    }

    /// The call that a number asks for. A number that names no call is an
    /// execution error.
    pub fn try_from(value: u64) -> (r: Result<Self, EmulatorError>)
        ensures
            match r {
                Ok(call) => call.spec_number() == value,
                Err(_) => is_execution_error(r, "Invalid system call number"@) && forall|call: SyscallNumber|
                    call.spec_number() != value,
            },
    {
        match value {
            1 => Ok(SyscallNumber::Exit),
            2 => Ok(SyscallNumber::Fork),
            3 => Ok(SyscallNumber::Read),
            4 => Ok(SyscallNumber::Write),
            5 => Ok(SyscallNumber::Open),
            6 => Ok(SyscallNumber::Close),
            7 => Ok(SyscallNumber::WaitPid),
            11 => Ok(SyscallNumber::Execve),
            12 => Ok(SyscallNumber::ChDir),
            13 => Ok(SyscallNumber::Time),
            14 => Ok(SyscallNumber::MkDir),
            15 => Ok(SyscallNumber::RmDir),
            17 => Ok(SyscallNumber::Break),
            20 => Ok(SyscallNumber::GetPid),
            21 => Ok(SyscallNumber::Mount),
            22 => Ok(SyscallNumber::Unmount),
            23 => Ok(SyscallNumber::SetUid),
            24 => Ok(SyscallNumber::GetUid),
            78 => Ok(SyscallNumber::GetTimeOfDay),
            90 => Ok(SyscallNumber::Mmap),
            91 => Ok(SyscallNumber::Munmap),
            92 => Ok(SyscallNumber::Truncate),
            93 => Ok(SyscallNumber::Ftruncate),
            97 => Ok(SyscallNumber::Socket),
            98 => Ok(SyscallNumber::Connect),
            99 => Ok(SyscallNumber::Accept),
            100 => Ok(SyscallNumber::Send),
            101 => Ok(SyscallNumber::Recv),
            102 => Ok(SyscallNumber::Shutdown),
            _ => Err(EmulatorError::ExecutionError(String::from_str("Invalid system call number"))),
        }
    }
}

/// System call parameter registers
pub const SYSCALL_PARAM_REGS: [usize; 8] = [32, 33, 34, 35, 36, 37, 38, 39];

/// System call return registers
pub const SYSCALL_RETURN_REGS: [usize; 2] = [8, 9];

/// System call context
#[derive(Debug, Clone, Copy)]
pub struct SyscallContext {
    /// System call number
    pub number: SyscallNumber,
    /// Parameters
    pub params: [u64; 8],
    /// Return values
    pub returns: [u64; 2],
    /// Error code
    pub error: Option<u64>,
}

impl SyscallContext {
    /// Create new system call context: every parameter and return value
    /// zero, no error.
    pub fn new(number: SyscallNumber) -> (c: Self)
        ensures
            c.number == number,
            c.params@ == Seq::new(8, |i: int| 0u64),
            c.returns@ == Seq::new(2, |i: int| 0u64),
            c.error is None,
    {
        let c = Self { number, params: [0; 8], returns: [0; 2], error: None };
        c
    }

    /// Set parameter value; an index past the eighth parameter is ignored.
    pub fn set_param(&mut self, index: usize, value: u64)
        ensures
            index < 8 ==> *final(self) == (SyscallContext {
                params: final(self).params,
                ..*old(self)
            }) && final(self).params@ == old(self).params@.update(index as int, value),
            index >= 8 ==> *final(self) == *old(self),
    {
        if index < 8 {
            self.params[index] = value;
        }
    }

    /// Get parameter value
    pub fn get_param(&self, index: usize) -> (r: Option<u64>)
        ensures
            index < 8 ==> r == Some(self.params@[index as int]),
            index >= 8 ==> r is None,
    {
        if index < 8 {
            Some(self.params[index])
        } else {
            None
        }
    }

    /// Set return value; an index past the second return value is ignored.
    pub fn set_return(&mut self, index: usize, value: u64)
        ensures
            index < 2 ==> *final(self) == (SyscallContext {
                returns: final(self).returns,
                ..*old(self)
            }) && final(self).returns@ == old(self).returns@.update(index as int, value),
            index >= 2 ==> *final(self) == *old(self),
    {
        if index < 2 {
            self.returns[index] = value;
        }
    }

    /// Set error code
    pub fn set_error(&mut self, error: u64)
        ensures
            *final(self) == (SyscallContext { error: Some(error), ..*old(self) }),
    {
        self.error = Some(error);
    }
}

/// The service routines that the emulator brings along.
#[derive(Debug, Clone, Copy, PartialEq, Eq, Structural)]
pub enum SyscallHandler {
    /// Exit: reports success.
    Exit,
    /// Write: reports every byte as written.
    Write,
    /// Read: reports no byte read.
    Read,
    /// Get process ID: reports process 1.
    GetPid,
}

impl SyscallHandler {
    /// The first return value after the routine has run on a context with
    /// the parameters `params`.
    pub open spec fn result(self, params: Seq<u64>) -> u64 {
        match self {
            SyscallHandler::Exit => 0,
            SyscallHandler::Write => params[2],
            SyscallHandler::Read => 0,
            SyscallHandler::GetPid => 1,
        }
    }

    /// The error code after the routine has run on a context with the error
    /// code `error`.
    pub open spec fn error_after(self, error: Option<u64>) -> Option<u64> {
        match self {
            SyscallHandler::Write => None,
            _ => error,
        }
    }

    /// Whether `after` is what the routine makes of the context `before`:
    /// it sets the first return value, and `Write` clears the error code.
    pub open spec fn ran(self, before: SyscallContext, after: SyscallContext) -> bool {
        &&& after.number == before.number
        &&& after.params == before.params
        &&& after.returns@ == before.returns@.update(0, self.result(before.params@))
        &&& after.error == self.error_after(before.error)
    }

    /// Run the routine on a context. The processor is left alone.
    pub fn run(self, cpu: &mut Cpu, context: &mut SyscallContext) -> (r: Result<(), EmulatorError>)
        ensures
            r is Ok,
            *final(cpu) == *old(cpu),
            self.ran(*old(context), *final(context)),
    {
        match self {
            SyscallHandler::Exit => SyscallManager::handle_exit(cpu, context),
            SyscallHandler::Write => SyscallManager::handle_write(cpu, context),
            SyscallHandler::Read => SyscallManager::handle_read(cpu, context),
            SyscallHandler::GetPid => SyscallManager::handle_getpid(cpu, context),
        }
    }
}

/// The handlers of a manager at reset: `Exit`, `Write`, `Read` and `GetPid`
/// under their own numbers.
pub open spec fn default_handlers() -> Map<u64, SyscallHandler> {
    Map::<u64, SyscallHandler>::empty().insert(1, SyscallHandler::Exit).insert(
        4,
        SyscallHandler::Write,
    ).insert(3, SyscallHandler::Read).insert(20, SyscallHandler::GetPid)
}

/// Syscall handler registry
#[derive(Debug)]
pub struct SyscallRegistry {
    /// Registered syscall handlers
    pub handlers: HashMap<u64, SyscallHandler>,
}

impl SyscallRegistry {
    /// Create new syscall registry, with no handler.
    pub fn new() -> (r: Self)
        ensures
            r.handlers@ == Map::<u64, SyscallHandler>::empty(),
    {
        Self { handlers: HashMap::new() }
    }

    /// Register a syscall handler
    pub fn register(&mut self, number: SyscallNumber, handler: SyscallHandler)
        ensures
            final(self).handlers@ == old(self).handlers@.insert(number.spec_number(), handler),
    {
        self.handlers.insert(number.number(), handler);
    }

    /// Get a syscall handler
    pub fn get(&self, number: SyscallNumber) -> (r: Option<SyscallHandler>)
        ensures
            r == if self.handlers@.contains_key(number.spec_number()) {
                Some(self.handlers@[number.spec_number()])
            } else {
                None
            },
    {
        let key = number.number();
        match self.handlers.get(&key) {
            Some(h) => Some(*h),
            None => None,
        }
    }
}

impl Default for SyscallRegistry {
    fn default() -> (r: Self)
        ensures
            r.handlers@ == Map::<u64, SyscallHandler>::empty(),
    {
        Self::new()
    }
}

/// System call manager
#[derive(Debug)]
pub struct SyscallManager {
    /// The handlers, by system call number
    pub handlers: HashMap<u64, SyscallHandler>,
    /// The call in progress
    pub current: Option<SyscallContext>,
}

impl SyscallManager {
    /// A manager without any handler and with no call in progress.
    pub fn empty() -> (m: Self)
        ensures
            m.handlers@ == Map::<u64, SyscallHandler>::empty(),
            m.current is None,
    {
        Self { handlers: HashMap::new(), current: None }
    }

    /// Create new system call manager, with the default handlers.
    pub fn new() -> (m: Self)
        ensures
            m.handlers@ == default_handlers(),
            m.current is None,
    {
        let mut manager = Self { handlers: HashMap::new(), current: None };
        manager.register_default_handlers();
        manager
    }

    /// Register the default handlers.
    fn register_default_handlers(&mut self)
        ensures
            final(self).handlers@ == old(self).handlers@.insert(1, SyscallHandler::Exit).insert(
                4,
                SyscallHandler::Write,
            ).insert(3, SyscallHandler::Read).insert(20, SyscallHandler::GetPid),
            final(self).current == old(self).current,
    {
        self.register_handler(SyscallNumber::Exit, SyscallHandler::Exit);
        self.register_handler(SyscallNumber::Write, SyscallHandler::Write);
        self.register_handler(SyscallNumber::Read, SyscallHandler::Read);
        self.register_handler(SyscallNumber::GetPid, SyscallHandler::GetPid);
    }

    /// Register a handler for a system call
    ///
    /// # Arguments
    /// * `number` - The system call number to register the handler for
    /// * `handler` - The service routine to run when the system call is executed
    pub fn register_handler(&mut self, number: SyscallNumber, handler: SyscallHandler)
        ensures
            final(self).handlers@ == old(self).handlers@.insert(number.spec_number(), handler),
            final(self).current == old(self).current,
    {
        self.handlers.insert(number.number(), handler);
    }

    /// The handler registered for a system call, if there is one.
    pub open spec fn spec_handler(&self, number: SyscallNumber) -> Option<SyscallHandler> {
        if self.handlers@.contains_key(number.spec_number()) {
            Some(self.handlers@[number.spec_number()])
        } else {
            None
        }
    }

    /// Get the handler for a system call
    ///
    /// # Returns
    /// * `Some(handler)` if a handler is registered for the system call
    /// * `None` if no handler is registered for the system call
    pub fn get_handler(&self, number: SyscallNumber) -> (r: Option<SyscallHandler>)
        ensures
            r == self.spec_handler(number),
    {
        let key = number.number();
        match self.handlers.get(&key) {
            Some(h) => Some(*h),
            None => None,
        }
    }

    /// Execute system call: run the handler registered for the context's
    /// call on the context. The processor is left alone.
    pub fn execute_syscall(&mut self, cpu: &mut Cpu, context: &mut SyscallContext) -> (r: Result<
        (),
        EmulatorError,
    >)
        ensures
            *final(self) == *old(self),
            *final(cpu) == *old(cpu),
            match old(self).spec_handler(old(context).number) {
                Some(h) => {
                    &&& r is Ok
                    &&& final(context).number == old(context).number
                    &&& final(context).params == old(context).params
                    &&& final(context).returns@ == old(context).returns@.update(
                        0,
                        h.result(old(context).params@),
                    )
                    &&& final(context).error == h.error_after(old(context).error)
                },
                None => r matches Err(EmulatorError::InvalidSyscall) && *final(context) == *old(context),
            },
    {
        match self.get_handler(context.number) {
            Some(h) => h.run(cpu, context),
            None => Err(EmulatorError::InvalidSyscall),
        }
    }

    /// Handle exit system call: report success.
    pub fn handle_exit(_cpu: &mut Cpu, context: &mut SyscallContext) -> (r: Result<(), EmulatorError>)
        ensures
            r is Ok,
            *final(_cpu) == *old(_cpu),
            SyscallHandler::Exit.ran(*old(context), *final(context)),
    {
        context.returns[0] = 0;
        Ok(())
    }

    /// Handle write system call: report every byte as written, without
    /// error.
    pub fn handle_write(_cpu: &mut Cpu, ctx: &mut SyscallContext) -> (r: Result<(), EmulatorError>)
        ensures
            r is Ok,
            *final(_cpu) == *old(_cpu),
            SyscallHandler::Write.ran(*old(ctx), *final(ctx)),
    {
        let count = ctx.params[2];
        ctx.returns[0] = count;
        ctx.error = None;
        Ok(())
    }

    /// Handle read system call: report no byte read.
    pub fn handle_read(_cpu: &mut Cpu, context: &mut SyscallContext) -> (r: Result<(), EmulatorError>)
        ensures
            r is Ok,
            *final(_cpu) == *old(_cpu),
            SyscallHandler::Read.ran(*old(context), *final(context)),
    {
        context.returns[0] = 0;
        Ok(())
    }

    /// Handle getpid system call: report process 1.
    pub fn handle_getpid(_cpu: &mut Cpu, context: &mut SyscallContext) -> (r: Result<(), EmulatorError>)
        ensures
            r is Ok,
            *final(_cpu) == *old(_cpu),
            SyscallHandler::GetPid.ran(*old(context), *final(context)),
    {
        context.returns[0] = 1;
        Ok(())
    }

    /// Initialize default handlers
    pub fn init_default_handlers(&mut self)
        ensures
            final(self).handlers@ == old(self).handlers@.insert(1, SyscallHandler::Exit).insert(
                4,
                SyscallHandler::Write,
            ).insert(3, SyscallHandler::Read).insert(20, SyscallHandler::GetPid),
            final(self).current == old(self).current,
    {
        self.register_default_handlers();
    }

    /// Begins a system call by creating a new context and loading parameters from registers
    ///
    /// # Arguments
    /// * `cpu` - Reference to the CPU state to read parameters from
    /// * `syscall_num` - The system call number
    ///
    /// # Returns
    /// * `Ok(())` if the system call was started successfully
    /// * `Err(EmulatorError::InvalidSyscall)` if the syscall number is invalid
    pub fn begin_syscall(&mut self, cpu: &Cpu, syscall_num: u64) -> (r: Result<(), EmulatorError>)
        ensures
            final(self).handlers == old(self).handlers,
            match r {
                Ok(_) => final(self).current matches Some(c) && c.number.spec_number() == syscall_num
                    && c.params@ == cpu.gr@.subrange(32, 40) && c.returns@ == Seq::new(2, |i: int| 0u64)
                    && c.error is None,
                Err(_) => r matches Err(EmulatorError::InvalidSyscall) && (forall|call: SyscallNumber|
                    call.spec_number() != syscall_num) && final(self).current == old(self).current,
            },
    {
        // Convert syscall number to enum
        let syscall = match SyscallNumber::try_from(syscall_num) {
            Ok(s) => s,
            Err(_) => {
                return Err(EmulatorError::InvalidSyscall);
            },
        };
        // Create context
        let mut context = SyscallContext::new(syscall);
        // Get parameters from registers
        let mut i: usize = 0;
        while i < 8
            invariant
                i <= 8,
                context.number == syscall,
                context.returns@ == Seq::new(2, |i: int| 0u64),
                context.error is None,
                forall|j: int| 0 <= j < i ==> context.params@[j] == cpu.gr@[32 + j],
            decreases 8 - i,
        {
            context.params[i] = cpu.gr[32 + i];
            i = i + 1;
        }
        self.current = Some(context);
        Ok(())
    }

    /// Ends a system call by setting return values in registers
    ///
    /// # Arguments
    /// * `cpu` - Mutable reference to the CPU state to write return values to
    ///
    /// # Returns
    /// * `Ok(())` if the system call was ended successfully
    /// * `Err(EmulatorError::NoSyscallContext)` if there is no active system call
    pub fn end_syscall(&mut self, cpu: &mut Cpu) -> (r: Result<(), EmulatorError>)
        ensures
            final(self).handlers == old(self).handlers,
            final(self).current is None,
            match old(self).current {
                Some(c) => r is Ok && *final(cpu) == (Cpu {
                    gr: final(cpu).gr,
                    ..*old(cpu)
                }) && final(cpu).gr@ == old(cpu).gr@.update(8, c.returns@[0]).update(
                    9,
                    match c.error {
                        Some(e) => e,
                        None => 0,
                    },
                ),
                None => r matches Err(EmulatorError::NoSyscallContext) && *final(cpu) == *old(cpu),
            },
    {
        let context = match self.current {
            Some(c) => c,
            None => {
                return Err(EmulatorError::NoSyscallContext);
            },
        };
        self.current = None;
        // Set return value
        cpu.gr[8] = context.returns[0];
        // Set error code; zero stands for no error
        cpu.gr[9] = match context.error {
            Some(e) => e,
            None => 0,
        };
        Ok(())
    }
}

impl Default for SyscallManager {
    fn default() -> (m: Self)
        ensures
            m.handlers@ == default_handlers(),
            m.current is None,
    {
        let mut manager = Self::new();
        manager.init_default_handlers();
        manager
    }
}

} // verus!
