//! CPU implementation for IA-64 architecture
//!
//! This module implements the CPU state and operations for the IA-64 architecture,
//! including register management and instruction execution.
//!
//! General register 0 is wired to zero. A read of it gives zero whatever
//! the register file holds in its first word, and `gr_value` is what the
//! contracts of the instructions read a general register by.

use vstd::prelude::*;
use vstd::string::*;
use crate::cpu::alat::{EntryState, ALAT};
use crate::cpu::interrupts::{InterruptController, InterruptState, InterruptVector};
use crate::cpu::registers::dbr::BreakAccessType;
use crate::cpu::registers::{CRFile, RegisterState};
use crate::cpu::rse::{RSEConfig, RSE};
use crate::cpu::syscall::{SyscallContext, SyscallHandler, SyscallManager, SyscallNumber};
use crate::memory::Memory;
use crate::{is_cpu_state_error, is_execution_error, EmulatorError};

/// Register management module containing implementations for various register types
/// including general purpose registers, floating point registers, predicate registers,
/// branch registers, application registers, control registers, region registers,
/// protection key registers, debug break registers, and data debug registers.
pub mod registers;
pub mod alat;
pub mod rse;
pub mod instructions;
pub mod syscall;
pub mod mmu;
pub mod speculation;
pub mod interrupts;

verus! {

/// Number of general purpose registers in IA-64
pub const NUM_GR: usize = 128;

/// Number of floating point registers in IA-64
pub const NUM_FR: usize = 128;

/// Number of predicate registers in IA-64
pub const NUM_PR: usize = 64;

/// Number of branch registers in IA-64
pub const NUM_BR: usize = 8;

/// Individual PSR flags
#[derive(Debug, Clone, Copy, PartialEq, Eq, Structural)]
pub enum PSRFlags {
    /// User mask
    UM,
    /// Secure bit
    SECURE,
    /// Register stack engine enable
    RSE,
    /// Big-endian memory access enable
    BE,
    /// Data access fault disable
    DFLT,
    /// Instruction access fault disable
    IFLT,
    /// Performance monitor enable
    PME,
    /// Interrupt collection
    IC,
    /// Interrupt enable
    I,
    /// Data debug fault disable
    DD,
    /// Instruction debug fault disable
    ID,
}

impl PSRFlags {
    /// The bit of the status register that the flag names.
    pub open spec fn spec_bits(self) -> u64 {
        match self {
            PSRFlags::UM => 0x1,
            PSRFlags::SECURE => 0x2,
            PSRFlags::RSE => 0x4,
            PSRFlags::BE => 0x8,
            PSRFlags::DFLT => 0x10,
            PSRFlags::IFLT => 0x20,
            PSRFlags::PME => 0x40,
            PSRFlags::IC => 0x2000,
            PSRFlags::I => 0x4000,
            PSRFlags::DD => 0x80_0000_0000,
            PSRFlags::ID => 0x100_0000_0000,
        }
    }

    /// Returns the raw bits of the flag
    #[verifier::when_used_as_spec(spec_bits)]
    pub fn bits(self) -> (v: u64)
        ensures
            v == self.spec_bits(),
    {
        match self {
            PSRFlags::UM => 0x1,
            PSRFlags::SECURE => 0x2,
            PSRFlags::RSE => 0x4,
            PSRFlags::BE => 0x8,
            PSRFlags::DFLT => 0x10,
            PSRFlags::IFLT => 0x20,
            PSRFlags::PME => 0x40,
            PSRFlags::IC => 0x2000,
            PSRFlags::I => 0x4000,
            PSRFlags::DD => 0x80_0000_0000,
            PSRFlags::ID => 0x100_0000_0000,
        }
    }
}

/// Processor status register flags
#[derive(Debug, Clone, Copy)]
pub struct PSR(pub u64);

impl PSR {
    /// Create empty PSR
    pub fn empty() -> (p: Self)
        ensures
            p.0 == 0,
    {
        Self(0)
    }

    /// Get raw bits
    pub fn bits(&self) -> (v: u64)
        ensures
            v == self.0,
    {
        self.0
    }

    /// Create from raw bits
    pub fn from_bits_truncate(bits: u64) -> (p: Self)
        ensures
            p.0 == bits,
    {
        Self(bits)
    }

    /// Whether the flag's bit is set.
    pub open spec fn spec_contains(&self, flag: PSRFlags) -> bool {
        self.0 & flag.spec_bits() != 0
    }

    /// Check if contains flag
    #[verifier::when_used_as_spec(spec_contains)]
    pub fn contains(&self, flag: PSRFlags) -> (b: bool)
        ensures
            b == self.spec_contains(flag),
    {
        self.0 & flag.bits() != 0
    }

    /// Set flag
    pub fn set(&mut self, flag: PSRFlags, value: bool)
        ensures
            final(self).0 == if value {
                old(self).0 | flag.spec_bits()
            } else {
                old(self).0 & !flag.spec_bits()
            },
    {
        if value {
            self.0 = self.0 | flag.bits();
        } else {
            self.0 = self.0 & !flag.bits();
        }
    }
}

/// The width of a frame-marker field: seven bits.
pub const FRAME_FIELD_MASK: u64 = 0x7F;

/// The size-of-frame field of a frame marker: bits 0..7.
pub open spec fn frame_sof(marker: u64) -> u64 {
    marker & 0x7F
}

/// The size-of-locals field of a frame marker: bits 7..14.
pub open spec fn frame_sol(marker: u64) -> u64 {
    (marker >> 7) & 0x7F
}

/// The size-of-rotating field of a frame marker: bits 14..21.
pub open spec fn frame_sor(marker: u64) -> u64 {
    (marker >> 14) & 0x7F
}

/// The frame marker that packs the three fields, each in seven bits.
pub open spec fn pack_frame(sof: u64, sol: u64, sor: u64) -> u64 {
    (sof & 0x7F) | ((sol & 0x7F) << 7) | ((sor & 0x7F) << 14)
}

/// Whether the fields may be written to a frame marker: the frame holds its
/// locals, and the locals their rotating part.
pub open spec fn frame_ordered(sof: u64, sol: u64, sor: u64) -> bool {
    sof >= sol && sol >= sor
}

/// Fields of seven bits survive the trip through a frame marker.
pub proof fn lemma_frame_round_trip(sof: u64, sol: u64, sor: u64)
    requires
        sof < 128,
        sol < 128,
        sor < 128,
    ensures
        frame_sof(pack_frame(sof, sol, sor)) == sof,
        frame_sol(pack_frame(sof, sol, sor)) == sol,
        frame_sor(pack_frame(sof, sol, sor)) == sor,
{
    assert(((sof & 0x7F) | ((sol & 0x7F) << 7) | ((sor & 0x7F) << 14)) & 0x7F == sof && ((((sof & 0x7F)
        | ((sol & 0x7F) << 7) | ((sor & 0x7F) << 14)) >> 7) & 0x7F) == sol && ((((sof & 0x7F) | ((sol
        & 0x7F) << 7) | ((sor & 0x7F) << 14)) >> 14) & 0x7F) == sor) by (bit_vector)
        requires
            sof < 128,
            sol < 128,
            sor < 128,
    ;
}

/// A field of seven bits is below 128, and the top three bits of a word are
/// below 8.
pub proof fn lemma_small_fields(x: u64)
    ensures
        x & 0x7F < 128,
        (x >> 7) & 0x7F < 128,
        (x >> 14) & 0x7F < 128,
        x >> 61 < 8,
{
    assert(x & 0x7F < 128 && (x >> 7) & 0x7F < 128 && (x >> 14) & 0x7F < 128 && x >> 61 < 8)
        by (bit_vector);
}

/// Pack three frame fields into a marker.
pub fn make_frame(sof: u64, sol: u64, sor: u64) -> (marker: u64)
    ensures
        marker == pack_frame(sof, sol, sor),
{
    (sof & FRAME_FIELD_MASK) | ((sol & FRAME_FIELD_MASK) << 7) | ((sor & FRAME_FIELD_MASK) << 14)
}

/// The value that general register `reg` reads as: register 0 is wired to
/// zero and reads zero whatever its word in the register file holds.
pub open spec fn gr_value(gr: Seq<u64>, reg: int) -> u64 {
    if reg == 0 {
        0
    } else {
        gr[reg]
    }
}

/// The general registers after a write of `value` to register `reg`:
/// register 0 is wired to zero and takes no write.
pub open spec fn gr_after_write(gr: Seq<u64>, reg: int, value: u64) -> Seq<u64> {
    if reg == 0 {
        gr
    } else {
        gr.update(reg, value)
    }
}

/// General register 0 reads zero in every state of the register file, so
/// it reads zero after any write to any register; a write to it changes
/// nothing, and a write to any other register is read back.
pub proof fn lemma_gr0_is_zero(gr: Seq<u64>, reg: int, value: u64)
    requires
        gr.len() == 128,
        0 <= reg < 128,
    ensures
        gr_value(gr, 0) == 0,
        gr_value(gr_after_write(gr, reg, value), 0) == 0,
        gr_after_write(gr, 0, value) == gr,
        reg != 0 ==> gr_value(gr_after_write(gr, reg, value), reg) == value,
        forall|other: int|
            0 <= other < 128 && other != reg ==> gr_value(gr_after_write(gr, reg, value), other)
                == gr_value(gr, other),
{
}

/// CPU state for IA-64
#[derive(Debug)]
pub struct Cpu {
    /// General registers (r0-r127). Register 0 reads zero whatever its word
    /// here holds.
    pub gr: [u64; 128],
    /// Floating point registers (f0-f127), as raw IEEE-754 double bits
    pub fr: [u64; 128],
    /// Predicate registers (p0-p63)
    pub pr: [bool; 64],
    /// Branch registers (b0-b7)
    pub br: [u64; 8],
    /// Instruction pointer
    pub ip: u64,
    /// Previous function state
    pub pfs: u64,
    /// Current frame marker
    pub cfm: u64,
    /// User mask
    pub user_mask: u64,
    /// System registers
    pub system_regs: RegisterState,
    /// ALAT
    pub alat: ALAT,
    /// Interrupt controller
    pub interrupt_ctrl: InterruptController,
    /// Syscall manager
    pub syscall_mgr: SyscallManager,
    /// Register Stack Engine
    pub rse: RSE,
    /// Memory
    pub memory: Memory,
}

/// Represents the complete processor state that can be saved and restored
pub struct ProcessorState {
    /// General registers
    pub gr: [u64; 128],
    /// Floating-point registers
    pub fr: [u64; 128],
    /// Predicate registers
    pub pr: [bool; 64],
    /// Branch registers
    pub br: [u64; 8],
    /// Instruction pointer
    pub ip: u64,
    /// Current frame marker
    pub cfm: u64,
    /// Processor status register
    pub psr: u64,
}

impl Cpu {
    /// The subsystems that carry an invariant are well formed.
    pub open spec fn wf(&self) -> bool {
        &&& self.interrupt_ctrl.wf()
        &&& self.rse.wf()
        &&& self.memory.wf()
    }

    /// Whether the register files, the instruction pointer and the frame
    /// marker are all zero.
    pub open spec fn registers_clear(&self) -> bool {
        &&& forall|i: int| 0 <= i < 128 ==> self.gr@[i] == 0
        &&& forall|i: int| 0 <= i < 128 ==> self.fr@[i] == 0
        &&& forall|i: int| 0 <= i < 64 ==> !self.pr@[i]
        &&& forall|i: int| 0 <= i < 8 ==> self.br@[i] == 0
        &&& self.ip == 0
        &&& self.cfm == 0
    }

    /// Create a new CPU instance: every register zero, an empty ALAT, no
    /// interrupt pending, the default system call handlers, nothing mapped.
    pub fn new() -> (cpu: Self)
        ensures
            cpu.wf(),
            cpu.registers_clear(),
            cpu.pfs == 0 && cpu.user_mask == 0,
            cpu.system_regs.is_reset(),
            cpu.alat.entries@.len() == 0,
            cpu.interrupt_ctrl.pending@.len() == 0 && cpu.interrupt_ctrl.current is None
                && cpu.interrupt_ctrl.nesting_level == 0 && !cpu.interrupt_ctrl.interrupts_enabled,
            cpu.syscall_mgr.handlers@ == crate::cpu::syscall::default_handlers(),
            cpu.syscall_mgr.current is None,
            cpu.memory@.regions.len() == 0,
    {
        let mut syscall_mgr = SyscallManager::new();
        syscall_mgr.init_default_handlers();
        Self {
            gr: [0; 128],
            fr: [0; 128],
            pr: [false; 64],
            br: [0; 8],
            ip: 0,
            pfs: 0,
            cfm: 0,
            user_mask: 0,
            system_regs: RegisterState::new(),
            alat: ALAT::new(),
            interrupt_ctrl: InterruptController::new(),
            syscall_mgr,
            rse: RSE::new(),
            memory: Memory::new(),
        }
    }

    /// Reset the CPU state: the register files, the instruction pointer,
    /// the frame marker and the control registers go back to zero.
    pub fn reset(&mut self) -> (r: Result<(), EmulatorError>)
        ensures
            r is Ok,
            final(self).registers_clear(),
            forall|i: int| 0 <= i < 128 ==> final(self).system_regs.cr.registers@[i] == 0,
            *final(self) == (Cpu {
                gr: final(self).gr,
                fr: final(self).fr,
                pr: final(self).pr,
                br: final(self).br,
                ip: 0,
                cfm: 0,
                system_regs: RegisterState { cr: final(self).system_regs.cr, ..old(self).system_regs },
                ..*old(self)
            }),
    {
        // Reset registers
        self.gr = [0; 128];
        self.fr = [0; 128];
        self.pr = [false; 64];
        self.br = [0; 8];
        // Reset instruction pointer
        self.ip = 0;
        // Reset current frame marker
        self.cfm = 0;
        // Reset system registers
        self.system_regs.cr = CRFile::from_psr(PSR::empty());
        Ok(())
    }

    /// Get the value of a general register. Register 0 is wired to zero and
    /// reads zero in every state.
    pub fn get_gr(&self, reg: usize) -> (r: Result<u64, EmulatorError>)
        ensures
            reg < 128 ==> r == Ok::<u64, EmulatorError>(gr_value(self.gr@, reg as int)),
            reg == 0 ==> r == Ok::<u64, EmulatorError>(0),
            reg >= 128 ==> is_cpu_state_error(r, "Invalid general register index"@),
    {
        if reg >= NUM_GR {
            return Err(EmulatorError::CpuStateError(String::from_str("Invalid general register index")));
        }
        // r0 is always 0 in IA-64
        if reg == 0 {
            return Ok(0);
        }
        Ok(self.gr[reg])
    }

    /// Set the value of a general register. Register 0 is wired to zero: a
    /// write to it succeeds and changes nothing.
    pub fn set_gr(&mut self, reg: usize, value: u64) -> (r: Result<(), EmulatorError>)
        ensures
            reg < 128 ==> r is Ok && *final(self) == (Cpu { gr: final(self).gr, ..*old(self) })
                && final(self).gr@ == gr_after_write(old(self).gr@, reg as int, value),
            reg == 0 ==> *final(self) == *old(self),
            reg >= 128 ==> is_cpu_state_error(r, "Invalid general register index"@) && *final(self)
                == *old(self),
    {
        if reg >= NUM_GR {
            return Err(EmulatorError::CpuStateError(String::from_str("Invalid general register index")));
        }
        // r0 is always 0 in IA-64
        if reg != 0 {
            self.gr[reg] = value;
        }
        Ok(())
    }

    /// Get the value of a floating point register, as raw IEEE-754 double
    /// bits
    pub fn get_fr(&self, reg: usize) -> (r: Result<u64, EmulatorError>)
        ensures
            reg < 128 ==> r == Ok::<u64, EmulatorError>(self.fr@[reg as int]),
            reg >= 128 ==> is_cpu_state_error(r, "Invalid floating point register index"@),
    {
        if reg >= NUM_FR {
            return Err(
                EmulatorError::CpuStateError(String::from_str("Invalid floating point register index")),
            );
        }
        Ok(self.fr[reg])
    }

    /// Set the value of a floating point register, as raw IEEE-754 double
    /// bits
    pub fn set_fr(&mut self, reg: usize, value: u64) -> (r: Result<(), EmulatorError>)
        ensures
            reg < 128 ==> r is Ok && *final(self) == (Cpu { fr: final(self).fr, ..*old(self) })
                && final(self).fr@ == old(self).fr@.update(reg as int, value),
            reg >= 128 ==> is_cpu_state_error(r, "Invalid floating point register index"@) && *final(self) == *old(self),
    {
        if reg >= NUM_FR {
            return Err(
                EmulatorError::CpuStateError(String::from_str("Invalid floating point register index")),
            );
        }
        self.fr[reg] = value;
        Ok(())
    }

    /// Get the value of a predicate register
    pub fn get_pr(&self, reg: usize) -> (r: Result<bool, EmulatorError>)
        ensures
            reg < 64 ==> r == Ok::<bool, EmulatorError>(self.pr@[reg as int]),
            reg >= 64 ==> is_cpu_state_error(r, "Invalid predicate register index"@),
    {
        if reg >= NUM_PR {
            return Err(
                EmulatorError::CpuStateError(String::from_str("Invalid predicate register index")),
            );
        }
        Ok(self.pr[reg])
    }

    /// Set the value of a predicate register
    pub fn set_pr(&mut self, reg: usize, value: bool) -> (r: Result<(), EmulatorError>)
        ensures
            reg < 64 ==> r is Ok && *final(self) == (Cpu { pr: final(self).pr, ..*old(self) })
                && final(self).pr@ == old(self).pr@.update(reg as int, value),
            reg >= 64 ==> is_cpu_state_error(r, "Invalid predicate register index"@) && *final(self)
                == *old(self),
    {
        if reg >= NUM_PR {
            return Err(
                EmulatorError::CpuStateError(String::from_str("Invalid predicate register index")),
            );
        }
        self.pr[reg] = value;
        Ok(())
    }

    /// Get the value of a branch register
    pub fn get_br(&self, reg: usize) -> (r: Result<u64, EmulatorError>)
        ensures
            reg < 8 ==> r == Ok::<u64, EmulatorError>(self.br@[reg as int]),
            reg >= 8 ==> is_cpu_state_error(r, "Invalid branch register index"@),
    {
        if reg >= NUM_BR {
            return Err(EmulatorError::CpuStateError(String::from_str("Invalid branch register index")));
        }
        Ok(self.br[reg])
    }

    /// Set the value of a branch register
    pub fn set_br(&mut self, reg: usize, value: u64) -> (r: Result<(), EmulatorError>)
        ensures
            reg < 8 ==> r is Ok && *final(self) == (Cpu { br: final(self).br, ..*old(self) })
                && final(self).br@ == old(self).br@.update(reg as int, value),
            reg >= 8 ==> is_cpu_state_error(r, "Invalid branch register index"@) && *final(self)
                == *old(self),
    {
        if reg >= NUM_BR {
            return Err(EmulatorError::CpuStateError(String::from_str("Invalid branch register index")));
        }
        self.br[reg] = value;
        Ok(())
    }

    /// Add entry to ALAT
    pub fn alat_add_entry(&mut self, address: u64, size: u64, register: u32, is_integer: bool) -> (r: Result<
        (),
        EmulatorError,
    >)
        ensures
            r is Ok,
            *final(self) == (Cpu { alat: final(self).alat, ..*old(self) }),
            final(self).alat.entries@ == crate::cpu::alat::spec_add(
                old(self).alat.entries@,
                address,
                size,
                register,
                is_integer,
            ),
            old(self).alat.wf() ==> final(self).alat.wf(),
    {
        self.alat.add_entry(address, size, register, is_integer)
    }

    /// Check if register has valid ALAT entry
    pub fn alat_check_register(&self, register: u32, is_integer: bool) -> (b: bool)
        ensures
            b == self.alat.spec_check_register(register, is_integer),
    {
        self.alat.check_register(register, is_integer)
    }

    /// Invalidate overlapping ALAT entries
    pub fn alat_invalidate_overlap(&mut self, address: u64, size: u64)
        ensures
            *final(self) == (Cpu { alat: final(self).alat, ..*old(self) }),
            final(self).alat.entries@ == crate::cpu::alat::spec_invalidate(
                old(self).alat.entries@,
                address,
                size,
            ),
            final(self).alat.entries@.len() == old(self).alat.entries@.len(),
            forall|i: int|
                0 <= i < old(self).alat.entries@.len() ==> (#[trigger] final(self).alat.entries@[i])
                    == old(self).alat.entries@[i].after_store(address, size),
            old(self).alat.wf() ==> final(self).alat.wf(),
    {
        self.alat.invalidate_overlap(address, size)
    }

    /// Clear all ALAT entries
    pub fn alat_clear(&mut self)
        ensures
            *final(self) == (Cpu { alat: final(self).alat, ..*old(self) }),
            final(self).alat.entries@.len() == 0,
    {
        self.alat.clear()
    }

    /// Get ALAT entry information
    pub fn alat_get_entry_info(&self, register: u32, is_integer: bool) -> (r: Option<
        (u64, u64, EntryState),
    >)
        ensures
            match r {
                Some(info) => exists|i: int| #[trigger]
                    crate::cpu::alat::is_first_of_pair(self.alat.entries@, register, is_integer, i)
                        && info == (
                        self.alat.entries@[i].address,
                        self.alat.entries@[i].size,
                        self.alat.entries@[i].state,
                    ),
                None => !crate::cpu::alat::has_pair(self.alat.entries@, register, is_integer),
            },
    {
        self.alat.get_entry_info(register, is_integer)
    }

    /// Remove ALAT entry
    pub fn alat_remove_entry(&mut self, register: u32, is_integer: bool)
        ensures
            *final(self) == (Cpu { alat: final(self).alat, ..*old(self) }),
            final(self).alat.entries@ == old(self).alat.entries@.filter(
                crate::cpu::alat::not_pair(register, is_integer),
            ),
    {
        self.alat.remove_entry(register, is_integer)
    }

    /// Purge old ALAT entries
    pub fn alat_purge_old_entries(&mut self)
        ensures
            *final(self) == (Cpu { alat: final(self).alat, ..*old(self) }),
            final(self).alat.entries@ == crate::cpu::alat::spec_purge(old(self).alat.entries@),
    {
        self.alat.purge_old_entries()
    }

    /// Register interrupt handler
    pub fn register_interrupt_handler(&mut self, vector: InterruptVector, address: u64, min_privilege: u8) -> (r: Result<
        (),
        EmulatorError,
    >)
        requires
            old(self).interrupt_ctrl.wf(),
        ensures
            r is Ok,
            final(self).interrupt_ctrl.wf(),
            *final(self) == (Cpu { interrupt_ctrl: final(self).interrupt_ctrl, ..*old(self) }),
            final(self).interrupt_ctrl.table.handlers@ == old(self).interrupt_ctrl.table.handlers@.update(
                vector.spec_index(),
                crate::cpu::interrupts::HandlerEntry { address, min_privilege, enabled: true },
            ),
            final(self).interrupt_ctrl.pending == old(self).interrupt_ctrl.pending,
            final(self).interrupt_ctrl.current == old(self).interrupt_ctrl.current,
            final(self).interrupt_ctrl.nesting_level == old(self).interrupt_ctrl.nesting_level,
            final(self).interrupt_ctrl.interrupts_enabled == old(self).interrupt_ctrl.interrupts_enabled,
    {
        self.interrupt_ctrl.register_handler(vector, address, min_privilege)
    }

    /// Enable/disable interrupts, in the controller and in the status
    /// register's interrupt-enable bit.
    pub fn set_interrupts_enabled(&mut self, enabled: bool)
        ensures
            final(self).interrupt_ctrl == (InterruptController {
                interrupts_enabled: enabled,
                ..old(self).interrupt_ctrl
            }),
            final(self).system_regs.cr.registers@ == old(self).system_regs.cr.registers@.update(
                0,
                if enabled {
                    old(self).system_regs.cr.registers@[0] | 0x4000
                } else {
                    old(self).system_regs.cr.registers@[0] & !0x4000u64
                },
            ),
            *final(self) == (Cpu {
                interrupt_ctrl: final(self).interrupt_ctrl,
                system_regs: RegisterState { cr: final(self).system_regs.cr, ..old(self).system_regs },
                ..*old(self)
            }),
    {
        self.interrupt_ctrl.set_interrupts_enabled(enabled);
        self.system_regs.cr.set(PSRFlags::I, enabled);
    }

    /// Raise interrupt: the interrupt is put on the pending stack with the
    /// instruction pointer and the status register of this moment.
    pub fn raise_interrupt(&mut self, vector: InterruptVector, info: u64)
        ensures
            *final(self) == (Cpu { interrupt_ctrl: final(self).interrupt_ctrl, ..*old(self) }),
            final(self).interrupt_ctrl.pending@.len() == old(self).interrupt_ctrl.pending@.len() + 1,
            final(self).interrupt_ctrl.pending@.drop_last() == old(self).interrupt_ctrl.pending@,
            final(self).interrupt_ctrl.pending@.last().vector == vector,
            final(self).interrupt_ctrl.pending@.last().ip == old(self).ip,
            final(self).interrupt_ctrl.pending@.last().psr == old(self).system_regs.cr.registers@[0],
            final(self).interrupt_ctrl.pending@.last().info == info,
            forall|i: int| 0 <= i < 16 ==> final(self).interrupt_ctrl.pending@.last().bundle@[i] == 0,
            final(self).interrupt_ctrl.table == old(self).interrupt_ctrl.table,
            final(self).interrupt_ctrl.current == old(self).interrupt_ctrl.current,
            final(self).interrupt_ctrl.nesting_level == old(self).interrupt_ctrl.nesting_level,
            final(self).interrupt_ctrl.interrupts_enabled == old(self).interrupt_ctrl.interrupts_enabled,
    {
        let state = InterruptState {
            vector,
            ip: self.ip,
            psr: self.system_regs.cr.get_psr(),
            bundle: [0; 16],
            info,
        };
        self.interrupt_ctrl.raise_interrupt(state);
    }

    /// Check and handle pending interrupts. With the interrupt-enable bit
    /// of the status register clear nothing happens. Otherwise the
    /// controller is asked; when it hands out a handler, the status register
    /// loses its interrupt-enable bit and gains its interrupt-collection
    /// bit.
    pub fn check_interrupts(&mut self) -> (r: Option<u64>)
        requires
            old(self).interrupt_ctrl.wf(),
        ensures
            final(self).interrupt_ctrl.wf(),
            old(self).system_regs.cr.registers@[0] & 0x4000 != 0x4000 ==> r is None && *final(self)
                == *old(self),
            *final(self) == (Cpu {
                interrupt_ctrl: final(self).interrupt_ctrl,
                system_regs: RegisterState { cr: final(self).system_regs.cr, ..old(self).system_regs },
                ..*old(self)
            }),
            r is Some ==> final(self).system_regs.cr.registers@ == old(self).system_regs.cr.registers@.update(
                0,
                (old(self).system_regs.cr.registers@[0] & !0x4000u64) | 0x2000,
            ),
            r is None ==> final(self).system_regs.cr == old(self).system_regs.cr,
            final(self).interrupt_ctrl.table == old(self).interrupt_ctrl.table,
            final(self).interrupt_ctrl.interrupts_enabled == old(self).interrupt_ctrl.interrupts_enabled,
            old(self).system_regs.cr.registers@[0] & 0x4000 == 0x4000 && (!old(self).interrupt_ctrl.interrupts_enabled || old(self).interrupt_ctrl.pending@.len() == 0) ==> r is None
                && *final(self) == *old(self),
            old(self).system_regs.cr.registers@[0] & 0x4000 == 0x4000 ==> old(self).interrupt_ctrl.interrupts_enabled && old(self).interrupt_ctrl.pending@.len() > 0 ==> {
                let top = old(self).interrupt_ctrl.pending@.last();
                let handler = old(self).interrupt_ctrl.table.handlers@[top.vector.spec_index()];
                &&& final(self).interrupt_ctrl.pending@ == crate::cpu::interrupts::pending_after_take(
                    old(self).interrupt_ctrl.pending@,
                    old(self).interrupt_ctrl.current,
                )
                &&& handler.accepts(top) ==> r == Some(handler.address) && final(self).interrupt_ctrl.current == Some(top)
                    && final(self).interrupt_ctrl.nesting_level == crate::cpu::interrupts::deeper(
                    old(self).interrupt_ctrl.nesting_level,
                )
                &&& !handler.accepts(top) ==> r is None && final(self).interrupt_ctrl.current is None
                    && final(self).interrupt_ctrl.nesting_level == old(self).interrupt_ctrl.nesting_level
            },
    {
        // Only check if interrupts are enabled in PSR
        if !self.system_regs.cr.contains(PSRFlags::I) {
            return None;
        }
        match self.interrupt_ctrl.check_interrupts() {
            Some(handler_addr) => {
                // Switch to privileged mode
                self.system_regs.cr.set(PSRFlags::I, false);  // Disable interrupts
                self.system_regs.cr.set(PSRFlags::IC, true);  // Set interrupt collection
                // Return handler address
                Some(handler_addr)
            },
            None => None,
        }
    }

    /// Return from interrupt: the control registers are restored from the
    /// status register saved with the current interrupt, and execution goes
    /// on at the handler of the next pending interrupt, or where the current
    /// one had interrupted. It is an error if no interrupt is current.
    pub fn return_from_interrupt(&mut self) -> (r: Result<(), EmulatorError>)
        requires
            old(self).interrupt_ctrl.wf(),
        ensures
            final(self).interrupt_ctrl.wf(),
            match old(self).interrupt_ctrl.current {
                None => is_execution_error(r, "No interrupt to return from"@) && *final(self) == *old(self),
                Some(state) => {
                    &&& r is Ok
                    &&& final(self).system_regs.cr.registers@[0] == state.psr
                    &&& forall|i: int| 1 <= i < 128 ==> final(self).system_regs.cr.registers@[i] == 0
                    &&& *final(self) == (Cpu {
                        interrupt_ctrl: final(self).interrupt_ctrl,
                        system_regs: RegisterState {
                            cr: final(self).system_regs.cr,
                            ..old(self).system_regs
                        },
                        ip: final(self).ip,
                        ..*old(self)
                    })
                    &&& final(self).interrupt_ctrl.table == old(self).interrupt_ctrl.table
                    &&& old(self).interrupt_ctrl.nesting_level == 0 ==> final(self).ip == state.ip
                        && final(self).interrupt_ctrl == old(self).interrupt_ctrl
                    &&& final(self).interrupt_ctrl.interrupts_enabled == old(self).interrupt_ctrl.interrupts_enabled
                    &&& old(self).interrupt_ctrl.nesting_level > 0 ==> final(self).interrupt_ctrl.nesting_level == old(self).interrupt_ctrl.nesting_level - 1
                    &&& old(self).interrupt_ctrl.nesting_level > 0 && old(self).interrupt_ctrl.pending@.len() == 0 ==> final(self).ip == state.ip
                        && final(self).interrupt_ctrl.current is None && final(self).interrupt_ctrl.pending@
                        == old(self).interrupt_ctrl.pending@
                    &&& old(self).interrupt_ctrl.nesting_level > 0 && old(self).interrupt_ctrl.pending@.len() > 0 ==> {
                        let top = old(self).interrupt_ctrl.pending@.last();
                        let handler = old(self).interrupt_ctrl.table.handlers@[top.vector.spec_index()];
                        &&& final(self).interrupt_ctrl.pending@ == old(self).interrupt_ctrl.pending@.drop_last()
                        &&& final(self).ip == if handler.enabled {
                            handler.address
                        } else {
                            state.ip
                        }
                        &&& final(self).interrupt_ctrl.current == if handler.enabled {
                            Some(top)
                        } else {
                            None::<InterruptState>
                        }
                    }
                },
            },
    {
        // Get current interrupt state
        let state = match self.interrupt_ctrl.current {
            Some(s) => s,
            None => {
                return Err(
                    EmulatorError::ExecutionError(String::from_str("No interrupt to return from")),
                );
            },
        };
        // Restore saved state
        self.system_regs.cr = CRFile::from_psr(PSR::from_bits_truncate(state.psr));
        // Get next handler or return to interrupted code
        let next_ip = match self.interrupt_ctrl.return_from_interrupt() {
            Some(addr) => addr,
            None => state.ip,
        };
        // Update instruction pointer
        self.ip = next_ip;
        Ok(())
    }

    /// Get current interrupt state
    pub fn current_interrupt(&self) -> (r: Option<&InterruptState>)
        ensures
            match r {
                Some(s) => self.interrupt_ctrl.current == Some(*s),
                None => self.interrupt_ctrl.current is None,
            },
    {
        self.interrupt_ctrl.current_interrupt()
    }

    /// Get interrupt nesting level
    pub fn interrupt_nesting_level(&self) -> (n: u32)
        ensures
            n == self.interrupt_ctrl.nesting_level,
    {
        self.interrupt_ctrl.nesting_level()
    }

    /// Clear all pending interrupts
    pub fn clear_pending_interrupts(&mut self)
        ensures
            *final(self) == (Cpu { interrupt_ctrl: final(self).interrupt_ctrl, ..*old(self) }),
            final(self).interrupt_ctrl.pending@.len() == 0,
            final(self).interrupt_ctrl.table == old(self).interrupt_ctrl.table,
            final(self).interrupt_ctrl.current == old(self).interrupt_ctrl.current,
            final(self).interrupt_ctrl.nesting_level == old(self).interrupt_ctrl.nesting_level,
            final(self).interrupt_ctrl.interrupts_enabled == old(self).interrupt_ctrl.interrupts_enabled,
    {
        self.interrupt_ctrl.clear_pending();
    }

    /// Initialize CPU state: the register files and the instruction pointer
    /// go back to zero, and the control registers, the ALAT, the interrupt
    /// controller and the system call manager to their state at reset.
    pub fn init(&mut self) -> (r: Result<(), EmulatorError>)
        ensures
            r is Ok,
            forall|i: int| 0 <= i < 128 ==> final(self).gr@[i] == 0,
            forall|i: int| 0 <= i < 128 ==> final(self).fr@[i] == 0,
            forall|i: int| 0 <= i < 64 ==> !final(self).pr@[i],
            forall|i: int| 0 <= i < 8 ==> final(self).br@[i] == 0,
            final(self).ip == 0,
            forall|i: int| 0 <= i < 128 ==> final(self).system_regs.cr.registers@[i] == 0,
            final(self).alat.entries@.len() == 0,
            final(self).interrupt_ctrl.wf(),
            final(self).interrupt_ctrl.pending@.len() == 0 && final(self).interrupt_ctrl.current is None
                && final(self).interrupt_ctrl.nesting_level == 0 && !final(self).interrupt_ctrl.interrupts_enabled,
            forall|i: int| 0 <= i < 32 ==> !(#[trigger] final(self).interrupt_ctrl.table.handlers@[i]).enabled,
            final(self).syscall_mgr.handlers@ == crate::cpu::syscall::default_handlers(),
            final(self).syscall_mgr.current is None,
            final(self).pfs == old(self).pfs && final(self).cfm == old(self).cfm && final(self).user_mask == old(self).user_mask,
            final(self).rse == old(self).rse,
            final(self).memory == old(self).memory,
            final(self).system_regs == (RegisterState {
                cr: final(self).system_regs.cr,
                ..old(self).system_regs
            }),
    {
        // Initialize registers
        self.gr = [0; 128];
        self.fr = [0; 128];
        self.pr = [false; 64];
        self.br = [0; 8];
        // Initialize special registers
        self.ip = 0;
        self.system_regs.cr = CRFile::from_psr(PSR::empty());
        // Initialize ALAT
        self.alat = ALAT::new();
        // Initialize interrupt controller
        self.interrupt_ctrl = InterruptController::new();
        // Initialize syscall manager
        self.syscall_mgr = SyscallManager::default();
        Ok(())
    }

    /// Register system call handler
    pub fn register_syscall_handler(&mut self, number: SyscallNumber, handler: SyscallHandler)
        ensures
            *final(self) == (Cpu { syscall_mgr: final(self).syscall_mgr, ..*old(self) }),
            final(self).syscall_mgr.handlers@ == old(self).syscall_mgr.handlers@.insert(
                number.spec_number(),
                handler,
            ),
            final(self).syscall_mgr.current == old(self).syscall_mgr.current,
    {
        self.syscall_mgr.register_handler(number, handler);
    }

    /// Get current system call context
    pub fn get_syscall_context(&self) -> (r: Option<&SyscallContext>)
        ensures
            match r {
                Some(c) => self.syscall_mgr.current == Some(*c),
                None => self.syscall_mgr.current is None,
            },
    {
        self.syscall_mgr.current.as_ref()
    }

    /// Get processor status register
    pub fn get_psr(&self) -> (v: u64)
        ensures
            v == self.system_regs.cr.registers@[0],
    {
        self.system_regs.cr.get_psr()
    }

    /// Get interruption status register
    pub fn get_isr(&self) -> (v: u64)
        ensures
            v == self.system_regs.cr.registers@[16],
    {
        self.system_regs.cr.get_isr()
    }

    /// Get RSE configuration
    pub fn get_rse_config(&self) -> (c: RSEConfig)
        ensures
            c == self.rse.config,
    {
        self.rse.get_config()
    }

    /// Set RSE configuration
    pub fn set_rse_config(&mut self, config: RSEConfig)
        ensures
            *final(self) == (Cpu { rse: RSE { config, ..old(self).rse }, ..*old(self) }),
    {
        self.rse.set_config(config);
    }

    /// Get RSE backing store pointer
    pub fn get_rse_bsp(&self) -> (v: u64)
        ensures
            v == self.rse.bsp,
    {
        self.rse.get_bsp()
    }

    /// Get RSE backing store pointer for stores
    pub fn get_rse_bspstore(&self) -> (v: u64)
        ensures
            v == self.rse.bspstore,
    {
        self.rse.get_bspstore()
    }

    /// Get RSE NaT collection bits
    pub fn get_rse_rnat(&self) -> (v: u64)
        ensures
            v == self.rse.rnat,
    {
        self.rse.get_rnat()
    }

    /// Check memory protection key: every kind of access that is asked for
    /// must be allowed by the key.
    pub fn check_protection_key(&self, key: u32, read: bool, write: bool, execute: bool) -> (b: bool)
        ensures
            b == {
                &&& read ==> (self.system_regs.pkr.spec_lookup(key) matches Some(f) && f.spec_can_read())
                &&& write ==> (self.system_regs.pkr.spec_lookup(key) matches Some(f)
                    && f.spec_can_write())
                &&& execute ==> (self.system_regs.pkr.spec_lookup(key) matches Some(f)
                    && f.spec_can_execute())
            },
    {
        if read && !self.system_regs.pkr.check_read(key) {
            return false;
        }
        if write && !self.system_regs.pkr.check_write(key) {
            return false;
        }
        if execute && !self.system_regs.pkr.check_execute(key) {
            return false;
        }
        true
    }

    /// Check debug breakpoint
    pub fn check_breakpoint(&self, addr: u64, pl: u8, access_type: BreakAccessType) -> (b: bool)
        ensures
            b == self.system_regs.dbr.spec_check_break(addr, pl, access_type),
    {
        self.system_regs.dbr.check_break(addr, pl, access_type)
    }

    /// Check debug data match
    pub fn check_data_match(&self, value: u64) -> (b: bool)
        ensures
            b == self.system_regs.ddr.spec_check_match(value),
    {
        self.system_regs.ddr.check_match(value)
    }

    /// The region of a virtual address: its top three bits.
    pub open spec fn region_of(addr: u64) -> int {
        (addr >> 61) as int
    }

    /// Get region ID for virtual address
    pub fn get_region_id(&self, addr: u64) -> (r: Result<u64, EmulatorError>)
        ensures
            r == Ok::<u64, EmulatorError>(
                crate::cpu::registers::RegionFields::spec_from_bits(
                    self.system_regs.rr.regs@[Self::region_of(addr)],
                ).rid,
            ),
    {
        proof {
            lemma_small_fields(addr);
        }
        let region = (addr >> 61) as usize;
        self.system_regs.rr.get_rid(region)
    }

    /// Get page size for virtual address
    pub fn get_page_size(&self, addr: u64) -> (r: Result<u8, EmulatorError>)
        ensures
            r == Ok::<u8, EmulatorError>(
                crate::cpu::registers::RegionFields::spec_from_bits(
                    self.system_regs.rr.regs@[Self::region_of(addr)],
                ).ps,
            ),
    {
        proof {
            lemma_small_fields(addr);
        }
        let region = (addr >> 61) as usize;
        self.system_regs.rr.get_ps(region)
    }

    /// Check if region is enabled
    pub fn is_region_enabled(&self, addr: u64) -> (r: Result<bool, EmulatorError>)
        ensures
            r == Ok::<bool, EmulatorError>(
                crate::cpu::registers::RegionFields::spec_from_bits(
                    self.system_regs.rr.regs@[Self::region_of(addr)],
                ).ve,
            ),
    {
        proof {
            lemma_small_fields(addr);
        }
        let region = (addr >> 61) as usize;
        self.system_regs.rr.is_enabled(region)
    }

    /// Updates the frame markers for the current frame. The write fails
    /// unless `sof >= sol >= sor`.
    pub fn update_frame_markers(&mut self, sof: u32, sol: u32, sor: u32) -> (r: Result<(), EmulatorError>)
        ensures
            frame_ordered(sof as u64, sol as u64, sor as u64) ==> r is Ok && *final(self) == (Cpu {
                cfm: pack_frame(sof as u64, sol as u64, sor as u64),
                ..*old(self)
            }),
            !frame_ordered(sof as u64, sol as u64, sor as u64) ==> is_cpu_state_error(
                r,
                "Invalid frame marker values"@,
            ) && *final(self) == *old(self),
    {
        // Validate parameters
        if sof < sol || sol < sor {
            return Err(EmulatorError::CpuStateError(String::from_str("Invalid frame marker values")));
        }
        // Update frame markers
        self.cfm = make_frame(sof as u64, sol as u64, sor as u64);
        Ok(())
    }

    /// Restores CPU state from a saved processor state. General register 0
    /// is wired to zero and takes nothing from the saved state: its word is
    /// set to zero.
    pub fn restore_state(&mut self, state: &ProcessorState) -> (r: Result<(), EmulatorError>)
        ensures
            r is Ok,
            final(self).gr@ == state.gr@.update(0, 0),
            final(self).fr == state.fr && final(self).pr == state.pr && final(self).br == state.br
                && final(self).ip == state.ip && final(self).cfm == state.cfm,
            final(self).system_regs.cr.registers@[0] == state.psr,
            forall|i: int| 1 <= i < 128 ==> final(self).system_regs.cr.registers@[i] == 0,
            *final(self) == (Cpu {
                gr: final(self).gr,
                fr: state.fr,
                pr: state.pr,
                br: state.br,
                ip: state.ip,
                cfm: state.cfm,
                system_regs: RegisterState { cr: final(self).system_regs.cr, ..old(self).system_regs },
                ..*old(self)
            }),
    {
        self.gr = state.gr;
        self.gr[0] = 0;
        self.fr = state.fr;
        self.pr = state.pr;
        self.br = state.br;
        self.ip = state.ip;
        self.cfm = state.cfm;
        self.system_regs.cr = CRFile::from_bits_truncate(state.psr);
        Ok(())
    }
}

/// Whether some system call has the number `num`.
pub open spec fn is_syscall_number(num: u64) -> bool {
    exists|call: SyscallNumber| call.spec_number() == num
}

impl Cpu {
    /// Execute system call.
    ///
    /// The call's parameters are taken from GR32..GR39 and its handler is
    /// run. GR8 then holds the result and GR9 the error code, zero for
    /// none. A number that names no call, or a call without a handler, is
    /// an invalid system call.
    pub fn do_syscall(&mut self, syscall_num: u64) -> (r: Result<(), EmulatorError>)
        ensures
            final(self).syscall_mgr.handlers == old(self).syscall_mgr.handlers,
            *final(self) == (Cpu {
                gr: final(self).gr,
                syscall_mgr: final(self).syscall_mgr,
                ..*old(self)
            }),
            !is_syscall_number(syscall_num) ==> (r matches Err(EmulatorError::InvalidSyscall)) && *final(self) == *old(self),
            is_syscall_number(syscall_num) ==> final(self).syscall_mgr.current is None,
            is_syscall_number(syscall_num) && !old(self).syscall_mgr.handlers@.contains_key(
                syscall_num,
            ) ==> (r matches Err(EmulatorError::InvalidSyscall)) && final(self).gr == old(self).gr,
            is_syscall_number(syscall_num) && old(self).syscall_mgr.handlers@.contains_key(syscall_num)
                ==> r is Ok && final(self).gr@ == old(self).gr@.update(
                8,
                old(self).syscall_mgr.handlers@[syscall_num].result(old(self).gr@.subrange(32, 40)),
            ).update(
                9,
                match old(self).syscall_mgr.handlers@[syscall_num].error_after(None) {
                    Some(e) => e,
                    None => 0,
                },
            ),
    {
        // Begin syscall
        let mut syscall_mgr = SyscallManager::empty();
        core::mem::swap(&mut syscall_mgr, &mut self.syscall_mgr);
        match syscall_mgr.begin_syscall(self, syscall_num) {
            Ok(_) => {},
            Err(e) => {
                core::mem::swap(&mut syscall_mgr, &mut self.syscall_mgr);
                return Err(e);
            },
        }
        // Execute syscall
        let mut context = match syscall_mgr.current {
            Some(c) => c,
            None => {
                core::mem::swap(&mut syscall_mgr, &mut self.syscall_mgr);
                return Err(EmulatorError::NoSyscallContext);
            },
        };
        syscall_mgr.current = None;
        match syscall_mgr.execute_syscall(self, &mut context) {
            Ok(_) => {},
            Err(e) => {
                core::mem::swap(&mut syscall_mgr, &mut self.syscall_mgr);
                return Err(e);
            },
        }
        syscall_mgr.current = Some(context);
        // End syscall
        let r = syscall_mgr.end_syscall(self);
        core::mem::swap(&mut syscall_mgr, &mut self.syscall_mgr);
        r
    }

    /// Allocate registers in current frame
    pub fn allocate_registers(&mut self, memory: &mut Memory, count: u32) -> (r: Result<
        (),
        EmulatorError,
    >)
        requires
            old(self).rse.wf(),
        ensures
            final(self).rse.wf(),
            *final(memory) == *old(memory),
            *final(self) == (Cpu { rse: final(self).rse, ..*old(self) }),
            final(self).rse.counts() == crate::cpu::rse::spec_allocate(
                old(self).rse.counts(),
                count as int,
            ),
            final(self).rse.config == old(self).rse.config && final(self).rse.bsp == old(self).rse.bsp
                && final(self).rse.bspstore == old(self).rse.bspstore && final(self).rse.rnat == old(self).rse.rnat,
            crate::cpu::rse::can_allocate(old(self).rse.counts(), count as int) ==> r is Ok,
            !crate::cpu::rse::can_allocate(old(self).rse.counts(), count as int)
                ==> crate::is_rse_error(r, "Not enough registers available"@),
    {
        self.rse.allocate_registers(memory, count)
    }

    /// Deallocate registers from current frame
    pub fn deallocate_registers(&mut self, memory: &mut Memory, count: u32) -> (r: Result<
        (),
        EmulatorError,
    >)
        requires
            old(self).rse.wf(),
            old(memory).wf(),
        ensures
            final(self).rse.wf(),
            final(memory).wf(),
            final(memory)@.loads == old(memory)@.loads,
            final(memory)@.bypass == old(memory)@.bypass,
            *final(self) == (Cpu { rse: final(self).rse, ..*old(self) }),
            final(self).rse.config == old(self).rse.config,
            final(self).rse.bsp == old(self).rse.bsp,
            final(self).rse.rnat == old(self).rse.rnat,
            !crate::cpu::rse::can_deallocate(
                old(self).rse.config.mode,
                old(self).rse.counts(),
                count as int,
            ) ==> crate::is_rse_error(r, "Register count overflow"@) && *final(self) == *old(self)
                && *final(memory) == *old(memory),
            crate::cpu::rse::can_deallocate(
                old(self).rse.config.mode,
                old(self).rse.counts(),
                count as int,
            ) ==> old(self).rse.deallocated(
                old(memory)@.regions,
                count as int,
                &final(self).rse,
                final(memory)@.regions,
                r,
            ) && old(self).rse.deallocation_traced(
                old(memory),
                count as int,
                &final(self).rse,
                final(memory),
            ),
    {
        self.rse.deallocate_registers(memory, count)
    }

    /// Flush RSE
    pub fn flush_rse(&mut self, memory: &mut Memory) -> (r: Result<(), EmulatorError>)
        requires
            old(self).rse.wf(),
            old(memory).wf(),
        ensures
            final(self).rse.wf(),
            final(memory).wf(),
            final(memory)@.loads == old(memory)@.loads,
            final(memory)@.bypass == old(memory)@.bypass,
            *final(self) == (Cpu { rse: final(self).rse, ..*old(self) }),
            final(self).rse.config == old(self).rse.config,
            final(self).rse.bsp == old(self).rse.bsp,
            final(self).rse.rnat == old(self).rse.rnat,
            final(self).rse.invalid_count == old(self).rse.invalid_count,
            old(self).rse.spilled(
                old(memory)@.regions,
                old(self).rse.dirty_count as nat,
                &final(self).rse,
                final(memory)@.regions,
                r,
            ),
            old(self).rse.spill_traced(
                old(memory),
                old(self).rse.dirty_count as nat,
                &final(self).rse,
                final(memory),
            ),
    {
        self.rse.flush(memory)
    }

    /// Handle branch with alloc.
    ///
    /// The frame grows or shrinks to `sof` registers: a larger frame
    /// allocates the difference, a smaller one deallocates it. Then the
    /// frame marker takes the three fields. Fields that are not ordered
    /// `sof >= sol >= sor` are refused before anything changes; if the
    /// register stack engine fails, the frame marker stays as it was.
    pub fn branch_with_alloc(&mut self, memory: &mut Memory, sof: u32, sol: u32, sor: u32) -> (r: Result<
        (),
        EmulatorError,
    >)
        requires
            old(self).rse.wf(),
            old(memory).wf(),
        ensures
            final(self).rse.wf(),
            final(memory).wf(),
            final(memory)@.loads == old(memory)@.loads,
            final(memory)@.bypass == old(memory)@.bypass,
            *final(self) == (Cpu { rse: final(self).rse, cfm: final(self).cfm, ..*old(self) }),
            final(self).cfm == if r is Ok {
                pack_frame(sof as u64, sol as u64, sor as u64)
            } else {
                old(self).cfm
            },
            !frame_ordered(sof as u64, sol as u64, sor as u64) ==> is_cpu_state_error(
                r,
                "Invalid frame marker values"@,
            ) && *final(self) == *old(self) && *final(memory) == *old(memory),
            frame_ordered(sof as u64, sol as u64, sor as u64) ==> {
                let old_sof = frame_sof(old(self).cfm);
                &&& sof > old_sof ==> *final(memory) == *old(memory) && final(self).rse.counts()
                    == crate::cpu::rse::spec_allocate(old(self).rse.counts(), sof - old_sof) && (r is Ok
                    <==> crate::cpu::rse::can_allocate(old(self).rse.counts(), sof - old_sof))
                &&& sof < old_sof ==> if crate::cpu::rse::can_deallocate(
                    old(self).rse.config.mode,
                    old(self).rse.counts(),
                    old_sof - sof,
                ) {
                    old(self).rse.deallocated(
                        old(memory)@.regions,
                        old_sof - sof,
                        &final(self).rse,
                        final(memory)@.regions,
                        r,
                    ) && old(self).rse.deallocation_traced(
                        old(memory),
                        old_sof - sof,
                        &final(self).rse,
                        final(memory),
                    )
                } else {
                    r is Err && final(self).rse == old(self).rse && *final(memory) == *old(memory)
                }
                &&& sof == old_sof ==> r is Ok && final(self).rse == old(self).rse && *final(memory)
                    == *old(memory)
            },
    {
        if sof < sol || sol < sor {
            return Err(EmulatorError::CpuStateError(String::from_str("Invalid frame marker values")));
        }
        proof {
            lemma_small_fields(self.cfm);
        }
        let old_sof = (self.cfm & FRAME_FIELD_MASK) as u32;
        if sof > old_sof {
            match self.rse.allocate_registers(memory, sof - old_sof) {
                Ok(_) => {},
                Err(e) => {
                    return Err(e);
                },
            }
        } else if old_sof > sof {
            match self.rse.deallocate_registers(memory, old_sof - sof) {
                Ok(_) => {},
                Err(e) => {
                    return Err(e);
                },
            }
        }
        self.cfm = make_frame(sof as u64, sol as u64, sor as u64);
        Ok(())
    }

    /// Handle return.
    ///
    /// The registers of the current frame are deallocated and the frame
    /// marker is restored from the previous function state. A previous
    /// function state whose fields are not ordered `sof >= sol >= sor` is
    /// refused before anything changes; if the register stack engine fails,
    /// the frame marker stays as it was.
    pub fn handle_return(&mut self, memory: &mut Memory) -> (r: Result<(), EmulatorError>)
        requires
            old(self).rse.wf(),
            old(memory).wf(),
        ensures
            final(self).rse.wf(),
            final(memory).wf(),
            final(memory)@.loads == old(memory)@.loads,
            final(memory)@.bypass == old(memory)@.bypass,
            *final(self) == (Cpu { rse: final(self).rse, cfm: final(self).cfm, ..*old(self) }),
            final(self).cfm == if r is Ok {
                pack_frame(frame_sof(old(self).pfs), frame_sol(old(self).pfs), frame_sor(old(self).pfs))
            } else {
                old(self).cfm
            },
            !frame_ordered(frame_sof(old(self).pfs), frame_sol(old(self).pfs), frame_sor(old(self).pfs))
                ==> is_cpu_state_error(r, "Invalid frame marker values"@) && *final(self) == *old(self)
                && *final(memory) == *old(memory),
            frame_ordered(frame_sof(old(self).pfs), frame_sol(old(self).pfs), frame_sor(old(self).pfs))
                ==> if crate::cpu::rse::can_deallocate(
                old(self).rse.config.mode,
                old(self).rse.counts(),
                frame_sof(old(self).cfm) as int,
            ) {
                old(self).rse.deallocated(
                    old(memory)@.regions,
                    frame_sof(old(self).cfm) as int,
                    &final(self).rse,
                    final(memory)@.regions,
                    r,
                ) && old(self).rse.deallocation_traced(
                    old(memory),
                    frame_sof(old(self).cfm) as int,
                    &final(self).rse,
                    final(memory),
                )
            } else {
                r is Err && final(self).rse == old(self).rse && *final(memory) == *old(memory)
            },
    {
        // Get previous frame state from PFS
        let prev_sof = self.pfs & FRAME_FIELD_MASK;
        let prev_sol = (self.pfs >> 7) & FRAME_FIELD_MASK;
        let prev_sor = (self.pfs >> 14) & FRAME_FIELD_MASK;
        if prev_sof < prev_sol || prev_sol < prev_sor {
            return Err(EmulatorError::CpuStateError(String::from_str("Invalid frame marker values")));
        }
        proof {
            lemma_small_fields(self.cfm);
        }
        // Get current frame size
        let curr_sof = (self.cfm & FRAME_FIELD_MASK) as u32;
        // Deallocate current frame
        match self.rse.deallocate_registers(memory, curr_sof) {
            Ok(_) => {},
            Err(e) => {
                return Err(e);
            },
        }
        // Restore previous frame
        self.cfm = make_frame(prev_sof, prev_sol, prev_sor);
        Ok(())
    }
}

impl Default for Cpu {
    fn default() -> (cpu: Self)
        ensures
            cpu.wf(),
            cpu.registers_clear(),
    {
        Self::new()
    }
}

} // verus!
