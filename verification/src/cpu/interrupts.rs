//! Interrupt and Exception Handling
//!
//! This module implements the IA-64 interrupt and exception handling system,
//! including hardware interrupts, software interrupts, faults, and traps.

use vstd::prelude::*;
use crate::EmulatorError;

verus! {

/// The number of slots in the handler table.
pub const NUM_VECTORS: usize = 32;

/// Interrupt vector numbers
#[derive(Debug, Clone, Copy, PartialEq, Eq, Structural)]
pub enum InterruptVector {
    /// External interrupt
    ExtInt,
    /// Virtual memory fault
    VirtualMemoryFault,
    /// Instruction TLB fault
    InstructionTLBFault,
    /// Data TLB fault
    DataTLBFault,
    /// Alternate instruction TLB fault
    AltInstructionTLBFault,
    /// Alternate data TLB fault
    AltDataTLBFault,
    /// Data nested TLB fault
    DataNestedTLBFault,
    /// Instruction key miss fault
    InstructionKeyMissFault,
    /// Data key miss fault
    DataKeyMissFault,
    /// Dirty-bit fault
    DirtyBitFault,
    /// Instruction access bit fault
    InstructionAccessBitFault,
    /// Data access bit fault
    DataAccessBitFault,
    /// Break instruction fault
    BreakFault,
    /// External reset
    ExternalReset,
    /// NaT consumption fault
    NatConsumptionFault,
    /// Reserved register/field fault
    ReservedRegisterFault,
    /// Disabled FP-register fault
    DisabledFPRegisterFault,
    /// Unimplemented data address fault
    UnimplementedDataAddressFault,
    /// Privileged operation fault
    PrivilegedOperationFault,
    /// Disabled instruction set transition fault
    DisabledISATransitionFault,
    /// Illegal operation fault
    IllegalOperationFault,
    /// Illegal dependency fault
    IllegalDependencyFault,
    /// Debug fault
    DebugFault,
    /// Unaligned reference fault
    UnalignedReferenceFault,
    /// Unsupported data reference fault
    UnsupportedDataReferenceFault,
    /// Floating-point fault
    FPFault,
    /// Floating-point trap
    FPTrap,
    /// Lower-privilege transfer trap
    LowerPrivilegeTransferTrap,
    /// Taken branch trap
    TakenBranchTrap,
    /// Single step trap
    SingleStepTrap,
}

impl InterruptVector {
    /// The vector's slot in the handler table.
    pub open spec fn spec_index(self) -> int {
        match self {
            InterruptVector::ExtInt => 0,
            InterruptVector::VirtualMemoryFault => 1,
            InterruptVector::InstructionTLBFault => 2,
            InterruptVector::DataTLBFault => 3,
            InterruptVector::AltInstructionTLBFault => 4,
            InterruptVector::AltDataTLBFault => 5,
            InterruptVector::DataNestedTLBFault => 6,
            InterruptVector::InstructionKeyMissFault => 7,
            InterruptVector::DataKeyMissFault => 8,
            InterruptVector::DirtyBitFault => 9,
            InterruptVector::InstructionAccessBitFault => 10,
            InterruptVector::DataAccessBitFault => 11,
            InterruptVector::BreakFault => 12,
            InterruptVector::ExternalReset => 13,
            InterruptVector::NatConsumptionFault => 14,
            InterruptVector::ReservedRegisterFault => 15,
            InterruptVector::DisabledFPRegisterFault => 16,
            InterruptVector::UnimplementedDataAddressFault => 17,
            InterruptVector::PrivilegedOperationFault => 18,
            InterruptVector::DisabledISATransitionFault => 19,
            InterruptVector::IllegalOperationFault => 20,
            InterruptVector::IllegalDependencyFault => 21,
            InterruptVector::DebugFault => 22,
            InterruptVector::UnalignedReferenceFault => 23,
            InterruptVector::UnsupportedDataReferenceFault => 24,
            InterruptVector::FPFault => 25,
            InterruptVector::FPTrap => 26,
            InterruptVector::LowerPrivilegeTransferTrap => 27,
            InterruptVector::TakenBranchTrap => 28,
            InterruptVector::SingleStepTrap => 29,
        }
    }

    /// The vector's slot in the handler table.
    pub fn index(self) -> (r: usize)
        ensures
            r == self.spec_index(),
            r < 30,
    {
        match self {
            InterruptVector::ExtInt => 0,
            InterruptVector::VirtualMemoryFault => 1,
            InterruptVector::InstructionTLBFault => 2,
            InterruptVector::DataTLBFault => 3,
            InterruptVector::AltInstructionTLBFault => 4,
            InterruptVector::AltDataTLBFault => 5,
            InterruptVector::DataNestedTLBFault => 6,
            InterruptVector::InstructionKeyMissFault => 7,
            InterruptVector::DataKeyMissFault => 8,
            InterruptVector::DirtyBitFault => 9,
            InterruptVector::InstructionAccessBitFault => 10,
            InterruptVector::DataAccessBitFault => 11,
            InterruptVector::BreakFault => 12,
            InterruptVector::ExternalReset => 13,
            InterruptVector::NatConsumptionFault => 14,
            InterruptVector::ReservedRegisterFault => 15,
            InterruptVector::DisabledFPRegisterFault => 16,
            InterruptVector::UnimplementedDataAddressFault => 17,
            InterruptVector::PrivilegedOperationFault => 18,
            InterruptVector::DisabledISATransitionFault => 19,
            InterruptVector::IllegalOperationFault => 20,
            InterruptVector::IllegalDependencyFault => 21,
            InterruptVector::DebugFault => 22,
            InterruptVector::UnalignedReferenceFault => 23,
            InterruptVector::UnsupportedDataReferenceFault => 24,
            InterruptVector::FPFault => 25,
            InterruptVector::FPTrap => 26,
            InterruptVector::LowerPrivilegeTransferTrap => 27,
            InterruptVector::TakenBranchTrap => 28,
            InterruptVector::SingleStepTrap => 29,
        }
    }
}

/// Interrupt state information
#[derive(Debug, Clone, Copy)]
pub struct InterruptState {
    /// Interrupt vector number
    pub vector: InterruptVector,
    /// Instruction pointer where interrupt occurred
    pub ip: u64,
    /// Processor status register at time of interrupt
    pub psr: u64,
    /// Instruction bundle that caused the interrupt
    pub bundle: [u8; 16],
    /// Additional interrupt-specific information
    pub info: u64,
}

impl InterruptState {
    /// The privilege level recorded in the saved status register: bits 32
    /// and 33.
    pub open spec fn privilege(&self) -> u64 {
        (self.psr >> 32) & 0x3
    }
}

/// Interrupt handler table entry
#[derive(Debug, Clone, Copy, PartialEq, Eq, Structural)]
pub struct HandlerEntry {
    /// Handler function address
    pub address: u64,
    /// Minimum privilege level required
    pub min_privilege: u8,
    /// Whether handler is enabled
    pub enabled: bool,
}

impl HandlerEntry {
    /// Whether the handler takes an interrupt raised in the state `state`:
    /// it is enabled and the state's privilege level is at least the
    /// handler's minimum.
    pub open spec fn accepts(&self, state: InterruptState) -> bool {
        self.enabled && state.privilege() >= self.min_privilege as u64
    }
}

/// Interrupt handler table
#[derive(Debug)]
pub struct InterruptTable {
    /// Handler entries indexed by vector number
    pub handlers: Vec<HandlerEntry>,
}

impl InterruptTable {
    /// The table has its 32 slots.
    pub open spec fn wf(&self) -> bool {
        self.handlers@.len() == NUM_VECTORS
    }

    /// Create new interrupt table: 32 slots, no handler enabled.
    pub fn new() -> (t: Self)
        ensures
            t.wf(),
            forall|i: int|
                0 <= i < 32 ==> (#[trigger] t.handlers@[i]) == (HandlerEntry {
                    address: 0,
                    min_privilege: 0,
                    enabled: false,
                }),
    {
        let mut handlers: Vec<HandlerEntry> = Vec::new();
        let mut i: usize = 0;
        while i < NUM_VECTORS
            invariant
                i <= 32,
                handlers@.len() == i,
                forall|j: int|
                    0 <= j < i ==> (#[trigger] handlers@[j]) == (HandlerEntry {
                        address: 0,
                        min_privilege: 0,
                        enabled: false,
                    }),
            decreases 32 - i,
        {
            handlers.push(HandlerEntry { address: 0, min_privilege: 0, enabled: false });
            i = i + 1;
        }
        Self { handlers }
    }

    /// Register interrupt handler: the vector's slot takes the handler,
    /// enabled.
    pub fn register_handler(&mut self, vector: InterruptVector, address: u64, min_privilege: u8) -> (r: Result<
        (),
        EmulatorError,
    >)
        requires
            old(self).wf(),
        ensures
            r is Ok,
            final(self).wf(),
            final(self).handlers@ == old(self).handlers@.update(
                vector.spec_index(),
                HandlerEntry { address, min_privilege, enabled: true },
            ),
    {
        let idx = vector.index();
        self.handlers[idx] = HandlerEntry { address, min_privilege, enabled: true };
        Ok(())
    }

    /// Enable/disable handler
    pub fn set_handler_enabled(&mut self, vector: InterruptVector, enabled: bool) -> (r: Result<
        (),
        EmulatorError,
    >)
        requires
            old(self).wf(),
        ensures
            r is Ok,
            final(self).wf(),
            final(self).handlers@ == old(self).handlers@.update(
                vector.spec_index(),
                HandlerEntry { enabled, ..old(self).handlers@[vector.spec_index()] },
            ),
    {
        let idx = vector.index();
        self.handlers[idx].enabled = enabled;
        assert(self.handlers@ =~= old(self).handlers@.update(
            vector.spec_index(),
            HandlerEntry { enabled, ..old(self).handlers@[vector.spec_index()] },
        ));
        Ok(())
    }

    /// The address of the vector's handler, if it is enabled.
    pub open spec fn spec_handler_address(&self, vector: InterruptVector) -> Option<u64> {
        if self.handlers@[vector.spec_index()].enabled {
            Some(self.handlers@[vector.spec_index()].address)
        } else {
            None
        }
    }

    /// Get handler address
    pub fn get_handler_address(&self, vector: InterruptVector) -> (r: Result<Option<u64>, EmulatorError>)
        requires
            self.wf(),
        ensures
            r matches Ok(a) && a == self.spec_handler_address(vector),
    {
        let idx = vector.index();
        let handler = self.handlers[idx];
        if handler.enabled {
            Ok(Some(handler.address))
        } else {
            Ok(None)
        }
    }
}

/// Interrupt controller state
#[derive(Debug)]
pub struct InterruptController {
    /// Interrupt table
    pub table: InterruptTable,
    /// Pending interrupts
    pub pending: Vec<InterruptState>,
    /// Currently executing interrupt
    pub current: Option<InterruptState>,
    /// Interrupt nesting level
    pub nesting_level: u32,
    /// Whether interrupts are enabled
    pub interrupts_enabled: bool,
}

/// The pending stack after its top is taken and the interrupt that was
/// current, if there was one, is put back.
pub open spec fn pending_after_take(pending: Seq<InterruptState>, current: Option<InterruptState>) -> Seq<
    InterruptState,
> {
    match current {
        Some(c) => pending.drop_last().push(c),
        None => pending.drop_last(),
    }
}

/// The nesting level one deeper; it stays at its greatest value once there.
pub open spec fn deeper(level: u32) -> u32 {
    if level < u32::MAX {
        (level + 1) as u32
    } else {
        level
    }
}

impl InterruptController {
    /// The handler table is well formed.
    pub open spec fn wf(&self) -> bool {
        self.table.wf()
    }

    /// Create new interrupt controller: a table of 32 slots without any
    /// handler, nothing pending, nothing current, nesting level zero,
    /// interrupts disabled.
    pub fn new() -> (c: Self)
        ensures
            c.wf(),
            c.pending@.len() == 0,
            c.current is None,
            c.nesting_level == 0,
            !c.interrupts_enabled,
            forall|i: int| 0 <= i < 32 ==> !(#[trigger] c.table.handlers@[i]).enabled,
            forall|i: int|
                0 <= i < 32 ==> (#[trigger] c.table.handlers@[i]) == (HandlerEntry {
                    address: 0,
                    min_privilege: 0,
                    enabled: false,
                }),
    {
        Self {
            table: InterruptTable::new(),
            pending: Vec::new(),
            current: None,
            nesting_level: 0,
            interrupts_enabled: false,
        }
    }

    /// Register interrupt handler
    pub fn register_handler(&mut self, vector: InterruptVector, address: u64, min_privilege: u8) -> (r: Result<
        (),
        EmulatorError,
    >)
        requires
            old(self).wf(),
        ensures
            r is Ok,
            final(self).wf(),
            final(self).table.handlers@ == old(self).table.handlers@.update(
                vector.spec_index(),
                HandlerEntry { address, min_privilege, enabled: true },
            ),
            final(self).pending == old(self).pending,
            final(self).current == old(self).current,
            final(self).nesting_level == old(self).nesting_level,
            final(self).interrupts_enabled == old(self).interrupts_enabled,
    {
        self.table.register_handler(vector, address, min_privilege)
    }

    /// Enable/disable interrupts
    pub fn set_interrupts_enabled(&mut self, enabled: bool)
        ensures
            *final(self) == (InterruptController { interrupts_enabled: enabled, ..*old(self) }),
    {
        self.interrupts_enabled = enabled;
    }

    /// Raise interrupt: the state is pushed on the pending stack.
    pub fn raise_interrupt(&mut self, state: InterruptState)
        ensures
            final(self).pending@ == old(self).pending@.push(state),
            final(self).table == old(self).table,
            final(self).current == old(self).current,
            final(self).nesting_level == old(self).nesting_level,
            final(self).interrupts_enabled == old(self).interrupts_enabled,
    {
        self.pending.push(state);
    }

    /// Check and handle pending interrupts.
    ///
    /// With interrupts disabled or nothing pending, nothing happens.
    /// Otherwise the interrupt raised last is taken from the pending stack,
    /// and the interrupt that was current, if there was one, is put back on
    /// it. If the vector's handler accepts the interrupt, it becomes
    /// current, the nesting level goes up by one, and the handler's address
    /// is returned. If not, the interrupt is dropped and nothing is current.
    pub fn check_interrupts(&mut self) -> (r: Option<u64>)
        requires
            old(self).wf(),
        ensures
            final(self).wf(),
            final(self).table == old(self).table,
            final(self).interrupts_enabled == old(self).interrupts_enabled,
            !old(self).interrupts_enabled || old(self).pending@.len() == 0 ==> r is None && *final(self)
                == *old(self),
            old(self).interrupts_enabled && old(self).pending@.len() > 0 ==> {
                let top = old(self).pending@.last();
                let handler = old(self).table.handlers@[top.vector.spec_index()];
                &&& final(self).pending@ == pending_after_take(old(self).pending@, old(self).current)
                &&& handler.accepts(top) ==> r == Some(handler.address) && final(self).current == Some(
                    top,
                ) && final(self).nesting_level == deeper(old(self).nesting_level)
                &&& !handler.accepts(top) ==> r is None && final(self).current is None && final(self).nesting_level == old(self).nesting_level
            },
    {
        if !self.interrupts_enabled || self.pending.len() == 0 {
            return None;
        }
        // Get highest priority pending interrupt
        let state = match self.pending.pop() {
            Some(s) => s,
            None => {
                return None;
            },
        };
        // Save current state if this is a nested interrupt
        match self.current {
            Some(current) => {
                self.pending.push(current);
            },
            None => {},
        }
        self.current = None;
        // Get handler entry and check privilege
        let handler = self.table.handlers[state.vector.index()];
        if handler.enabled && (state.psr >> 32) & 0x3 >= handler.min_privilege as u64 {
            self.current = Some(state);
            self.nesting_level = self.nesting_level.saturating_add(1);
            return Some(handler.address);
        }
        None
    }

    /// Return from interrupt.
    ///
    /// At nesting level zero nothing happens. Otherwise the level goes down
    /// by one and nothing is current; then, if an interrupt is pending, the
    /// one raised last is taken from the stack, and if its handler is
    /// enabled it becomes current and the handler's address is returned.
    pub fn return_from_interrupt(&mut self) -> (r: Option<u64>)
        requires
            old(self).wf(),
        ensures
            final(self).wf(),
            final(self).table == old(self).table,
            final(self).interrupts_enabled == old(self).interrupts_enabled,
            old(self).nesting_level == 0 ==> r is None && *final(self) == *old(self),
            old(self).nesting_level > 0 ==> final(self).nesting_level == old(self).nesting_level - 1,
            old(self).nesting_level > 0 && old(self).pending@.len() == 0 ==> r is None && final(self).current is None && final(self).pending@ == old(self).pending@,
            old(self).nesting_level > 0 && old(self).pending@.len() > 0 ==> {
                let top = old(self).pending@.last();
                let handler = old(self).table.handlers@[top.vector.spec_index()];
                &&& final(self).pending@ == old(self).pending@.drop_last()
                &&& handler.enabled ==> r == Some(handler.address) && final(self).current == Some(top)
                &&& !handler.enabled ==> r is None && final(self).current is None
            },
    {
        if self.nesting_level == 0 {
            return None;
        }
        self.nesting_level = self.nesting_level - 1;
        self.current = None;
        // Restore previous interrupt state if any
        match self.pending.pop() {
            Some(state) => {
                let handler = self.table.handlers[state.vector.index()];
                if handler.enabled {
                    self.current = Some(state);
                    return Some(handler.address);
                }
            },
            None => {},
        }
        None
    }

    /// Get current interrupt state
    pub fn current_interrupt(&self) -> (r: Option<&InterruptState>)
        ensures
            match r {
                Some(s) => self.current == Some(*s),
                None => self.current is None,
            },
    {
        self.current.as_ref()
    }

    /// Get interrupt nesting level
    pub fn nesting_level(&self) -> (n: u32)
        ensures
            n == self.nesting_level,
    {
        self.nesting_level
    }

    /// Clear all pending interrupts
    pub fn clear_pending(&mut self)
        ensures
            final(self).pending@.len() == 0,
            final(self).table == old(self).table,
            final(self).current == old(self).current,
            final(self).nesting_level == old(self).nesting_level,
            final(self).interrupts_enabled == old(self).interrupts_enabled,
    {
        self.pending.clear();
    }
}

} // verus!
