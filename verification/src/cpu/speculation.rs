//! Speculation handling for IA-64
//!
//! This module implements speculation support including advanced loads,
//! check loads, and speculation recovery.

use vstd::prelude::*;

verus! {

/// Speculation state
#[derive(Debug)]
pub struct SpeculationState {
    /// Whether currently in speculative mode
    pub speculative: bool,
    /// Recovery IP for failed speculation
    pub recovery_ip: u64,
}

impl SpeculationState {
    /// Create new speculation state: not speculative, no recovery point.
    pub fn new() -> (s: Self)
        ensures
            !s.speculative,
            s.recovery_ip == 0,
    {
        Self { speculative: false, recovery_ip: 0 }
    }

    /// Enter speculative mode
    pub fn enter_speculation(&mut self, recovery_ip: u64)
        ensures
            final(self).speculative,
            final(self).recovery_ip == recovery_ip,
    {
        self.speculative = true;
        self.recovery_ip = recovery_ip;
    }

    /// Exit speculative mode
    pub fn exit_speculation(&mut self)
        ensures
            !final(self).speculative,
            final(self).recovery_ip == 0,
    {
        self.speculative = false;
        self.recovery_ip = 0;
    }

    /// Check if in speculative mode
    pub fn is_speculative(&self) -> (b: bool)
        ensures
            b == self.speculative,
    {
        self.speculative
    }

    /// Get recovery IP
    pub fn get_recovery_ip(&self) -> (ip: u64)
        ensures
            ip == self.recovery_ip,
    {
        self.recovery_ip
    }
}

impl Default for SpeculationState {
    fn default() -> (s: Self)
        ensures
            !s.speculative,
            s.recovery_ip == 0,
    {
        Self::new()
    }
}

} // verus!
