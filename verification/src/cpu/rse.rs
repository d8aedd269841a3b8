//! Register Stack Engine (RSE)
//!
//! This module implements the IA-64 Register Stack Engine, which manages
//! the register stack and performs register renaming.
//!
//! The engine counts the stacked registers in three classes: dirty (not yet
//! in the backing store), clean (in the backing store and in the register
//! file) and invalid (in the backing store only). The three counts together
//! never exceed `u32::MAX`.

use vstd::prelude::*;
use vstd::string::*;
use crate::memory::{
    bytes_of,
    can_load,
    can_store,
    is_access_trace,
    lemma_access_trace_grows,
    store_bytes,
    u64_from_le,
    u64_to_le,
    Memory,
    RegionView,
    WordAccess,
};
use crate::{is_execution_error, is_rse_error, EmulatorError};

verus! {

/// Size of each register frame in bytes (512 bytes = 64 registers * 8 bytes)
pub const FRAME_SIZE: u64 = 512;

/// Maximum number of dirty registers before forced spill
pub const MAX_DIRTY_REGS: u32 = 48;

/// Register frame information
#[derive(Debug, Clone, Copy)]
pub struct FrameInfo {
    /// Size of local area
    pub locals: u32,
    /// Size of output area
    pub outputs: u32,
    /// Base of current frame
    pub base: u32,
}

/// Backing store state
#[derive(Debug)]
pub struct BackingStore {
    /// Base address of backing store
    pub base: u64,
    /// Current top of backing store
    pub top: u64,
    /// Store limit
    pub limit: u64,
}

impl BackingStore {
    /// The top lies between the base and the limit.
    pub open spec fn wf(&self) -> bool {
        self.base <= self.top <= self.limit
    }

    /// Create new backing store of `size` bytes at `base`, empty.
    pub fn new(base: u64, size: u64) -> (s: Self)
        requires
            base + size <= u64::MAX,
        ensures
            s.base == base,
            s.top == base,
            s.limit == base + size,
            s.wf(),
    {
        Self { base, top: base, limit: base + size }
    }

    /// Check if store is full
    pub fn is_full(&self) -> (b: bool)
        ensures
            b == (self.top >= self.limit),
    {
        self.top >= self.limit
    }

    /// Get available space
    pub fn available_space(&self) -> (n: u64)
        requires
            self.wf(),
        ensures
            n == self.limit - self.top,
    {
        self.limit - self.top
    }

    /// Advance top pointer by `size` bytes, unless that would pass the
    /// limit.
    pub fn advance(&mut self, size: u64) -> (r: Result<(), EmulatorError>)
        requires
            old(self).wf(),
        ensures
            final(self).wf(),
            final(self).base == old(self).base,
            final(self).limit == old(self).limit,
            old(self).top + size <= old(self).limit ==> r is Ok && final(self).top == old(self).top
                + size,
            old(self).top + size > old(self).limit ==> is_execution_error(r, "Backing store overflow"@)
                && final(self).top == old(self).top,
    {
        if size > self.limit - self.top {
            return Err(EmulatorError::ExecutionError(String::from_str("Backing store overflow")));
        }
        self.top = self.top + size;
        Ok(())
    }
}

/// RSE operating mode
#[derive(Debug, Clone, Copy, PartialEq, Eq, Structural)]
pub enum RSEMode {
    /// Enforced lazy mode
    Enforced,
    /// Eager mode
    Eager,
    /// Lazy mode
    Lazy,
}

/// Load/store ordering
#[derive(Debug, Clone, Copy, PartialEq, Eq, Structural)]
pub enum LoadStoreOrder {
    /// Preserve
    Preserve,
    /// Release
    Release,
}

/// Register Stack Engine configuration
#[derive(Debug, Clone, Copy, PartialEq, Eq, Structural)]
pub struct RSEConfig {
    /// Mode
    pub mode: RSEMode,
    /// Load/store order
    pub load_store_order: LoadStoreOrder,
    /// Store intensity
    pub store_intensity: u8,
    /// Load intensity
    pub load_intensity: u8,
}

impl RSEConfig {
    /// The configuration at reset: lazy, order preserved, no intensity.
    pub open spec fn spec_default() -> RSEConfig {
        RSEConfig {
            mode: RSEMode::Lazy,
            load_store_order: LoadStoreOrder::Preserve,
            store_intensity: 0,
            load_intensity: 0,
        }
    }

    /// The two bits that encode a mode.
    pub open spec fn mode_bits(mode: RSEMode) -> u64 {
        match mode {
            RSEMode::Enforced => 0,
            RSEMode::Eager => 1,
            RSEMode::Lazy => 2,
        }
    }

    /// The configuration held in an RSC image: the mode in bits 16..18 (the
    /// unassigned pattern 3 reads as lazy), the order in bit 18, the store
    /// intensity in bits 19..23 and the load intensity in bits 23..27.
    pub open spec fn spec_from_bits(bits: u64) -> RSEConfig {
        RSEConfig {
            mode: if (bits >> 16) & 0x3 == 0 {
                RSEMode::Enforced
            } else if (bits >> 16) & 0x3 == 1 {
                RSEMode::Eager
            } else {
                RSEMode::Lazy
            },
            load_store_order: if (bits >> 18) & 1 != 0 {
                LoadStoreOrder::Release
            } else {
                LoadStoreOrder::Preserve
            },
            store_intensity: ((bits >> 19) & 0xF) as u8,
            load_intensity: ((bits >> 23) & 0xF) as u8,
        }
    }

    /// The RSC image of the configuration; an intensity keeps its low four
    /// bits.
    pub open spec fn spec_to_bits(&self) -> u64 {
        (Self::mode_bits(self.mode) << 16) | ((if self.load_store_order == LoadStoreOrder::Release {
            1u64
        } else {
            0u64
        }) << 18) | (((self.store_intensity & 0xF) as u64) << 19) | (((self.load_intensity
            & 0xF) as u64) << 23)
    }

    /// Create from raw bits
    #[verifier::when_used_as_spec(spec_from_bits)]
    pub fn from_bits(bits: u64) -> (c: Self)
        ensures
            c == Self::spec_from_bits(bits),
    {
        let m = (bits >> 16) & 0x3;
        Self {
            mode: if m == 0 {
                RSEMode::Enforced
            } else if m == 1 {
                RSEMode::Eager
            } else {
                RSEMode::Lazy
            },
            load_store_order: if (bits >> 18) & 1 != 0 {
                LoadStoreOrder::Release
            } else {
                LoadStoreOrder::Preserve
            },
            store_intensity: ((bits >> 19) & 0xF) as u8,
            load_intensity: ((bits >> 23) & 0xF) as u8,
        }
    }

    /// Convert to raw bits
    #[verifier::when_used_as_spec(spec_to_bits)]
    pub fn to_bits(&self) -> (bits: u64)
        ensures
            bits == self.spec_to_bits(),
    {
        let mode_bits: u64 = match self.mode {
            RSEMode::Enforced => 0,
            RSEMode::Eager => 1,
            RSEMode::Lazy => 2,
        };
        let order_bit: u64 = match self.load_store_order {
            LoadStoreOrder::Preserve => 0,
            LoadStoreOrder::Release => 1,
        };
        (mode_bits << 16) | (order_bit << 18) | (((self.store_intensity & 0xF) as u64) << 19) | (((
        self.load_intensity & 0xF) as u64) << 23)
    }
}

impl Default for RSEConfig {
    fn default() -> (c: Self)
        ensures
            c == RSEConfig::spec_default(),
    {
        Self {
            mode: RSEMode::Lazy,
            load_store_order: LoadStoreOrder::Preserve,
            store_intensity: 0,
            load_intensity: 0,
        }
    }
}

/// A configuration whose intensities fit in four bits survives the trip
/// through its RSC image.
pub proof fn lemma_config_round_trip(c: RSEConfig)
    requires
        c.store_intensity < 16,
        c.load_intensity < 16,
    ensures
        RSEConfig::spec_from_bits(c.spec_to_bits()) == c,
{
    let m = RSEConfig::mode_bits(c.mode);
    let o = if c.load_store_order == LoadStoreOrder::Release {
        1u64
    } else {
        0u64
    };
    let s = c.store_intensity;
    let l = c.load_intensity;
    let bits = (m << 16) | (o << 18) | (((s & 0xF) as u64) << 19) | (((l & 0xF) as u64) << 23);
    assert((bits >> 16) & 0x3 == m && (bits >> 18) & 1 == o && ((bits >> 19) & 0xF) as u8 == s && ((bits
        >> 23) & 0xF) as u8 == l) by (bit_vector)
        requires
            bits == (m << 16) | (o << 18) | (((s & 0xF) as u64) << 19) | (((l & 0xF) as u64) << 23),
            m < 3,
            o < 2,
            s < 16,
            l < 16,
    ;
}

/// Whether the backing-store slot at `p` is the last of its group of 64, the
/// one that an RNAT word follows.
pub open spec fn is_rnat_slot(p: u64) -> bool {
    (p >> 3) & 0x3F == 0x3F
}

/// The backing-store pointer after the slot at `p`: eight bytes on, and
/// eight more past the RNAT word where one follows the slot. The pointer
/// wraps at the end of the address space.
pub open spec fn next_slot(p: u64) -> u64 {
    if is_rnat_slot(p) {
        p.wrapping_add(16)
    } else {
        p.wrapping_add(8)
    }
}

/// The backing-store pointer `n` registers after `p`.
pub open spec fn pointer_after(p: u64, n: nat) -> u64
    decreases n,
{
    if n == 0 {
        p
    } else {
        next_slot(pointer_after(p, (n - 1) as nat))
    }
}

/// Whether one register can be spilled at `q`: its eight bytes can be
/// stored, and the RNAT word after it where one follows.
pub open spec fn can_spill_one(rs: Seq<RegionView>, q: u64) -> bool {
    &&& can_store(rs, q as int, 8)
    &&& is_rnat_slot(q) ==> can_store(
        store_bytes(rs, q as int, u64_to_le(0)),
        q.wrapping_add(8) as int,
        8,
    )
}

/// Main memory after one register is spilled at `q`: the register's eight
/// bytes, and the RNAT word after them where one follows.
pub open spec fn spill_one(rs: Seq<RegionView>, q: u64, rnat: u64) -> Seq<RegionView> {
    let stored = store_bytes(rs, q as int, u64_to_le(0));
    if is_rnat_slot(q) {
        store_bytes(stored, q.wrapping_add(8) as int, u64_to_le(rnat))
    } else {
        stored
    }
}

/// Main memory after `n` registers are spilled from `p` on.
pub open spec fn spill_regions(rs: Seq<RegionView>, p: u64, rnat: u64, n: nat) -> Seq<RegionView>
    decreases n,
{
    if n == 0 {
        rs
    } else {
        spill_one(spill_regions(rs, p, rnat, (n - 1) as nat), pointer_after(p, (n - 1) as nat), rnat)
    }
}

/// Whether `n` registers can be spilled from `p` on.
pub open spec fn can_spill(rs: Seq<RegionView>, p: u64, rnat: u64, n: nat) -> bool
    decreases n,
{
    n == 0 || (can_spill(rs, p, rnat, (n - 1) as nat) && can_spill_one(
        spill_regions(rs, p, rnat, (n - 1) as nat),
        pointer_after(p, (n - 1) as nat),
    ))
}

/// The stores that spill `n` registers from `p` on, in their order: each
/// register's word, and the RNAT word after it where one follows.
pub open spec fn spill_accesses(p: u64, rnat: u64, n: nat) -> Seq<WordAccess>
    decreases n,
{
    if n == 0 {
        Seq::empty()
    } else {
        let q = pointer_after(p, (n - 1) as nat);
        let register = spill_accesses(p, rnat, (n - 1) as nat).push(WordAccess::Store { addr: q, value: 0 });
        if is_rnat_slot(q) {
            register.push(WordAccess::Store { addr: q.wrapping_add(8), value: rnat })
        } else {
            register
        }
    }
}

/// The stores that a spill of `n` registers from `p` on attempts, where
/// `done` registers are spilled when it ends. A spill that cannot go
/// through ends with the store that memory refuses: the word of the next
/// register, or the RNAT word after it.
pub open spec fn spill_attempt(rs: Seq<RegionView>, p: u64, rnat: u64, n: nat, done: nat) -> Seq<
    WordAccess,
> {
    let made = spill_accesses(p, rnat, done);
    if can_spill(rs, p, rnat, n) {
        made
    } else {
        let q = pointer_after(p, done);
        let register = made.push(WordAccess::Store { addr: q, value: 0 });
        if can_store(spill_regions(rs, p, rnat, done), q as int, 8) {
            register.push(WordAccess::Store { addr: q.wrapping_add(8), value: rnat })
        } else {
            register
        }
    }
}

/// If `n` registers can be spilled, so can any fewer.
pub proof fn lemma_can_spill_prefix(rs: Seq<RegionView>, p: u64, rnat: u64, n: nat, k: nat)
    requires
        k <= n,
        can_spill(rs, p, rnat, n),
    ensures
        can_spill(rs, p, rnat, k),
    decreases n,
{
    if k < n {
        lemma_can_spill_prefix(rs, p, rnat, (n - 1) as nat, k);
    }
}

/// Whether one register can be filled from `q`: its eight bytes can be
/// loaded, and the RNAT word after it where one follows.
pub open spec fn can_fill_one(rs: Seq<RegionView>, q: u64) -> bool {
    &&& can_load(rs, q as int, 8)
    &&& is_rnat_slot(q) ==> can_load(rs, q.wrapping_add(8) as int, 8)
}

/// Whether `n` registers can be filled from `p` on.
pub open spec fn can_fill(rs: Seq<RegionView>, p: u64, n: nat) -> bool
    decreases n,
{
    n == 0 || (can_fill(rs, p, (n - 1) as nat) && can_fill_one(rs, pointer_after(p, (n - 1) as nat)))
}

/// The loads that fill `n` registers from `p` on, in their order: each
/// register's word, and the RNAT word after it where one follows.
pub open spec fn fill_accesses(p: u64, n: nat) -> Seq<WordAccess>
    decreases n,
{
    if n == 0 {
        Seq::empty()
    } else {
        let q = pointer_after(p, (n - 1) as nat);
        let register = fill_accesses(p, (n - 1) as nat).push(WordAccess::Load { addr: q });
        if is_rnat_slot(q) {
            register.push(WordAccess::Load { addr: q.wrapping_add(8) })
        } else {
            register
        }
    }
}

/// The loads that a fill of `n` registers from `p` on attempts, where
/// `done` registers are filled when it ends. A fill that cannot go through
/// ends with the load that memory refuses: the word of the next register,
/// or the RNAT word after it.
pub open spec fn fill_attempt(rs: Seq<RegionView>, p: u64, n: nat, done: nat) -> Seq<WordAccess> {
    let made = fill_accesses(p, done);
    if can_fill(rs, p, n) {
        made
    } else {
        let q = pointer_after(p, done);
        let register = made.push(WordAccess::Load { addr: q });
        if can_load(rs, q as int, 8) {
            register.push(WordAccess::Load { addr: q.wrapping_add(8) })
        } else {
            register
        }
    }
}

/// The NaT collection after `n` registers are filled from `p` on: the RNAT
/// word that follows the last group boundary passed, or `rnat` if none was.
pub open spec fn rnat_after_fill(rs: Seq<RegionView>, p: u64, rnat: u64, n: nat) -> u64
    decreases n,
{
    if n == 0 {
        rnat
    } else {
        let q = pointer_after(p, (n - 1) as nat);
        if is_rnat_slot(q) {
            u64_from_le(bytes_of(rs, q.wrapping_add(8) as int, 8))
        } else {
            rnat_after_fill(rs, p, rnat, (n - 1) as nat)
        }
    }
}

/// The three register counts of the engine.
pub struct Counts {
    /// Number of dirty registers
    pub dirty: int,
    /// Number of clean registers
    pub clean: int,
    /// Number of invalid registers
    pub invalid: int,
}

/// The lesser of two integers.
pub open spec fn min_int(a: int, b: int) -> int {
    if a <= b {
        a
    } else {
        b
    }
}

/// `a - b`, or zero where that would be negative.
pub open spec fn monus(a: int, b: int) -> int {
    if a >= b {
        a - b
    } else {
        0
    }
}

/// How many clean registers an allocation of `n` uses.
pub open spec fn clean_used(c: Counts, n: int) -> int {
    min_int(n, c.clean)
}

/// Whether an allocation of `n` registers succeeds: the clean and invalid
/// registers together suffice.
pub open spec fn can_allocate(c: Counts, n: int) -> bool {
    n - clean_used(c, n) <= c.invalid
}

/// The counts after an allocation of `n` registers: clean registers are
/// used first, invalid ones for the rest. Where the invalid ones do not
/// suffice, the clean ones are used all the same.
pub open spec fn spec_allocate(c: Counts, n: int) -> Counts {
    let used = clean_used(c, n);
    if can_allocate(c, n) {
        Counts { dirty: c.dirty + n, clean: c.clean - used, invalid: c.invalid - (n - used) }
    } else {
        Counts { dirty: c.dirty + used, clean: c.clean - used, invalid: c.invalid }
    }
}

/// How many registers a deallocation of `n` spills first.
pub open spec fn spilled_by(mode: RSEMode, c: Counts, n: int) -> int {
    match mode {
        RSEMode::Lazy => 0,
        RSEMode::Eager => min_int(n, c.dirty),
        RSEMode::Enforced => c.dirty,
    }
}

/// The counts after a deallocation of `n` registers.
///
/// Lazy: the dirty registers give up `min(n, dirty)`, the clean ones what
/// is left of `n`. Eager: `min(n, dirty)` registers are spilled and become
/// clean, then the clean ones give up what is left of `n`. Enforced: every
/// dirty register is spilled and becomes clean, then the clean ones give up
/// `n` less the number spilled. In each mode `n` registers become invalid.
pub open spec fn spec_deallocate(mode: RSEMode, c: Counts, n: int) -> Counts {
    match mode {
        RSEMode::Lazy => Counts {
            dirty: c.dirty - min_int(n, c.dirty),
            clean: monus(c.clean, n - min_int(n, c.dirty)),
            invalid: c.invalid + n,
        },
        RSEMode::Eager => Counts {
            dirty: c.dirty - min_int(n, c.dirty),
            clean: monus(c.clean + min_int(n, c.dirty), n - min_int(n, c.dirty)),
            invalid: c.invalid + n,
        },
        RSEMode::Enforced => Counts {
            dirty: 0,
            clean: monus(c.clean + c.dirty, monus(n, c.dirty)),
            invalid: c.invalid + n,
        },
    }
}

/// Whether the counts after a deallocation of `n` registers still fit.
pub open spec fn can_deallocate(mode: RSEMode, c: Counts, n: int) -> bool {
    let d = spec_deallocate(mode, c, n);
    d.dirty + d.clean + d.invalid <= u32::MAX
}

/// In lazy mode, allocating `n` registers and deallocating them again gives
/// the counts back, provided that the allocation succeeds and takes no
/// clean register.
pub proof fn lemma_allocate_deallocate(c: Counts, n: int)
    requires
        0 <= n,
        0 <= c.dirty && 0 <= c.clean && 0 <= c.invalid,
        can_allocate(c, n),
        clean_used(c, n) == 0,
    ensures
        spec_deallocate(RSEMode::Lazy, spec_allocate(c, n), n) == c,
{
}

/// Register Stack Engine state
#[derive(Debug)]
pub struct RSE {
    /// Configuration
    pub config: RSEConfig,
    /// Backing store pointer
    pub bsp: u64,
    /// Backing store pointer for stores
    pub bspstore: u64,
    /// Number of dirty registers
    pub dirty_count: u32,
    /// Number of clean registers
    pub clean_count: u32,
    /// Invalid count
    pub invalid_count: u32,
    /// NaT collection bits
    pub rnat: u64,
}

impl RSE {
    /// The three counts together fit in a `u32`.
    pub open spec fn wf(&self) -> bool {
        self.dirty_count + self.clean_count + self.invalid_count <= u32::MAX
    }

    /// The three register counts.
    pub open spec fn counts(&self) -> Counts {
        Counts {
            dirty: self.dirty_count as int,
            clean: self.clean_count as int,
            invalid: self.invalid_count as int,
        }
    }

    /// Create new RSE: the reset configuration, every pointer and count
    /// zero.
    pub fn new() -> (rse: Self)
        ensures
            rse.config == RSEConfig::spec_default(),
            rse.bsp == 0 && rse.bspstore == 0 && rse.rnat == 0,
            rse.dirty_count == 0 && rse.clean_count == 0 && rse.invalid_count == 0,
            rse.wf(),
    {
        Self {
            config: RSEConfig {
                mode: RSEMode::Lazy,
                load_store_order: LoadStoreOrder::Preserve,
                store_intensity: 0,
                load_intensity: 0,
            },
            bsp: 0,
            bspstore: 0,
            rnat: 0,
            dirty_count: 0,
            clean_count: 0,
            invalid_count: 0,
        }
    }

    /// Get configuration
    pub fn get_config(&self) -> (c: RSEConfig)
        ensures
            c == self.config,
    {
        self.config
    }

    /// Set configuration
    pub fn set_config(&mut self, config: RSEConfig)
        ensures
            *final(self) == (RSE { config, ..*old(self) }),
    {
        self.config = config;
    }

    /// Get backing store pointer
    pub fn get_bsp(&self) -> (v: u64)
        ensures
            v == self.bsp,
    {
        self.bsp
    }

    /// Get backing store pointer for stores
    pub fn get_bspstore(&self) -> (v: u64)
        ensures
            v == self.bspstore,
    {
        self.bspstore
    }

    /// Get NaT collection bits
    pub fn get_rnat(&self) -> (v: u64)
        ensures
            v == self.rnat,
    {
        self.rnat
    }

    /// Spill registers to backing store.
    ///
    /// Each register takes eight bytes at `bspstore`; after the last slot of
    /// a group of 64 the RNAT word takes eight more. A register that is
    /// spilled becomes clean. The spill stops at the first store that
    /// memory refuses; what was spilled before stays spilled.
    pub fn spill_registers(&mut self, memory: &mut Memory, count: u32) -> (r: Result<(), EmulatorError>)
        requires
            old(self).wf(),
            old(memory).wf(),
        ensures
            final(self).wf(),
            final(memory).wf(),
            final(memory)@.loads == old(memory)@.loads,
            final(memory)@.bypass == old(memory)@.bypass,
            final(self).config == old(self).config,
            final(self).bsp == old(self).bsp,
            final(self).rnat == old(self).rnat,
            final(self).invalid_count == old(self).invalid_count,
            count > old(self).dirty_count ==> is_rse_error(r, "Not enough dirty registers to spill"@)
                && *final(self) == *old(self) && *final(memory) == *old(memory),
            count <= old(self).dirty_count ==> old(self).spilled(
                old(memory)@.regions,
                count as nat,
                final(self),
                final(memory)@.regions,
                r,
            ),
            count <= old(self).dirty_count ==> old(self).spill_traced(
                old(memory),
                count as nat,
                final(self),
                final(memory),
            ),
    {
        if count > self.dirty_count {
            return Err(EmulatorError::RSEError(String::from_str("Not enough dirty registers to spill")));
        }
        let ghost rs = memory@.regions;
        let ghost p = self.bspstore;
        let ghost mut steps = seq![*memory];
        let mut i: u32 = 0;
        while i < count
            invariant
                i <= count,
                count <= old(self).dirty_count,
                old(self).wf(),
                memory.wf(),
                rs == old(memory)@.regions,
                p == old(self).bspstore,
                memory@.loads == old(memory)@.loads,
                memory@.bypass == old(memory)@.bypass,
                self.config == old(self).config,
                self.bsp == old(self).bsp,
                self.rnat == old(self).rnat,
                self.invalid_count == old(self).invalid_count,
                self.dirty_count == old(self).dirty_count - i,
                self.clean_count == old(self).clean_count + i,
                self.bspstore == pointer_after(p, i as nat),
                can_spill(rs, p, self.rnat, i as nat),
                memory@.regions == spill_regions(rs, p, self.rnat, i as nat),
                is_access_trace(steps, spill_accesses(p, self.rnat, i as nat)),
                steps.first() == *old(memory),
                steps.last() == *memory,
            decreases count - i,
        {
            proof {
                if can_spill(rs, p, self.rnat, count as nat) {
                    lemma_can_spill_prefix(rs, p, self.rnat, count as nat, (i + 1) as nat);
                }
            }
            let ghost made = spill_accesses(p, self.rnat, i as nat);
            let ghost register = WordAccess::Store { addr: self.bspstore, value: 0 };
            let ghost collection = WordAccess::Store {
                addr: self.bspstore.wrapping_add(8),
                value: self.rnat,
            };
            // Write register value to memory
            let stored = memory.write_u64(self.bspstore, 0);
            proof {
                lemma_access_trace_grows(steps, made, *memory, register);
                steps = steps.push(*memory);
            }
            match stored {
                Ok(_) => {},
                Err(e) => {
                    return Err(e);
                },
            }
            // Update RNAT if needed
            if (self.bspstore >> 3) & 0x3F == 0x3F {
                let stored = memory.write_u64(self.bspstore.wrapping_add(8), self.rnat);
                proof {
                    lemma_access_trace_grows(steps, made.push(register), *memory, collection);
                    steps = steps.push(*memory);
                }
                match stored {
                    Ok(_) => {},
                    Err(e) => {
                        return Err(e);
                    },
                }
                self.bspstore = self.bspstore.wrapping_add(16);
            } else {
                self.bspstore = self.bspstore.wrapping_add(8);
            }
            self.dirty_count = self.dirty_count - 1;
            self.clean_count = self.clean_count + 1;
            i = i + 1;
        }
        Ok(())
    }

    /// What a spill of `n` registers leaves in the caches: the memory
    /// `after_memory` is the memory `before` after the stores that the spill
    /// attempted, one after the other.
    pub open spec fn spill_traced(&self, before: &Memory, n: nat, after: &RSE, after_memory: &Memory) -> bool {
        before.accessed_each(
            after_memory,
            spill_attempt(
                before@.regions,
                self.bspstore,
                self.rnat,
                n,
                (after.clean_count - self.clean_count) as nat,
            ),
        )
    }

    /// How a spill of `n` registers ends, given the memory it started from.
    ///
    /// If all `n` can be spilled it succeeds: the pointer stands `n`
    /// registers on, `n` dirty registers have become clean, and memory holds
    /// them. Otherwise it fails with the error of the store that memory
    /// refused, after some `k < n` registers: the pointer and the counts
    /// stand as after `k`, and memory holds those `k`, and also the next
    /// register if it was only the RNAT word after it that was refused.
    pub open spec fn spilled(
        &self,
        rs: Seq<RegionView>,
        n: nat,
        after: &RSE,
        regions: Seq<RegionView>,
        r: Result<(), EmulatorError>,
    ) -> bool {
        if can_spill(rs, self.bspstore, self.rnat, n) {
            &&& r is Ok
            &&& after.bspstore == pointer_after(self.bspstore, n)
            &&& after.dirty_count == self.dirty_count - n
            &&& after.clean_count == self.clean_count + n
            &&& regions == spill_regions(rs, self.bspstore, self.rnat, n)
        } else {
            &&& r matches Err(EmulatorError::MemoryError(_))
            &&& exists|k: nat|
                {
                    &&& k < n
                    &&& #[trigger] can_spill(rs, self.bspstore, self.rnat, k)
                    &&& !can_spill_one(
                        spill_regions(rs, self.bspstore, self.rnat, k),
                        pointer_after(self.bspstore, k),
                    )
                    &&& after.bspstore == pointer_after(self.bspstore, k)
                    &&& after.dirty_count == self.dirty_count - k
                    &&& after.clean_count == self.clean_count + k
                    &&& regions == if can_store(
                        spill_regions(rs, self.bspstore, self.rnat, k),
                        pointer_after(self.bspstore, k) as int,
                        8,
                    ) {
                        store_bytes(
                            spill_regions(rs, self.bspstore, self.rnat, k),
                            pointer_after(self.bspstore, k) as int,
                            u64_to_le(0),
                        )
                    } else {
                        spill_regions(rs, self.bspstore, self.rnat, k)
                    }
                }
        }
    }
}

/// If `n` registers can be filled, so can any fewer.
pub proof fn lemma_can_fill_prefix(rs: Seq<RegionView>, p: u64, n: nat, k: nat)
    requires
        k <= n,
        can_fill(rs, p, n),
    ensures
        can_fill(rs, p, k),
    decreases n,
{
    if k < n {
        lemma_can_fill_prefix(rs, p, (n - 1) as nat, k);
    }
}

impl RSE {
    /// What a fill of `n` registers leaves in the caches: the memory
    /// `after_memory` is the memory `before` after the loads that the fill
    /// attempted, one after the other.
    pub open spec fn fill_traced(&self, before: &Memory, n: nat, after: &RSE, after_memory: &Memory) -> bool {
        before.accessed_each(
            after_memory,
            fill_attempt(before@.regions, self.bsp, n, (after.clean_count - self.clean_count) as nat),
        )
    }

    /// How a fill of `n` registers ends, given the memory it reads.
    ///
    /// If all `n` can be filled it succeeds: the pointer stands `n`
    /// registers on, `n` invalid registers have become clean, and the NaT
    /// collection is the RNAT word passed last. Otherwise it fails with the
    /// error of the load that memory refused, after some `k < n` registers,
    /// and the state is as after those `k`.
    pub open spec fn filled(
        &self,
        rs: Seq<RegionView>,
        n: nat,
        after: &RSE,
        r: Result<(), EmulatorError>,
    ) -> bool {
        if can_fill(rs, self.bsp, n) {
            &&& r is Ok
            &&& after.bsp == pointer_after(self.bsp, n)
            &&& after.invalid_count == self.invalid_count - n
            &&& after.clean_count == self.clean_count + n
            &&& after.rnat == rnat_after_fill(rs, self.bsp, self.rnat, n)
        } else {
            &&& r matches Err(EmulatorError::MemoryError(_))
            &&& exists|k: nat|
                {
                    &&& k < n
                    &&& #[trigger] can_fill(rs, self.bsp, k)
                    &&& !can_fill_one(rs, pointer_after(self.bsp, k))
                    &&& after.bsp == pointer_after(self.bsp, k)
                    &&& after.invalid_count == self.invalid_count - k
                    &&& after.clean_count == self.clean_count + k
                    &&& after.rnat == rnat_after_fill(rs, self.bsp, self.rnat, k)
                }
        }
    }

    /// Fill registers from backing store.
    ///
    /// Each register is read from eight bytes at `bsp`; after the last slot
    /// of a group of 64 the RNAT word is read into the NaT collection. A
    /// register that is filled becomes clean. The fill stops at the first
    /// load that memory refuses.
    pub fn fill_registers(&mut self, memory: &mut Memory, count: u32) -> (r: Result<(), EmulatorError>)
        requires
            old(self).wf(),
            old(memory).wf(),
        ensures
            final(self).wf(),
            final(memory).wf(),
            final(memory)@ == old(memory)@,
            final(self).config == old(self).config,
            final(self).bspstore == old(self).bspstore,
            final(self).dirty_count == old(self).dirty_count,
            count > old(self).invalid_count ==> is_rse_error(r, "Not enough invalid registers to fill"@)
                && *final(self) == *old(self) && *final(memory) == *old(memory),
            count <= old(self).invalid_count ==> old(self).filled(
                old(memory)@.regions,
                count as nat,
                final(self),
                r,
            ),
            count <= old(self).invalid_count ==> old(self).fill_traced(
                old(memory),
                count as nat,
                final(self),
                final(memory),
            ),
    {
        if count > self.invalid_count {
            return Err(EmulatorError::RSEError(String::from_str("Not enough invalid registers to fill")));
        }
        let ghost rs = memory@.regions;
        let ghost p = self.bsp;
        let ghost rnat0 = self.rnat;
        let ghost mut steps = seq![*memory];
        let mut i: u32 = 0;
        while i < count
            invariant
                i <= count,
                count <= old(self).invalid_count,
                old(self).wf(),
                memory.wf(),
                memory@ == old(memory)@,
                rs == memory@.regions,
                p == old(self).bsp,
                rnat0 == old(self).rnat,
                self.config == old(self).config,
                self.bspstore == old(self).bspstore,
                self.dirty_count == old(self).dirty_count,
                self.invalid_count == old(self).invalid_count - i,
                self.clean_count == old(self).clean_count + i,
                self.bsp == pointer_after(p, i as nat),
                self.rnat == rnat_after_fill(rs, p, rnat0, i as nat),
                can_fill(rs, p, i as nat),
                is_access_trace(steps, fill_accesses(p, i as nat)),
                steps.first() == *old(memory),
                steps.last() == *memory,
            decreases count - i,
        {
            proof {
                if can_fill(rs, p, count as nat) {
                    lemma_can_fill_prefix(rs, p, count as nat, (i + 1) as nat);
                }
            }
            let ghost made = fill_accesses(p, i as nat);
            let ghost register = WordAccess::Load { addr: self.bsp };
            let ghost collection = WordAccess::Load { addr: self.bsp.wrapping_add(8) };
            // Read register value from memory
            let loaded = memory.read_u64(self.bsp);
            proof {
                lemma_access_trace_grows(steps, made, *memory, register);
                steps = steps.push(*memory);
            }
            match loaded {
                Ok(_) => {},
                Err(e) => {
                    return Err(e);
                },
            }
            // Read the RNAT word where one follows the slot
            if (self.bsp >> 3) & 0x3F == 0x3F {
                let loaded = memory.read_u64(self.bsp.wrapping_add(8));
                proof {
                    lemma_access_trace_grows(steps, made.push(register), *memory, collection);
                    steps = steps.push(*memory);
                }
                match loaded {
                    Ok(v) => {
                        self.rnat = v;
                    },
                    Err(e) => {
                        return Err(e);
                    },
                }
                self.bsp = self.bsp.wrapping_add(16);
            } else {
                self.bsp = self.bsp.wrapping_add(8);
            }
            self.invalid_count = self.invalid_count - 1;
            self.clean_count = self.clean_count + 1;
            i = i + 1;
        }
        Ok(())
    }

    /// Flush dirty registers: spill every one of them.
    pub fn flush(&mut self, memory: &mut Memory) -> (r: Result<(), EmulatorError>)
        requires
            old(self).wf(),
            old(memory).wf(),
        ensures
            final(self).wf(),
            final(memory).wf(),
            final(memory)@.loads == old(memory)@.loads,
            final(memory)@.bypass == old(memory)@.bypass,
            final(self).config == old(self).config,
            final(self).bsp == old(self).bsp,
            final(self).rnat == old(self).rnat,
            final(self).invalid_count == old(self).invalid_count,
            old(self).spilled(
                old(memory)@.regions,
                old(self).dirty_count as nat,
                final(self),
                final(memory)@.regions,
                r,
            ),
            old(self).spill_traced(old(memory), old(self).dirty_count as nat, final(self), final(memory)),
            r is Ok ==> final(self).dirty_count == 0,
    {
        let n = self.dirty_count;
        self.spill_registers(memory, n)
    }

    /// Invalidate clean registers: every clean register becomes invalid.
    pub fn invalidate(&mut self)
        requires
            old(self).wf(),
        ensures
            final(self).wf(),
            *final(self) == (RSE {
                clean_count: 0,
                invalid_count: (old(self).invalid_count + old(self).clean_count) as u32,
                ..*old(self)
            }),
    {
        self.invalid_count = self.invalid_count + self.clean_count;
        self.clean_count = 0;
    }

    /// Handle register allocation: take `count` registers, clean ones
    /// first, invalid ones for the rest, and make them dirty. Memory is not
    /// touched.
    pub fn allocate_registers(&mut self, memory: &mut Memory, count: u32) -> (r: Result<
        (),
        EmulatorError,
    >)
        requires
            old(self).wf(),
        ensures
            final(self).wf(),
            *final(memory) == *old(memory),
            final(self).counts() == spec_allocate(old(self).counts(), count as int),
            final(self).config == old(self).config && final(self).bsp == old(self).bsp && final(self).bspstore == old(self).bspstore && final(self).rnat == old(self).rnat,
            can_allocate(old(self).counts(), count as int) ==> r is Ok,
            !can_allocate(old(self).counts(), count as int) ==> is_rse_error(
                r,
                "Not enough registers available"@,
            ),
    {
        // First, try to use clean registers
        let clean_to_use = if count < self.clean_count {
            count
        } else {
            self.clean_count
        };
        if clean_to_use > 0 {
            self.clean_count = self.clean_count - clean_to_use;
            self.dirty_count = self.dirty_count + clean_to_use;
        }
        // If we still need more registers, use invalid ones
        let remaining = count - clean_to_use;
        if remaining > 0 {
            if remaining > self.invalid_count {
                return Err(EmulatorError::RSEError(String::from_str("Not enough registers available")));
            }
            self.invalid_count = self.invalid_count - remaining;
            self.dirty_count = self.dirty_count + remaining;
        }
        Ok(())
    }

    /// How a deallocation of `n` registers ends, given the memory it
    /// started from. The registers that the mode calls for are spilled
    /// first. If that succeeds, the counts are those of `spec_deallocate`;
    /// if it fails, the deallocation fails as the spill did, and the state
    /// is the one the spill left.
    pub open spec fn deallocated(
        &self,
        rs: Seq<RegionView>,
        n: int,
        after: &RSE,
        regions: Seq<RegionView>,
        r: Result<(), EmulatorError>,
    ) -> bool {
        let s = spilled_by(self.config.mode, self.counts(), n) as nat;
        if can_spill(rs, self.bspstore, self.rnat, s) {
            &&& r is Ok
            &&& after.counts() == spec_deallocate(self.config.mode, self.counts(), n)
            &&& after.bspstore == pointer_after(self.bspstore, s)
            &&& regions == spill_regions(rs, self.bspstore, self.rnat, s)
        } else {
            self.spilled(rs, s, after, regions, r) && after.invalid_count == self.invalid_count
        }
    }

    /// What a deallocation of `n` registers leaves in the caches: the memory
    /// `after_memory` is the memory `before` after the stores of the spill
    /// that came first.
    pub open spec fn deallocation_traced(
        &self,
        before: &Memory,
        n: int,
        after: &RSE,
        after_memory: &Memory,
    ) -> bool {
        let s = spilled_by(self.config.mode, self.counts(), n) as nat;
        if can_spill(before@.regions, self.bspstore, self.rnat, s) {
            before.accessed_each(after_memory, spill_accesses(self.bspstore, self.rnat, s))
        } else {
            self.spill_traced(before, s, after, after_memory)
        }
    }

    /// Handle register deallocation: give up `count` registers, which
    /// become invalid. What is spilled first depends on the mode: nothing
    /// when lazy, up to `count` dirty registers when eager, every dirty
    /// register when enforced. The request is refused, with nothing changed,
    /// if the counts would no longer fit in a `u32`.
    pub fn deallocate_registers(&mut self, memory: &mut Memory, count: u32) -> (r: Result<
        (),
        EmulatorError,
    >)
        requires
            old(self).wf(),
            old(memory).wf(),
        ensures
            final(self).wf(),
            final(memory).wf(),
            final(memory)@.loads == old(memory)@.loads,
            final(memory)@.bypass == old(memory)@.bypass,
            final(self).config == old(self).config,
            final(self).bsp == old(self).bsp,
            final(self).rnat == old(self).rnat,
            !can_deallocate(old(self).config.mode, old(self).counts(), count as int) ==> is_rse_error(
                r,
                "Register count overflow"@,
            ) && *final(self) == *old(self) && *final(memory) == *old(memory),
            can_deallocate(old(self).config.mode, old(self).counts(), count as int) ==> old(self).deallocated(
                old(memory)@.regions,
                count as int,
                final(self),
                final(memory)@.regions,
                r,
            ),
            can_deallocate(old(self).config.mode, old(self).counts(), count as int) ==> old(self).deallocation_traced(old(memory), count as int, final(self), final(memory)),
    {
        let d = self.dirty_count as u64;
        let c = self.clean_count as u64;
        let n = count as u64;
        let from_dirty = if n < d {
            n
        } else {
            d
        };
        let (dirty_after, clean_before): (u64, u64) = match self.config.mode {
            RSEMode::Lazy => (d - from_dirty, c),
            RSEMode::Eager => (d - from_dirty, c + from_dirty),
            RSEMode::Enforced => (0, c + d),
        };
        let give_up = match self.config.mode {
            RSEMode::Enforced => if n > d {
                n - d
            } else {
                0
            },
            _ => n - from_dirty,
        };
        let clean_after = if clean_before >= give_up {
            clean_before - give_up
        } else {
            0
        };
        if dirty_after + clean_after + (self.invalid_count as u64) + n > u32::MAX as u64 {
            return Err(EmulatorError::RSEError(String::from_str("Register count overflow")));
        }
        match self.config.mode {
            RSEMode::Lazy => {
                // Just mark registers as invalid
                assert(is_access_trace(seq![*memory], spill_accesses(self.bspstore, self.rnat, 0)));
            },
            RSEMode::Eager => {
                // First spill dirty registers
                match self.spill_registers(memory, from_dirty as u32) {
                    Ok(_) => {},
                    Err(e) => {
                        return Err(e);
                    },
                }
            },
            RSEMode::Enforced => {
                // Similar to eager mode but must spill all registers
                match self.spill_registers(memory, self.dirty_count) {
                    Ok(_) => {},
                    Err(e) => {
                        return Err(e);
                    },
                }
            },
        }
        self.dirty_count = dirty_after as u32;
        self.clean_count = clean_after as u32;
        self.invalid_count = self.invalid_count + count;
        Ok(())
    }
}

impl Default for RSE {
    fn default() -> (rse: Self)
        ensures
            rse.config == RSEConfig::spec_default(),
            rse.bsp == 0 && rse.bspstore == 0 && rse.rnat == 0,
            rse.dirty_count == 0 && rse.clean_count == 0 && rse.invalid_count == 0,
            rse.wf(),
    {
        Self::new()
    }
}

} // verus!
