//! Memory (M-type) instruction implementations
//!
//! This module implements the memory instructions for the IA-64 architecture.
//!
//! A memory instruction computes its effective address, consults or updates
//! the ALAT as its speculation completer asks, and then makes its access.
//! Instructions run one after another, so the ordering completers ask for
//! fences that have nothing to wait for. The cache hint of an instruction is
//! carried for the driver, which sets the hint of the memory before the
//! access.

use vstd::prelude::*;
use vstd::string::*;
use super::branch::is_completer;
use super::{
    check_predicate,
    execution_fault,
    fails,
    immediate_bits,
    source_gr,
    spec_dest_gr,
    spec_predicate,
    spec_source_gr,
    state_fault,
    suppressed,
    unsigned,
    write_gr,
    wrote_gr,
    Fault,
    Instruction,
    InstructionFields,
    AddressingMode,
    RegisterType,
};
use crate::cpu::alat::{spec_add, spec_invalidate};
use crate::cpu::{gr_after_write, gr_value, Cpu};
use crate::memory::{
    byte_of,
    bytes_of,
    can_load,
    can_store,
    can_store_each,
    is_first_unreadable,
    is_first_unwritable,
    is_memory_error,
    lemma_short_loads,
    lemma_short_stores,
    load_failure,
    readable,
    store_byte,
    store_bytes,
    store_failure,
    u16_from_le,
    u16_to_le,
    u32_from_le,
    u32_to_le,
    u64_from_le,
    u64_to_le,
    writable,
    Memory,
    RegionView,
};
use crate::EmulatorError;

verus! {

/// Memory ordering semantics
#[derive(Debug, Clone, Copy, PartialEq, Eq, Structural)]
pub enum MemoryOrdering {
    /// No ordering constraints
    Unordered,
    /// Acquire semantics - no reads can be reordered before this load
    Acquire,
    /// Release semantics - no writes can be reordered after this store
    Release,
    /// Full fence - no reads or writes can be reordered across this operation
    Fence,
}

/// Cache hint types
#[derive(Debug, Clone, Copy, PartialEq, Eq, Structural)]
pub enum CacheHint {
    /// Normal caching behavior
    Normal,
    /// Non-temporal hint (bypass L1)
    NonTemporal1,
    /// Non-temporal hint (bypass all levels)
    NonTemporalAll,
    /// Bias hint (prefer keeping in cache)
    Bias,
}

/// Memory speculation type
#[derive(Debug, Clone, Copy, PartialEq, Eq, Structural)]
pub enum MemorySpeculation {
    /// No speculation
    Normal,
    /// Speculative load
    Speculative,
    /// Advanced load
    Advanced,
    /// Check load, keep the ALAT entry
    CheckNoClr,
    /// Check load, clear the ALAT entry
    CheckClr,
}

/// Semaphore operation type
#[derive(Debug, Clone, Copy, PartialEq, Eq, Structural)]
pub enum SemaphoreOp {
    /// Exchange
    Xchg,
    /// Compare and exchange
    Cmpxchg,
    /// Fetch and add
    Fetchadd,
}

/// Prefetch type
#[derive(Debug, Clone, Copy, PartialEq, Eq, Structural)]
pub enum PrefetchType {
    /// Normal prefetch
    Normal,
    /// Prefetch that reports a fault
    Fault,
    /// Prefetch for exclusive access
    Exclusive,
    /// Prefetch before a write-back
    WriteBack,
}

/// Load sizes
#[derive(Debug, Clone, Copy, PartialEq, Eq, Structural)]
pub enum LoadSize {
    /// Byte (8 bits)
    Byte,
    /// Half word (16 bits)
    Half,
    /// Word (32 bits)
    Word,
    /// Double word (64 bits)
    Double,
}

/// Store sizes
#[derive(Debug, Clone, Copy, PartialEq, Eq, Structural)]
pub enum StoreSize {
    /// Byte (8 bits)
    Byte,
    /// Half word (16 bits)
    Half,
    /// Word (32 bits)
    Word,
    /// Double word (64 bits)
    Double,
}

impl LoadSize {
    /// The number of bytes of an access of this size.
    pub open spec fn spec_width(self) -> u64 {
        match self {
            LoadSize::Byte => 1,
            LoadSize::Half => 2,
            LoadSize::Word => 4,
            LoadSize::Double => 8,
        }
    }

    /// The number of bytes of an access of this size.
    #[verifier::when_used_as_spec(spec_width)]
    pub fn width(self) -> (w: u64)
        ensures
            w == self.spec_width(),
    {
        match self {
            LoadSize::Byte => 1,
            LoadSize::Half => 2,
            LoadSize::Word => 4,
            LoadSize::Double => 8,
        }
    }
}

impl StoreSize {
    /// The load size of the same width.
    pub open spec fn spec_as_load_size(self) -> LoadSize {
        match self {
            StoreSize::Byte => LoadSize::Byte,
            StoreSize::Half => LoadSize::Half,
            StoreSize::Word => LoadSize::Word,
            StoreSize::Double => LoadSize::Double,
        }
    }

    /// The load size of the same width.
    #[verifier::when_used_as_spec(spec_as_load_size)]
    pub fn as_load_size(self) -> (s: LoadSize)
        ensures
            s == self.spec_as_load_size(),
    {
        match self {
            StoreSize::Byte => LoadSize::Byte,
            StoreSize::Half => LoadSize::Half,
            StoreSize::Word => LoadSize::Word,
            StoreSize::Double => LoadSize::Double,
        }
    }
}

/// What the completers of a memory instruction say.
#[derive(Debug, Clone, Copy, PartialEq, Eq, Structural)]
pub struct MemoryHints {
    /// Memory ordering
    pub ordering: MemoryOrdering,
    /// Cache hint
    pub cache_hint: CacheHint,
    /// Speculation
    pub speculation: MemorySpeculation,
}

impl MemoryHints {
    /// The hints of an instruction without completers.
    pub open spec fn initial() -> MemoryHints {
        MemoryHints {
            ordering: MemoryOrdering::Unordered,
            cache_hint: CacheHint::Normal,
            speculation: MemorySpeculation::Normal,
        }
    }

    /// The hints after one more completer. A completer that is not known,
    /// the empty one among them, changes nothing.
    pub open spec fn with(self, completer: Seq<char>) -> MemoryHints {
        if completer == "acq"@ {
            MemoryHints { ordering: MemoryOrdering::Acquire, ..self }
        } else if completer == "rel"@ {
            MemoryHints { ordering: MemoryOrdering::Release, ..self }
        } else if completer == "fence"@ {
            MemoryHints { ordering: MemoryOrdering::Fence, ..self }
        } else if completer == "nt1"@ {
            MemoryHints { cache_hint: CacheHint::NonTemporal1, ..self }
        } else if completer == "nta"@ {
            MemoryHints { cache_hint: CacheHint::NonTemporalAll, ..self }
        } else if completer == "bias"@ {
            MemoryHints { cache_hint: CacheHint::Bias, ..self }
        } else if completer == "s"@ {
            MemoryHints { speculation: MemorySpeculation::Speculative, ..self }
        } else if completer == "a"@ {
            MemoryHints { speculation: MemorySpeculation::Advanced, ..self }
        } else if completer == "c.nc"@ {
            MemoryHints { speculation: MemorySpeculation::CheckNoClr, ..self }
        } else if completer == "c.clr"@ {
            MemoryHints { speculation: MemorySpeculation::CheckClr, ..self }
        } else {
            self
        }
    }

    /// The hints after the `n` first completers of a list, taken in order.
    pub open spec fn after(completers: Seq<String>, n: nat) -> MemoryHints
        decreases n,
    {
        if n == 0 {
            Self::initial()
        } else {
            Self::after(completers, (n - 1) as nat).with(completers[n - 1]@)
        }
    }

    /// The hints that a list of completers gives, if there is a list.
    pub open spec fn of(completers: Option<Vec<String>>) -> MemoryHints {
        match completers {
            Some(list) => Self::after(list@, list@.len()),
            None => Self::initial(),
        }
    }

    /// Read the hints off a list of completers.
    pub fn parse(completers: &Option<Vec<String>>) -> (h: MemoryHints)
        ensures
            h == Self::of(*completers),
    {
        let mut h = MemoryHints {
            ordering: MemoryOrdering::Unordered,
            cache_hint: CacheHint::Normal,
            speculation: MemorySpeculation::Normal,
        };
        match completers {
            Some(list) => {
                let mut i: usize = 0;
                while i < list.len()
                    invariant
                        i <= list@.len(),
                        h == MemoryHints::after(list@, i as nat),
                    decreases list@.len() - i,
                {
                    let completer = &list[i];
                    if is_completer(completer, "acq") {
                        h.ordering = MemoryOrdering::Acquire;
                    } else if is_completer(completer, "rel") {
                        h.ordering = MemoryOrdering::Release;
                    } else if is_completer(completer, "fence") {
                        h.ordering = MemoryOrdering::Fence;
                    } else if is_completer(completer, "nt1") {
                        h.cache_hint = CacheHint::NonTemporal1;
                    } else if is_completer(completer, "nta") {
                        h.cache_hint = CacheHint::NonTemporalAll;
                    } else if is_completer(completer, "bias") {
                        h.cache_hint = CacheHint::Bias;
                    } else if is_completer(completer, "s") {
                        h.speculation = MemorySpeculation::Speculative;
                    } else if is_completer(completer, "a") {
                        h.speculation = MemorySpeculation::Advanced;
                    } else if is_completer(completer, "c.nc") {
                        h.speculation = MemorySpeculation::CheckNoClr;
                    } else if is_completer(completer, "c.clr") {
                        h.speculation = MemorySpeculation::CheckClr;
                    }
                    i = i + 1;
                }
            },
            None => {},
        }
        h
    }
}

/// The value of the general register `reg` as part of an address.
pub open spec fn spec_address_register(cpu: Cpu, reg: u8) -> Result<u64, Fault> {
    if reg < 128 {
        Ok(gr_value(cpu.gr@, reg as int))
    } else {
        Err(state_fault("Invalid general register index"@))
    }
}

/// The effective address of a memory instruction, by its addressing mode:
/// the value of a register, a register plus an offset, a register plus an
/// index register, or an absolute address. Sums wrap at 64 bits.
pub open spec fn spec_effective_address(cpu: Cpu, fields: InstructionFields) -> Result<u64, Fault> {
    match fields.addressing {
        None => Err(execution_fault("Missing addressing mode"@)),
        Some(AddressingMode::Indirect(reg)) => spec_address_register(cpu, reg),
        Some(AddressingMode::IndirectOffset(reg, offset)) => match spec_address_register(cpu, reg) {
            Ok(base) => Ok(base.wrapping_add(unsigned(offset as int))),
            Err(f) => Err(f),
        },
        Some(AddressingMode::IndirectIndex(base, index)) => match spec_address_register(cpu, base) {
            Ok(b) => match spec_address_register(cpu, index) {
                Ok(i) => Ok(b.wrapping_add(i)),
                Err(f) => Err(f),
            },
            Err(f) => Err(f),
        },
        Some(AddressingMode::Absolute(addr)) => Ok(addr),
    }
}

/// Compute the effective address of a memory instruction.
pub fn effective_address(cpu: &Cpu, fields: &InstructionFields) -> (r: Result<u64, EmulatorError>)
    ensures
        match spec_effective_address(*cpu, *fields) {
            Ok(a) => r == Ok::<u64, EmulatorError>(a),
            Err(f) => fails(r, f),
        },
{
    match fields.addressing {
        None => Err(EmulatorError::ExecutionError(String::from_str("Missing addressing mode"))),
        Some(AddressingMode::Indirect(reg)) => cpu.get_gr(reg as usize),
        Some(AddressingMode::IndirectOffset(reg, offset)) => {
            match cpu.get_gr(reg as usize) {
                Ok(base) => Ok(base.wrapping_add(immediate_bits(offset))),
                Err(e) => Err(e),
            }
        },
        Some(AddressingMode::IndirectIndex(base, index)) => {
            let base_val = match cpu.get_gr(base as usize) {
                Ok(v) => v,
                Err(e) => {
                    return Err(e);
                },
            };
            match cpu.get_gr(index as usize) {
                Ok(index_val) => Ok(base_val.wrapping_add(index_val)),
                Err(e) => Err(e),
            }
        },
        Some(AddressingMode::Absolute(addr)) => Ok(addr),
    }
}

/// Whether an access of the given size can be loaded from `addr`.
pub open spec fn can_load_sized(rs: Seq<RegionView>, size: LoadSize, addr: u64) -> bool {
    can_load(rs, addr as int, size.spec_width() as int)
}

/// The value that a load of the given size from `addr` gives: the bytes in
/// little-endian order, extended with zeros.
pub open spec fn loaded_value(rs: Seq<RegionView>, size: LoadSize, addr: u64) -> u64 {
    match size {
        LoadSize::Byte => byte_of(rs, addr as int) as u64,
        LoadSize::Half => u16_from_le(bytes_of(rs, addr as int, 2)) as u64,
        LoadSize::Word => u32_from_le(bytes_of(rs, addr as int, 4)) as u64,
        LoadSize::Double => u64_from_le(bytes_of(rs, addr as int, 8)),
    }
}

/// Whether `after` is the memory `before` after a load of the given size
/// from `addr`: the bytes were loaded one after the other, lowest address
/// first, up to the first that cannot be loaded, and each load left its
/// line in the caches.
pub open spec fn loaded_sized(before: Memory, after: Memory, size: LoadSize, addr: u64) -> bool {
    if can_load_sized(before@.regions, size, addr) {
        before.loaded_block(&after, addr, size.spec_width() as int)
    } else {
        exists|k: int| #[trigger]
            is_first_unreadable(before@.regions, addr as int, size.spec_width() as int, k)
                && before.loaded_block(&after, addr, k)
    }
}

/// Load a value of the given size.
pub fn load_sized(memory: &mut Memory, size: LoadSize, addr: u64) -> (r: Result<u64, EmulatorError>)
    requires
        old(memory).wf(),
    ensures
        final(memory).wf(),
        final(memory)@ == old(memory)@,
        loaded_sized(*old(memory), *final(memory), size, addr),
        match r {
            Ok(v) => can_load_sized(old(memory)@.regions, size, addr) && v == loaded_value(
                old(memory)@.regions,
                size,
                addr,
            ),
            Err(_) => !can_load_sized(old(memory)@.regions, size, addr) && (
            r matches Err(EmulatorError::MemoryError(_))),
        },
{
    match size {
        LoadSize::Byte => {
            let r = memory.read_u8(addr);
            proof {
                lemma_short_loads(*old(memory), *memory, addr);
            }
            match r {
                Ok(v) => {
                    assert forall|k: int| 0 <= k < 1 implies readable(
                        old(memory)@.regions,
                        #[trigger] (addr as int + k),
                    ) by {}
                    Ok(v as u64)
                },
                Err(e) => {
                    assert(is_first_unreadable(old(memory)@.regions, addr as int, 1, 0));
                    Err(e)
                },
            }
        },
        LoadSize::Half => match memory.read_u16(addr) {
            Ok(v) => Ok(v as u64),
            Err(e) => Err(e),
        },
        LoadSize::Word => match memory.read_u32(addr) {
            Ok(v) => Ok(v as u64),
            Err(e) => Err(e),
        },
        LoadSize::Double => memory.read_u64(addr),
    }
}

/// Whether `after` and `r` are what a store of `value` in the given size at
/// `addr` makes of the memory `before`.
///
/// A byte is stored if its address is writable. A half word or a word is
/// stored byte by byte, least significant first: the store stops at the
/// first byte that is not writable, and the bytes before it stay stored. A
/// double word is stored as one block, in the region of `addr` or not at
/// all.
pub open spec fn stored(
    before: Seq<RegionView>,
    size: LoadSize,
    addr: u64,
    value: u64,
    after: Seq<RegionView>,
    r: Result<(), EmulatorError>,
) -> bool {
    match size {
        LoadSize::Byte => if writable(before, addr as int) {
            r is Ok && after == store_byte(before, addr as int, (value & 0xFF) as u8)
        } else {
            is_memory_error(r, store_failure(before, addr as int, 1)) && after == before
        },
        LoadSize::Half => stored_each(before, addr, u16_to_le((value & 0xFFFF) as u16), after, r),
        LoadSize::Word => stored_each(before, addr, u32_to_le((value & 0xFFFF_FFFF) as u32), after, r),
        LoadSize::Double => if can_store(before, addr as int, 8) {
            r is Ok && after == store_bytes(before, addr as int, u64_to_le(value))
        } else {
            is_memory_error(r, store_failure(before, addr as int, 8)) && after == before
        },
    }
}

/// Whether `after` and `r` are what storing `bytes` one by one from `addr`
/// on makes of the memory `before`.
pub open spec fn stored_each(
    before: Seq<RegionView>,
    addr: u64,
    bytes: Seq<u8>,
    after: Seq<RegionView>,
    r: Result<(), EmulatorError>,
) -> bool {
    match r {
        Ok(_) => can_store_each(before, addr as int, bytes.len() as int) && after == store_bytes(
            before,
            addr as int,
            bytes,
        ),
        Err(_) => exists|k: int| #[trigger]
            is_first_unwritable(before, addr as int, bytes.len() as int, k) && is_memory_error(
                r,
                store_failure(before, addr + k, 1),
            ) && after == store_bytes(before, addr as int, bytes.take(k)),
    }
}

/// The bytes that a store of `value` in the given size stores, least
/// significant first.
pub open spec fn value_bytes(size: LoadSize, value: u64) -> Seq<u8> {
    match size {
        LoadSize::Byte => seq![(value & 0xFF) as u8],
        LoadSize::Half => u16_to_le((value & 0xFFFF) as u16),
        LoadSize::Word => u32_to_le((value & 0xFFFF_FFFF) as u32),
        LoadSize::Double => u64_to_le(value),
    }
}

/// Whether `after` is the memory `before` after a store of `value` in the
/// given size at `addr`, caches included. A double word is stored as a
/// block or not at all. Any other size is stored byte after byte, lowest
/// address first, up to the first byte that cannot be stored. Each byte
/// that is stored is written through the enabled cache levels and dropped
/// from the bypassed ones.
pub open spec fn stored_sized(before: Memory, after: Memory, size: LoadSize, addr: u64, value: u64) -> bool {
    let bytes = value_bytes(size, value);
    if size == LoadSize::Double {
        if can_store(before@.regions, addr as int, 8) {
            before.stored_block(&after, addr, bytes)
        } else {
            after == before
        }
    } else {
        if can_store_each(before@.regions, addr as int, bytes.len() as int) {
            before.stored_block(&after, addr, bytes)
        } else {
            exists|k: int| #[trigger]
                is_first_unwritable(before@.regions, addr as int, bytes.len() as int, k)
                    && before.stored_block(&after, addr, bytes.take(k))
        }
    }
}

/// Store a value in the given size.
pub fn store_sized(memory: &mut Memory, size: LoadSize, addr: u64, value: u64) -> (r: Result<
    (),
    EmulatorError,
>)
    requires
        old(memory).wf(),
    ensures
        final(memory).wf(),
        final(memory)@.loads == old(memory)@.loads,
        final(memory)@.bypass == old(memory)@.bypass,
        stored(old(memory)@.regions, size, addr, value, final(memory)@.regions, r),
        stored_sized(*old(memory), *final(memory), size, addr, value),
        r is Err ==> (r matches Err(EmulatorError::MemoryError(_))),
{
    match size {
        LoadSize::Byte => {
            let r = memory.write_u8(addr, (value & 0xFF) as u8);
            proof {
                let bytes = seq![(value & 0xFF) as u8];
                lemma_short_stores(*old(memory), *memory, addr, (value & 0xFF) as u8);
                if r is Ok {
                    assert forall|k: int| 0 <= k < 1 implies writable(
                        old(memory)@.regions,
                        #[trigger] (addr as int + k),
                    ) by {}
                } else {
                    assert(is_first_unwritable(old(memory)@.regions, addr as int, 1, 0));
                    assert(bytes.take(0) =~= Seq::<u8>::empty());
                }
            }
            r
        },
        LoadSize::Half => {
            let r = memory.write_u16(addr, (value & 0xFFFF) as u16);
            proof {
                crate::memory::lemma_le_round_trip((value & 0xFFFF) as u16, 0, 0);
            }
            r
        },
        LoadSize::Word => {
            let r = memory.write_u32(addr, (value & 0xFFFF_FFFF) as u32);
            proof {
                crate::memory::lemma_le_round_trip(0, (value & 0xFFFF_FFFF) as u32, 0);
            }
            r
        },
        LoadSize::Double => memory.write_u64(addr, value),
    }
}

/// The general register that destination operand 0 names, whatever its
/// number.
pub open spec fn spec_target_gr(fields: InstructionFields) -> Result<u8, Fault> {
    if fields.destinations@.len() == 0 {
        Err(execution_fault("Missing destination operand"@))
    } else {
        match fields.destinations@[0] {
            RegisterType::GR(reg) => Ok(reg),
            _ => Err(execution_fault("Invalid destination register type"@)),
        }
    }
}

/// The general register that destination operand 0 names.
pub fn target_gr(fields: &InstructionFields) -> (r: Result<u8, EmulatorError>)
    ensures
        match spec_target_gr(*fields) {
            Ok(reg) => r == Ok::<u8, EmulatorError>(reg),
            Err(f) => fails(r, f),
        },
{
    if fields.destinations.len() == 0 {
        return Err(EmulatorError::ExecutionError(String::from_str("Missing destination operand")));
    }
    match fields.destinations[0] {
        RegisterType::GR(reg) => Ok(reg),
        _ => Err(EmulatorError::ExecutionError(String::from_str("Invalid destination register type"))),
    }
}

/// Load instruction
#[derive(Debug)]
pub struct Load {
    /// The decoded fields
    pub fields: InstructionFields,
    /// The size of the access
    pub size: LoadSize,
    /// Memory ordering
    pub ordering: MemoryOrdering,
    /// Cache hint
    pub cache_hint: CacheHint,
    /// Speculation
    pub speculation: MemorySpeculation,
}

impl Load {
    /// Create new load instruction, without ordering, hint or speculation.
    pub fn new(fields: InstructionFields, size: LoadSize) -> (i: Self)
        ensures
            i.fields == fields,
            i.size == size,
            i.hints() == MemoryHints::initial(),
    {
        Self {
            fields,
            size,
            ordering: MemoryOrdering::Unordered,
            cache_hint: CacheHint::Normal,
            speculation: MemorySpeculation::Normal,
        }
    }

    /// The hints that the load carries.
    pub open spec fn hints(&self) -> MemoryHints {
        MemoryHints {
            ordering: self.ordering,
            cache_hint: self.cache_hint,
            speculation: self.speculation,
        }
    }

    /// Create new load instruction from decoded instruction
    pub fn from_decoded(fields: InstructionFields, size: LoadSize, completers: Option<Vec<String>>) -> (i: Self)
        ensures
            i.fields == fields,
            i.size == size,
            i.hints() == MemoryHints::of(completers),
    {
        let h = MemoryHints::parse(&completers);
        Self {
            fields,
            size,
            ordering: h.ordering,
            cache_hint: h.cache_hint,
            speculation: h.speculation,
        }
    }

    /// Calculate effective address
    pub fn calc_effective_address(&self, cpu: &Cpu) -> (r: Result<u64, EmulatorError>)
        ensures
            match spec_effective_address(*cpu, self.fields) {
                Ok(a) => r == Ok::<u64, EmulatorError>(a),
                Err(f) => fails(r, f),
            },
    {
        effective_address(cpu, &self.fields)
    }

    /// Whether the load works on the ALAT entry of its target register.
    pub open spec fn uses_alat(&self) -> bool {
        self.speculation == MemorySpeculation::Advanced || self.is_check()
    }

    /// Whether the load is a check load.
    pub open spec fn is_check(&self) -> bool {
        self.speculation == MemorySpeculation::CheckNoClr || self.speculation
            == MemorySpeculation::CheckClr
    }

    /// The ALAT after the load has dealt with it: an advanced load enters
    /// its target register, a check load that clears invalidates what the
    /// access touches.
    pub open spec fn entries_after(&self, before: Cpu, addr: u64, reg: u8) -> Seq<
        crate::cpu::alat::Entry,
    > {
        match self.speculation {
            MemorySpeculation::Advanced => spec_add(
                before.alat.entries@,
                addr,
                self.size.spec_width(),
                reg as u32,
                true,
            ),
            MemorySpeculation::CheckClr => spec_invalidate(
                before.alat.entries@,
                addr,
                self.size.spec_width(),
            ),
            _ => before.alat.entries@,
        }
    }

    /// The effect of the load, once its predicate holds and its address is
    /// `addr`.
    ///
    /// A load that uses the ALAT needs a general register as its target. A
    /// check load whose target has no valid ALAT entry is skipped. Otherwise
    /// the ALAT is dealt with, the value is loaded, and the target takes it.
    /// A failure after the ALAT was dealt with leaves the ALAT as dealt
    /// with.
    pub open spec fn access(
        &self,
        before: Cpu,
        rs: Seq<RegionView>,
        addr: u64,
        after: Cpu,
        r: Result<(), EmulatorError>,
    ) -> bool {
        if self.uses_alat() && spec_target_gr(self.fields) is Err {
            fails(r, spec_target_gr(self.fields)->Err_0) && after == before
        } else if self.is_check() && !before.alat.spec_check_register(
            spec_target_gr(self.fields)->Ok_0 as u32,
            true,
        ) {
            r is Ok && after == before
        } else {
            &&& after == (Cpu { alat: after.alat, gr: after.gr, ..before })
            &&& !self.uses_alat() ==> after.alat == before.alat
            &&& self.uses_alat() ==> after.alat.entries@ == self.entries_after(
                before,
                addr,
                spec_target_gr(self.fields)->Ok_0,
            )
            &&& if can_load_sized(rs, self.size, addr) {
                match spec_dest_gr(self.fields, 0) {
                    Ok(d) => r is Ok && after.gr@ == gr_after_write(
                        before.gr@,
                        d,
                        loaded_value(rs, self.size, addr),
                    ),
                    Err(f) => fails(r, f) && after.gr == before.gr,
                }
            } else {
                (r matches Err(EmulatorError::MemoryError(_))) && after.gr == before.gr
            }
        }
    }

    /// What the load leaves in the caches: a load that reaches its access
    /// loads the bytes one after the other; any other leaves the memory as
    /// it was.
    pub open spec fn lookup(&self, cpu: Cpu, before: Memory, after: Memory) -> bool {
        match (spec_predicate(cpu, self.fields.qp), spec_effective_address(cpu, self.fields)) {
            (Ok(true), Ok(addr)) => if self.uses_alat() && spec_target_gr(self.fields) is Err {
                after == before
            } else if self.is_check() && !cpu.alat.spec_check_register(
                spec_target_gr(self.fields)->Ok_0 as u32,
                true,
            ) {
                after == before
            } else {
                loaded_sized(before, after, self.size, addr)
            },
            _ => after == before,
        }
    }

    /// The effect of the load on the processor.
    pub open spec fn effect(
        &self,
        before: Cpu,
        rs: Seq<RegionView>,
        after: Cpu,
        r: Result<(), EmulatorError>,
    ) -> bool {
        match spec_predicate(before, self.fields.qp) {
            Err(f) => fails(r, f) && after == before,
            Ok(false) => r is Ok && after == before,
            Ok(true) => match spec_effective_address(before, self.fields) {
                Err(f) => fails(r, f) && after == before,
                Ok(addr) => self.access(before, rs, addr, after, r),
            },
        }
    }
}

impl Instruction for Load {
    open spec fn qualifying_predicate(&self) -> u8 {
        self.fields.qp
    }

    fn execute(&self, cpu: &mut Cpu, memory: &mut Memory) -> (r: Result<(), EmulatorError>)
        ensures
            final(memory)@ == old(memory)@,
            self.effect(*old(cpu), old(memory)@.regions, *final(cpu), r),
            self.lookup(*old(cpu), *old(memory), *final(memory)),
    {
        // Check predicate
        match check_predicate(cpu, self.fields.qp) {
            Ok(true) => {},
            Ok(false) => {
                return Ok(());
            },
            Err(e) => {
                return Err(e);
            },
        }
        // Calculate effective address
        let addr = match self.calc_effective_address(cpu) {
            Ok(a) => a,
            Err(e) => {
                return Err(e);
            },
        };
        // Handle memory ordering
        match self.ordering {
            MemoryOrdering::Acquire | MemoryOrdering::Fence => {
                let _ = memory.fence();
            },
            _ => {},
        }
        // Handle speculation
        match self.speculation {
            MemorySpeculation::Advanced => {
                let reg = match target_gr(&self.fields) {
                    Ok(reg) => reg,
                    Err(e) => {
                        return Err(e);
                    },
                };
                // Add entry to ALAT with register information
                let _ = cpu.alat_add_entry(addr, self.size.width(), reg as u32, true);
            },
            MemorySpeculation::CheckNoClr | MemorySpeculation::CheckClr => {
                let reg = match target_gr(&self.fields) {
                    Ok(reg) => reg,
                    Err(e) => {
                        return Err(e);
                    },
                };
                // Check if entry exists in ALAT
                if !cpu.alat_check_register(reg as u32, true) {
                    // Entry not found or invalid - skip the load
                    return Ok(());
                }
                match self.speculation {
                    MemorySpeculation::CheckClr => {
                        cpu.alat_invalidate_overlap(addr, self.size.width());
                    },
                    _ => {},
                }
            },
            _ => {},
        }
        // Perform load based on size
        let value = match load_sized(memory, self.size, addr) {
            Ok(v) => v,
            Err(e) => {
                return Err(e);
            },
        };
        // Write value to destination register
        write_gr(cpu, &self.fields, value)
    }
}

/// Store instruction
#[derive(Debug)]
pub struct Store {
    /// The decoded fields
    pub fields: InstructionFields,
    /// The size of the access
    pub size: StoreSize,
    /// Memory ordering
    pub ordering: MemoryOrdering,
    /// Cache hint
    pub cache_hint: CacheHint,
}

impl Store {
    /// Create new store instruction, without ordering or hint.
    pub fn new(fields: InstructionFields, size: StoreSize) -> (i: Self)
        ensures
            i.fields == fields,
            i.size == size,
            i.ordering == MemoryOrdering::Unordered,
            i.cache_hint == CacheHint::Normal,
    {
        Self { fields, size, ordering: MemoryOrdering::Unordered, cache_hint: CacheHint::Normal }
    }

    /// Create new store instruction from decoded instruction
    pub fn from_decoded(fields: InstructionFields, size: StoreSize, completers: Option<Vec<String>>) -> (i: Self)
        ensures
            i.fields == fields,
            i.size == size,
            i.ordering == MemoryHints::of(completers).ordering,
            i.cache_hint == MemoryHints::of(completers).cache_hint,
    {
        let h = MemoryHints::parse(&completers);
        Self { fields, size, ordering: h.ordering, cache_hint: h.cache_hint }
    }

    /// Calculate effective address
    pub fn calc_effective_address(&self, cpu: &Cpu) -> (r: Result<u64, EmulatorError>)
        ensures
            match spec_effective_address(*cpu, self.fields) {
                Ok(a) => r == Ok::<u64, EmulatorError>(a),
                Err(f) => fails(r, f),
            },
    {
        effective_address(cpu, &self.fields)
    }

    /// What the store leaves in the caches: a store that reaches its access
    /// stores its bytes one after the other; any other leaves the memory as
    /// it was.
    pub open spec fn written(&self, cpu: Cpu, before: Memory, after: Memory) -> bool {
        match (
            spec_predicate(cpu, self.fields.qp),
            spec_source_gr(cpu, self.fields, 0),
            spec_effective_address(cpu, self.fields),
        ) {
            (Ok(true), Ok(value), Ok(addr)) => stored_sized(
                before,
                after,
                self.size.spec_as_load_size(),
                addr,
                value,
            ),
            _ => after == before,
        }
    }

    /// The effect of the store on the processor and on memory.
    ///
    /// The value of source operand 0 is stored at the effective address.
    /// After a store that succeeds, the ALAT entries that the store touches
    /// are invalidated. A store that fails leaves the processor as it was.
    pub open spec fn effect(
        &self,
        before: Cpu,
        rs: Seq<RegionView>,
        after: Cpu,
        regions: Seq<RegionView>,
        r: Result<(), EmulatorError>,
    ) -> bool {
        match spec_predicate(before, self.fields.qp) {
            Err(f) => fails(r, f) && after == before && regions == rs,
            Ok(false) => r is Ok && after == before && regions == rs,
            Ok(true) => match spec_source_gr(before, self.fields, 0) {
                Err(f) => fails(r, f) && after == before && regions == rs,
                Ok(value) => match spec_effective_address(before, self.fields) {
                    Err(f) => fails(r, f) && after == before && regions == rs,
                    Ok(addr) => {
                        &&& stored(rs, self.size.spec_as_load_size(), addr, value, regions, r)
                        &&& r is Err ==> after == before
                        &&& r is Ok ==> after == (Cpu { alat: after.alat, ..before })
                            && after.alat.entries@ == spec_invalidate(
                            before.alat.entries@,
                            addr,
                            self.size.spec_as_load_size().spec_width(),
                        )
                    },
                },
            },
        }
    }
}

impl Instruction for Store {
    open spec fn qualifying_predicate(&self) -> u8 {
        self.fields.qp
    }

    fn execute(&self, cpu: &mut Cpu, memory: &mut Memory) -> (r: Result<(), EmulatorError>)
        ensures
            final(memory)@.loads == old(memory)@.loads,
            final(memory)@.bypass == old(memory)@.bypass,
            suppressed(*old(cpu), self.fields.qp) ==> *final(memory) == *old(memory),
            self.effect(*old(cpu), old(memory)@.regions, *final(cpu), final(memory)@.regions, r),
            self.written(*old(cpu), *old(memory), *final(memory)),
    {
        // Check predicate
        match check_predicate(cpu, self.fields.qp) {
            Ok(true) => {},
            Ok(false) => {
                return Ok(());
            },
            Err(e) => {
                return Err(e);
            },
        }
        // Get value to store
        let value = match source_gr(cpu, &self.fields, 0) {
            Ok(v) => v,
            Err(e) => {
                return Err(e);
            },
        };
        // Calculate effective address
        let addr = match self.calc_effective_address(cpu) {
            Ok(a) => a,
            Err(e) => {
                return Err(e);
            },
        };
        // Handle memory ordering
        match self.ordering {
            MemoryOrdering::Release | MemoryOrdering::Fence => {
                let _ = memory.fence();
            },
            _ => {},
        }
        // Perform store based on size
        let size = self.size.as_load_size();
        match store_sized(memory, size, addr, value) {
            Ok(_) => {},
            Err(e) => {
                return Err(e);
            },
        }
        // Invalidate any matching ALAT entries
        cpu.alat_invalidate_overlap(addr, size.width());
        Ok(())
    }
}

/// Prefetch instruction
#[derive(Debug)]
pub struct Prefetch {
    /// The decoded fields
    pub fields: InstructionFields,
    /// The kind of prefetch
    pub prefetch_type: PrefetchType,
    /// Cache hint
    pub cache_hint: CacheHint,
}

impl Prefetch {
    /// Create new prefetch instruction, without hint.
    pub fn new(fields: InstructionFields, prefetch_type: PrefetchType) -> (i: Self)
        ensures
            i.fields == fields,
            i.prefetch_type == prefetch_type,
            i.cache_hint == CacheHint::Normal,
    {
        Self { fields, prefetch_type, cache_hint: CacheHint::Normal }
    }

    /// Create new prefetch instruction from decoded instruction
    pub fn from_decoded(
        fields: InstructionFields,
        prefetch_type: PrefetchType,
        completers: Option<Vec<String>>,
    ) -> (i: Self)
        ensures
            i.fields == fields,
            i.prefetch_type == prefetch_type,
            i.cache_hint == MemoryHints::of(completers).cache_hint,
    {
        let h = MemoryHints::parse(&completers);
        Self { fields, prefetch_type, cache_hint: h.cache_hint }
    }

    /// Calculate effective address
    pub fn calc_effective_address(&self, cpu: &Cpu) -> (r: Result<u64, EmulatorError>)
        ensures
            match spec_effective_address(*cpu, self.fields) {
                Ok(a) => r == Ok::<u64, EmulatorError>(a),
                Err(f) => fails(r, f),
            },
    {
        effective_address(cpu, &self.fields)
    }

    /// What the prefetch leaves in the caches. A prefetch that runs and
    /// whose effective address can be read loads the byte at that address,
    /// so that each cache level does its part of the lookup chain for it.
    /// Every other prefetch leaves the memory as it was.
    pub open spec fn brought_in(&self, cpu: Cpu, before: Memory, after: Memory) -> bool {
        match (spec_predicate(cpu, self.fields.qp), spec_effective_address(cpu, self.fields)) {
            (Ok(true), Ok(addr)) => if readable(before@.regions, addr as int) {
                before.loaded(&after, addr)
            } else {
                after == before
            },
            _ => after == before,
        }
    }

    /// How the prefetch ends. It reads one byte at its effective address
    /// to bring the line into the caches. Only a faulting prefetch reports
    /// that the byte cannot be read.
    pub open spec fn outcome(&self, cpu: Cpu, rs: Seq<RegionView>, r: Result<(), EmulatorError>) -> bool {
        match spec_predicate(cpu, self.fields.qp) {
            Err(f) => fails(r, f),
            Ok(false) => r is Ok,
            Ok(true) => match spec_effective_address(cpu, self.fields) {
                Err(f) => fails(r, f),
                Ok(addr) => if self.prefetch_type == PrefetchType::Fault && !readable(rs, addr as int) {
                    is_memory_error(r, load_failure(rs, addr as int))
                } else {
                    r is Ok
                },
            },
        }
    }
}

impl Instruction for Prefetch {
    open spec fn qualifying_predicate(&self) -> u8 {
        self.fields.qp
    }

    fn execute(&self, cpu: &mut Cpu, memory: &mut Memory) -> (r: Result<(), EmulatorError>)
        ensures
            *final(cpu) == *old(cpu),
            final(memory)@ == old(memory)@,
            self.outcome(*old(cpu), old(memory)@.regions, r),
            self.brought_in(*old(cpu), *old(memory), *final(memory)),
    {
        // Check predicate
        match check_predicate(cpu, self.fields.qp) {
            Ok(true) => {},
            Ok(false) => {
                return Ok(());
            },
            Err(e) => {
                return Err(e);
            },
        }
        // Calculate effective address
        let addr = match self.calc_effective_address(cpu) {
            Ok(a) => a,
            Err(e) => {
                return Err(e);
            },
        };
        // Perform prefetch based on type
        match self.prefetch_type {
            PrefetchType::Fault => {
                // Prefetch with fault generation
                match memory.read_u8(addr) {
                    Ok(_) => {},
                    Err(e) => {
                        return Err(e);
                    },
                }
            },
            _ => {
                // Ignore errors
                let _ = memory.read_u8(addr);
            },
        }
        Ok(())
    }
}

/// The value that a semaphore operation stores, given the value `src1` of
/// its operand and the value `current` that it found in memory.
pub open spec fn semaphore_value(op: SemaphoreOp, src1: u64, current: u64) -> u64 {
    match op {
        SemaphoreOp::Xchg => src1,
        SemaphoreOp::Cmpxchg => src1,
        SemaphoreOp::Fetchadd => current.wrapping_add(src1),
    }
}

/// Whether a semaphore operation stores at all: a compare-and-exchange only
/// if what it found in memory equals its second operand.
pub open spec fn semaphore_stores(op: SemaphoreOp, current: u64, src2: u64) -> bool {
    match op {
        SemaphoreOp::Cmpxchg => current == src2,
        _ => true,
    }
}

/// The second operand of a semaphore operation: a compare-and-exchange
/// reads it from source operand 1, the other operations have none.
pub open spec fn semaphore_comparand(op: SemaphoreOp, cpu: Cpu, fields: InstructionFields) -> Result<
    u64,
    Fault,
> {
    match op {
        SemaphoreOp::Cmpxchg => spec_source_gr(cpu, fields, 1),
        _ => Ok(0),
    }
}

/// Semaphore instruction
#[derive(Debug)]
pub struct Semaphore {
    /// The decoded fields
    pub fields: InstructionFields,
    /// The operation
    pub op: SemaphoreOp,
    /// The size of the access
    pub size: LoadSize,
    /// Memory ordering
    pub ordering: MemoryOrdering,
    /// Cache hint
    pub cache_hint: CacheHint,
}

impl Semaphore {
    /// Create new semaphore instruction, without ordering or hint.
    pub fn new(fields: InstructionFields, op: SemaphoreOp, size: LoadSize) -> (i: Self)
        ensures
            i.fields == fields,
            i.op == op,
            i.size == size,
            i.ordering == MemoryOrdering::Unordered,
            i.cache_hint == CacheHint::Normal,
    {
        Self {
            fields,
            op,
            size,
            ordering: MemoryOrdering::Unordered,
            cache_hint: CacheHint::Normal,
        }
    }

    /// Create new semaphore instruction from decoded instruction
    pub fn from_decoded(
        fields: InstructionFields,
        op: SemaphoreOp,
        size: LoadSize,
        completers: Option<Vec<String>>,
    ) -> (i: Self)
        ensures
            i.fields == fields,
            i.op == op,
            i.size == size,
            i.ordering == MemoryHints::of(completers).ordering,
            i.cache_hint == MemoryHints::of(completers).cache_hint,
    {
        let h = MemoryHints::parse(&completers);
        Self { fields, op, size, ordering: h.ordering, cache_hint: h.cache_hint }
    }

    /// Calculate effective address
    pub fn calc_effective_address(&self, cpu: &Cpu) -> (r: Result<u64, EmulatorError>)
        ensures
            match spec_effective_address(*cpu, self.fields) {
                Ok(a) => r == Ok::<u64, EmulatorError>(a),
                Err(f) => fails(r, f),
            },
    {
        effective_address(cpu, &self.fields)
    }

    /// The operation itself, once the operands are read.
    ///
    /// The value at `addr` is loaded. The operation then stores its new
    /// value there, unless it is a compare-and-exchange that found another
    /// value than its comparand, and last the target register takes the
    /// value that was loaded. A load or store that memory refuses ends the
    /// operation with the processor as it was.
    pub open spec fn exchange(
        &self,
        before: Cpu,
        rs: Seq<RegionView>,
        addr: u64,
        src1: u64,
        src2: u64,
        after: Cpu,
        regions: Seq<RegionView>,
        r: Result<(), EmulatorError>,
    ) -> bool {
        let current = loaded_value(rs, self.size, addr);
        let value = semaphore_value(self.op, src1, current);
        if !can_load_sized(rs, self.size, addr) {
            (r matches Err(EmulatorError::MemoryError(_))) && after == before && regions == rs
        } else if semaphore_stores(self.op, current, src2) {
            ||| r is Err && stored(rs, self.size, addr, value, regions, r) && after == before
            ||| stored(rs, self.size, addr, value, regions, Ok(())) && wrote_gr(
                before,
                after,
                self.fields,
                current,
                r,
            )
        } else {
            regions == rs && wrote_gr(before, after, self.fields, current, r)
        }
    }

    /// What the operation leaves in the caches, given the memory `found`
    /// that the load of the current value left: the store of the new value,
    /// if the value could be loaded and the operation stores.
    pub open spec fn exchanged(&self, found: Memory, after: Memory, addr: u64, src1: u64, src2: u64) -> bool {
        let current = loaded_value(found@.regions, self.size, addr);
        if can_load_sized(found@.regions, self.size, addr) && semaphore_stores(self.op, current, src2) {
            stored_sized(found, after, self.size, addr, semaphore_value(self.op, src1, current))
        } else {
            after == found
        }
    }

    /// What the operation leaves in the caches: an operation that reaches
    /// its access loads the current value and then, if it stores, stores
    /// the new one; any other leaves the memory as it was.
    pub open spec fn accessed(&self, cpu: Cpu, before: Memory, after: Memory) -> bool {
        match (
            spec_predicate(cpu, self.fields.qp),
            spec_effective_address(cpu, self.fields),
            spec_source_gr(cpu, self.fields, 0),
            spec_target_gr(self.fields),
            semaphore_comparand(self.op, cpu, self.fields),
        ) {
            (Ok(true), Ok(addr), Ok(src1), Ok(_), Ok(src2)) => exists|found: Memory| #[trigger]
                loaded_sized(before, found, self.size, addr) && self.exchanged(
                    found,
                    after,
                    addr,
                    src1,
                    src2,
                ),
            _ => after == before,
        }
    }

    /// The effect of the instruction on the processor and on memory.
    pub open spec fn effect(
        &self,
        before: Cpu,
        rs: Seq<RegionView>,
        after: Cpu,
        regions: Seq<RegionView>,
        r: Result<(), EmulatorError>,
    ) -> bool {
        match spec_predicate(before, self.fields.qp) {
            Err(f) => fails(r, f) && after == before && regions == rs,
            Ok(false) => r is Ok && after == before && regions == rs,
            Ok(true) => match spec_effective_address(before, self.fields) {
                Err(f) => fails(r, f) && after == before && regions == rs,
                Ok(addr) => match spec_source_gr(before, self.fields, 0) {
                    Err(f) => fails(r, f) && after == before && regions == rs,
                    Ok(src1) => match spec_target_gr(self.fields) {
                        Err(f) => fails(r, f) && after == before && regions == rs,
                        Ok(_) => match semaphore_comparand(self.op, before, self.fields) {
                            Err(f) => fails(r, f) && after == before && regions == rs,
                            Ok(src2) => self.exchange(before, rs, addr, src1, src2, after, regions, r),
                        },
                    },
                },
            },
        }
    }
}

impl Instruction for Semaphore {
    open spec fn qualifying_predicate(&self) -> u8 {
        self.fields.qp
    }

    fn execute(&self, cpu: &mut Cpu, memory: &mut Memory) -> (r: Result<(), EmulatorError>)
        ensures
            final(memory)@.loads == old(memory)@.loads,
            final(memory)@.bypass == old(memory)@.bypass,
            suppressed(*old(cpu), self.fields.qp) ==> *final(memory) == *old(memory),
            self.effect(*old(cpu), old(memory)@.regions, *final(cpu), final(memory)@.regions, r),
            self.accessed(*old(cpu), *old(memory), *final(memory)),
    {
        // Check predicate
        match check_predicate(cpu, self.fields.qp) {
            Ok(true) => {},
            Ok(false) => {
                return Ok(());
            },
            Err(e) => {
                return Err(e);
            },
        }
        // Calculate effective address
        let addr = match self.calc_effective_address(cpu) {
            Ok(a) => a,
            Err(e) => {
                return Err(e);
            },
        };
        // Handle memory ordering - acquire semantics
        match self.ordering {
            MemoryOrdering::Acquire | MemoryOrdering::Fence => {
                let _ = memory.fence();
            },
            _ => {},
        }
        // Get source value
        let src1 = match source_gr(cpu, &self.fields, 0) {
            Ok(v) => v,
            Err(e) => {
                return Err(e);
            },
        };
        // Get destination register
        match target_gr(&self.fields) {
            Ok(_) => {},
            Err(e) => {
                return Err(e);
            },
        }
        // Get the comparand
        let src2 = match self.op {
            SemaphoreOp::Cmpxchg => match source_gr(cpu, &self.fields, 1) {
                Ok(v) => v,
                Err(e) => {
                    return Err(e);
                },
            },
            _ => 0,
        };
        // Read current value
        let loaded = load_sized(memory, self.size, addr);
        let ghost found = *memory;
        let current = match loaded {
            Ok(v) => v,
            Err(e) => {
                assert(self.exchanged(found, *memory, addr, src1, src2));
                return Err(e);
            },
        };
        // Write the new value
        let (stores, value) = match self.op {
            SemaphoreOp::Xchg => (true, src1),
            SemaphoreOp::Cmpxchg => (current == src2, src1),
            SemaphoreOp::Fetchadd => (true, current.wrapping_add(src1)),
        };
        if stores {
            let stored = store_sized(memory, self.size, addr, value);
            assert(self.exchanged(found, *memory, addr, src1, src2));
            match stored {
                Ok(_) => {},
                Err(e) => {
                    return Err(e);
                },
            }
        }
        assert(self.exchanged(found, *memory, addr, src1, src2));
        // Handle memory ordering - release semantics
        match self.ordering {
            MemoryOrdering::Release | MemoryOrdering::Fence => {
                let _ = memory.fence();
            },
            _ => {},
        }
        // Return the value that was found
        write_gr(cpu, &self.fields, current)
    }
}

} // verus!
