//! Memory management: mapped regions, permissions and the cache hierarchy.
//!
//! Main memory is authoritative. Every store goes to the owning region and is
//! written through each cache level that the current hint leaves enabled, so a
//! valid cache line never holds a byte that differs from main memory. The
//! `Modified` mark on a line records that a store touched it; flushing only
//! resets that mark.
//!
//! The view of a memory holds its regions, its log of speculative loads and
//! the bypass flags. What an access leaves in the cache lines is stated
//! beside it: `loaded` and `stored` for one byte, and for an access of more
//! bytes the states that the memory goes through, one for each byte.

use vstd::prelude::*;
use vstd::string::*;
use vstd::arithmetic::power2::pow2;
use crate::EmulatorError;
use self::cache::zeroed;

pub mod cache;

pub use self::cache::{CacheLevel, CacheLine, CacheLineState, CacheSet, WritePolicy};

verus! {

/// Memory permissions
#[derive(Debug, Clone, Copy, PartialEq, Eq, Structural)]
pub enum Permissions {
    /// No access
    NoAccess,
    /// Read only
    Read,
    /// Read and write
    ReadWrite,
    /// Read and execute
    ReadExecute,
    /// Read, write, and execute
    ReadWriteExecute,
}

impl Permissions {
    /// Whether the permission grants read access.
    pub open spec fn spec_can_read(&self) -> bool {
        !(*self is NoAccess)
    }

    /// Whether the permission grants write access.
    pub open spec fn spec_can_write(&self) -> bool {
        *self is ReadWrite || *self is ReadWriteExecute
    }

    /// Whether the permission grants execute access.
    pub open spec fn spec_can_execute(&self) -> bool {
        *self is ReadExecute || *self is ReadWriteExecute
    }

    /// Whether `self` grants every access that `other` grants.
    pub open spec fn spec_contains(&self, other: Permissions) -> bool {
        &&& other.spec_can_read() ==> self.spec_can_read()
        &&& other.spec_can_write() ==> self.spec_can_write()
        &&& other.spec_can_execute() ==> self.spec_can_execute()
    }

    /// Check if permission contains read access
    #[verifier::when_used_as_spec(spec_can_read)]
    pub fn can_read(&self) -> (b: bool)
        ensures
            b == self.spec_can_read(),
    {
        match self {
            Permissions::NoAccess => false,
            _ => true,
        }
    }

    /// Check if permission contains write access
    #[verifier::when_used_as_spec(spec_can_write)]
    pub fn can_write(&self) -> (b: bool)
        ensures
            b == self.spec_can_write(),
    {
        match self {
            Permissions::ReadWrite => true,
            Permissions::ReadWriteExecute => true,
            _ => false,
        }
    }

    /// Check if permission contains execute access
    #[verifier::when_used_as_spec(spec_can_execute)]
    pub fn can_execute(&self) -> (b: bool)
        ensures
            b == self.spec_can_execute(),
    {
        match self {
            Permissions::ReadExecute => true,
            Permissions::ReadWriteExecute => true,
            _ => false,
        }
    }

    /// Check if permission contains another permission
    #[verifier::when_used_as_spec(spec_contains)]
    pub fn contains(&self, other: Permissions) -> (b: bool)
        ensures
            b == self.spec_contains(other),
    {
        match (self, other) {
            (_, Permissions::NoAccess) => true,
            (Permissions::NoAccess, _) => false,
            (Permissions::Read, Permissions::Read) => true,
            (Permissions::ReadWrite, Permissions::Read) => true,
            (Permissions::ReadWrite, Permissions::ReadWrite) => true,
            (Permissions::ReadExecute, Permissions::Read) => true,
            (Permissions::ReadExecute, Permissions::ReadExecute) => true,
            (Permissions::ReadWriteExecute, _) => true,
            _ => false,
        }
    }
}

/// The lattice laws of `contains`: it is reflexive and transitive, `None` is
/// the least permission and `ReadWriteExecute` the greatest.
pub proof fn lemma_permissions_lattice(a: Permissions, b: Permissions, c: Permissions)
    ensures
        a.spec_contains(a),
        a.spec_contains(b) && b.spec_contains(c) ==> a.spec_contains(c),
        a.spec_contains(Permissions::NoAccess),
        Permissions::ReadWriteExecute.spec_contains(a),
        a.spec_contains(b) && b.spec_contains(a) ==> a == b,
{
}

/// The mathematical content of a memory region.
pub struct RegionView {
    /// Base address
    pub base: int,
    /// Size in bytes
    pub size: int,
    /// Access permissions
    pub permissions: Permissions,
    /// Memory contents, `size` bytes
    pub data: Seq<u8>,
}

impl RegionView {
    /// The region holds `size` bytes and lies inside the 64-bit address space.
    pub open spec fn wf(&self) -> bool {
        &&& 0 <= self.base
        &&& 0 <= self.size
        &&& self.data.len() == self.size
        &&& self.base + self.size <= 0x1_0000_0000_0000_0000
    }

    /// Whether `addr` lies in `[base, base + size)`.
    pub open spec fn contains(&self, addr: int) -> bool {
        self.base <= addr < self.base + self.size
    }

    /// Whether a region `[base, base + size)` could not be mapped beside this
    /// one: the two byte ranges intersect, or both start at the same address.
    pub open spec fn conflicts(&self, base: int, size: int) -> bool {
        self.base == base || (self.base < base + size && base < self.base + self.size)
    }
}

/// Memory region
#[derive(Debug)]
pub struct Region {
    /// Base address
    pub base: u64,
    /// Size in bytes
    pub size: u64,
    /// Access permissions
    pub permissions: Permissions,
    /// Memory contents
    pub data: Vec<u8>,
}

impl View for Region {
    type V = RegionView;

    open spec fn view(&self) -> RegionView {
        RegionView {
            base: self.base as int,
            size: self.size as int,
            permissions: self.permissions,
            data: self.data@,
        }
    }
}

/// The views of a sequence of regions, in order.
pub open spec fn region_views(rs: Seq<Region>) -> Seq<RegionView> {
    Seq::new(rs.len(), |i: int| rs[i]@)
}

/// Every region is well formed and no two regions conflict.
pub open spec fn regions_wf(rs: Seq<RegionView>) -> bool {
    &&& forall|i: int| 0 <= i < rs.len() ==> (#[trigger] rs[i]).wf()
    &&& forall|i: int, j: int|
        0 <= i < rs.len() && 0 <= j < rs.len() && i != j ==> !(#[trigger] rs[i]).conflicts(
            (#[trigger] rs[j]).base,
            rs[j].size,
        )
}

/// Whether some region contains `addr`.
pub open spec fn is_mapped(rs: Seq<RegionView>, addr: int) -> bool {
    exists|i: int| 0 <= i < rs.len() && (#[trigger] rs[i]).contains(addr)
}

/// The index of the region that contains `addr` (meaningful when mapped).
pub open spec fn region_index(rs: Seq<RegionView>, addr: int) -> int {
    choose|i: int| 0 <= i < rs.len() && (#[trigger] rs[i]).contains(addr)
}

/// The byte stored at `addr`; unmapped addresses read as zero.
pub open spec fn byte_of(rs: Seq<RegionView>, addr: int) -> u8 {
    if is_mapped(rs, addr) {
        let r = rs[region_index(rs, addr)];
        r.data[addr - r.base]
    } else {
        0u8
    }
}

/// The permissions that govern `addr`; unmapped addresses grant none.
pub open spec fn perm_of(rs: Seq<RegionView>, addr: int) -> Permissions {
    if is_mapped(rs, addr) {
        rs[region_index(rs, addr)].permissions
    } else {
        Permissions::NoAccess
    }
}

/// The byte that a cache may hold for `addr`: the byte stored there if the
/// address can be read, zero otherwise. So no byte of a region that denies
/// reading ever stands in a cache.
pub open spec fn cached_byte(rs: Seq<RegionView>, addr: int) -> u8 {
    if is_mapped(rs, addr) && perm_of(rs, addr).spec_can_read() {
        byte_of(rs, addr)
    } else {
        0u8
    }
}

/// Whether a region `[base, base + size)` conflicts with a mapped one.
pub open spec fn has_conflict(rs: Seq<RegionView>, base: int, size: int) -> bool {
    exists|i: int| 0 <= i < rs.len() && (#[trigger] rs[i]).conflicts(base, size)
}

/// In a well-formed map at most one region contains an address.
pub proof fn lemma_region_unique(rs: Seq<RegionView>, addr: int, i: int)
    requires
        regions_wf(rs),
        0 <= i < rs.len(),
        rs[i].contains(addr),
    ensures
        is_mapped(rs, addr),
        region_index(rs, addr) == i,
{
}

/// The region that contains an address is the one with the greatest base not
/// above it: searching by predecessor finds the same region.
pub proof fn lemma_region_is_predecessor(rs: Seq<RegionView>, addr: int, j: int)
    requires
        regions_wf(rs),
        is_mapped(rs, addr),
        0 <= j < rs.len(),
        rs[j].base <= addr,
    ensures
        rs[j].base <= rs[region_index(rs, addr)].base,
{
}

/// The region map after one byte is stored at a mapped address.
pub open spec fn store_byte(rs: Seq<RegionView>, addr: int, value: u8) -> Seq<RegionView> {
    if is_mapped(rs, addr) {
        let i = region_index(rs, addr);
        let r = rs[i];
        rs.update(i, RegionView { data: r.data.update(addr - r.base, value), ..r })
    } else {
        rs
    }
}

/// The region map after `bytes` are stored at `addr`, `addr + 1`, ...
pub open spec fn store_bytes(rs: Seq<RegionView>, addr: int, bytes: Seq<u8>) -> Seq<RegionView>
    decreases bytes.len(),
{
    if bytes.len() == 0 {
        rs
    } else {
        store_byte(store_bytes(rs, addr, bytes.drop_last()), addr + bytes.len() - 1, bytes.last())
    }
}

/// Storing a byte keeps the map well formed, keeps what is mapped and with
/// which permissions, and changes exactly the byte at `addr`.
pub proof fn lemma_store_byte(rs: Seq<RegionView>, addr: int, value: u8)
    requires
        regions_wf(rs),
    ensures
        regions_wf(store_byte(rs, addr, value)),
        store_byte(rs, addr, value).len() == rs.len(),
        forall|i: int|
            0 <= i < rs.len() ==> {
                &&& (#[trigger] store_byte(rs, addr, value)[i]).base == rs[i].base
                &&& store_byte(rs, addr, value)[i].size == rs[i].size
                &&& store_byte(rs, addr, value)[i].permissions == rs[i].permissions
            },
        forall|a: int| is_mapped(store_byte(rs, addr, value), a) == is_mapped(rs, a),
        forall|a: int| perm_of(store_byte(rs, addr, value), a) == perm_of(rs, a),
        forall|a: int|
            byte_of(store_byte(rs, addr, value), a) == if a == addr && is_mapped(rs, addr) {
                value
            } else {
                byte_of(rs, a)
            },
        forall|a: int|
            cached_byte(store_byte(rs, addr, value), a) == if a == addr && readable(rs, addr) {
                value
            } else {
                cached_byte(rs, a)
            },
{
    let rs2 = store_byte(rs, addr, value);
    if is_mapped(rs, addr) {
        assert forall|a: int| is_mapped(rs2, a) == is_mapped(rs, a) by {
            if is_mapped(rs, a) {
                let k = region_index(rs, a);
                assert(rs2[k].contains(a));
            }
            if is_mapped(rs2, a) {
                let k = region_index(rs2, a);
            }
        }
    }
}

/// Find the index of the region that contains `addr`.
pub fn find_region_index(regions: &Vec<Region>, addr: u64) -> (r: Option<usize>)
    requires
        regions_wf(region_views(regions@)),
    ensures
        match r {
            Some(i) => {
                &&& i < regions@.len()
                &&& regions@[i as int]@.contains(addr as int)
                &&& is_mapped(region_views(regions@), addr as int)
                &&& region_index(region_views(regions@), addr as int) == i
            },
            None => !is_mapped(region_views(regions@), addr as int),
        },
{
    let ghost rs = region_views(regions@);
    let mut i: usize = 0;
    while i < regions.len()
        invariant
            i <= regions@.len(),
            rs == region_views(regions@),
            regions_wf(rs),
            forall|j: int| 0 <= j < i ==> !(#[trigger] rs[j]).contains(addr as int),
        decreases regions@.len() - i,
    {
        let r = &regions[i];
        if r.base <= addr && addr - r.base < r.size {
            proof {
                lemma_region_unique(rs, addr as int, i as int);
            }
            return Some(i);
        }
        i = i + 1;
    }
    None
}

/// The byte that a cache may hold for `addr`.
pub fn read_cached_byte(regions: &Vec<Region>, addr: u64) -> (b: u8)
    requires
        regions_wf(region_views(regions@)),
    ensures
        b == cached_byte(region_views(regions@), addr as int),
{
    match find_region_index(regions, addr) {
        Some(i) => {
            let r = &regions[i];
            if !r.permissions.can_read() {
                return 0;
            }
            let len = r.data.len();
            assert(addr - r.base < len);
            let off = (addr - r.base) as usize;
            r.data[off]
        },
        None => 0,
    }
}

/// Cache hint
#[derive(Debug, Clone, Copy, PartialEq, Eq, Structural)]
pub enum CacheHint {
    /// Normal caching
    Normal,
    /// Non-temporal (bypass L1)
    NonTemporal1,
    /// Non-temporal (bypass all caches)
    NonTemporalAll,
    /// Bias toward keeping in cache
    Bias,
}

/// Speculative load status
#[derive(Debug, Clone, Copy, PartialEq, Eq, Structural)]
pub enum SpeculativeStatus {
    /// Load succeeded
    Success,
    /// Load failed
    Failed,
    /// Load was cancelled
    Cancelled,
}

/// Speculative load entry
#[derive(Debug)]
pub struct SpeculativeLoad {
    /// Memory address
    pub addr: u64,
    /// Size in bytes
    pub size: usize,
    /// Status of the load
    pub status: SpeculativeStatus,
    /// Data loaded (if successful)
    pub data: Vec<u8>,
}

/// The mathematical content of a speculative-load entry.
pub struct SpeculativeLoadView {
    /// Memory address
    pub addr: u64,
    /// Size in bytes
    pub size: usize,
    /// Status of the load
    pub status: SpeculativeStatus,
    /// Data loaded (if successful)
    pub data: Seq<u8>,
}

impl View for SpeculativeLoad {
    type V = SpeculativeLoadView;

    open spec fn view(&self) -> SpeculativeLoadView {
        SpeculativeLoadView { addr: self.addr, size: self.size, status: self.status, data: self.data@ }
    }
}

/// The views of a sequence of speculative-load entries, in order.
pub open spec fn load_views(ls: Seq<SpeculativeLoad>) -> Seq<SpeculativeLoadView> {
    Seq::new(ls.len(), |i: int| ls[i]@)
}

/// Whether the log holds an entry for `addr`.
pub open spec fn has_load(ls: Seq<SpeculativeLoadView>, addr: u64) -> bool {
    exists|i: int| 0 <= i < ls.len() && (#[trigger] ls[i]).addr == addr
}

/// Whether entry `i` is the oldest entry for `addr`.
pub open spec fn is_first_load(ls: Seq<SpeculativeLoadView>, addr: u64, i: int) -> bool {
    &&& 0 <= i < ls.len()
    &&& ls[i].addr == addr
    &&& forall|j: int| 0 <= j < i ==> (#[trigger] ls[j]).addr != addr
}

/// What is observable of a memory: the mapped regions with their contents,
/// the speculative-load log, and which cache levels are bypassed.
pub struct MemoryView {
    /// The mapped regions, in mapping order
    pub regions: Seq<RegionView>,
    /// The speculative-load log, oldest first
    pub loads: Seq<SpeculativeLoadView>,
    /// Whether L1, L2 and L3 are bypassed
    pub bypass: (bool, bool, bool),
}

impl MemoryView {
    /// What a load of the byte at `addr` gives: the byte, if the address is
    /// mapped readable.
    pub open spec fn load(self, addr: int) -> Option<u8> {
        if readable(self.regions, addr) {
            Some(byte_of(self.regions, addr))
        } else {
            None
        }
    }

    /// The memory after a store of `value` at `addr`; a store to an address
    /// that is not mapped writable is refused and changes nothing.
    pub open spec fn store(self, addr: int, value: u8) -> MemoryView {
        if writable(self.regions, addr) {
            MemoryView { regions: store_byte(self.regions, addr, value), ..self }
        } else {
            self
        }
    }

    /// The memory after a flush of the caches. Every store is written
    /// through to main memory, so a flush has nothing left to write: the
    /// memory is the same.
    pub open spec fn flushed(self) -> MemoryView {
        self
    }
}

/// After a store and a flush of the caches, a load gives the value that was
/// stored last, and every other address reads as it did before the store.
pub proof fn lemma_load_after_flush(view: MemoryView, addr: int, value: u8, other: int)
    requires
        regions_wf(view.regions),
        writable(view.regions, addr),
        readable(view.regions, addr),
    ensures
        view.store(addr, value).flushed().load(addr) == Some(value),
        other != addr ==> view.store(addr, value).flushed().load(other) == view.load(other),
{
    lemma_store_byte(view.regions, addr, value);
}

/// Whether the bytes `[addr, addr + len)` can be loaded: `addr` is mapped
/// readable and every byte lies in some readable region.
pub open spec fn can_load(rs: Seq<RegionView>, addr: int, len: int) -> bool {
    forall|k: int| 0 <= k < len ==> is_mapped(rs, #[trigger] (addr + k)) && perm_of(rs, addr + k).spec_can_read()
}

/// Whether `len` bytes can be stored at `addr`: `addr` is mapped writable and
/// the whole range lies in the region of `addr`.
pub open spec fn can_store(rs: Seq<RegionView>, addr: int, len: int) -> bool {
    &&& is_mapped(rs, addr)
    &&& perm_of(rs, addr).spec_can_write()
    &&& addr + len <= rs[region_index(rs, addr)].base + rs[region_index(rs, addr)].size
}

/// The bytes `[addr, addr + len)` of main memory.
pub open spec fn bytes_of(rs: Seq<RegionView>, addr: int, len: int) -> Seq<u8> {
    Seq::new(len as nat, |k: int| byte_of(rs, addr + k))
}

/// The index of the region that starts at `base` (meaningful when there is
/// one).
pub open spec fn index_of_base(rs: Seq<RegionView>, base: int) -> int {
    choose|i: int| 0 <= i < rs.len() && (#[trigger] rs[i]).base == base
}

/// Whether a region starts at `base`.
pub open spec fn has_base(rs: Seq<RegionView>, base: int) -> bool {
    exists|i: int| 0 <= i < rs.len() && (#[trigger] rs[i]).base == base
}

/// Whether a region of `size` bytes at `base` can be mapped: it fits in the
/// address space and conflicts with no mapped region.
pub open spec fn can_map(rs: Seq<RegionView>, base: int, size: int) -> bool {
    &&& base + size <= 0x1_0000_0000_0000_0000
    &&& size <= usize::MAX
    &&& !has_conflict(rs, base, size)
}

/// The detail of the error that a refused mapping fails with.
pub open spec fn map_failure(rs: Seq<RegionView>, base: int, size: int) -> Seq<char> {
    if base + size > 0x1_0000_0000_0000_0000 || size > usize::MAX {
        "Region exceeds address space"@
    } else {
        "Overlapping memory region"@
    }
}

/// The map after a zero-filled region is added.
pub open spec fn spec_map(rs: Seq<RegionView>, base: int, size: int, permissions: Permissions) -> Seq<
    RegionView,
> {
    rs.push(RegionView { base, size, permissions, data: Seq::new(size as nat, |i: int| 0u8) })
}

/// The map after the region that starts at `base` is removed.
pub open spec fn spec_unmap(rs: Seq<RegionView>, base: int) -> Seq<RegionView> {
    rs.remove(index_of_base(rs, base))
}

/// Mapping a region, unmapping it and mapping it again succeeds, and leaves
/// the map that the first mapping made.
pub proof fn lemma_map_unmap_map(rs: Seq<RegionView>, base: int, size: int, permissions: Permissions)
    requires
        regions_wf(rs),
        0 <= base,
        0 <= size,
        can_map(rs, base, size),
    ensures
        has_base(spec_map(rs, base, size, permissions), base),
        spec_unmap(spec_map(rs, base, size, permissions), base) == rs,
        can_map(spec_unmap(spec_map(rs, base, size, permissions), base), base, size),
{
    let m = spec_map(rs, base, size, permissions);
    assert(m[rs.len() as int].base == base);
}

/// Adding a region that conflicts with none keeps the map well formed and
/// leaves every byte and permission that was mapped as it was; the new bytes
/// read as zero, as unmapped bytes did.
pub proof fn lemma_map_preserves(rs: Seq<RegionView>, base: int, size: int, permissions: Permissions)
    requires
        regions_wf(rs),
        0 <= base,
        0 <= size,
        can_map(rs, base, size),
    ensures
        regions_wf(spec_map(rs, base, size, permissions)),
        forall|a: int| byte_of(spec_map(rs, base, size, permissions), a) == byte_of(rs, a),
        forall|a: int| cached_byte(spec_map(rs, base, size, permissions), a) == cached_byte(rs, a),
        forall|a: int| is_mapped(rs, a) ==> is_mapped(spec_map(rs, base, size, permissions), a)
            && perm_of(spec_map(rs, base, size, permissions), a) == perm_of(rs, a),
        forall|a: int| base <= a < base + size ==> is_mapped(spec_map(rs, base, size, permissions), a)
            && perm_of(spec_map(rs, base, size, permissions), a) == permissions,
{
    let m = spec_map(rs, base, size, permissions);
    let n = rs.len() as int;
    assert forall|a: int|
        byte_of(m, a) == byte_of(rs, a) && (is_mapped(rs, a) ==> is_mapped(m, a) && perm_of(m, a)
            == perm_of(rs, a)) && (base <= a < base + size ==> is_mapped(m, a) && perm_of(m, a)
            == permissions) by {
        if is_mapped(rs, a) {
            let k = region_index(rs, a);
            lemma_region_unique(m, a, k);
        } else if is_mapped(m, a) {
            let k = region_index(m, a);
        }
        if base <= a < base + size {
            lemma_region_unique(m, a, n);
            if is_mapped(rs, a) {
                let k = region_index(rs, a);
            }
        }
    }
}

/// Memory management unit
#[derive(Debug)]
pub struct Memory {
    /// Memory regions
    pub regions: Vec<Region>,
    /// L1 cache
    pub l1_cache: CacheLevel,
    /// L2 cache
    pub l2_cache: CacheLevel,
    /// L3 cache
    pub l3_cache: CacheLevel,
    /// Speculative loads
    pub speculative_loads: Vec<SpeculativeLoad>,
}

impl View for Memory {
    type V = MemoryView;

    open spec fn view(&self) -> MemoryView {
        MemoryView {
            regions: region_views(self.regions@),
            loads: load_views(self.speculative_loads@),
            bypass: (self.l1_cache.non_temporal, self.l2_cache.non_temporal, self.l3_cache.non_temporal),
        }
    }
}

/// Which levels a cache hint bypasses, as `(L1, L2, L3)`.
pub open spec fn spec_bypass(hint: CacheHint) -> (bool, bool, bool) {
    match hint {
        CacheHint::Normal => (false, false, false),
        CacheHint::NonTemporal1 => (true, false, false),
        CacheHint::NonTemporalAll => (true, true, true),
        CacheHint::Bias => (false, false, false),
    }
}

/// Whether `addr` is mapped with read permission.
pub open spec fn readable(rs: Seq<RegionView>, addr: int) -> bool {
    is_mapped(rs, addr) && perm_of(rs, addr).spec_can_read()
}

/// Whether `addr` is mapped with write permission.
pub open spec fn writable(rs: Seq<RegionView>, addr: int) -> bool {
    is_mapped(rs, addr) && perm_of(rs, addr).spec_can_write()
}

/// The detail of the error that a load from `addr` fails with.
pub open spec fn load_failure(rs: Seq<RegionView>, addr: int) -> Seq<char> {
    if is_mapped(rs, addr) {
        "Read permission denied"@
    } else {
        "Address not mapped"@
    }
}

/// The detail of the error that a store of `len` bytes to `addr` fails with.
pub open spec fn store_failure(rs: Seq<RegionView>, addr: int, len: int) -> Seq<char> {
    if !is_mapped(rs, addr) {
        "Address not mapped"@
    } else if !perm_of(rs, addr).spec_can_write() {
        "Write permission denied"@
    } else {
        "Write exceeds region bounds"@
    }
}

/// Whether `r` is a memory error with the detail `detail`.
pub open spec fn is_memory_error<T>(r: Result<T, EmulatorError>, detail: Seq<char>) -> bool {
    r matches Err(EmulatorError::MemoryError(m)) && m@ == detail
}

impl Memory {
    /// The region map is well formed, every cache level is, and no valid
    /// cache line differs from main memory.
    pub open spec fn wf(&self) -> bool {
        &&& regions_wf(self@.regions)
        &&& self.l1_cache.wf()
        &&& self.l2_cache.wf()
        &&& self.l3_cache.wf()
        &&& self.l1_cache.coherent(self@.regions)
        &&& self.l2_cache.coherent(self@.regions)
        &&& self.l3_cache.coherent(self@.regions)
    }

    /// Create new memory instance: nothing mapped, 32 KiB of 8-way L1 and
    /// 256 KiB of 8-way L2 in 64-byte lines, 6 MiB of 12-way L3 in 128-byte
    /// lines, no level bypassed.
    pub fn new() -> (m: Self)
        ensures
            m.wf(),
            m@.regions.len() == 0,
            m@.loads.len() == 0,
            m@.bypass == (false, false, false),
            m.l1_cache.num_sets == 64 && m.l1_cache.associativity == 8 && m.l1_cache.line_size == 64,
            m.l2_cache.num_sets == 512 && m.l2_cache.associativity == 8 && m.l2_cache.line_size == 64,
            m.l3_cache.num_sets == 4096 && m.l3_cache.associativity == 12 && m.l3_cache.line_size
                == 128,
    {
        proof {
            vstd::arithmetic::power2::lemma2_to64();
            assert((8usize * 64usize) as usize == 512usize);
            assert((12usize * 128usize) as usize == 1536usize);
        }
        let l1_cache = CacheLevel::new(32768, 8, 64);
        let l2_cache = CacheLevel::new(262144, 8, 64);
        let l3_cache = CacheLevel::new(6291456, 12, 128);
        let m = Self {
            regions: Vec::new(),
            l1_cache,
            l2_cache,
            l3_cache,
            speculative_loads: Vec::new(),
        };
        m
    }

    /// Set cache hints: `NonTemporal1` bypasses L1, `NonTemporalAll` every
    /// level, `Normal` and `Bias` none.
    pub fn set_cache_hints(&mut self, hint: CacheHint)
        requires
            old(self).wf(),
        ensures
            final(self).wf(),
            final(self)@ == (MemoryView { bypass: spec_bypass(hint), ..old(self)@ }),
            final(self).l1_cache == (CacheLevel { non_temporal: spec_bypass(hint).0, ..old(self).l1_cache }),
            final(self).l2_cache == (CacheLevel { non_temporal: spec_bypass(hint).1, ..old(self).l2_cache }),
            final(self).l3_cache == (CacheLevel { non_temporal: spec_bypass(hint).2, ..old(self).l3_cache }),
    {
        match hint {
            CacheHint::NonTemporal1 => {
                self.l1_cache.set_non_temporal(true);
                self.l2_cache.set_non_temporal(false);
                self.l3_cache.set_non_temporal(false);
            },
            CacheHint::NonTemporalAll => {
                self.l1_cache.set_non_temporal(true);
                self.l2_cache.set_non_temporal(true);
                self.l3_cache.set_non_temporal(true);
            },
            CacheHint::Bias => {
                self.l1_cache.set_non_temporal(false);
                self.l2_cache.set_non_temporal(false);
                self.l3_cache.set_non_temporal(false);
            },
            CacheHint::Normal => {
                self.l1_cache.set_non_temporal(false);
                self.l2_cache.set_non_temporal(false);
                self.l3_cache.set_non_temporal(false);
            },
        }
    }

    /// Map memory region: a zero-filled region of `size` bytes at `base`.
    /// The request is refused if the region would not fit in the address
    /// space or would conflict with a mapped region.
    pub fn map(&mut self, base: u64, size: u64, permissions: Permissions) -> (r: Result<
        (),
        EmulatorError,
    >)
        requires
            old(self).wf(),
        ensures
            final(self).wf(),
            final(self)@.loads == old(self)@.loads,
            final(self)@.bypass == old(self)@.bypass,
            final(self).l1_cache == old(self).l1_cache,
            final(self).l2_cache == old(self).l2_cache,
            final(self).l3_cache == old(self).l3_cache,
            final(self).speculative_loads == old(self).speculative_loads,
            can_map(old(self)@.regions, base as int, size as int) ==> r is Ok && final(self)@.regions
                == spec_map(old(self)@.regions, base as int, size as int, permissions),
            !can_map(old(self)@.regions, base as int, size as int) ==> is_memory_error(
                r,
                map_failure(old(self)@.regions, base as int, size as int),
            ) && *final(self) == *old(self),
    {
        let ghost rv = self@.regions;
        if size > usize::MAX as u64 || (base as u128) + (size as u128) > 0x1_0000_0000_0000_0000u128 {
            return Err(EmulatorError::MemoryError(String::from_str("Region exceeds address space")));
        }
        let mut i: usize = 0;
        while i < self.regions.len()
            invariant
                i <= self.regions@.len(),
                *self == *old(self),
                self.wf(),
                rv == self@.regions,
                regions_wf(rv),
                base + size <= 0x1_0000_0000_0000_0000,
                size <= usize::MAX,
                forall|j: int| 0 <= j < i ==> !(#[trigger] rv[j]).conflicts(base as int, size as int),
            decreases self.regions@.len() - i,
        {
            let r = &self.regions[i];
            assert(rv[i as int] == r@);
            if r.base == base || ((r.base as u128) < (base as u128) + (size as u128) && (base as u128) < (
            r.base as u128) + (r.size as u128)) {
                return Err(EmulatorError::MemoryError(String::from_str("Overlapping memory region")));
            }
            i = i + 1;
        }
        let region = Region { base, size, permissions, data: zeroed(size as usize) };
        self.regions.push(region);
        proof {
            assert(self@.regions =~= spec_map(rv, base as int, size as int, permissions));
            lemma_map_preserves(rv, base as int, size as int, permissions);
        }
        Ok(())
    }

    /// Unmap memory region: remove the region that starts at `base`, and
    /// invalidate every cache line, so that no line outlives its region.
    pub fn unmap(&mut self, base: u64) -> (r: Result<(), EmulatorError>)
        requires
            old(self).wf(),
        ensures
            final(self).wf(),
            final(self)@.loads == old(self)@.loads,
            final(self)@.bypass == old(self)@.bypass,
            has_base(old(self)@.regions, base as int) ==> r is Ok && final(self)@.regions == spec_unmap(
                old(self)@.regions,
                base as int,
            ) && !final(self).l1_cache.caches_anything() && !final(self).l2_cache.caches_anything()
                && !final(self).l3_cache.caches_anything() && old(self).l1_cache.invalidated(
                &final(self).l1_cache,
            ) && old(self).l2_cache.invalidated(&final(self).l2_cache) && old(self).l3_cache.invalidated(
                &final(self).l3_cache,
            ),
            final(self).l1_cache.same_shape(&old(self).l1_cache),
            final(self).l2_cache.same_shape(&old(self).l2_cache),
            final(self).l3_cache.same_shape(&old(self).l3_cache),
            final(self).speculative_loads == old(self).speculative_loads,
            !has_base(old(self)@.regions, base as int) ==> is_memory_error(r, "Region not found"@)
                && *final(self) == *old(self),
    {
        let ghost rv = self@.regions;
        let mut i: usize = 0;
        while i < self.regions.len()
            invariant
                i <= self.regions@.len(),
                *self == *old(self),
                self.wf(),
                rv == self@.regions,
                regions_wf(rv),
                forall|j: int| 0 <= j < i ==> (#[trigger] rv[j]).base != base,
            decreases self.regions@.len() - i,
        {
            if self.regions[i].base == base {
                assert(rv[i as int].base == base);
                let _ = self.regions.remove(i);
                self.l1_cache.invalidate_all();
                self.l2_cache.invalidate_all();
                self.l3_cache.invalidate_all();
                proof {
                    let rv2 = self@.regions;
                    assert(rv2 =~= rv.remove(i as int));
                }
                return Ok(());
            }
            i = i + 1;
        }
        Err(EmulatorError::MemoryError(String::from_str("Region not found")))
    }

    /// Memory fence operation. Instructions run one after another, so every
    /// earlier access is complete already and nothing is left to do.
    pub fn fence(&mut self) -> (r: Result<(), EmulatorError>)
        ensures
            r is Ok,
            *final(self) == *old(self),
    {
        Ok(())
    }

    /// Find memory region containing address
    pub fn find_region(&self, addr: u64) -> (r: Result<&Region, EmulatorError>)
        requires
            self.wf(),
        ensures
            match r {
                Ok(region) => is_mapped(self@.regions, addr as int) && region@
                    == self@.regions[region_index(self@.regions, addr as int)] && *region
                    == self.regions@[region_index(self@.regions, addr as int)],
                Err(_) => !is_mapped(self@.regions, addr as int) && is_memory_error(
                    r,
                    "Address not mapped"@,
                ),
            },
    {
        match find_region_index(&self.regions, addr) {
            Some(i) => Ok(&self.regions[i]),
            None => Err(EmulatorError::MemoryError(String::from_str("Address not mapped"))),
        }
    }

    /// Find the index of the memory region containing address, for a caller
    /// that is going to change the region.
    pub fn find_region_mut(&self, addr: u64) -> (r: Result<usize, EmulatorError>)
        requires
            self.wf(),
        ensures
            match r {
                Ok(i) => is_mapped(self@.regions, addr as int) && i == region_index(
                    self@.regions,
                    addr as int,
                ) && i < self.regions@.len(),
                Err(_) => !is_mapped(self@.regions, addr as int) && is_memory_error(
                    r,
                    "Address not mapped"@,
                ),
            },
    {
        match find_region_index(&self.regions, addr) {
            Some(i) => Ok(i),
            None => Err(EmulatorError::MemoryError(String::from_str("Address not mapped"))),
        }
    }
}

/// After a byte is stored at a mapped address, a load from that address gives
/// the byte back, and every other address reads as before. Flushing the
/// caches leaves the regions as they are, so this holds across a flush too.
pub proof fn lemma_load_after_store(rs: Seq<RegionView>, addr: int, value: u8, other: int)
    requires
        regions_wf(rs),
        is_mapped(rs, addr),
    ensures
        byte_of(store_byte(rs, addr, value), addr) == value,
        readable(store_byte(rs, addr, value), other) == readable(rs, other),
        writable(store_byte(rs, addr, value), other) == writable(rs, other),
        other != addr ==> byte_of(store_byte(rs, addr, value), other) == byte_of(rs, other),
{
    lemma_store_byte(rs, addr, value);
}

/// Storing bytes keeps the map well formed, keeps what is mapped and with
/// which permissions, and a byte stored at a mapped address of the range
/// can be loaded from there.
pub proof fn lemma_store_bytes(rs: Seq<RegionView>, addr: int, bytes: Seq<u8>)
    requires
        regions_wf(rs),
    ensures
        regions_wf(store_bytes(rs, addr, bytes)),
        store_bytes(rs, addr, bytes).len() == rs.len(),
        forall|a: int| is_mapped(store_bytes(rs, addr, bytes), a) == is_mapped(rs, a),
        forall|a: int| perm_of(store_bytes(rs, addr, bytes), a) == perm_of(rs, a),
        forall|a: int|
            byte_of(store_bytes(rs, addr, bytes), a) == if addr <= a < addr + bytes.len() && is_mapped(
                rs,
                a,
            ) {
                bytes[a - addr]
            } else {
                byte_of(rs, a)
            },
    decreases bytes.len(),
{
    if bytes.len() > 0 {
        let prev = store_bytes(rs, addr, bytes.drop_last());
        lemma_store_bytes(rs, addr, bytes.drop_last());
        lemma_store_byte(prev, addr + bytes.len() - 1, bytes.last());
    }
}

/// Whether `after` is the cache level `before` after a load of `addr` that
/// was served by the level numbered `served_by`, where 4 stands for main
/// memory: the level that serves the load is touched, the enabled levels
/// before it are filled, and every other level is left alone.
pub open spec fn level_after_load(
    before: &CacheLevel,
    after: &CacheLevel,
    addr: u64,
    served_by: int,
    level: int,
) -> bool {
    if level == served_by {
        before.touched(after, addr)
    } else if level < served_by && !before.non_temporal {
        before.placed(after, addr, false)
    } else {
        *after == *before
    }
}

/// Whether `after` is the cache level `before` after a store to `addr`: an
/// enabled level is written through, a bypassed level drops the line.
pub open spec fn level_after_store(before: &CacheLevel, after: &CacheLevel, addr: u64) -> bool {
    if before.non_temporal {
        before.discarded(after, addr)
    } else {
        before.placed(after, addr, true)
    }
}

/// Whether state `k + 1` of `steps` is state `k` after a load of the byte at
/// `addr + k`.
pub open spec fn is_load_step(steps: Seq<Memory>, addr: u64, k: int) -> bool {
    steps[k].loaded(&steps[k + 1], (addr + k) as u64)
}

/// Whether `steps` are the states of a memory while `count` bytes are loaded
/// from `addr` on: one state more than there are bytes, and each state but
/// the first is the one before it after the load of one byte.
pub open spec fn is_load_trace(steps: Seq<Memory>, addr: u64, count: int) -> bool {
    &&& steps.len() == count + 1
    &&& forall|k: int| 0 <= k < count ==> #[trigger] is_load_step(steps, addr, k)
}

/// A trace grows by one state with each byte that is loaded.
pub proof fn lemma_load_trace_grows(steps: Seq<Memory>, addr: u64, count: int, next: Memory)
    requires
        0 <= count,
        is_load_trace(steps, addr, count),
        steps.last().loaded(&next, (addr + count) as u64),
    ensures
        is_load_trace(steps.push(next), addr, count + 1),
        steps.push(next).first() == steps.first(),
        steps.push(next).last() == next,
{
    let longer = steps.push(next);
    assert forall|k: int| 0 <= k < count + 1 implies #[trigger] is_load_step(longer, addr, k) by {
        if k < count {
            assert(is_load_step(steps, addr, k));
        }
    }
}

/// Whether state `k + 1` of `steps` is state `k` after the store of byte `k`
/// of `bytes` at `addr + k`.
pub open spec fn is_store_step(steps: Seq<Memory>, addr: u64, bytes: Seq<u8>, k: int) -> bool {
    steps[k].stored(&steps[k + 1], (addr + k) as u64, bytes[k])
}

/// Whether `steps` are the states of a memory while `bytes` are stored from
/// `addr` on: one state more than there are bytes, and each state but the
/// first is the one before it after the store of one byte.
pub open spec fn is_store_trace(steps: Seq<Memory>, addr: u64, bytes: Seq<u8>) -> bool {
    &&& steps.len() == bytes.len() + 1
    &&& forall|k: int| 0 <= k < bytes.len() ==> #[trigger] is_store_step(steps, addr, bytes, k)
}

/// A trace grows by one state with each byte that is stored.
pub proof fn lemma_store_trace_grows(steps: Seq<Memory>, addr: u64, bytes: Seq<u8>, next: Memory, value: u8)
    requires
        is_store_trace(steps, addr, bytes),
        steps.last().stored(&next, (addr + bytes.len()) as u64, value),
    ensures
        is_store_trace(steps.push(next), addr, bytes.push(value)),
        steps.push(next).first() == steps.first(),
        steps.push(next).last() == next,
{
    let longer = steps.push(next);
    let more = bytes.push(value);
    assert forall|k: int| 0 <= k < more.len() implies #[trigger] is_store_step(longer, addr, more, k) by {
        if k < bytes.len() {
            assert(is_store_step(steps, addr, bytes, k));
        }
    }
}

/// An access to a word of eight bytes.
pub enum WordAccess {
    /// A load of the word at `addr`
    Load {
        /// Address of the word
        addr: u64,
    },
    /// A store of `value` in the word at `addr`
    Store {
        /// Address of the word
        addr: u64,
        /// The value stored, least significant byte first
        value: u64,
    },
}

/// Whether state `k + 1` of `steps` is state `k` after access `k` of
/// `accesses`.
pub open spec fn is_access_step(steps: Seq<Memory>, accesses: Seq<WordAccess>, k: int) -> bool {
    steps[k].accessed(&steps[k + 1], accesses[k])
}

/// Whether `steps` are the states of a memory while `accesses` are made one
/// after the other: one state more than there are accesses, and each state
/// but the first is the one before it after one access.
pub open spec fn is_access_trace(steps: Seq<Memory>, accesses: Seq<WordAccess>) -> bool {
    &&& steps.len() == accesses.len() + 1
    &&& forall|k: int| 0 <= k < accesses.len() ==> #[trigger] is_access_step(steps, accesses, k)
}

/// A trace grows by one state with each access that is made.
pub proof fn lemma_access_trace_grows(
    steps: Seq<Memory>,
    accesses: Seq<WordAccess>,
    next: Memory,
    access: WordAccess,
)
    requires
        is_access_trace(steps, accesses),
        steps.last().accessed(&next, access),
    ensures
        is_access_trace(steps.push(next), accesses.push(access)),
        steps.push(next).first() == steps.first(),
        steps.push(next).last() == next,
{
    let longer = steps.push(next);
    let more = accesses.push(access);
    assert forall|k: int| 0 <= k < more.len() implies #[trigger] is_access_step(longer, more, k) by {
        if k < accesses.len() {
            assert(is_access_step(steps, accesses, k));
        }
    }
}

/// One load is a block of one byte, and no load is a block of none.
pub proof fn lemma_short_loads(before: Memory, after: Memory, addr: u64)
    ensures
        before.loaded_block(&before, addr, 0),
        before.loaded(&after, addr) ==> before.loaded_block(&after, addr, 1),
{
    let none = seq![before];
    assert(is_load_trace(none, addr, 0));
    assert(none.first() == before && none.last() == before);
    if before.loaded(&after, addr) {
        let one = seq![before, after];
        assert(is_load_step(one, addr, 0));
        assert(is_load_trace(one, addr, 1));
        assert(one.first() == before && one.last() == after);
    }
}

/// One store is a block of one byte, and no store is a block of none.
pub proof fn lemma_short_stores(before: Memory, after: Memory, addr: u64, value: u8)
    ensures
        before.stored_block(&before, addr, Seq::empty()),
        before.stored(&after, addr, value) ==> before.stored_block(&after, addr, seq![value]),
{
    let none = seq![before];
    assert(is_store_trace(none, addr, Seq::empty()));
    assert(none.first() == before && none.last() == before);
    if before.stored(&after, addr, value) {
        let one = seq![before, after];
        assert(is_store_step(one, addr, seq![value], 0));
        assert(is_store_trace(one, addr, seq![value]));
        assert(one.first() == before && one.last() == after);
    }
}

impl Memory {
    /// The cache level that serves a load of `addr`: the first enabled level
    /// that holds the address, or 4 for main memory if none does.
    pub open spec fn served_by(&self, addr: u64) -> int {
        if !self.l1_cache.non_temporal && self.l1_cache.holds(addr) {
            1
        } else if !self.l2_cache.non_temporal && self.l2_cache.holds(addr) {
            2
        } else if !self.l3_cache.non_temporal && self.l3_cache.holds(addr) {
            3
        } else {
            4
        }
    }

    /// Whether `after` is this memory after a load of the byte at `addr`:
    /// the regions and the log are as they were, and each cache level has
    /// done its part of the lookup chain.
    pub open spec fn loaded(&self, after: &Memory, addr: u64) -> bool {
        &&& after.regions == self.regions
        &&& after.speculative_loads == self.speculative_loads
        &&& level_after_load(&self.l1_cache, &after.l1_cache, addr, self.served_by(addr), 1)
        &&& level_after_load(&self.l2_cache, &after.l2_cache, addr, self.served_by(addr), 2)
        &&& level_after_load(&self.l3_cache, &after.l3_cache, addr, self.served_by(addr), 3)
    }

    /// Whether `after` holds in its caches what a store to `addr` leaves
    /// there.
    pub open spec fn caches_after_store(&self, after: &Memory, addr: u64) -> bool {
        &&& after.speculative_loads == self.speculative_loads
        &&& level_after_store(&self.l1_cache, &after.l1_cache, addr)
        &&& level_after_store(&self.l2_cache, &after.l2_cache, addr)
        &&& level_after_store(&self.l3_cache, &after.l3_cache, addr)
    }

    /// Whether `after` is this memory after a load of the word at `addr`:
    /// its bytes were loaded one after the other, lowest address first, up
    /// to the first that cannot be loaded.
    pub open spec fn word_loaded(&self, after: &Memory, addr: u64) -> bool {
        if can_load(self@.regions, addr as int, 8) {
            self.loaded_block(after, addr, 8)
        } else {
            exists|k: int| #[trigger]
                is_first_unreadable(self@.regions, addr as int, 8, k) && self.loaded_block(
                    after,
                    addr,
                    k,
                )
        }
    }

    /// Whether `after` is this memory after a store of `value` in the word
    /// at `addr`: the eight bytes were stored as one block, or, if they
    /// cannot be, nothing changed.
    pub open spec fn word_stored(&self, after: &Memory, addr: u64, value: u64) -> bool {
        if can_store(self@.regions, addr as int, 8) {
            self.stored_block(after, addr, u64_to_le(value))
        } else {
            *after == *self
        }
    }

    /// Whether `after` is this memory after the access `access`.
    pub open spec fn accessed(&self, after: &Memory, access: WordAccess) -> bool {
        match access {
            WordAccess::Load { addr } => self.word_loaded(after, addr),
            WordAccess::Store { addr, value } => self.word_stored(after, addr, value),
        }
    }

    /// Whether `after` is this memory after the accesses `accesses` were
    /// made one after the other. If there are none, nothing changed.
    pub open spec fn accessed_each(&self, after: &Memory, accesses: Seq<WordAccess>) -> bool {
        exists|steps: Seq<Memory>| #[trigger]
            is_access_trace(steps, accesses) && steps.first() == *self && steps.last() == *after
    }

    /// This memory with the log of speculative loads of `other`.
    pub open spec fn with_log_of(&self, other: &Memory) -> Memory {
        Memory { speculative_loads: other.speculative_loads, ..*self }
    }

    /// Whether `after` is this memory after `count` bytes were loaded from
    /// `addr` on, one byte after the other, lowest address first: the
    /// memory went through a state for each byte, and each state is the one
    /// before it after the load of that byte. If no byte was loaded, nothing
    /// changed.
    pub open spec fn loaded_block(&self, after: &Memory, addr: u64, count: int) -> bool {
        exists|steps: Seq<Memory>| #[trigger]
            is_load_trace(steps, addr, count) && steps.first() == *self && steps.last() == *after
    }

    /// Whether `after` is this memory after a store of `value` in the byte
    /// at `addr`: the byte is in its region, and every cache level is as the
    /// store leaves it.
    pub open spec fn stored(&self, after: &Memory, addr: u64, value: u8) -> bool {
        &&& after@ == (MemoryView { regions: store_byte(self@.regions, addr as int, value), ..self@ })
        &&& self.caches_after_store(after, addr)
    }

    /// Whether `after` is this memory after `bytes` were stored from `addr`
    /// on, one byte after the other, lowest address first: the memory went
    /// through a state for each byte, and each state is the one before it
    /// after the store of that byte. If there are no bytes, nothing changed.
    pub open spec fn stored_block(&self, after: &Memory, addr: u64, bytes: Seq<u8>) -> bool {
        exists|steps: Seq<Memory>| #[trigger]
            is_store_trace(steps, addr, bytes) && steps.first() == *self && steps.last() == *after
    }

    /// Store one byte in the region `idx`, which contains `addr`, and bring
    /// every cache level in line: an enabled level is written through, a
    /// bypassed level drops the line so that it cannot go stale.
    fn store_one(&mut self, idx: usize, addr: u64, value: u8)
        requires
            old(self).wf(),
            idx < old(self).regions@.len(),
            old(self)@.regions[idx as int].contains(addr as int),
            old(self)@.regions[idx as int].permissions.spec_can_write(),
        ensures
            final(self).wf(),
            final(self)@ == (MemoryView {
                regions: store_byte(old(self)@.regions, addr as int, value),
                ..old(self)@
            }),
            final(self).l1_cache.same_shape(&old(self).l1_cache),
            final(self).l2_cache.same_shape(&old(self).l2_cache),
            final(self).l3_cache.same_shape(&old(self).l3_cache),
            final(self).l1_cache.holds(addr) == !old(self).l1_cache.non_temporal,
            final(self).l2_cache.holds(addr) == !old(self).l2_cache.non_temporal,
            final(self).l3_cache.holds(addr) == !old(self).l3_cache.non_temporal,
            final(self).regions@.len() == old(self).regions@.len(),
            old(self).caches_after_store(final(self), addr),
    {
        let ghost rv = self@.regions;
        proof {
            lemma_region_unique(rv, addr as int, idx as int);
            lemma_store_byte(rv, addr as int, value);
        }
        let len = self.regions[idx].data.len();
        assert(addr - self.regions@[idx as int].base < len);
        let off = (addr - self.regions[idx].base) as usize;
        self.regions[idx].data[off] = value;
        let ghost rv2 = self@.regions;
        proof {
            assert(rv2 =~= store_byte(rv, addr as int, value));
        }
        if self.l3_cache.non_temporal {
            self.l3_cache.discard(addr);
        } else {
            self.l3_cache.write(&self.regions, addr, value);
        }
        if self.l2_cache.non_temporal {
            self.l2_cache.discard(addr);
        } else {
            self.l2_cache.write(&self.regions, addr, value);
        }
        if self.l1_cache.non_temporal {
            self.l1_cache.discard(addr);
        } else {
            self.l1_cache.write(&self.regions, addr, value);
        }
    }

    /// Read byte from memory with caching. The permission is checked before
    /// any cache is consulted. The first enabled level that holds the address
    /// supplies the byte; the enabled levels before it are filled. If none
    /// holds it, main memory supplies the byte and every enabled level is
    /// filled.
    pub fn read_u8(&mut self, addr: u64) -> (r: Result<u8, EmulatorError>)
        requires
            old(self).wf(),
        ensures
            final(self).wf(),
            final(self)@ == old(self)@,
            final(self).l1_cache.same_shape(&old(self).l1_cache),
            final(self).l2_cache.same_shape(&old(self).l2_cache),
            final(self).l3_cache.same_shape(&old(self).l3_cache),
            match r {
                Ok(v) => old(self)@.load(addr as int) == Some(v) && old(self).loaded(final(self), addr),
                Err(_) => old(self)@.load(addr as int) is None,
            },
            match r {
                Ok(v) => readable(old(self)@.regions, addr as int) && v == byte_of(
                    old(self)@.regions,
                    addr as int,
                ),
                Err(_) => !readable(old(self)@.regions, addr as int) && is_memory_error(
                    r,
                    load_failure(old(self)@.regions, addr as int),
                ) && *final(self) == *old(self),
            },
            r is Ok && !old(self).l1_cache.non_temporal ==> final(self).l1_cache.holds(addr),
            r is Ok && old(self).l1_cache.non_temporal && !old(self).l2_cache.non_temporal ==> final(self).l2_cache.holds(addr),
            r is Ok && old(self).l1_cache.non_temporal && old(self).l2_cache.non_temporal && !old(self).l3_cache.non_temporal ==> final(self).l3_cache.holds(addr),
    {
        let idx = match find_region_index(&self.regions, addr) {
            Some(i) => i,
            None => {
                return Err(EmulatorError::MemoryError(String::from_str("Address not mapped")));
            },
        };
        if !self.regions[idx].permissions.can_read() {
            return Err(EmulatorError::MemoryError(String::from_str("Read permission denied")));
        }
        let len = self.regions[idx].data.len();
        assert(addr - self.regions@[idx as int].base < len);
        let memory_data = self.regions[idx].data[(addr - self.regions[idx].base) as usize];

        // Try L1 cache first
        match self.l1_cache.read(addr) {
            Some(v) => {
                return Ok(v);
            },
            None => {},
        }
        // L1 miss, try L2
        match self.l2_cache.read(addr) {
            Some(v) => {
                if !self.l1_cache.non_temporal {
                    self.l1_cache.fill(&self.regions, addr);
                }
                return Ok(v);
            },
            None => {},
        }
        // L2 miss, try L3
        match self.l3_cache.read(addr) {
            Some(v) => {
                if !self.l2_cache.non_temporal {
                    self.l2_cache.fill(&self.regions, addr);
                }
                if !self.l1_cache.non_temporal {
                    self.l1_cache.fill(&self.regions, addr);
                }
                return Ok(v);
            },
            None => {},
        }
        // Cache miss or non-temporal access, use memory data
        if !self.l3_cache.non_temporal {
            self.l3_cache.fill(&self.regions, addr);
        }
        if !self.l2_cache.non_temporal {
            self.l2_cache.fill(&self.regions, addr);
        }
        if !self.l1_cache.non_temporal {
            self.l1_cache.fill(&self.regions, addr);
        }
        Ok(memory_data)
    }

    /// Write byte to memory with caching
    pub fn write_u8(&mut self, addr: u64, value: u8) -> (r: Result<(), EmulatorError>)
        requires
            old(self).wf(),
        ensures
            final(self).wf(),
            final(self)@ == old(self)@.store(addr as int, value),
            r is Ok <==> writable(old(self)@.regions, addr as int),
            r is Ok ==> old(self).caches_after_store(final(self), addr),
            final(self).l1_cache.same_shape(&old(self).l1_cache),
            final(self).l2_cache.same_shape(&old(self).l2_cache),
            final(self).l3_cache.same_shape(&old(self).l3_cache),
            writable(old(self)@.regions, addr as int) ==> r is Ok && final(self)@ == (MemoryView {
                regions: store_byte(old(self)@.regions, addr as int, value),
                ..old(self)@
            }) && final(self).l1_cache.holds(addr) == !old(self).l1_cache.non_temporal && final(self).l2_cache.holds(addr) == !old(self).l2_cache.non_temporal && final(self).l3_cache.holds(
                addr,
            ) == !old(self).l3_cache.non_temporal,
            !writable(old(self)@.regions, addr as int) ==> is_memory_error(
                r,
                store_failure(old(self)@.regions, addr as int, 1),
            ) && *final(self) == *old(self),
    {
        let idx = match find_region_index(&self.regions, addr) {
            Some(i) => i,
            None => {
                return Err(EmulatorError::MemoryError(String::from_str("Address not mapped")));
            },
        };
        if !self.regions[idx].permissions.can_write() {
            return Err(EmulatorError::MemoryError(String::from_str("Write permission denied")));
        }
        self.store_one(idx, addr, value);
        Ok(())
    }

    /// Store `data` at `addr` as one block. The block is stored only if
    /// `addr` is mapped writable and the whole block lies in the region of
    /// `addr`; otherwise nothing is stored.
    pub fn write_to_caches(&mut self, addr: u64, data: &[u8]) -> (r: Result<(), EmulatorError>)
        requires
            old(self).wf(),
        ensures
            final(self).wf(),
            final(self).l1_cache.same_shape(&old(self).l1_cache),
            final(self).l2_cache.same_shape(&old(self).l2_cache),
            final(self).l3_cache.same_shape(&old(self).l3_cache),
            can_store(old(self)@.regions, addr as int, data@.len() as int) ==> r is Ok && final(self)@
                == (MemoryView {
                regions: store_bytes(old(self)@.regions, addr as int, data@),
                ..old(self)@
            }),
            r is Ok ==> old(self).stored_block(final(self), addr, data@),
            !can_store(old(self)@.regions, addr as int, data@.len() as int) ==> is_memory_error(
                r,
                store_failure(old(self)@.regions, addr as int, data@.len() as int),
            ) && *final(self) == *old(self),
    {
        let ghost rv = self@.regions;
        let ghost mut steps = seq![*self];
        let idx = match find_region_index(&self.regions, addr) {
            Some(i) => i,
            None => {
                return Err(EmulatorError::MemoryError(String::from_str("Address not mapped")));
            },
        };
        if !self.regions[idx].permissions.can_write() {
            return Err(EmulatorError::MemoryError(String::from_str("Write permission denied")));
        }
        let base = self.regions[idx].base;
        let size = self.regions[idx].size;
        let len = data.len();
        if len as u64 > size - (addr - base) {
            return Err(EmulatorError::MemoryError(String::from_str("Write exceeds region bounds")));
        }
        let mut i: usize = 0;
        while i < len
            invariant
                i <= len,
                len == data@.len(),
                self.wf(),
                idx < self.regions@.len(),
                rv == old(self)@.regions,
                self@.regions[idx as int].base == base,
                self@.regions[idx as int].size == size,
                self@.regions[idx as int].permissions.spec_can_write(),
                base <= addr,
                addr + len <= base + size,
                base + size <= 0x1_0000_0000_0000_0000,
                self@ == (MemoryView { regions: store_bytes(rv, addr as int, data@.take(i as int)), ..old(self)@ }),
                self.l1_cache.same_shape(&old(self).l1_cache),
                self.l2_cache.same_shape(&old(self).l2_cache),
                self.l3_cache.same_shape(&old(self).l3_cache),
                is_store_trace(steps, addr, data@.take(i as int)),
                steps.first() == *old(self),
                steps.last() == *self,
            decreases len - i,
        {
            let ghost stored_so_far = self@.regions;
            self.store_one(idx, addr + i as u64, data[i]);
            proof {
                lemma_store_byte(stored_so_far, addr + i, data@[i as int]);
                assert(data@.take(i + 1).drop_last() =~= data@.take(i as int));
                lemma_store_trace_grows(steps, addr, data@.take(i as int), *self, data@[i as int]);
                assert(data@.take(i as int).push(data@[i as int]) =~= data@.take(i + 1));
                steps = steps.push(*self);
            }
            i = i + 1;
        }
        assert(data@.take(len as int) =~= data@);
        Ok(())
    }

    /// Store a block, as `write_to_caches` does.
    pub fn write(&mut self, addr: u64, data: &[u8]) -> (r: Result<(), EmulatorError>)
        requires
            old(self).wf(),
        ensures
            final(self).wf(),
            final(self).l1_cache.same_shape(&old(self).l1_cache),
            final(self).l2_cache.same_shape(&old(self).l2_cache),
            final(self).l3_cache.same_shape(&old(self).l3_cache),
            can_store(old(self)@.regions, addr as int, data@.len() as int) ==> r is Ok && final(self)@
                == (MemoryView {
                regions: store_bytes(old(self)@.regions, addr as int, data@),
                ..old(self)@
            }),
            r is Ok ==> old(self).stored_block(final(self), addr, data@),
            !can_store(old(self)@.regions, addr as int, data@.len() as int) ==> is_memory_error(
                r,
                store_failure(old(self)@.regions, addr as int, data@.len() as int),
            ) && *final(self) == *old(self),
    {
        self.write_to_caches(addr, data)
    }
}

/// Storing bytes changes no region's base, size or permissions.
pub proof fn lemma_store_bytes_shape(rs: Seq<RegionView>, addr: int, bytes: Seq<u8>)
    requires
        regions_wf(rs),
    ensures
        store_bytes(rs, addr, bytes).len() == rs.len(),
        forall|i: int|
            0 <= i < rs.len() ==> {
                &&& (#[trigger] store_bytes(rs, addr, bytes)[i]).base == rs[i].base
                &&& store_bytes(rs, addr, bytes)[i].size == rs[i].size
                &&& store_bytes(rs, addr, bytes)[i].permissions == rs[i].permissions
            },
    decreases bytes.len(),
{
    if bytes.len() > 0 {
        let prev = store_bytes(rs, addr, bytes.drop_last());
        lemma_store_bytes_shape(rs, addr, bytes.drop_last());
        lemma_store_bytes(rs, addr, bytes.drop_last());
        lemma_store_byte(prev, addr + bytes.len() - 1, bytes.last());
    }
}

/// The 16-bit value of two bytes, least significant first.
pub open spec fn u16_from_le(b: Seq<u8>) -> u16 {
    (b[0] as u16) | ((b[1] as u16) << 8)
}

/// The 32-bit value of four bytes, least significant first.
pub open spec fn u32_from_le(b: Seq<u8>) -> u32 {
    (b[0] as u32) | ((b[1] as u32) << 8) | ((b[2] as u32) << 16) | ((b[3] as u32) << 24)
}

/// The 64-bit value of eight bytes, least significant first.
pub open spec fn u64_from_le(b: Seq<u8>) -> u64 {
    (b[0] as u64) | ((b[1] as u64) << 8) | ((b[2] as u64) << 16) | ((b[3] as u64) << 24) | ((
    b[4] as u64) << 32) | ((b[5] as u64) << 40) | ((b[6] as u64) << 48) | ((b[7] as u64) << 56)
}

/// The two bytes of a 16-bit value, least significant first.
pub open spec fn u16_to_le(v: u16) -> Seq<u8> {
    seq![(v & 0xFF) as u8, ((v >> 8) & 0xFF) as u8]
}

/// The four bytes of a 32-bit value, least significant first.
pub open spec fn u32_to_le(v: u32) -> Seq<u8> {
    seq![
        (v & 0xFF) as u8,
        ((v >> 8) & 0xFF) as u8,
        ((v >> 16) & 0xFF) as u8,
        ((v >> 24) & 0xFF) as u8,
    ]
}

/// The eight bytes of a 64-bit value, least significant first.
pub open spec fn u64_to_le(v: u64) -> Seq<u8> {
    seq![
        (v & 0xFF) as u8,
        ((v >> 8) & 0xFF) as u8,
        ((v >> 16) & 0xFF) as u8,
        ((v >> 24) & 0xFF) as u8,
        ((v >> 32) & 0xFF) as u8,
        ((v >> 40) & 0xFF) as u8,
        ((v >> 48) & 0xFF) as u8,
        ((v >> 56) & 0xFF) as u8,
    ]
}

/// Splitting a value into little-endian bytes and putting them together
/// again gives the value back, at every width.
pub proof fn lemma_le_round_trip(a: u16, b: u32, c: u64)
    ensures
        u16_to_le(a).len() == 2 && u16_from_le(u16_to_le(a)) == a,
        u32_to_le(b).len() == 4 && u32_from_le(u32_to_le(b)) == b,
        u64_to_le(c).len() == 8 && u64_from_le(u64_to_le(c)) == c,
{
    assert((((a & 0xFF) as u8) as u16) | ((((a >> 8) & 0xFF) as u8) as u16) << 8 == a) by (bit_vector);
    assert((((b & 0xFF) as u8) as u32) | ((((b >> 8) & 0xFF) as u8) as u32) << 8 | ((((b >> 16)
        & 0xFF) as u8) as u32) << 16 | ((((b >> 24) & 0xFF) as u8) as u32) << 24 == b)
        by (bit_vector);
    assert((((c & 0xFF) as u8) as u64) | ((((c >> 8) & 0xFF) as u8) as u64) << 8 | ((((c >> 16)
        & 0xFF) as u8) as u64) << 16 | ((((c >> 24) & 0xFF) as u8) as u64) << 24 | ((((c >> 32)
        & 0xFF) as u8) as u64) << 32 | ((((c >> 40) & 0xFF) as u8) as u64) << 40 | ((((c >> 48)
        & 0xFF) as u8) as u64) << 48 | ((((c >> 56) & 0xFF) as u8) as u64) << 56 == c)
        by (bit_vector);
}

/// Whether `k` is the first offset in `[0, len)` whose byte cannot be loaded.
pub open spec fn is_first_unreadable(rs: Seq<RegionView>, addr: int, len: int, k: int) -> bool {
    &&& 0 <= k < len
    &&& !readable(rs, addr + k)
    &&& forall|j: int| 0 <= j < k ==> readable(rs, #[trigger] (addr + j))
}

/// Whether `k` is the first offset in `[0, len)` whose byte cannot be stored.
pub open spec fn is_first_unwritable(rs: Seq<RegionView>, addr: int, len: int, k: int) -> bool {
    &&& 0 <= k < len
    &&& !writable(rs, addr + k)
    &&& forall|j: int| 0 <= j < k ==> writable(rs, #[trigger] (addr + j))
}

/// Whether every byte of `[addr, addr + len)` can be stored.
pub open spec fn can_store_each(rs: Seq<RegionView>, addr: int, len: int) -> bool {
    forall|k: int| 0 <= k < len ==> writable(rs, #[trigger] (addr + k))
}

/// No address at or beyond `2^64` is mapped.
pub proof fn lemma_beyond_address_space(rs: Seq<RegionView>, addr: int)
    requires
        regions_wf(rs),
        addr >= 0x1_0000_0000_0000_0000,
    ensures
        !is_mapped(rs, addr),
{
    if is_mapped(rs, addr) {
    }
}

/// After a value is stored as little-endian bytes in mapped memory, loading
/// the same bytes gives the value back, at every width.
pub proof fn lemma_wide_load_after_store(rs: Seq<RegionView>, addr: int, a: u16, b: u32, c: u64)
    requires
        regions_wf(rs),
    ensures
        (forall|k: int| 0 <= k < 2 ==> is_mapped(rs, #[trigger] (addr + k))) ==> u16_from_le(
            bytes_of(store_bytes(rs, addr, u16_to_le(a)), addr, 2),
        ) == a,
        (forall|k: int| 0 <= k < 4 ==> is_mapped(rs, #[trigger] (addr + k))) ==> u32_from_le(
            bytes_of(store_bytes(rs, addr, u32_to_le(b)), addr, 4),
        ) == b,
        (forall|k: int| 0 <= k < 8 ==> is_mapped(rs, #[trigger] (addr + k))) ==> u64_from_le(
            bytes_of(store_bytes(rs, addr, u64_to_le(c)), addr, 8),
        ) == c,
{
    lemma_le_round_trip(a, b, c);
    lemma_store_bytes(rs, addr, u16_to_le(a));
    lemma_store_bytes(rs, addr, u32_to_le(b));
    lemma_store_bytes(rs, addr, u64_to_le(c));
}

impl Memory {
    /// Load `len` bytes from `addr`, one after another, and stop at the
    /// first that cannot be loaded.
    pub fn load(&mut self, addr: u64, len: usize) -> (r: Result<Vec<u8>, EmulatorError>)
        requires
            old(self).wf(),
        ensures
            final(self).wf(),
            final(self)@ == old(self)@,
            final(self).regions == old(self).regions,
            final(self).speculative_loads == old(self).speculative_loads,
            final(self).l1_cache.same_shape(&old(self).l1_cache),
            final(self).l2_cache.same_shape(&old(self).l2_cache),
            final(self).l3_cache.same_shape(&old(self).l3_cache),
            match r {
                Ok(bytes) => can_load(old(self)@.regions, addr as int, len as int) && bytes@
                    == bytes_of(old(self)@.regions, addr as int, len as int) && old(self).loaded_block(
                    final(self),
                    addr,
                    len as int,
                ),
                Err(_) => exists|k: int| #[trigger]
                    is_first_unreadable(old(self)@.regions, addr as int, len as int, k)
                        && is_memory_error(r, load_failure(old(self)@.regions, addr + k)) && old(self).loaded_block(final(self), addr, k),
            },
    {
        let ghost rv = self@.regions;
        let ghost mut steps = seq![*self];
        let mut out: Vec<u8> = Vec::new();
        let mut i: usize = 0;
        while i < len
            invariant
                i <= len,
                self.wf(),
                self@ == old(self)@,
                rv == self@.regions,
                self.l1_cache.same_shape(&old(self).l1_cache),
                self.l2_cache.same_shape(&old(self).l2_cache),
                self.l3_cache.same_shape(&old(self).l3_cache),
                out@.len() == i,
                forall|j: int| 0 <= j < i ==> readable(rv, #[trigger] (addr + j)),
                forall|j: int| 0 <= j < i ==> #[trigger] out@[j] == byte_of(rv, addr + j),
                self.regions == old(self).regions,
                self.speculative_loads == old(self).speculative_loads,
                is_load_trace(steps, addr, i as int),
                steps.first() == *old(self),
                steps.last() == *self,
            decreases len - i,
        {
            if i as u64 > u64::MAX - addr {
                proof {
                    lemma_beyond_address_space(rv, addr + i);
                    assert(is_first_unreadable(rv, addr as int, len as int, i as int));
                }
                return Err(EmulatorError::MemoryError(String::from_str("Address not mapped")));
            }
            match self.read_u8(addr + i as u64) {
                Ok(b) => {
                    out.push(b);
                },
                Err(e) => {
                    proof {
                        assert(is_first_unreadable(rv, addr as int, len as int, i as int));
                    }
                    return Err(e);
                },
            }
            proof {
                lemma_load_trace_grows(steps, addr, i as int, *self);
                steps = steps.push(*self);
            }
            i = i + 1;
        }
        Ok(out)
    }

    /// Read bytes from memory: fill `data` from `addr` on, one byte after
    /// another, and stop at the first byte that cannot be loaded.
    pub fn read_bytes(&mut self, addr: u64, data: &mut [u8]) -> (r: Result<(), EmulatorError>)
        requires
            old(self).wf(),
        ensures
            final(self).wf(),
            final(self)@ == old(self)@,
            final(data)@.len() == old(data)@.len(),
            match r {
                Ok(_) => can_load(old(self)@.regions, addr as int, old(data)@.len() as int) && final(data)@ == bytes_of(old(self)@.regions, addr as int, old(data)@.len() as int)
                    && old(self).loaded_block(final(self), addr, old(data)@.len() as int),
                Err(_) => exists|k: int| #[trigger]
                    is_first_unreadable(old(self)@.regions, addr as int, old(data)@.len() as int, k)
                        && is_memory_error(r, load_failure(old(self)@.regions, addr + k)) && final(data)@ == bytes_of(old(self)@.regions, addr as int, k) + old(data)@.skip(k)
                        && old(self).loaded_block(final(self), addr, k),
            },
    {
        let ghost rv = self@.regions;
        let ghost mut steps = seq![*self];
        let len = data.len();
        let mut i: usize = 0;
        while i < len
            invariant
                i <= len,
                len == data@.len(),
                len == old(data)@.len(),
                self.wf(),
                self@ == old(self)@,
                rv == self@.regions,
                forall|j: int| 0 <= j < i ==> readable(rv, #[trigger] (addr + j)),
                data@ == bytes_of(rv, addr as int, i as int) + old(data)@.skip(i as int),
                is_load_trace(steps, addr, i as int),
                steps.first() == *old(self),
                steps.last() == *self,
            decreases len - i,
        {
            if i as u64 > u64::MAX - addr {
                proof {
                    lemma_beyond_address_space(rv, addr + i);
                    assert(is_first_unreadable(rv, addr as int, len as int, i as int));
                }
                return Err(EmulatorError::MemoryError(String::from_str("Address not mapped")));
            }
            match self.read_u8(addr + i as u64) {
                Ok(b) => {
                    data[i] = b;
                },
                Err(e) => {
                    proof {
                        assert(is_first_unreadable(rv, addr as int, len as int, i as int));
                    }
                    return Err(e);
                },
            }
            proof {
                lemma_load_trace_grows(steps, addr, i as int, *self);
                steps = steps.push(*self);
            }
            i = i + 1;
        }
        Ok(())
    }

    /// Write bytes to memory, one byte after another, and stop at the first
    /// byte that cannot be stored; the bytes before it stay stored.
    pub fn write_bytes(&mut self, addr: u64, data: &[u8]) -> (r: Result<(), EmulatorError>)
        requires
            old(self).wf(),
        ensures
            final(self).wf(),
            final(self)@.loads == old(self)@.loads,
            final(self)@.bypass == old(self)@.bypass,
            match r {
                Ok(_) => can_store_each(old(self)@.regions, addr as int, data@.len() as int) && final(self)@.regions == store_bytes(old(self)@.regions, addr as int, data@)
                    && old(self).stored_block(final(self), addr, data@),
                Err(_) => exists|k: int| #[trigger]
                    is_first_unwritable(old(self)@.regions, addr as int, data@.len() as int, k)
                        && is_memory_error(r, store_failure(old(self)@.regions, addr + k, 1)) && final(self)@.regions == store_bytes(old(self)@.regions, addr as int, data@.take(k))
                        && old(self).stored_block(final(self), addr, data@.take(k)),
            },
    {
        let ghost rv = self@.regions;
        let ghost mut steps = seq![*self];
        let len = data.len();
        let mut i: usize = 0;
        while i < len
            invariant
                i <= len,
                len == data@.len(),
                self.wf(),
                rv == old(self)@.regions,
                regions_wf(rv),
                self@.loads == old(self)@.loads,
                self@.bypass == old(self)@.bypass,
                self@.regions == store_bytes(rv, addr as int, data@.take(i as int)),
                forall|j: int| 0 <= j < i ==> writable(rv, #[trigger] (addr + j)),
                is_store_trace(steps, addr, data@.take(i as int)),
                steps.first() == *old(self),
                steps.last() == *self,
            decreases len - i,
        {
            proof {
                lemma_store_bytes(rv, addr as int, data@.take(i as int));
                assert(data@.take(i + 1).drop_last() =~= data@.take(i as int));
            }
            if i as u64 > u64::MAX - addr {
                proof {
                    lemma_beyond_address_space(rv, addr + i);
                    assert(is_first_unwritable(rv, addr as int, len as int, i as int));
                }
                return Err(EmulatorError::MemoryError(String::from_str("Address not mapped")));
            }
            let ghost before = *self;
            match self.write_u8(addr + i as u64, data[i]) {
                Ok(_) => {},
                Err(e) => {
                    proof {
                        assert(is_first_unwritable(rv, addr as int, len as int, i as int));
                    }
                    return Err(e);
                },
            }
            proof {
                assert(before.stored(self, (addr + i) as u64, data@[i as int]));
                lemma_store_trace_grows(steps, addr, data@.take(i as int), *self, data@[i as int]);
                assert(data@.take(i as int).push(data@[i as int]) =~= data@.take(i + 1));
                steps = steps.push(*self);
            }
            i = i + 1;
        }
        assert(data@.take(len as int) =~= data@);
        Ok(())
    }

    /// Read 16-bit value from memory
    pub fn read_u16(&mut self, addr: u64) -> (r: Result<u16, EmulatorError>)
        requires
            old(self).wf(),
        ensures
            final(self).wf(),
            final(self)@ == old(self)@,
            match r {
                Ok(v) => can_load(old(self)@.regions, addr as int, 2) && v == u16_from_le(
                    bytes_of(old(self)@.regions, addr as int, 2),
                ) && old(self).loaded_block(final(self), addr, 2),
                Err(_) => exists|k: int| #[trigger]
                    is_first_unreadable(old(self)@.regions, addr as int, 2, k) && is_memory_error(
                        r,
                        load_failure(old(self)@.regions, addr + k),
                    ) && old(self).loaded_block(final(self), addr, k),
            },
    {
        match self.load(addr, 2) {
            Ok(b) => Ok((b[0] as u16) | ((b[1] as u16) << 8)),
            Err(e) => Err(e),
        }
    }

    /// Read 32-bit value from memory
    pub fn read_u32(&mut self, addr: u64) -> (r: Result<u32, EmulatorError>)
        requires
            old(self).wf(),
        ensures
            final(self).wf(),
            final(self)@ == old(self)@,
            match r {
                Ok(v) => can_load(old(self)@.regions, addr as int, 4) && v == u32_from_le(
                    bytes_of(old(self)@.regions, addr as int, 4),
                ) && old(self).loaded_block(final(self), addr, 4),
                Err(_) => exists|k: int| #[trigger]
                    is_first_unreadable(old(self)@.regions, addr as int, 4, k) && is_memory_error(
                        r,
                        load_failure(old(self)@.regions, addr + k),
                    ) && old(self).loaded_block(final(self), addr, k),
            },
    {
        match self.load(addr, 4) {
            Ok(b) => Ok(
                (b[0] as u32) | ((b[1] as u32) << 8) | ((b[2] as u32) << 16) | ((b[3] as u32) << 24),
            ),
            Err(e) => Err(e),
        }
    }

    /// Read 64-bit value from memory
    pub fn read_u64(&mut self, addr: u64) -> (r: Result<u64, EmulatorError>)
        requires
            old(self).wf(),
        ensures
            final(self).wf(),
            final(self)@ == old(self)@,
            match r {
                Ok(v) => can_load(old(self)@.regions, addr as int, 8) && v == u64_from_le(
                    bytes_of(old(self)@.regions, addr as int, 8),
                ) && old(self).loaded_block(final(self), addr, 8),
                Err(_) => exists|k: int| #[trigger]
                    is_first_unreadable(old(self)@.regions, addr as int, 8, k) && is_memory_error(
                        r,
                        load_failure(old(self)@.regions, addr + k),
                    ) && old(self).loaded_block(final(self), addr, k),
            },
            old(self).accessed(final(self), WordAccess::Load { addr }),
    {
        match self.load(addr, 8) {
            Ok(b) => Ok(
                (b[0] as u64) | ((b[1] as u64) << 8) | ((b[2] as u64) << 16) | ((b[3] as u64) << 24) | ((
                b[4] as u64) << 32) | ((b[5] as u64) << 40) | ((b[6] as u64) << 48) | ((b[7] as u64)
                    << 56),
            ),
            Err(e) => Err(e),
        }
    }

    /// Write 16-bit value to memory, byte by byte, least significant first.
    pub fn write_u16(&mut self, addr: u64, value: u16) -> (r: Result<(), EmulatorError>)
        requires
            old(self).wf(),
        ensures
            final(self).wf(),
            final(self)@.loads == old(self)@.loads,
            final(self)@.bypass == old(self)@.bypass,
            match r {
                Ok(_) => can_store_each(old(self)@.regions, addr as int, 2) && final(self)@.regions
                    == store_bytes(old(self)@.regions, addr as int, u16_to_le(value)) && old(self).stored_block(final(self), addr, u16_to_le(value)),
                Err(_) => exists|k: int| #[trigger]
                    is_first_unwritable(old(self)@.regions, addr as int, 2, k) && is_memory_error(
                        r,
                        store_failure(old(self)@.regions, addr + k, 1),
                    ) && final(self)@.regions == store_bytes(
                        old(self)@.regions,
                        addr as int,
                        u16_to_le(value).take(k),
                    ) && old(self).stored_block(final(self), addr, u16_to_le(value).take(k)),
            },
    {
        let bytes: Vec<u8> = vec![(value & 0xFF) as u8, ((value >> 8) & 0xFF) as u8];
        self.write_bytes(addr, bytes.as_slice())
    }

    /// Write 32-bit value to memory, byte by byte, least significant first.
    pub fn write_u32(&mut self, addr: u64, value: u32) -> (r: Result<(), EmulatorError>)
        requires
            old(self).wf(),
        ensures
            final(self).wf(),
            final(self)@.loads == old(self)@.loads,
            final(self)@.bypass == old(self)@.bypass,
            match r {
                Ok(_) => can_store_each(old(self)@.regions, addr as int, 4) && final(self)@.regions
                    == store_bytes(old(self)@.regions, addr as int, u32_to_le(value)) && old(self).stored_block(final(self), addr, u32_to_le(value)),
                Err(_) => exists|k: int| #[trigger]
                    is_first_unwritable(old(self)@.regions, addr as int, 4, k) && is_memory_error(
                        r,
                        store_failure(old(self)@.regions, addr + k, 1),
                    ) && final(self)@.regions == store_bytes(
                        old(self)@.regions,
                        addr as int,
                        u32_to_le(value).take(k),
                    ) && old(self).stored_block(final(self), addr, u32_to_le(value).take(k)),
            },
    {
        let bytes: Vec<u8> = vec![
            (value & 0xFF) as u8,
            ((value >> 8) & 0xFF) as u8,
            ((value >> 16) & 0xFF) as u8,
            ((value >> 24) & 0xFF) as u8,
        ];
        self.write_bytes(addr, bytes.as_slice())
    }

    /// Write 64-bit value to memory as one block of eight bytes, least
    /// significant first: either all eight are stored or none is.
    pub fn write_u64(&mut self, addr: u64, value: u64) -> (r: Result<(), EmulatorError>)
        requires
            old(self).wf(),
        ensures
            final(self).wf(),
            can_store(old(self)@.regions, addr as int, 8) ==> r is Ok && final(self)@ == (MemoryView {
                regions: store_bytes(old(self)@.regions, addr as int, u64_to_le(value)),
                ..old(self)@
            }),
            r is Ok ==> old(self).stored_block(final(self), addr, u64_to_le(value)),
            old(self).accessed(final(self), WordAccess::Store { addr, value }),
            !can_store(old(self)@.regions, addr as int, 8) ==> is_memory_error(
                r,
                store_failure(old(self)@.regions, addr as int, 8),
            ) && *final(self) == *old(self),
    {
        let bytes: Vec<u8> = vec![
            (value & 0xFF) as u8,
            ((value >> 8) & 0xFF) as u8,
            ((value >> 16) & 0xFF) as u8,
            ((value >> 24) & 0xFF) as u8,
            ((value >> 32) & 0xFF) as u8,
            ((value >> 40) & 0xFF) as u8,
            ((value >> 48) & 0xFF) as u8,
            ((value >> 56) & 0xFF) as u8,
        ];
        self.write_to_caches(addr, bytes.as_slice())
    }

    /// Track a speculative load: attempt the load and log the attempt with
    /// its outcome.
    pub fn track_speculative_load(&mut self, addr: u64, size: usize) -> (r: Result<
        SpeculativeStatus,
        EmulatorError,
    >)
        requires
            old(self).wf(),
        ensures
            final(self).wf(),
            final(self)@.regions == old(self)@.regions,
            final(self)@.bypass == old(self)@.bypass,
            can_load(old(self)@.regions, addr as int, size as int) ==> r == Ok::<
                SpeculativeStatus,
                EmulatorError,
            >(SpeculativeStatus::Success) && final(self)@.loads == old(self)@.loads.push(
                SpeculativeLoadView {
                    addr,
                    size,
                    status: SpeculativeStatus::Success,
                    data: bytes_of(old(self)@.regions, addr as int, size as int),
                },
            ),
            !can_load(old(self)@.regions, addr as int, size as int) ==> r == Ok::<
                SpeculativeStatus,
                EmulatorError,
            >(SpeculativeStatus::Failed) && final(self)@.loads == old(self)@.loads.push(
                SpeculativeLoadView {
                    addr,
                    size,
                    status: SpeculativeStatus::Failed,
                    data: Seq::empty(),
                },
            ),
            final(self).regions == old(self).regions,
            can_load(old(self)@.regions, addr as int, size as int) ==> old(self).loaded_block(
                &final(self).with_log_of(old(self)),
                addr,
                size as int,
            ),
            !can_load(old(self)@.regions, addr as int, size as int) ==> exists|k: int| #[trigger]
                is_first_unreadable(old(self)@.regions, addr as int, size as int, k) && old(self).loaded_block(&final(self).with_log_of(old(self)), addr, k),
    {
        let ghost loads = self@.loads;
        match self.load(addr, size) {
            Ok(data) => {
                let entry = SpeculativeLoad { addr, size, status: SpeculativeStatus::Success, data };
                assert(self.with_log_of(old(self)) == *self);
                self.speculative_loads.push(entry);
                Ok(SpeculativeStatus::Success)
            },
            Err(_) => {
                let entry = SpeculativeLoad {
                    addr,
                    size,
                    status: SpeculativeStatus::Failed,
                    data: Vec::new(),
                };
                assert(self.with_log_of(old(self)) == *self);
                self.speculative_loads.push(entry);
                Ok(SpeculativeStatus::Failed)
            },
        }
    }

    /// Cancel a speculative load: the oldest entry for `addr`, if there is
    /// one, becomes `Cancelled`.
    pub fn cancel_speculative_load(&mut self, addr: u64)
        requires
            old(self).wf(),
        ensures
            final(self).wf(),
            final(self)@.regions == old(self)@.regions,
            final(self)@.bypass == old(self)@.bypass,
            final(self).with_log_of(old(self)) == *old(self),
            !has_load(old(self)@.loads, addr) ==> *final(self) == *old(self),
            has_load(old(self)@.loads, addr) ==> exists|i: int| #[trigger]
                is_first_load(old(self)@.loads, addr, i) && final(self)@.loads == old(self)@.loads.update(
                    i,
                    SpeculativeLoadView { status: SpeculativeStatus::Cancelled, ..old(self)@.loads[i] },
                ),
    {
        let ghost loads = self@.loads;
        let mut i: usize = 0;
        while i < self.speculative_loads.len()
            invariant
                i <= self.speculative_loads@.len(),
                *self == *old(self),
                self.wf(),
                loads == self@.loads,
                forall|j: int| 0 <= j < i ==> (#[trigger] loads[j]).addr != addr,
            decreases self.speculative_loads@.len() - i,
        {
            if self.speculative_loads[i].addr == addr {
                self.speculative_loads[i].status = SpeculativeStatus::Cancelled;
                proof {
                    assert(is_first_load(loads, addr, i as int));
                }
                return ;
            }
            i = i + 1;
        }
    }

    /// Check if a speculative load succeeded: the status of the oldest entry
    /// for `addr`.
    pub fn check_speculative_load(&self, addr: u64) -> (r: Option<SpeculativeStatus>)
        ensures
            match r {
                Some(status) => exists|i: int| #[trigger]
                    is_first_load(self@.loads, addr, i) && status == self@.loads[i].status,
                None => !has_load(self@.loads, addr),
            },
    {
        let ghost loads = self@.loads;
        let mut i: usize = 0;
        while i < self.speculative_loads.len()
            invariant
                i <= self.speculative_loads@.len(),
                loads == self@.loads,
                forall|j: int| 0 <= j < i ==> (#[trigger] loads[j]).addr != addr,
            decreases self.speculative_loads@.len() - i,
        {
            if self.speculative_loads[i].addr == addr {
                assert(is_first_load(loads, addr, i as int));
                return Some(self.speculative_loads[i].status);
            }
            i = i + 1;
        }
        None
    }

    /// Flush one cache level that stands outside this memory: its `Modified`
    /// lines become `Exclusive`.
    pub fn flush_cache(&mut self, level: &mut CacheLevel) -> (r: Result<(), EmulatorError>)
        requires
            old(level).wf(),
        ensures
            r is Ok,
            *final(self) == *old(self),
            final(level).wf(),
            final(level).same_shape(old(level)),
            old(level).flushed(final(level)),
            forall|s: int, w: int|
                0 <= s < old(level).sets@.len() && 0 <= w < old(level).sets@[s].lines@.len() ==> (
                #[trigger] final(level).sets@[s].lines@[w]) == cache::flushed_line(
                    old(level).sets@[s].lines@[w],
                ),
    {
        level.flush();
        Ok(())
    }

    /// Flush all cache levels back to memory.
    ///
    /// Main memory already holds every cached byte, so the flush changes no
    /// region. After it no line of any level is `Modified`; a line that was
    /// is `Exclusive`.
    pub fn flush_all_caches(&mut self) -> (r: Result<(), EmulatorError>)
        requires
            old(self).wf(),
        ensures
            r is Ok,
            final(self).wf(),
            final(self)@ == old(self)@.flushed(),
            final(self).regions == old(self).regions,
            final(self).speculative_loads == old(self).speculative_loads,
            old(self).l1_cache.flushed(&final(self).l1_cache),
            old(self).l2_cache.flushed(&final(self).l2_cache),
            old(self).l3_cache.flushed(&final(self).l3_cache),
            final(self).l1_cache.same_shape(&old(self).l1_cache),
            final(self).l2_cache.same_shape(&old(self).l2_cache),
            final(self).l3_cache.same_shape(&old(self).l3_cache),
            forall|s: int, w: int|
                0 <= s < old(self).l1_cache.sets@.len() && 0 <= w < old(self).l1_cache.sets@[s].lines@.len()
                    ==> (#[trigger] final(self).l1_cache.sets@[s].lines@[w]) == cache::flushed_line(
                    old(self).l1_cache.sets@[s].lines@[w],
                ),
            forall|s: int, w: int|
                0 <= s < old(self).l2_cache.sets@.len() && 0 <= w < old(self).l2_cache.sets@[s].lines@.len()
                    ==> (#[trigger] final(self).l2_cache.sets@[s].lines@[w]) == cache::flushed_line(
                    old(self).l2_cache.sets@[s].lines@[w],
                ),
            forall|s: int, w: int|
                0 <= s < old(self).l3_cache.sets@.len() && 0 <= w < old(self).l3_cache.sets@[s].lines@.len()
                    ==> (#[trigger] final(self).l3_cache.sets@[s].lines@[w]) == cache::flushed_line(
                    old(self).l3_cache.sets@[s].lines@[w],
                ),
    {
        self.l1_cache.flush();
        self.l2_cache.flush();
        self.l3_cache.flush();
        Ok(())
    }
}

impl CacheLine {
    /// Write back dirty line to memory: a `Modified` line stores its bytes
    /// at `addr`, byte by byte, and becomes `Exclusive` if every byte was
    /// stored. Any other line leaves the memory alone.
    pub fn write_back(&mut self, memory: &mut Memory, addr: u64) -> (r: Result<(), EmulatorError>)
        requires
            old(memory).wf(),
        ensures
            final(memory).wf(),
            final(memory)@.loads == old(memory)@.loads,
            final(memory)@.bypass == old(memory)@.bypass,
            final(self).tag == old(self).tag,
            final(self).data == old(self).data,
            final(self).last_access == old(self).last_access,
            old(self).state != CacheLineState::Modified ==> r is Ok && *final(self) == *old(self)
                && *final(memory) == *old(memory),
            old(self).state == CacheLineState::Modified ==> match r {
                Ok(_) => can_store_each(old(memory)@.regions, addr as int, old(self).data@.len() as int)
                    && final(memory)@.regions == store_bytes(
                    old(memory)@.regions,
                    addr as int,
                    old(self).data@,
                ) && final(self).state == CacheLineState::Exclusive && old(memory).stored_block(
                    final(memory),
                    addr,
                    old(self).data@,
                ),
                Err(_) => exists|k: int| #[trigger]
                    is_first_unwritable(
                        old(memory)@.regions,
                        addr as int,
                        old(self).data@.len() as int,
                        k,
                    ) && is_memory_error(r, store_failure(old(memory)@.regions, addr + k, 1))
                        && final(memory)@.regions == store_bytes(
                        old(memory)@.regions,
                        addr as int,
                        old(self).data@.take(k),
                    ) && final(self).state == CacheLineState::Modified && old(memory).stored_block(
                        final(memory),
                        addr,
                        old(self).data@.take(k),
                    ),
            },
    {
        if self.is_dirty() {
            match memory.write_bytes(addr, self.data.as_slice()) {
                Ok(_) => {},
                Err(e) => {
                    return Err(e);
                },
            }
            self.state = CacheLineState::Exclusive;
        }
        Ok(())
    }
}

impl Default for Memory {
    fn default() -> (m: Self)
        ensures
            m.wf(),
            m@.regions.len() == 0,
            m@.loads.len() == 0,
            m@.bypass == (false, false, false),
    {
        Self::new()
    }
}

} // verus!
