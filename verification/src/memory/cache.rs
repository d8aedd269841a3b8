//! Set-associative cache levels with LRU replacement.
//!
//! A level splits an address into `(tag, set index, offset)` by the bit widths
//! of its line size and set count. The contracts speak of the same split
//! arithmetically: the offset is the address modulo the line size, the set
//! index the line number modulo the set count, the tag what is left.

use vstd::prelude::*;
use vstd::arithmetic::div_mod::{lemma_fundamental_div_mod, lemma_fundamental_div_mod_converse};
use vstd::arithmetic::power2::{pow2, lemma_pow2_pos};
use vstd::bits::{
    lemma_u64_low_bits_mask_is_mod,
    lemma_u64_pow2_no_overflow,
    lemma_u64_shl_is_mul,
    lemma_u64_shr_is_div,
};
use super::{cached_byte, read_cached_byte, region_views, regions_wf, Region, RegionView};

verus! {

/// Cache line state
#[derive(Debug, Clone, Copy, PartialEq, Eq, Structural)]
pub enum CacheLineState {
    /// Invalid
    Invalid,
    /// Modified (dirty)
    Modified,
    /// Exclusive
    Exclusive,
    /// Shared
    Shared,
}

/// Cache write policy
#[derive(Debug, Clone, Copy, PartialEq, Eq, Structural)]
pub enum WritePolicy {
    /// Write-through: writes go to all levels immediately
    WriteThrough,
    /// Write-back: writes update cache only, dirty lines written back later
    WriteBack,
}

/// Cache line
#[derive(Debug)]
pub struct CacheLine {
    /// Tag
    pub tag: u64,
    /// Data
    pub data: Vec<u8>,
    /// State
    pub state: CacheLineState,
    /// Last access time for LRU
    pub last_access: u64,
}

/// A vector of `n` zero bytes.
pub fn zeroed(n: usize) -> (v: Vec<u8>)
    ensures
        v@ == Seq::new(n as nat, |i: int| 0u8),
{
    let mut v: Vec<u8> = Vec::new();
    let mut i: usize = 0;
    while i < n
        invariant
            i <= n,
            v@ == Seq::new(i as nat, |j: int| 0u8),
        decreases n - i,
    {
        v.push(0u8);
        i = i + 1;
    }
    v
}

/// A copy of a byte vector.
pub fn copy_bytes(src: &Vec<u8>) -> (v: Vec<u8>)
    ensures
        v@ == src@,
{
    let mut v: Vec<u8> = Vec::new();
    let mut i: usize = 0;
    while i < src.len()
        invariant
            i <= src@.len(),
            v@ == src@.subrange(0, i as int),
        decreases src@.len() - i,
    {
        v.push(src[i]);
        i = i + 1;
    }
    v
}

impl CacheLine {
    /// Whether the line holds data for its tag.
    pub open spec fn is_valid(&self) -> bool {
        self.state != CacheLineState::Invalid
    }

    /// Whether the line is valid and carries `tag`.
    pub open spec fn matches_tag(&self, tag: u64) -> bool {
        self.is_valid() && self.tag == tag
    }

    /// An invalid line of `size` zero bytes.
    pub fn new(tag: u64, size: usize) -> (line: Self)
        ensures
            line.tag == tag,
            line.data@ == Seq::new(size as nat, |i: int| 0u8),
            line.state == CacheLineState::Invalid,
            line.last_access == 0,
    {
        Self { tag, data: zeroed(size), state: CacheLineState::Invalid, last_access: 0 }
    }

    /// Check if line is dirty (modified)
    pub fn is_dirty(&self) -> (b: bool)
        ensures
            b == (self.state == CacheLineState::Modified),
    {
        self.state == CacheLineState::Modified
    }
}

/// Whether way `r` is the replacement victim among `lines`: the first invalid
/// line if there is one, otherwise the first line with the least access time.
pub open spec fn is_victim(lines: Seq<CacheLine>, r: int) -> bool {
    &&& 0 <= r < lines.len()
    &&& if exists|w: int| 0 <= w < lines.len() && !(#[trigger] lines[w]).is_valid() {
        &&& !lines[r].is_valid()
        &&& forall|w: int| 0 <= w < r ==> (#[trigger] lines[w]).is_valid()
    } else {
        &&& forall|w: int| 0 <= w < lines.len() ==> lines[r].last_access <= (#[trigger] lines[w]).last_access
        &&& forall|w: int| 0 <= w < r ==> (#[trigger] lines[w]).last_access > lines[r].last_access
    }
}

/// Whether way `r` is the first valid line that carries `tag`.
pub open spec fn is_first_match(lines: Seq<CacheLine>, tag: u64, r: int) -> bool {
    &&& 0 <= r < lines.len()
    &&& lines[r].matches_tag(tag)
    &&& forall|w: int| 0 <= w < r ==> !(#[trigger] lines[w]).matches_tag(tag)
}

/// Whether some valid line carries `tag`.
pub open spec fn has_match(lines: Seq<CacheLine>, tag: u64) -> bool {
    exists|w: int| 0 <= w < lines.len() && (#[trigger] lines[w]).matches_tag(tag)
}

/// Cache set
#[derive(Debug)]
pub struct CacheSet {
    /// Lines in the set
    pub lines: Vec<CacheLine>,
    /// Access counter for LRU
    pub access_counter: u64,
    /// Set index
    pub index: usize,
}

impl CacheSet {
    /// The set has `associativity` lines of `line_size` bytes, and no two
    /// valid lines carry the same tag.
    pub open spec fn wf(&self, associativity: int, line_size: int) -> bool {
        &&& self.lines@.len() == associativity
        &&& forall|w: int| 0 <= w < self.lines@.len() ==> (#[trigger] self.lines@[w]).data@.len() == line_size
        &&& forall|a: int, b: int|
            0 <= a < b < self.lines@.len() && (#[trigger] self.lines@[a]).is_valid() && (
            #[trigger] self.lines@[b]).is_valid() ==> self.lines@[a].tag != self.lines@[b].tag
    }

    /// The counter after one more access: it counts up and stays at its
    /// greatest value once it is reached.
    pub open spec fn next_counter(&self) -> u64 {
        if self.access_counter < u64::MAX {
            (self.access_counter + 1) as u64
        } else {
            u64::MAX
        }
    }

    /// A set of `associativity` invalid, zero-filled lines.
    pub fn new(index: usize, associativity: usize, line_size: usize) -> (set: Self)
        ensures
            set.wf(associativity as int, line_size as int),
            set.index == index,
            set.access_counter == 0,
            forall|w: int| 0 <= w < associativity ==> !(#[trigger] set.lines@[w]).is_valid(),
    {
        let mut lines: Vec<CacheLine> = Vec::new();
        let mut i: usize = 0;
        while i < associativity
            invariant
                i <= associativity,
                lines@.len() == i,
                forall|w: int| 0 <= w < i ==> (#[trigger] lines@[w]).data@.len() == line_size,
                forall|w: int| 0 <= w < i ==> !(#[trigger] lines@[w]).is_valid(),
            decreases associativity - i,
        {
            lines.push(CacheLine::new(0, line_size));
            i = i + 1;
        }
        Self { lines, access_counter: 0, index }
    }

    /// Look for the valid line that carries `tag`. The access is counted, and
    /// a line that is found is stamped with the new count.
    pub fn find_line(&mut self, tag: u64) -> (r: Option<usize>)
        ensures
            final(self).access_counter == old(self).next_counter(),
            final(self).index == old(self).index,
            final(self).lines@.len() == old(self).lines@.len(),
            match r {
                Some(w) => {
                    &&& is_first_match(old(self).lines@, tag, w as int)
                    &&& final(self).lines@ == old(self).lines@.update(
                        w as int,
                        CacheLine { last_access: final(self).access_counter, ..old(self).lines@[w as int] },
                    )
                },
                None => !has_match(old(self).lines@, tag) && final(self).lines@ == old(self).lines@,
            },
    {
        self.access_counter = self.access_counter.saturating_add(1);
        let mut i: usize = 0;
        while i < self.lines.len()
            invariant
                i <= self.lines@.len(),
                self.lines@ == old(self).lines@,
                self.index == old(self).index,
                self.access_counter == old(self).next_counter(),
                forall|w: int| 0 <= w < i ==> !(#[trigger] self.lines@[w]).matches_tag(tag),
            decreases self.lines@.len() - i,
        {
            if self.lines[i].state != CacheLineState::Invalid && self.lines[i].tag == tag {
                self.lines[i].last_access = self.access_counter;
                return Some(i);
            }
            i = i + 1;
        }
        None
    }

    /// Look for the valid line that carries `tag`, without counting an access.
    pub fn find_line_mut(&self, tag: u64) -> (r: Option<usize>)
        ensures
            match r {
                Some(w) => is_first_match(self.lines@, tag, w as int),
                None => !has_match(self.lines@, tag),
            },
    {
        let mut i: usize = 0;
        while i < self.lines.len()
            invariant
                i <= self.lines@.len(),
                forall|w: int| 0 <= w < i ==> !(#[trigger] self.lines@[w]).matches_tag(tag),
            decreases self.lines@.len() - i,
        {
            if self.lines[i].state != CacheLineState::Invalid && self.lines[i].tag == tag {
                return Some(i);
            }
            i = i + 1;
        }
        None
    }

    /// Choose the line to replace: an invalid line before any valid one,
    /// otherwise the least recently used. The access is counted.
    pub fn find_victim(&mut self) -> (r: usize)
        requires
            old(self).lines@.len() > 0,
        ensures
            final(self).access_counter == old(self).next_counter(),
            final(self).index == old(self).index,
            final(self).lines@ == old(self).lines@,
            is_victim(old(self).lines@, r as int),
    {
        self.access_counter = self.access_counter.saturating_add(1);
        let mut i: usize = 0;
        while i < self.lines.len()
            invariant
                i <= self.lines@.len(),
                self.lines@ == old(self).lines@,
                self.index == old(self).index,
                self.access_counter == old(self).next_counter(),
                forall|w: int| 0 <= w < i ==> (#[trigger] self.lines@[w]).is_valid(),
            decreases self.lines@.len() - i,
        {
            if self.lines[i].state == CacheLineState::Invalid {
                return i;
            }
            i = i + 1;
        }
        let mut best: usize = 0;
        let mut j: usize = 1;
        while j < self.lines.len()
            invariant
                1 <= j <= self.lines@.len(),
                best < j,
                self.lines@ == old(self).lines@,
                self.index == old(self).index,
                self.access_counter == old(self).next_counter(),
                forall|w: int| 0 <= w < self.lines@.len() ==> (#[trigger] self.lines@[w]).is_valid(),
                forall|w: int|
                    0 <= w < j ==> self.lines@[best as int].last_access <= (
                    #[trigger] self.lines@[w]).last_access,
                forall|w: int|
                    0 <= w < best ==> (#[trigger] self.lines@[w]).last_access
                        > self.lines@[best as int].last_access,
            decreases self.lines@.len() - j,
        {
            if self.lines[j].last_access < self.lines[best].last_access {
                best = j;
            }
            j = j + 1;
        }
        best
    }
}

/// Cache level
#[derive(Debug)]
pub struct CacheLevel {
    /// Sets in the cache
    pub sets: Vec<CacheSet>,
    /// Number of sets
    pub num_sets: usize,
    /// Set associativity
    pub associativity: usize,
    /// Line size in bytes
    pub line_size: usize,
    /// Line size bits for address decomposition
    pub line_bits: u32,
    /// Set bits for address decomposition
    pub set_bits: u32,
    /// Non-temporal hint active
    pub non_temporal: bool,
    /// Write policy
    pub write_policy: WritePolicy,
}

/// The exponent `b` with `n == 2^b`, if `n` is a power of two below `2^63`.
pub fn exact_log2(n: usize) -> (r: Option<u32>)
    ensures
        match r {
            Some(b) => b < 63 && n == pow2(b as nat),
            None => forall|b: nat| b < 63 ==> n != pow2(b),
        },
{
    let mut b: u32 = 0;
    let mut p: u64 = 1;
    proof {
        vstd::arithmetic::power2::lemma2_to64();
    }
    while b < 63
        invariant
            b <= 63,
            p == pow2(b as nat) || (b == 63 && p == 0),
            b < 63 ==> p == pow2(b as nat),
            forall|c: nat| c < b ==> n != pow2(c),
        decreases 63 - b,
    {
        if n as u64 == p {
            return Some(b);
        }
        proof {
            vstd::arithmetic::power2::lemma_pow2_unfold((b + 1) as nat);
            lemma_u64_pow2_no_overflow((b + 1) as nat);
        }
        if b < 62 {
            p = p * 2;
        } else {
            p = 0;
        }
        b = b + 1;
    }
    None
}

/// Facts that tie the bit operations of an address split to division and
/// remainder by powers of two.
pub proof fn lemma_split_bits(addr: u64, lb: u32, sb: u32)
    requires
        lb + sb < 64,
    ensures
        (1u64 << lb) == pow2(lb as nat),
        (1u64 << sb) == pow2(sb as nat),
        pow2(lb as nat) > 0,
        pow2(sb as nat) > 0,
        addr & (((1u64 << lb) - 1) as u64) == addr as int % (pow2(lb as nat) as int),
        addr >> lb == addr as int / (pow2(lb as nat) as int),
        (addr >> lb) & (((1u64 << sb) - 1) as u64) == (addr as int / (pow2(lb as nat) as int)) % (
        pow2(sb as nat) as int),
        addr >> ((lb + sb) as u32) == (addr as int / (pow2(lb as nat) as int)) / (pow2(
            sb as nat,
        ) as int),
{
    let l = lb as u64;
    let s = sb as u64;
    lemma_pow2_pos(lb as nat);
    lemma_pow2_pos(sb as nat);
    lemma_u64_pow2_no_overflow(lb as nat);
    lemma_u64_pow2_no_overflow(sb as nat);
    lemma_u64_shl_is_mul(1u64, l);
    lemma_u64_shl_is_mul(1u64, s);
    lemma_u64_low_bits_mask_is_mod(addr, lb as nat);
    lemma_u64_shr_is_div(addr, l);
    let q = addr >> l;
    lemma_u64_low_bits_mask_is_mod(q, sb as nat);
    lemma_u64_shr_is_div(q, s);
    let ls = (lb + sb) as u64;
    lemma_u64_shr_is_div(addr, ls);
    vstd::arithmetic::power2::lemma_pow2_adds(lb as nat, sb as nat);
    vstd::arithmetic::div_mod::lemma_div_denominator(
        addr as int,
        pow2(lb as nat) as int,
        pow2(sb as nat) as int,
    );
}

/// An address is rebuilt from its tag, set index and offset, and no other
/// triple within range rebuilds it.
pub proof fn lemma_split_unique(addr: int, line_size: int, num_sets: int, tag: int, set: int, k: int)
    requires
        line_size > 0,
        num_sets > 0,
        0 <= addr,
    ensures
        addr == ((addr / line_size / num_sets) * num_sets + (addr / line_size) % num_sets) * line_size
            + addr % line_size,
        0 <= addr % line_size < line_size,
        0 <= (addr / line_size) % num_sets < num_sets,
        0 <= addr / line_size / num_sets,
        (0 <= set < num_sets && 0 <= k < line_size && addr == (tag * num_sets + set) * line_size + k)
            ==> (tag == addr / line_size / num_sets && set == (addr / line_size) % num_sets && k
            == addr % line_size),
{
    let q = addr / line_size;
    lemma_fundamental_div_mod(addr, line_size);
    lemma_fundamental_div_mod(q, num_sets);
    vstd::arithmetic::div_mod::lemma_div_pos_is_pos(addr, line_size);
    vstd::arithmetic::div_mod::lemma_div_pos_is_pos(q, num_sets);
    vstd::arithmetic::div_mod::lemma_mod_bound(addr, line_size);
    vstd::arithmetic::div_mod::lemma_mod_bound(q, num_sets);
    assert(addr == (q / num_sets * num_sets + q % num_sets) * line_size + addr % line_size) by {
        assert(num_sets * (q / num_sets) == q / num_sets * num_sets) by (nonlinear_arith);
    }
    if 0 <= set < num_sets && 0 <= k < line_size && addr == (tag * num_sets + set) * line_size + k {
        lemma_fundamental_div_mod_converse(addr, line_size, tag * num_sets + set, k);
        lemma_fundamental_div_mod_converse(q, num_sets, tag, set);
    }
}

impl CacheLevel {
    /// The geometry is consistent: line size and set count are the powers of
    /// two that the bit widths name, and every set is well formed.
    pub open spec fn wf(&self) -> bool {
        &&& self.line_bits + self.set_bits < 64
        &&& self.line_size == pow2(self.line_bits as nat)
        &&& self.num_sets == pow2(self.set_bits as nat)
        &&& self.associativity >= 1
        &&& self.sets@.len() == self.num_sets
        &&& forall|s: int|
            0 <= s < self.sets@.len() ==> {
                &&& (#[trigger] self.sets@[s]).wf(self.associativity as int, self.line_size as int)
                &&& self.sets@[s].index == s
            }
    }

    /// The byte offset of `addr` within its line.
    pub open spec fn spec_offset(&self, addr: u64) -> int {
        addr as int % self.line_size as int
    }

    /// The index of the set that `addr` belongs to.
    pub open spec fn spec_set(&self, addr: u64) -> int {
        (addr as int / self.line_size as int) % self.num_sets as int
    }

    /// The tag of `addr`.
    pub open spec fn spec_tag(&self, addr: u64) -> int {
        addr as int / self.line_size as int / self.num_sets as int
    }

    /// The address of the first byte of the line with `tag` in set `set`.
    pub open spec fn line_base(&self, tag: int, set: int) -> int {
        (tag * self.num_sets + set) * self.line_size
    }

    /// The address rebuilt from a tag and a set index by shifting.
    pub open spec fn spec_compose(&self, tag: u64, set_idx: usize) -> u64 {
        (tag << ((self.line_bits + self.set_bits) as u32)) | ((set_idx as u64) << self.line_bits)
    }

    /// Whether the level holds a valid line for `addr`.
    pub open spec fn holds(&self, addr: u64) -> bool {
        has_match(self.sets@[self.spec_set(addr)].lines@, self.spec_tag(addr) as u64)
    }

    /// The way that holds `addr` (meaningful when `holds(addr)`).
    pub open spec fn way_of(&self, addr: u64) -> int {
        let lines = self.sets@[self.spec_set(addr)].lines@;
        choose|w: int| #[trigger] is_first_match(lines, self.spec_tag(addr) as u64, w)
    }

    /// What a lookup of `addr` returns: the cached byte on a hit, nothing on a
    /// miss or while the level is bypassed.
    pub open spec fn spec_read(&self, addr: u64) -> Option<u8> {
        if self.non_temporal || !self.holds(addr) {
            None
        } else {
            Some(self.sets@[self.spec_set(addr)].lines@[self.way_of(addr)].data@[self.spec_offset(addr)])
        }
    }

    /// Every byte of every valid line equals the byte that main memory shows
    /// at the address that the line's tag, set and offset name: the byte
    /// stored there if the address can be read, zero otherwise.
    pub open spec fn coherent(&self, rs: Seq<RegionView>) -> bool {
        forall|s: int, w: int, k: int|
            0 <= s < self.sets@.len() && 0 <= w < self.sets@[s].lines@.len() && 0 <= k
                < self.sets@[s].lines@[w].data@.len() && self.sets@[s].lines@[w].is_valid()
                ==> #[trigger] self.sets@[s].lines@[w].data@[k] == cached_byte(
                rs,
                self.line_base(self.sets@[s].lines@[w].tag as int, s) + k,
            )
    }

    /// As `coherent`, but saying nothing of the byte cached for `addr`.
    pub open spec fn coherent_except(&self, rs: Seq<RegionView>, addr: int) -> bool {
        forall|s: int, w: int, k: int|
            0 <= s < self.sets@.len() && 0 <= w < self.sets@[s].lines@.len() && 0 <= k
                < self.sets@[s].lines@[w].data@.len() && self.sets@[s].lines@[w].is_valid()
                && self.line_base(self.sets@[s].lines@[w].tag as int, s) + k != addr
                ==> #[trigger] self.sets@[s].lines@[w].data@[k] == cached_byte(
                rs,
                self.line_base(self.sets@[s].lines@[w].tag as int, s) + k,
            )
    }

    /// Whether `after` is this level after a hit on `addr`: the access is
    /// counted in the set of `addr` and the line that holds `addr` is stamped
    /// with the new count; nothing else changes.
    pub open spec fn touched(&self, after: &CacheLevel, addr: u64) -> bool {
        let s = self.spec_set(addr);
        let w = self.way_of(addr);
        &&& after.same_shape(self)
        &&& forall|x: int| 0 <= x < self.sets@.len() && x != s ==> #[trigger] after.sets@[x] == self.sets@[x]
        &&& after.sets@[s].index == self.sets@[s].index
        &&& after.sets@[s].access_counter == self.sets@[s].next_counter()
        &&& after.sets@[s].lines@ == self.sets@[s].lines@.update(
            w,
            CacheLine { last_access: self.sets@[s].next_counter(), ..self.sets@[s].lines@[w] },
        )
    }

    /// Whether `after` is this level after the line of `addr` was placed in
    /// it: by a store if `dirty`, by a fill after a miss otherwise. The
    /// access is counted in the set of `addr`, one way of that set is
    /// written as `placed_way` says, and nothing else changes.
    pub open spec fn placed(&self, after: &CacheLevel, addr: u64, dirty: bool) -> bool {
        let s = self.spec_set(addr);
        &&& after.same_shape(self)
        &&& after.holds(addr)
        &&& forall|x: int| 0 <= x < self.sets@.len() && x != s ==> #[trigger] after.sets@[x] == self.sets@[x]
        &&& after.sets@[s].index == self.sets@[s].index
        &&& after.sets@[s].access_counter == self.sets@[s].next_counter()
        &&& exists|evicted: (u64, Option<Vec<u8>>)| self.placed_way(addr, after, dirty, evicted)
    }

    /// Whether `after` is this level after the line of `addr` was dropped
    /// from it: if the level held the line, the line is invalid now; nothing
    /// else changes.
    pub open spec fn discarded(&self, after: &CacheLevel, addr: u64) -> bool {
        let s = self.spec_set(addr);
        let w = self.way_of(addr);
        if self.holds(addr) {
            &&& after.same_shape(self)
            &&& forall|x: int|
                0 <= x < self.sets@.len() && x != s ==> #[trigger] after.sets@[x] == self.sets@[x]
            &&& after.sets@[s].index == self.sets@[s].index
            &&& after.sets@[s].access_counter == self.sets@[s].access_counter
            &&& after.sets@[s].lines@ == self.sets@[s].lines@.update(
                w,
                CacheLine { state: CacheLineState::Invalid, ..self.sets@[s].lines@[w] },
            )
        } else {
            *after == *self
        }
    }

    /// Whether `after` is this level with every line invalid and nothing
    /// else changed: each line keeps its tag, its bytes and its stamp, and
    /// each set its access count.
    pub open spec fn invalidated(&self, after: &CacheLevel) -> bool {
        &&& after.same_shape(self)
        &&& forall|s: int|
            0 <= s < self.sets@.len() ==> {
                &&& (#[trigger] after.sets@[s]).lines@.len() == self.sets@[s].lines@.len()
                &&& after.sets@[s].access_counter == self.sets@[s].access_counter
                &&& after.sets@[s].index == self.sets@[s].index
            }
        &&& forall|s: int, w: int|
            0 <= s < self.sets@.len() && 0 <= w < self.sets@[s].lines@.len() ==> (
            #[trigger] after.sets@[s].lines@[w]) == (CacheLine {
                state: CacheLineState::Invalid,
                ..self.sets@[s].lines@[w]
            })
    }

    /// Whether `after` is this level after a flush: every `Modified` line
    /// is `Exclusive`, and nothing else changed.
    pub open spec fn flushed(&self, after: &CacheLevel) -> bool {
        &&& after.same_shape(self)
        &&& forall|s: int|
            0 <= s < self.sets@.len() ==> {
                &&& (#[trigger] after.sets@[s]).lines@.len() == self.sets@[s].lines@.len()
                &&& after.sets@[s].access_counter == self.sets@[s].access_counter
                &&& after.sets@[s].index == self.sets@[s].index
            }
        &&& forall|s: int, w: int|
            0 <= s < self.sets@.len() && 0 <= w < self.sets@[s].lines@.len() ==> (
            #[trigger] after.sets@[s].lines@[w]) == flushed_line(self.sets@[s].lines@[w])
    }

    /// Whether some line of the level is valid.
    pub open spec fn caches_anything(&self) -> bool {
        exists|s: int, w: int|
            0 <= s < self.sets@.len() && 0 <= w < self.sets@[s].lines@.len() && (
            #[trigger] self.sets@[s].lines@[w]).is_valid()
    }

    /// Same geometry, hint and policy.
    pub open spec fn same_shape(&self, other: &CacheLevel) -> bool {
        &&& self.num_sets == other.num_sets
        &&& self.associativity == other.associativity
        &&& self.line_size == other.line_size
        &&& self.line_bits == other.line_bits
        &&& self.set_bits == other.set_bits
        &&& self.non_temporal == other.non_temporal
        &&& self.write_policy == other.write_policy
        &&& self.sets@.len() == other.sets@.len()
    }

    /// Same shape, and every line has the same tag, data and state: the two
    /// differ at most in their LRU bookkeeping.
    pub open spec fn same_contents(&self, other: &CacheLevel) -> bool {
        &&& self.same_shape(other)
        &&& forall|s: int|
            0 <= s < self.sets@.len() ==> {
                &&& (#[trigger] self.sets@[s]).lines@.len() == other.sets@[s].lines@.len()
                &&& self.sets@[s].index == other.sets@[s].index
            }
        &&& forall|s: int, w: int|
            0 <= s < self.sets@.len() && 0 <= w < self.sets@[s].lines@.len() ==> {
                &&& (#[trigger] self.sets@[s].lines@[w]).tag == other.sets@[s].lines@[w].tag
                &&& self.sets@[s].lines@[w].data == other.sets@[s].lines@[w].data
                &&& self.sets@[s].lines@[w].state == other.sets@[s].lines@[w].state
            }
    }

    /// A level of `size` bytes in lines of `line_size` bytes, `associativity`
    /// lines to a set, every line invalid.
    pub fn new(size: usize, associativity: usize, line_size: usize) -> (level: Self)
        requires
            associativity >= 1,
            line_size >= 1,
            associativity * line_size <= usize::MAX,
            exists|lb: nat, sb: nat|
                lb + sb < 63 && line_size == pow2(lb) && size / ((associativity * line_size) as usize)
                    == pow2(sb),
        ensures
            level.wf(),
            level.num_sets == size / ((associativity * line_size) as usize),
            level.associativity == associativity,
            level.line_size == line_size,
            !level.non_temporal,
            level.write_policy == WritePolicy::WriteThrough,
            forall|s: int, w: int|
                0 <= s < level.num_sets && 0 <= w < associativity ==> !(
                #[trigger] level.sets@[s].lines@[w]).is_valid(),
            forall|rs: Seq<RegionView>| level.coherent(rs),
    {
        assert(associativity * line_size >= 1) by (nonlinear_arith)
            requires
                associativity >= 1,
                line_size >= 1,
        ;
        let num_sets = size / (associativity * line_size);
        let ghost (glb, gsb): (nat, nat) = choose|lb: nat, sb: nat|
            lb + sb < 63 && line_size == pow2(lb) && num_sets == pow2(sb);
        let line_bits = match exact_log2(line_size) {
            Some(b) => b,
            None => {
                0
            },
        };
        let set_bits = match exact_log2(num_sets) {
            Some(b) => b,
            None => {
                0
            },
        };
        proof {
            if line_bits as nat != glb {
                if (line_bits as nat) < glb {
                    vstd::arithmetic::power2::lemma_pow2_strictly_increases(line_bits as nat, glb);
                } else {
                    vstd::arithmetic::power2::lemma_pow2_strictly_increases(glb, line_bits as nat);
                }
            }
            if set_bits as nat != gsb {
                if (set_bits as nat) < gsb {
                    vstd::arithmetic::power2::lemma_pow2_strictly_increases(set_bits as nat, gsb);
                } else {
                    vstd::arithmetic::power2::lemma_pow2_strictly_increases(gsb, set_bits as nat);
                }
            }
        }
        let mut sets: Vec<CacheSet> = Vec::new();
        let mut i: usize = 0;
        while i < num_sets
            invariant
                i <= num_sets,
                sets@.len() == i,
                forall|s: int|
                    0 <= s < i ==> {
                        &&& (#[trigger] sets@[s]).wf(associativity as int, line_size as int)
                        &&& sets@[s].index == s
                    },
                forall|s: int, w: int|
                    0 <= s < i && 0 <= w < associativity ==> !(#[trigger] sets@[s].lines@[w]).is_valid(),
            decreases num_sets - i,
        {
            sets.push(CacheSet::new(i, associativity, line_size));
            i = i + 1;
        }
        Self {
            sets,
            num_sets,
            associativity,
            line_size,
            line_bits,
            set_bits,
            non_temporal: false,
            write_policy: WritePolicy::WriteThrough,
        }
    }

    /// Split an address into `(tag, set index, offset)`.
    pub fn decompose_address(&self, addr: u64) -> (r: (u64, usize, usize))
        requires
            self.wf(),
        ensures
            r.0 == self.spec_tag(addr),
            r.1 == self.spec_set(addr),
            r.2 == self.spec_offset(addr),
            r.1 < self.num_sets,
            r.2 < self.line_size,
    {
        proof {
            lemma_split_bits(addr, self.line_bits, self.set_bits);
            lemma_split_unique(addr as int, self.line_size as int, self.num_sets as int, 0, 0, 0);
        }
        let offset = addr & ((1u64 << self.line_bits) - 1);
        let set_idx = (addr >> self.line_bits) & ((1u64 << self.set_bits) - 1);
        let tag = addr >> (self.line_bits + self.set_bits);
        (tag, set_idx as usize, offset as usize)
    }

    /// Rebuild the address of a line from its tag and set index.
    pub fn compose_address(&self, tag: u64, set_idx: usize) -> (addr: u64)
        requires
            self.wf(),
        ensures
            addr == self.spec_compose(tag, set_idx),
    {
        (tag << (self.line_bits + self.set_bits)) | ((set_idx as u64) << self.line_bits)
    }

    /// The set index of an address.
    pub fn get_set_index(&self, addr: u64) -> (r: usize)
        requires
            self.wf(),
        ensures
            r == self.spec_set(addr),
            r < self.num_sets,
    {
        let (_, set_idx, _) = self.decompose_address(addr);
        set_idx
    }

    /// The tag of an address.
    pub fn get_tag(&self, addr: u64) -> (r: u64)
        requires
            self.wf(),
        ensures
            r == self.spec_tag(addr),
    {
        let (tag, _, _) = self.decompose_address(addr);
        tag
    }

    /// The offset of an address within its line.
    pub fn get_offset(&self, addr: u64) -> (r: usize)
        requires
            self.wf(),
        ensures
            r == self.spec_offset(addr),
            r < self.line_size,
    {
        let (_, _, offset) = self.decompose_address(addr);
        offset
    }

    /// Set or clear the non-temporal hint, which makes accesses bypass the
    /// level.
    pub fn set_non_temporal(&mut self, value: bool)
        ensures
            *final(self) == (CacheLevel { non_temporal: value, ..*old(self) }),
    {
        self.non_temporal = value;
    }

    /// Look `addr` up. A hit returns the cached byte and stamps the line as
    /// the most recently used; a bypassed level is not consulted at all.
    pub fn read(&mut self, addr: u64) -> (r: Option<u8>)
        requires
            old(self).wf(),
        ensures
            final(self).wf(),
            final(self).same_contents(old(self)),
            r == old(self).spec_read(addr),
            old(self).non_temporal ==> *final(self) == *old(self),
            r is Some ==> final(self).holds(addr),
            r is Some ==> old(self).touched(final(self), addr),
            r is None ==> *final(self) == *old(self),
            forall|rs: Seq<RegionView>| old(self).coherent(rs) ==> final(self).coherent(rs),
            forall|rs: Seq<RegionView>|
                old(self).coherent(rs) && r is Some ==> r == Some(cached_byte(rs, addr as int)),
    {
        if self.non_temporal {
            return None;
        }
        let (tag, set_idx, offset) = self.decompose_address(addr);
        let ghost lines = self.sets@[set_idx as int].lines@;
        // A miss leaves the level alone; only a hit is counted
        if self.sets[set_idx].find_line_mut(tag).is_none() {
            return None;
        }
        let found = self.sets[set_idx].find_line(tag);
        proof {
            lemma_split_unique(addr as int, self.line_size as int, self.num_sets as int, 0, 0, 0);
        }
        match found {
            Some(w) => {
                Some(self.sets[set_idx].lines[w].data[offset])
            },
            None => None,
        }
    }

    /// Drop the line of `addr`, if the level holds it.
    pub fn discard(&mut self, addr: u64)
        requires
            old(self).wf(),
        ensures
            final(self).wf(),
            final(self).same_shape(old(self)),
            !final(self).holds(addr),
            old(self).discarded(final(self), addr),
            forall|s: int|
                0 <= s < old(self).sets@.len() && s != old(self).spec_set(addr) ==> final(self).sets@[s]
                    == old(self).sets@[s],
            !old(self).holds(addr) ==> *final(self) == *old(self),
            old(self).holds(addr) ==> final(self).sets@[old(self).spec_set(addr)].lines@ == old(self).sets@[old(self).spec_set(addr)].lines@.update(
                old(self).way_of(addr),
                CacheLine {
                    state: CacheLineState::Invalid,
                    ..old(self).sets@[old(self).spec_set(addr)].lines@[old(self).way_of(addr)]
                },
            ),
            forall|rs: Seq<RegionView>|
                old(self).coherent_except(rs, addr as int) ==> final(self).coherent(rs),
    {
        let (tag, s, off) = self.decompose_address(addr);
        let ghost lines = self.sets@[s as int].lines@;
        let ghost nsets = self.num_sets as int;
        let ghost lsize = self.line_size as int;
        let hit = self.sets[s].find_line_mut(tag);
        match hit {
            Some(w) => {
                self.sets[s].lines[w].state = CacheLineState::Invalid;
                proof {
                    assert forall|rs: Seq<RegionView>|
                        old(self).coherent_except(rs, addr as int) implies self.coherent(rs) by {
                        assert forall|s2: int, w3: int, k: int|
                            0 <= s2 < self.sets@.len() && 0 <= w3 < self.sets@[s2].lines@.len() && 0 <= k
                                < self.sets@[s2].lines@[w3].data@.len()
                                && self.sets@[s2].lines@[w3].is_valid() implies #[trigger] self.sets@[s2].lines@[w3].data@[k]
                            == cached_byte(rs, self.line_base(self.sets@[s2].lines@[w3].tag as int, s2) + k) by {
                            let t3 = self.sets@[s2].lines@[w3].tag as int;
                            lemma_split_unique(addr as int, lsize, nsets, t3, s2, k);
                        }
                    }
                }
            },
            None => {
                proof {
                    assert forall|rs: Seq<RegionView>|
                        old(self).coherent_except(rs, addr as int) implies self.coherent(rs) by {
                        assert forall|s2: int, w3: int, k: int|
                            0 <= s2 < self.sets@.len() && 0 <= w3 < self.sets@[s2].lines@.len() && 0 <= k
                                < self.sets@[s2].lines@[w3].data@.len()
                                && self.sets@[s2].lines@[w3].is_valid() implies #[trigger] self.sets@[s2].lines@[w3].data@[k]
                            == cached_byte(rs, self.line_base(self.sets@[s2].lines@[w3].tag as int, s2) + k) by {
                            let t3 = self.sets@[s2].lines@[w3].tag as int;
                            lemma_split_unique(addr as int, lsize, nsets, t3, s2, k);
                        }
                    }
                }
            },
        }
    }

    /// Make the level hold the line of `addr` with the byte `value` at `addr`.
    /// On a hit the line is updated in place. On a miss the victim of the set
    /// is replaced by the line's bytes from main memory, and the evicted line
    /// is handed back if it was `Modified`, with its rebuilt address.
    /// A line that `dirty` touches becomes `Modified`; a line installed
    /// without it is `Exclusive`.
    pub fn place(&mut self, regions: &Vec<Region>, addr: u64, value: u8, dirty: bool) -> (evicted: (
        u64,
        Option<Vec<u8>>,
    ))
        requires
            old(self).wf(),
            regions_wf(region_views(regions@)),
            old(self).coherent_except(region_views(regions@), addr as int),
            value == cached_byte(region_views(regions@), addr as int),
        ensures
            final(self).wf(),
            final(self).same_shape(old(self)),
            final(self).coherent(region_views(regions@)),
            final(self).holds(addr),
            forall|s: int|
                0 <= s < old(self).sets@.len() && s != old(self).spec_set(addr) ==> final(self).sets@[s]
                    == old(self).sets@[s],
            final(self).sets@[old(self).spec_set(addr)].access_counter == old(self).sets@[old(self).spec_set(addr)].next_counter(),
            old(self).placed_way(addr, final(self), dirty, evicted),
            old(self).placed(final(self), addr, dirty),
    {
        let ghost rv = region_views(regions@);
        let (tag, s, off) = self.decompose_address(addr);
        let ghost lines = self.sets@[s as int].lines@;
        let ghost nsets = self.num_sets as int;
        let ghost lsize = self.line_size as int;
        proof {
            lemma_split_unique(addr as int, lsize, nsets, 0, 0, 0);
        }
        let hit = self.sets[s].find_line_mut(tag);
        match hit {
            Some(w) => {
                let c = self.sets[s].access_counter.saturating_add(1);
                self.sets[s].access_counter = c;
                self.sets[s].lines[w].data[off] = value;
                if dirty {
                    self.sets[s].lines[w].state = CacheLineState::Modified;
                }
                self.sets[s].lines[w].last_access = c;
                proof {
                    assert forall|s2: int, w3: int, k: int|
                        0 <= s2 < self.sets@.len() && 0 <= w3 < self.sets@[s2].lines@.len() && 0 <= k
                            < self.sets@[s2].lines@[w3].data@.len()
                            && self.sets@[s2].lines@[w3].is_valid() implies #[trigger] self.sets@[s2].lines@[w3].data@[k]
                        == cached_byte(rv, self.line_base(self.sets@[s2].lines@[w3].tag as int, s2) + k) by {
                        let t3 = self.sets@[s2].lines@[w3].tag as int;
                        lemma_split_unique(addr as int, lsize, nsets, t3, s2, k);
                    }
                }
                let evicted: (u64, Option<Vec<u8>>) = (0, None);
                assert(old(self).placed_way(addr, self, dirty, evicted));
                evicted
            },
            None => {
                let v = self.sets[s].find_victim();
                let old_tag = self.sets[s].lines[v].tag;
                let old_data = if self.sets[s].lines[v].state == CacheLineState::Modified {
                    Some(copy_bytes(&self.sets[s].lines[v].data))
                } else {
                    None
                };
                let base = addr - (off as u64);
                let line = fetch_line(regions, base, self.line_size);
                let c = self.sets[s].access_counter;
                let state = if dirty {
                    CacheLineState::Modified
                } else {
                    CacheLineState::Exclusive
                };
                self.sets[s].lines[v] = CacheLine { tag, data: line, state, last_access: c };
                proof {
                    assert forall|s2: int, w3: int, k: int|
                        0 <= s2 < self.sets@.len() && 0 <= w3 < self.sets@[s2].lines@.len() && 0 <= k
                            < self.sets@[s2].lines@[w3].data@.len()
                            && self.sets@[s2].lines@[w3].is_valid() implies #[trigger] self.sets@[s2].lines@[w3].data@[k]
                        == cached_byte(rv, self.line_base(self.sets@[s2].lines@[w3].tag as int, s2) + k) by {
                        let t3 = self.sets@[s2].lines@[w3].tag as int;
                        lemma_split_unique(addr as int, lsize, nsets, t3, s2, k);
                    }
                }
                let evicted = (self.compose_address(old_tag, s), old_data);
                assert(old(self).placed_way(addr, self, dirty, evicted));
                evicted
            },
        }
    }

    /// What `place` does to the way it touches, and what it hands back.
    pub open spec fn placed_way(
        &self,
        addr: u64,
        after: &CacheLevel,
        dirty: bool,
        evicted: (u64, Option<Vec<u8>>),
    ) -> bool {
        let s = self.spec_set(addr);
        let before = self.sets@[s].lines@;
        let lines = after.sets@[s].lines@;
        let stamp = self.sets@[s].next_counter();
        if self.holds(addr) {
            let w = self.way_of(addr);
            &&& evicted.0 == 0 && evicted.1 is None
            &&& lines.len() == before.len()
            &&& forall|x: int| 0 <= x < before.len() && x != w ==> #[trigger] lines[x] == before[x]
            &&& lines[w].tag == before[w].tag
            &&& lines[w].data@ == before[w].data@.update(self.spec_offset(addr), lines[w].data@[self.spec_offset(addr)])
            &&& lines[w].state == if dirty {
                CacheLineState::Modified
            } else {
                before[w].state
            }
            &&& lines[w].last_access == stamp
        } else {
            exists|v: int|
                {
                    &&& #[trigger] is_victim(before, v)
                    &&& lines.len() == before.len()
                    &&& forall|x: int| 0 <= x < before.len() && x != v ==> #[trigger] lines[x] == before[x]
                    &&& lines[v].tag == self.spec_tag(addr)
                    &&& lines[v].state == if dirty {
                        CacheLineState::Modified
                    } else {
                        CacheLineState::Exclusive
                    }
                    &&& lines[v].last_access == stamp
                    &&& evicted.0 == self.spec_compose(before[v].tag, s as usize)
                    &&& match evicted.1 {
                        Some(d) => before[v].state == CacheLineState::Modified && d@ == before[v].data@,
                        None => before[v].state != CacheLineState::Modified,
                    }
                }
        }
    }

    /// Write one byte through the level: the line of `addr` is updated or
    /// installed, and marked `Modified`.
    pub fn write_to_cache(&mut self, regions: &Vec<Region>, addr: u64, value: u8) -> (evicted: (
        u64,
        Option<Vec<u8>>,
    ))
        requires
            old(self).wf(),
            regions_wf(region_views(regions@)),
            old(self).coherent_except(region_views(regions@), addr as int),
            value == cached_byte(region_views(regions@), addr as int),
        ensures
            final(self).wf(),
            final(self).same_shape(old(self)),
            final(self).coherent(region_views(regions@)),
            final(self).holds(addr),
            forall|s: int|
                0 <= s < old(self).sets@.len() && s != old(self).spec_set(addr) ==> final(self).sets@[s]
                    == old(self).sets@[s],
            old(self).placed_way(addr, final(self), true, evicted),
            old(self).placed(final(self), addr, true),
    {
        self.place(regions, addr, value, true)
    }

    /// Write one byte through the level and drop whatever was evicted.
    pub fn write(&mut self, regions: &Vec<Region>, addr: u64, value: u8)
        requires
            old(self).wf(),
            regions_wf(region_views(regions@)),
            old(self).coherent_except(region_views(regions@), addr as int),
            value == cached_byte(region_views(regions@), addr as int),
        ensures
            final(self).wf(),
            final(self).same_shape(old(self)),
            final(self).coherent(region_views(regions@)),
            final(self).holds(addr),
            old(self).placed(final(self), addr, true),
            forall|s: int|
                0 <= s < old(self).sets@.len() && s != old(self).spec_set(addr) ==> final(self).sets@[s]
                    == old(self).sets@[s],
            exists|evicted: (u64, Option<Vec<u8>>)| old(self).placed_way(addr, final(self), true, evicted),
    {
        let evicted = self.write_to_cache(regions, addr, value);
    }

    /// Bring the line of `addr` into the level after a read that missed it.
    pub fn fill(&mut self, regions: &Vec<Region>, addr: u64)
        requires
            old(self).wf(),
            regions_wf(region_views(regions@)),
            old(self).coherent(region_views(regions@)),
        ensures
            final(self).wf(),
            final(self).same_shape(old(self)),
            final(self).coherent(region_views(regions@)),
            final(self).holds(addr),
            old(self).placed(final(self), addr, false),
            forall|s: int|
                0 <= s < old(self).sets@.len() && s != old(self).spec_set(addr) ==> final(self).sets@[s]
                    == old(self).sets@[s],
            exists|evicted: (u64, Option<Vec<u8>>)| old(self).placed_way(addr, final(self), false, evicted),
    {
        let value = read_cached_byte(regions, addr);
        let evicted = self.place(regions, addr, value, false);
    }

    /// Reset every `Modified` line to `Exclusive`. Main memory already holds
    /// every cached byte, so nothing has to be written back.
    pub fn flush(&mut self)
        requires
            old(self).wf(),
        ensures
            final(self).wf(),
            final(self).same_shape(old(self)),
            forall|s: int|
                0 <= s < old(self).sets@.len() ==> {
                    &&& (#[trigger] final(self).sets@[s]).lines@.len() == old(self).sets@[s].lines@.len()
                    &&& final(self).sets@[s].access_counter == old(self).sets@[s].access_counter
                    &&& final(self).sets@[s].index == old(self).sets@[s].index
                },
            forall|s: int, w: int|
                0 <= s < old(self).sets@.len() && 0 <= w < old(self).sets@[s].lines@.len() ==> (
                #[trigger] final(self).sets@[s].lines@[w]) == flushed_line(old(self).sets@[s].lines@[w]),
            forall|rs: Seq<RegionView>| old(self).coherent(rs) ==> final(self).coherent(rs),
            old(self).flushed(final(self)),
    {
        let mut i: usize = 0;
        while i < self.sets.len()
            invariant
                i <= self.sets@.len(),
                self.same_shape(old(self)),
                old(self).wf(),
                forall|s: int|
                    0 <= s < self.sets@.len() ==> {
                        &&& (#[trigger] self.sets@[s]).lines@.len() == old(self).sets@[s].lines@.len()
                        &&& self.sets@[s].access_counter == old(self).sets@[s].access_counter
                        &&& self.sets@[s].index == old(self).sets@[s].index
                    },
                forall|s: int, w: int|
                    0 <= s < i && 0 <= w < old(self).sets@[s].lines@.len() ==> (
                    #[trigger] self.sets@[s].lines@[w]) == flushed_line(old(self).sets@[s].lines@[w]),
                forall|s: int|
                    i <= s < self.sets@.len() ==> (#[trigger] self.sets@[s]).lines@ == old(self).sets@[s].lines@,
            decreases self.sets@.len() - i,
        {
            let mut j: usize = 0;
            while j < self.sets[i].lines.len()
                invariant
                    i < self.sets@.len(),
                    j <= self.sets@[i as int].lines@.len(),
                    self.same_shape(old(self)),
                    forall|s: int|
                        0 <= s < self.sets@.len() ==> {
                            &&& (#[trigger] self.sets@[s]).lines@.len() == old(self).sets@[s].lines@.len()
                            &&& self.sets@[s].access_counter == old(self).sets@[s].access_counter
                            &&& self.sets@[s].index == old(self).sets@[s].index
                        },
                    forall|s: int, w: int|
                        0 <= s < i && 0 <= w < old(self).sets@[s].lines@.len() ==> (
                        #[trigger] self.sets@[s].lines@[w]) == flushed_line(old(self).sets@[s].lines@[w]),
                    forall|w: int|
                        0 <= w < j ==> (#[trigger] self.sets@[i as int].lines@[w]) == flushed_line(
                            old(self).sets@[i as int].lines@[w],
                        ),
                    forall|w: int|
                        j <= w < self.sets@[i as int].lines@.len() ==> (
                        #[trigger] self.sets@[i as int].lines@[w]) == old(self).sets@[i as int].lines@[w],
                    forall|s: int|
                        i < s < self.sets@.len() ==> (#[trigger] self.sets@[s]).lines@ == old(self).sets@[s].lines@,
                decreases self.sets@[i as int].lines@.len() - j,
            {
                if self.sets[i].lines[j].state == CacheLineState::Modified {
                    self.sets[i].lines[j].state = CacheLineState::Exclusive;
                }
                j = j + 1;
            }
            i = i + 1;
        }
    }

    /// Invalidate every line of the level.
    pub fn invalidate_all(&mut self)
        requires
            old(self).wf(),
        ensures
            final(self).wf(),
            final(self).same_shape(old(self)),
            forall|s: int, w: int|
                0 <= s < final(self).sets@.len() && 0 <= w < final(self).sets@[s].lines@.len() ==> !(
                #[trigger] final(self).sets@[s].lines@[w]).is_valid(),
            !final(self).caches_anything(),
            forall|s: int, w: int|
                0 <= s < old(self).sets@.len() && 0 <= w < old(self).sets@[s].lines@.len() ==> {
                    &&& (#[trigger] final(self).sets@[s].lines@[w]).tag == old(self).sets@[s].lines@[w].tag
                    &&& final(self).sets@[s].lines@[w].data == old(self).sets@[s].lines@[w].data
                    &&& final(self).sets@[s].lines@[w].last_access == old(self).sets@[s].lines@[w].last_access
                },
            forall|rs: Seq<RegionView>| final(self).coherent(rs),
            old(self).invalidated(final(self)),
    {
        let mut i: usize = 0;
        while i < self.sets.len()
            invariant
                i <= self.sets@.len(),
                self.same_shape(old(self)),
                self.wf(),
                old(self).wf(),
                forall|s: int|
                    0 <= s < self.sets@.len() ==> {
                        &&& (#[trigger] self.sets@[s]).lines@.len() == old(self).sets@[s].lines@.len()
                        &&& self.sets@[s].access_counter == old(self).sets@[s].access_counter
                        &&& self.sets@[s].index == old(self).sets@[s].index
                    },
                forall|s: int, w: int|
                    0 <= s < self.sets@.len() && 0 <= w < self.sets@[s].lines@.len() ==> {
                        &&& (#[trigger] self.sets@[s].lines@[w]).tag == old(self).sets@[s].lines@[w].tag
                        &&& self.sets@[s].lines@[w].data == old(self).sets@[s].lines@[w].data
                        &&& self.sets@[s].lines@[w].last_access == old(self).sets@[s].lines@[w].last_access
                    },
                forall|s: int, w: int|
                    0 <= s < i && 0 <= w < self.sets@[s].lines@.len() ==> !(
                    #[trigger] self.sets@[s].lines@[w]).is_valid(),
            decreases self.sets@.len() - i,
        {
            let mut j: usize = 0;
            while j < self.sets[i].lines.len()
                invariant
                    i < self.sets@.len(),
                    j <= self.sets@[i as int].lines@.len(),
                    self.same_shape(old(self)),
                    self.wf(),
                    old(self).wf(),
                    forall|s: int|
                        0 <= s < self.sets@.len() ==> {
                            &&& (#[trigger] self.sets@[s]).lines@.len() == old(self).sets@[s].lines@.len()
                            &&& self.sets@[s].access_counter == old(self).sets@[s].access_counter
                            &&& self.sets@[s].index == old(self).sets@[s].index
                        },
                    forall|s: int, w: int|
                        0 <= s < self.sets@.len() && 0 <= w < self.sets@[s].lines@.len() ==> {
                            &&& (#[trigger] self.sets@[s].lines@[w]).tag == old(self).sets@[s].lines@[w].tag
                            &&& self.sets@[s].lines@[w].data == old(self).sets@[s].lines@[w].data
                            &&& self.sets@[s].lines@[w].last_access == old(self).sets@[s].lines@[w].last_access
                        },
                    forall|s: int, w: int|
                        0 <= s < i && 0 <= w < self.sets@[s].lines@.len() ==> !(
                        #[trigger] self.sets@[s].lines@[w]).is_valid(),
                    forall|w: int| 0 <= w < j ==> !(#[trigger] self.sets@[i as int].lines@[w]).is_valid(),
                decreases self.sets@[i as int].lines@.len() - j,
            {
                self.sets[i].lines[j].state = CacheLineState::Invalid;
                j = j + 1;
            }
            i = i + 1;
        }
    }
}

/// A line after a flush: a `Modified` line becomes `Exclusive`, any other
/// line stays as it is.
pub open spec fn flushed_line(line: CacheLine) -> CacheLine {
    CacheLine {
        state: if line.state == CacheLineState::Modified {
            CacheLineState::Exclusive
        } else {
            line.state
        },
        ..line
    }
}

/// The bytes that main memory shows from `base` on, `len` of them: zero
/// where nothing is mapped or reading is not permitted.
pub fn fetch_line(regions: &Vec<Region>, base: u64, len: usize) -> (v: Vec<u8>)
    requires
        regions_wf(region_views(regions@)),
    ensures
        v@.len() == len,
        forall|k: int| 0 <= k < len ==> #[trigger] v@[k] == cached_byte(region_views(regions@), base + k),
{
    let ghost rv = region_views(regions@);
    let mut v: Vec<u8> = Vec::new();
    let mut k: usize = 0;
    while k < len
        invariant
            k <= len,
            v@.len() == k,
            rv == region_views(regions@),
            regions_wf(rv),
            forall|j: int| 0 <= j < k ==> #[trigger] v@[j] == cached_byte(rv, base + j),
        decreases len - k,
    {
        let b = if k as u64 <= u64::MAX - base {
            read_cached_byte(regions, base + k as u64)
        } else {
            proof {
                let a = base + k;
                if super::is_mapped(rv, a) {
                }
            }
            0u8
        };
        v.push(b);
        k = k + 1;
    }
    v
}

} // verus!
