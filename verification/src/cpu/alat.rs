//! Advanced Load Address Table (ALAT)
//!
//! This module implements the Advanced Load Address Table for the IA-64
//! architecture, which supports data speculation by tracking speculative loads.
//!
//! An entry guards the 8-byte granule that holds its address. A store is
//! taken at the same granularity: it touches every granule that one of its
//! bytes lies in, and a store of no bytes touches none.

use vstd::prelude::*;
use vstd::string::*;
use crate::{is_execution_error, EmulatorError};

verus! {

/// Size of an ALAT entry's memory region
pub const ALAT_ENTRY_SIZE: u64 = 8;

/// Maximum number of ALAT entries
pub const MAX_ALAT_ENTRIES: usize = 32;

/// ALAT entry state
#[derive(Debug, Clone, Copy, PartialEq, Eq, Structural)]
pub enum EntryState {
    /// Entry is invalid
    Invalid,
    /// Entry is valid
    Valid,
    /// Entry has been invalidated by a conflicting store
    Invalidated,
}

/// ALAT entry information
#[derive(Debug, Clone, Copy, PartialEq, Eq, Structural)]
pub struct Entry {
    /// Physical address of the load
    pub address: u64,
    /// Size of the memory access
    pub size: u64,
    /// Target register number
    pub register: u32,
    /// Entry state
    pub state: EntryState,
    /// Register type (1 for integer, 0 for floating point)
    pub is_integer: bool,
}

/// Whether a store of `size` bytes at `address` touches the granule `granule`.
pub open spec fn store_touches(address: u64, size: u64, granule: int) -> bool {
    size > 0 && address as int / 8 <= granule && granule * 8 < address + size
}

impl Entry {
    /// The entry that a fresh advanced load makes: valid.
    pub open spec fn spec_new(address: u64, size: u64, register: u32, is_integer: bool) -> Entry {
        Entry { address, size, register, state: EntryState::Valid, is_integer }
    }

    /// Whether the entry belongs to the register `(register, is_integer)`.
    pub open spec fn is_pair(&self, register: u32, is_integer: bool) -> bool {
        self.register == register && self.is_integer == is_integer
    }

    /// Whether the entry is valid and a store of `size` bytes at `address`
    /// touches its granule.
    pub open spec fn spec_overlaps(&self, address: u64, size: u64) -> bool {
        self.state == EntryState::Valid && store_touches(address, size, self.address as int / 8)
    }

    /// The entry after a store of `size` bytes at `address`: invalidated if
    /// it was valid and the store touches its granule, unchanged otherwise.
    pub open spec fn after_store(self, address: u64, size: u64) -> Entry {
        if self.spec_overlaps(address, size) {
            Entry { state: EntryState::Invalidated, ..self }
        } else {
            self
        }
    }

    /// The entry after its register is invalidated.
    pub open spec fn after_invalidate(self, register: u32, is_integer: bool) -> Entry {
        if self.is_pair(register, is_integer) {
            Entry { state: EntryState::Invalid, ..self }
        } else {
            self
        }
    }

    /// Create new ALAT entry
    #[verifier::when_used_as_spec(spec_new)]
    pub fn new(address: u64, size: u64, register: u32, is_integer: bool) -> (e: Self)
        ensures
            e == Self::spec_new(address, size, register, is_integer),
    {
        Self { address, size, register, state: EntryState::Valid, is_integer }
    }

    /// Check if entry overlaps with given address range
    #[verifier::when_used_as_spec(spec_overlaps)]
    pub fn overlaps(&self, address: u64, size: u64) -> (b: bool)
        ensures
            b == self.spec_overlaps(address, size),
    {
        if self.state != EntryState::Valid || size == 0 {
            return false;
        }
        let granule = self.address / ALAT_ENTRY_SIZE;
        let first = address / ALAT_ENTRY_SIZE;
        let last = address.saturating_add(size - 1) / ALAT_ENTRY_SIZE;
        first <= granule && granule <= last
    }
}

/// The entries that do not belong to `(register, is_integer)`.
pub open spec fn not_pair(register: u32, is_integer: bool) -> spec_fn(Entry) -> bool {
    |e: Entry| !e.is_pair(register, is_integer)
}

/// The valid entries.
pub open spec fn is_valid_entry() -> spec_fn(Entry) -> bool {
    |e: Entry| e.state == EntryState::Valid
}

/// Whether entry `i` is the oldest entry of `(register, is_integer)`.
pub open spec fn is_first_of_pair(entries: Seq<Entry>, register: u32, is_integer: bool, i: int) -> bool {
    &&& 0 <= i < entries.len()
    &&& entries[i].is_pair(register, is_integer)
    &&& forall|j: int| 0 <= j < i ==> !(#[trigger] entries[j]).is_pair(register, is_integer)
}

/// Whether some entry belongs to `(register, is_integer)`.
pub open spec fn has_pair(entries: Seq<Entry>, register: u32, is_integer: bool) -> bool {
    exists|i: int| 0 <= i < entries.len() && (#[trigger] entries[i]).is_pair(register, is_integer)
}

/// No two entries belong to the same register.
pub open spec fn pairs_unique(entries: Seq<Entry>) -> bool {
    forall|i: int, j: int|
        0 <= i < j < entries.len() ==> !(#[trigger] entries[i]).is_pair(
            (#[trigger] entries[j]).register,
            entries[j].is_integer,
        )
}

/// The table after an advanced load of `(register, is_integer)`: the prior
/// entries of the register leave, the oldest entry leaves if the table is
/// full, and the new entry is appended.
pub open spec fn spec_add(
    entries: Seq<Entry>,
    address: u64,
    size: u64,
    register: u32,
    is_integer: bool,
) -> Seq<Entry> {
    let kept = entries.filter(not_pair(register, is_integer));
    let trimmed = if kept.len() >= MAX_ALAT_ENTRIES {
        kept.remove(0)
    } else {
        kept
    };
    trimmed.push(Entry::spec_new(address, size, register, is_integer))
}

/// The table after a store of `size` bytes at `address`: every valid entry
/// whose granule the store touches is invalidated.
pub open spec fn spec_invalidate(entries: Seq<Entry>, address: u64, size: u64) -> Seq<Entry> {
    Seq::new(entries.len(), |i: int| entries[i].after_store(address, size))
}

/// The table after a purge: the entries that are not valid leave, then the
/// oldest leave until at most 32 are left.
pub open spec fn spec_purge(entries: Seq<Entry>) -> Seq<Entry> {
    let valid = entries.filter(is_valid_entry());
    if valid.len() > MAX_ALAT_ENTRIES {
        valid.skip(valid.len() - MAX_ALAT_ENTRIES)
    } else {
        valid
    }
}

/// Filtering a sequence whose every element passes the filter changes
/// nothing.
pub proof fn lemma_filter_all(s: Seq<Entry>, p: spec_fn(Entry) -> bool)
    requires
        forall|i: int| 0 <= i < s.len() ==> p(#[trigger] s[i]),
    ensures
        s.filter(p) == s,
    decreases s.len(),
{
    reveal(Seq::filter);
    if s.len() > 0 {
        lemma_filter_all(s.drop_last(), p);
    }
}

/// Purging twice is the same as purging once.
pub proof fn lemma_purge_idempotent(entries: Seq<Entry>)
    ensures
        spec_purge(spec_purge(entries)) == spec_purge(entries),
        spec_purge(entries).len() <= MAX_ALAT_ENTRIES,
        forall|i: int|
            0 <= i < spec_purge(entries).len() ==> (#[trigger] spec_purge(entries)[i]).state
                == EntryState::Valid,
{
    let p = is_valid_entry();
    broadcast use vstd::seq_lib::group_filter_ensures;
    let once = spec_purge(entries);
    lemma_filter_all(once, p);
}

/// Every element of a filtered sequence is an element of the sequence, and
/// filtering keeps the registers of the entries apart.
pub proof fn lemma_filter_keeps_unique(s: Seq<Entry>, p: spec_fn(Entry) -> bool)
    requires
        pairs_unique(s),
    ensures
        pairs_unique(s.filter(p)),
        forall|i: int| 0 <= i < s.filter(p).len() ==> s.contains(#[trigger] s.filter(p)[i]) && p(
            s.filter(p)[i],
        ),
    decreases s.len(),
{
    reveal(Seq::filter);
    if s.len() > 0 {
        let init = s.drop_last();
        lemma_filter_keeps_unique(init, p);
        let f = init.filter(p);
        if p(s.last()) {
        }
    }
}

/// Advanced Load Address Table
#[derive(Debug)]
pub struct ALAT {
    /// ALAT entries, oldest first
    pub entries: Vec<Entry>,
}

impl ALAT {
    /// The table holds at most 32 entries, no two of the same register.
    pub open spec fn wf(&self) -> bool {
        self.entries@.len() <= MAX_ALAT_ENTRIES && pairs_unique(self.entries@)
    }

    /// Whether some valid entry belongs to `(register, is_integer)`.
    pub open spec fn spec_check_register(&self, register: u32, is_integer: bool) -> bool {
        exists|i: int|
            0 <= i < self.entries@.len() && (#[trigger] self.entries@[i]).is_pair(register, is_integer)
                && self.entries@[i].state == EntryState::Valid
    }

    /// Whether a store of `size` bytes at `address` touches the granule of
    /// some valid entry.
    pub open spec fn spec_check_address(&self, address: u64, size: u64) -> bool {
        exists|i: int|
            0 <= i < self.entries@.len() && (#[trigger] self.entries@[i]).spec_overlaps(address, size)
    }

    /// Create new ALAT instance, with no entry.
    pub fn new() -> (a: Self)
        ensures
            a.entries@.len() == 0,
            a.wf(),
    {
        Self { entries: Vec::new() }
    }

    /// Drop the entries of `(register, is_integer)`.
    fn drop_pair(&mut self, register: u32, is_integer: bool)
        ensures
            final(self).entries@ == old(self).entries@.filter(not_pair(register, is_integer)),
    {
        let ghost p = not_pair(register, is_integer);
        let mut kept: Vec<Entry> = Vec::new();
        let mut i: usize = 0;
        proof {
            reveal(Seq::filter);
        }
        while i < self.entries.len()
            invariant
                i <= self.entries@.len(),
                *self == *old(self),
                p == not_pair(register, is_integer),
                kept@ == self.entries@.take(i as int).filter(p),
            decreases self.entries@.len() - i,
        {
            let e = self.entries[i];
            proof {
                reveal(Seq::filter);
                assert(self.entries@.take(i + 1).drop_last() =~= self.entries@.take(i as int));
            }
            if e.register != register || e.is_integer != is_integer {
                kept.push(e);
            }
            i = i + 1;
        }
        assert(self.entries@.take(self.entries@.len() as int) =~= self.entries@);
        self.entries = kept;
    }

    /// Add entry to ALAT
    pub fn add_entry(&mut self, address: u64, size: u64, register: u32, is_integer: bool) -> (r: Result<
        (),
        EmulatorError,
    >)
        ensures
            r is Ok,
            final(self).entries@ == spec_add(old(self).entries@, address, size, register, is_integer),
            final(self).spec_check_register(register, is_integer),
            old(self).wf() ==> final(self).wf(),
    {
        // Remove any existing entry for the same register
        self.drop_pair(register, is_integer);
        // Create new entry
        let entry = Entry::new(address, size, register, is_integer);
        // Add entry, removing oldest if at capacity
        if self.entries.len() >= MAX_ALAT_ENTRIES {
            let _ = self.entries.remove(0);
        }
        self.entries.push(entry);
        proof {
            assert(self.entries@[self.entries@.len() - 1].is_pair(register, is_integer));
            if old(self).wf() {
                old(self).entries@.lemma_filter_len(not_pair(register, is_integer));
                lemma_filter_keeps_unique(old(self).entries@, not_pair(register, is_integer));
            }
        }
        Ok(())
    }

    /// Check if register has valid ALAT entry
    #[verifier::when_used_as_spec(spec_check_register)]
    pub fn check_register(&self, register: u32, is_integer: bool) -> (b: bool)
        ensures
            b == self.spec_check_register(register, is_integer),
    {
        let mut i: usize = 0;
        while i < self.entries.len()
            invariant
                i <= self.entries@.len(),
                forall|j: int|
                    0 <= j < i ==> !((#[trigger] self.entries@[j]).is_pair(register, is_integer)
                        && self.entries@[j].state == EntryState::Valid),
            decreases self.entries@.len() - i,
        {
            let e = self.entries[i];
            if e.register == register && e.is_integer == is_integer && e.state == EntryState::Valid {
                return true;
            }
            i = i + 1;
        }
        false
    }

    /// Invalidate entries that overlap with store: every valid entry whose
    /// granule the store touches becomes `Invalidated`; no other entry
    /// changes.
    pub fn invalidate_overlap(&mut self, address: u64, size: u64)
        ensures
            final(self).entries@ == spec_invalidate(old(self).entries@, address, size),
            final(self).entries@.len() == old(self).entries@.len(),
            forall|i: int|
                0 <= i < old(self).entries@.len() ==> (#[trigger] final(self).entries@[i]) == old(self).entries@[i].after_store(address, size),
            forall|i: int|
                0 <= i < old(self).entries@.len() && store_touches(
                    address,
                    size,
                    old(self).entries@[i].address as int / 8,
                ) ==> (#[trigger] final(self).entries@[i]).state == if old(self).entries@[i].state
                    == EntryState::Valid {
                    EntryState::Invalidated
                } else {
                    old(self).entries@[i].state
                },
            !final(self).spec_check_address(address, size),
            old(self).wf() ==> final(self).wf(),
    {
        let mut i: usize = 0;
        while i < self.entries.len()
            invariant
                i <= self.entries@.len(),
                self.entries@.len() == old(self).entries@.len(),
                forall|j: int|
                    0 <= j < i ==> (#[trigger] self.entries@[j]) == old(self).entries@[j].after_store(
                        address,
                        size,
                    ),
                forall|j: int| i <= j < self.entries@.len() ==> (#[trigger] self.entries@[j]) == old(self).entries@[j],
            decreases self.entries@.len() - i,
        {
            let e = self.entries[i];
            if e.overlaps(address, size) {
                self.entries[i].state = EntryState::Invalidated;
            }
            i = i + 1;
        }
    }

    /// Invalidate all entries for a register
    pub fn invalidate_register(&mut self, register: u32, is_integer: bool)
        ensures
            final(self).entries@.len() == old(self).entries@.len(),
            forall|i: int|
                0 <= i < old(self).entries@.len() ==> (#[trigger] final(self).entries@[i]) == old(self).entries@[i].after_invalidate(register, is_integer),
            !final(self).spec_check_register(register, is_integer),
            old(self).wf() ==> final(self).wf(),
    {
        let mut i: usize = 0;
        while i < self.entries.len()
            invariant
                i <= self.entries@.len(),
                self.entries@.len() == old(self).entries@.len(),
                forall|j: int|
                    0 <= j < i ==> (#[trigger] self.entries@[j]) == old(self).entries@[j].after_invalidate(register, is_integer),
                forall|j: int| i <= j < self.entries@.len() ==> (#[trigger] self.entries@[j]) == old(self).entries@[j],
            decreases self.entries@.len() - i,
        {
            let e = self.entries[i];
            if e.register == register && e.is_integer == is_integer {
                self.entries[i].state = EntryState::Invalid;
            }
            i = i + 1;
        }
    }

    /// Clear all ALAT entries
    pub fn clear(&mut self)
        ensures
            final(self).entries@.len() == 0,
            final(self).wf(),
    {
        self.entries.clear();
    }

    /// Get number of valid entries
    pub fn valid_entries(&self) -> (n: usize)
        ensures
            n == self.entries@.filter(is_valid_entry()).len(),
    {
        let ghost p = is_valid_entry();
        let mut n: usize = 0;
        let mut i: usize = 0;
        proof {
            reveal(Seq::filter);
        }
        while i < self.entries.len()
            invariant
                i <= self.entries@.len(),
                n <= i,
                p == is_valid_entry(),
                n == self.entries@.take(i as int).filter(p).len(),
            decreases self.entries@.len() - i,
        {
            proof {
                reveal(Seq::filter);
                assert(self.entries@.take(i + 1).drop_last() =~= self.entries@.take(i as int));
            }
            if self.entries[i].state == EntryState::Valid {
                n = n + 1;
            }
            i = i + 1;
        }
        assert(self.entries@.take(self.entries@.len() as int) =~= self.entries@);
        n
    }

    /// Check if address exists in ALAT
    #[verifier::when_used_as_spec(spec_check_address)]
    pub fn check_address(&self, address: u64, size: u64) -> (b: bool)
        ensures
            b == self.spec_check_address(address, size),
    {
        let mut i: usize = 0;
        while i < self.entries.len()
            invariant
                i <= self.entries@.len(),
                forall|j: int| 0 <= j < i ==> !(#[trigger] self.entries@[j]).spec_overlaps(address, size),
            decreases self.entries@.len() - i,
        {
            let e = self.entries[i];
            if e.overlaps(address, size) {
                return true;
            }
            i = i + 1;
        }
        false
    }

    /// Find the oldest entry of `(register, is_integer)`.
    pub fn find_entry(&self, register: u32, is_integer: bool) -> (r: Option<usize>)
        ensures
            match r {
                Some(i) => is_first_of_pair(self.entries@, register, is_integer, i as int),
                None => !has_pair(self.entries@, register, is_integer),
            },
    {
        let mut i: usize = 0;
        while i < self.entries.len()
            invariant
                i <= self.entries@.len(),
                forall|j: int| 0 <= j < i ==> !(#[trigger] self.entries@[j]).is_pair(register, is_integer),
            decreases self.entries@.len() - i,
        {
            let e = self.entries[i];
            if e.register == register && e.is_integer == is_integer {
                return Some(i);
            }
            i = i + 1;
        }
        None
    }

    /// Update entry state: the oldest entry of the register takes the state.
    /// It is an error if the register has no entry.
    pub fn update_entry_state(&mut self, register: u32, is_integer: bool, state: EntryState) -> (r: Result<
        (),
        EmulatorError,
    >)
        ensures
            match r {
                Ok(_) => exists|i: int| #[trigger]
                    is_first_of_pair(old(self).entries@, register, is_integer, i) && final(self).entries@ == old(self).entries@.update(
                        i,
                        Entry { state, ..old(self).entries@[i] },
                    ),
                Err(_) => !has_pair(old(self).entries@, register, is_integer) && is_execution_error(
                    r,
                    "No ALAT entry found for register"@,
                ) && *final(self) == *old(self),
            },
            old(self).wf() ==> final(self).wf(),
    {
        match self.find_entry(register, is_integer) {
            Some(i) => {
                self.entries[i].state = state;
                Ok(())
            },
            None => Err(
                EmulatorError::ExecutionError(String::from_str("No ALAT entry found for register")),
            ),
        }
    }

    /// Get entry information: address, size and state of the oldest entry of
    /// the register.
    pub fn get_entry_info(&self, register: u32, is_integer: bool) -> (r: Option<(u64, u64, EntryState)>)
        ensures
            match r {
                Some(info) => exists|i: int| #[trigger]
                    is_first_of_pair(self.entries@, register, is_integer, i) && info == (
                        self.entries@[i].address,
                        self.entries@[i].size,
                        self.entries@[i].state,
                    ),
                None => !has_pair(self.entries@, register, is_integer),
            },
    {
        match self.find_entry(register, is_integer) {
            Some(i) => {
                let e = self.entries[i];
                Some((e.address, e.size, e.state))
            },
            None => None,
        }
    }

    /// Remove entry
    pub fn remove_entry(&mut self, register: u32, is_integer: bool)
        ensures
            final(self).entries@ == old(self).entries@.filter(not_pair(register, is_integer)),
            !has_pair(final(self).entries@, register, is_integer),
            old(self).wf() ==> final(self).wf(),
    {
        self.drop_pair(register, is_integer);
        proof {
            let p = not_pair(register, is_integer);
            broadcast use vstd::seq_lib::group_filter_ensures;
            old(self).entries@.lemma_filter_len(p);
            if has_pair(self.entries@, register, is_integer) {
                let i = choose|i: int|
                    0 <= i < self.entries@.len() && (#[trigger] self.entries@[i]).is_pair(
                        register,
                        is_integer,
                    );
            }
            if old(self).wf() {
                lemma_filter_keeps_unique(old(self).entries@, p);
            }
        }
    }

    /// Purge old entries
    pub fn purge_old_entries(&mut self)
        ensures
            final(self).entries@ == spec_purge(old(self).entries@),
            final(self).entries@.len() <= MAX_ALAT_ENTRIES,
            old(self).wf() ==> final(self).wf(),
    {
        let ghost p = is_valid_entry();
        let mut kept: Vec<Entry> = Vec::new();
        let mut i: usize = 0;
        proof {
            reveal(Seq::filter);
        }
        while i < self.entries.len()
            invariant
                i <= self.entries@.len(),
                *self == *old(self),
                p == is_valid_entry(),
                kept@ == self.entries@.take(i as int).filter(p),
            decreases self.entries@.len() - i,
        {
            let e = self.entries[i];
            proof {
                reveal(Seq::filter);
                assert(self.entries@.take(i + 1).drop_last() =~= self.entries@.take(i as int));
            }
            if e.state == EntryState::Valid {
                kept.push(e);
            }
            i = i + 1;
        }
        assert(self.entries@.take(self.entries@.len() as int) =~= self.entries@);
        let ghost valid = kept@;
        self.entries = kept;
        // If still too many entries, remove oldest
        while self.entries.len() > MAX_ALAT_ENTRIES
            invariant
                self.entries@.len() <= valid.len(),
                valid.len() > MAX_ALAT_ENTRIES ==> self.entries@.len() >= MAX_ALAT_ENTRIES,
                valid.len() <= MAX_ALAT_ENTRIES ==> self.entries@.len() == valid.len(),
                self.entries@ == valid.skip(valid.len() - self.entries@.len()),
            decreases self.entries@.len(),
        {
            let _ = self.entries.remove(0);
        }
        proof {
            if old(self).wf() {
                old(self).entries@.lemma_filter_len(p);
                lemma_filter_keeps_unique(old(self).entries@, p);
            }
        }
    }
}

impl Default for ALAT {
    fn default() -> (a: Self)
        ensures
            a.entries@.len() == 0,
            a.wf(),
    {
        Self::new()
    }
}

} // verus!
