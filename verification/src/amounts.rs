//! Verified association lists: epoch- or validator-keyed amounts, and sets
//! of epoch markers.
//!
//! The pool keeps every per-epoch figure and every per-validator figure in an
//! insertion-ordered list of `(key, amount)` entries with pairwise distinct
//! keys. Insertion order is observable: the rebalancer breaks ties between
//! equal stakes by picking the earliest entry, so the model of an
//! [`AmountMap`] is the sequence of its entries, not only the map they spell.

use vstd::prelude::*;

verus! {

/// Whether some entry of `s` carries `key`.
pub open spec fn has_key(s: Seq<(u64, u128)>, key: u64) -> bool {
    exists|i: int| 0 <= i < s.len() && s[i].0 == key
}

/// The index of the entry carrying `key` (unique under [`unique_keys`]).
pub open spec fn key_at(s: Seq<(u64, u128)>, key: u64) -> int {
    choose|i: int| 0 <= i < s.len() && s[i].0 == key
}

/// The amount recorded under `key`, if any.
pub open spec fn lookup(s: Seq<(u64, u128)>, key: u64) -> Option<u128> {
    if has_key(s, key) {
        Some(s[key_at(s, key)].1)
    } else {
        None
    }
}

/// The amount recorded under `key`, defaulting to zero.
pub open spec fn lookup_or_zero(s: Seq<(u64, u128)>, key: u64) -> u128 {
    match lookup(s, key) {
        Some(v) => v,
        None => 0,
    }
}

/// `s` with `value` recorded under `key`: the carrying entry is rewritten in
/// place, or a fresh entry is appended.
pub open spec fn updated(s: Seq<(u64, u128)>, key: u64, value: u128) -> Seq<(u64, u128)> {
    if has_key(s, key) {
        s.update(key_at(s, key), (key, value))
    } else {
        s.push((key, value))
    }
}

/// `s` without the entry carrying `key`; later entries move up one place.
pub open spec fn removed(s: Seq<(u64, u128)>, key: u64) -> Seq<(u64, u128)> {
    if has_key(s, key) {
        s.remove(key_at(s, key))
    } else {
        s
    }
}

/// No two entries of `s` carry the same key.
pub open spec fn unique_keys(s: Seq<(u64, u128)>) -> bool {
    forall|i: int, j: int| 0 <= i < j < s.len() ==> s[i].0 != s[j].0
}

/// Under [`unique_keys`], an entry carrying `key` sits at [`key_at`].
pub proof fn lemma_key_at(s: Seq<(u64, u128)>, key: u64, i: int)
    requires
        unique_keys(s),
        0 <= i < s.len(),
        s[i].0 == key,
    ensures
        has_key(s, key),
        key_at(s, key) == i,
{
    assert(has_key(s, key));
    let j = key_at(s, key);
    assert(0 <= j < s.len() && s[j].0 == key);
}

/// Recording `value` under `key` keeps the keys distinct and makes `key`
/// look up `value`.
pub proof fn lemma_lookup_after_update(s: Seq<(u64, u128)>, key: u64, value: u128)
    requires
        unique_keys(s),
    ensures
        unique_keys(updated(s, key, value)),
        lookup(updated(s, key, value), key) == Some(value),
        lookup_or_zero(updated(s, key, value), key) == value,
{
    let t = updated(s, key, value);
    if has_key(s, key) {
        let i = key_at(s, key);
        assert(0 <= i < s.len() && s[i].0 == key);
        assert forall|a: int, b: int| 0 <= a < b < t.len() implies t[a].0 != t[b].0 by {
            assert(s[a].0 != s[b].0);
        }
        lemma_key_at(t, key, i);
    } else {
        assert forall|a: int, b: int| 0 <= a < b < t.len() implies t[a].0 != t[b].0 by {
            if b < s.len() {
                assert(s[a].0 != s[b].0);
            } else {
                assert(t[a] == s[a]);
                assert(!(s[a].0 == key));
            }
        }
        lemma_key_at(t, key, s.len() as int);
    }
}

/// An insertion-ordered list of `(key, amount)` entries with distinct keys.
pub struct AmountMap {
    entries: Vec<(u64, u128)>,
}

impl View for AmountMap {
    type V = Seq<(u64, u128)>;

    closed spec fn view(&self) -> Seq<(u64, u128)> {
        self.entries@
    }
}

impl AmountMap {
    /// The representation invariant: entry keys are pairwise distinct.
    pub open spec fn wf(&self) -> bool {
        unique_keys(self@)
    }

    /// An empty map.
    pub fn new() -> (r: AmountMap)
        ensures
            r@ == Seq::<(u64, u128)>::empty(),
            r.wf(),
    {
        AmountMap { entries: Vec::new() }
    }

    /// How many entries the map holds.
    pub fn len(&self) -> (r: usize)
        ensures
            r == self@.len(),
    {
        self.entries.len()
    }

    /// The entry at position `i`, in insertion order.
    pub fn entry_at(&self, i: usize) -> (r: (u64, u128))
        requires
            i < self@.len(),
        ensures
            r == self@[i as int],
    {
        self.entries[i]
    }

    /// Whether an amount is recorded under `key`.
    pub fn contains_key(&self, key: u64) -> (r: bool)
        ensures
            r == has_key(self@, key),
    {
        let n = self.entries.len();
        let mut i: usize = 0;
        while i < n
            invariant
                n == self@.len(),
                i <= n,
                forall|j: int| 0 <= j < i ==> self@[j].0 != key,
            decreases n - i,
        {
            if self.entries[i].0 == key {
                return true;
            }
            i += 1;
        }
        false
    }

    /// The amount recorded under `key`, if any.
    pub fn get(&self, key: u64) -> (r: Option<u128>)
        requires
            self.wf(),
        ensures
            r == lookup(self@, key),
    {
        let n = self.entries.len();
        let mut i: usize = 0;
        while i < n
            invariant
                n == self@.len(),
                i <= n,
                self.wf(),
                forall|j: int| 0 <= j < i ==> self@[j].0 != key,
            decreases n - i,
        {
            if self.entries[i].0 == key {
                proof {
                    lemma_key_at(self@, key, i as int);
                }
                return Some(self.entries[i].1);
            }
            i += 1;
        }
        None
    }

    /// Records `value` under `key`, rewriting the carrying entry in place or
    /// appending a fresh one.
    pub fn insert(&mut self, key: u64, value: u128)
        requires
            old(self).wf(),
        ensures
            final(self)@ == updated(old(self)@, key, value),
            final(self).wf(),
    {
        let n = self.entries.len();
        let mut i: usize = 0;
        while i < n
            invariant
                self@ == old(self)@,
                n == self@.len(),
                i <= n,
                old(self).wf(),
                forall|j: int| 0 <= j < i ==> self@[j].0 != key,
            decreases n - i,
        {
            if self.entries[i].0 == key {
                proof {
                    lemma_key_at(self@, key, i as int);
                }
                self.entries[i] = (key, value);
                proof {
                    assert forall|a: int, b: int|
                        0 <= a < b < self@.len() implies self@[a].0 != self@[b].0 by {
                        assert(old(self)@[a].0 != old(self)@[b].0);
                    }
                }
                return;
            }
            i += 1;
        }
        self.entries.push((key, value));
        proof {
            assert forall|a: int, b: int|
                0 <= a < b < self@.len() implies self@[a].0 != self@[b].0 by {
                if b < old(self)@.len() {
                    assert(old(self)@[a].0 != old(self)@[b].0);
                } else {
                    assert(old(self)@[a].0 != key);
                }
            }
        }
    }

    /// Drops the entry carrying `key`, if any; later entries move up.
    pub fn remove(&mut self, key: u64)
        requires
            old(self).wf(),
        ensures
            final(self)@ == removed(old(self)@, key),
            final(self).wf(),
    {
        let n = self.entries.len();
        let mut i: usize = 0;
        while i < n
            invariant
                self@ == old(self)@,
                n == self@.len(),
                i <= n,
                old(self).wf(),
                forall|j: int| 0 <= j < i ==> self@[j].0 != key,
            decreases n - i,
        {
            if self.entries[i].0 == key {
                proof {
                    lemma_key_at(self@, key, i as int);
                }
                self.entries.remove(i);
                proof {
                    assert forall|a: int, b: int|
                        0 <= a < b < self@.len() implies self@[a].0 != self@[b].0 by {
                        let a0: int = if a < i { a } else { a + 1 };
                        let b0: int = if b < i { b } else { b + 1 };
                        assert(self@[a] == old(self)@[a0]);
                        assert(self@[b] == old(self)@[b0]);
                        assert(old(self)@[a0].0 != old(self)@[b0].0);
                    }
                }
                return;
            }
            i += 1;
        }
    }

    /// Drops every entry.
    pub fn clear(&mut self)
        ensures
            final(self)@ == Seq::<(u64, u128)>::empty(),
            final(self).wf(),
    {
        self.entries.clear();
    }
}

/// A set of epoch numbers, stored in first-touch order.
pub struct EpochSet {
    epochs: Vec<u64>,
}

impl View for EpochSet {
    type V = Set<u64>;

    closed spec fn view(&self) -> Set<u64> {
        self.epochs@.to_set()
    }
}

impl EpochSet {
    /// An empty set.
    pub fn new() -> (r: EpochSet)
        ensures
            r@ == Set::<u64>::empty(),
    {
        let r = EpochSet { epochs: Vec::new() };
        proof {
            assert(r.epochs@.to_set() =~= Set::<u64>::empty());
        }
        r
    }

    /// Whether `epoch` is in the set.
    pub fn contains(&self, epoch: u64) -> (r: bool)
        ensures
            r == self@.contains(epoch),
    {
        let n = self.epochs.len();
        let mut i: usize = 0;
        while i < n
            invariant
                n == self.epochs@.len(),
                i <= n,
                forall|j: int| 0 <= j < i ==> self.epochs@[j] != epoch,
            decreases n - i,
        {
            if self.epochs[i] == epoch {
                proof {
                    assert(self.epochs@.contains(epoch));
                }
                return true;
            }
            i += 1;
        }
        proof {
            assert(!self.epochs@.contains(epoch));
        }
        false
    }

    /// Adds `epoch` to the set.
    pub fn insert(&mut self, epoch: u64)
        ensures
            final(self)@ == old(self)@.insert(epoch),
    {
        if !self.contains(epoch) {
            self.epochs.push(epoch);
            proof {
                assert forall|x: u64| self.epochs@.contains(x)
                    <==> (old(self).epochs@.contains(x) || x == epoch) by {
                    if self.epochs@.contains(x) {
                        let j = choose|j: int|
                            0 <= j < self.epochs@.len() && self.epochs@[j] == x;
                        if j < old(self).epochs@.len() {
                            assert(old(self).epochs@[j] == x);
                        }
                    }
                    if old(self).epochs@.contains(x) {
                        let j = choose|j: int|
                            0 <= j < old(self).epochs@.len() && old(self).epochs@[j] == x;
                        assert(self.epochs@[j] == x);
                    }
                    if x == epoch {
                        assert(self.epochs@[self.epochs@.len() - 1] == x);
                    }
                }
                assert(self.epochs@.to_set() =~= old(self).epochs@.to_set().insert(epoch));
            }
        } else {
            proof {
                assert(old(self).epochs@.to_set() =~= old(self).epochs@.to_set().insert(epoch));
            }
        }
    }

    /// Drops every epoch from the set.
    pub fn clear(&mut self)
        ensures
            final(self)@ == Set::<u64>::empty(),
    {
        self.epochs.clear();
        proof {
            assert(self.epochs@.to_set() =~= Set::<u64>::empty());
        }
    }
}

} // verus!
