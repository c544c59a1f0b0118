//! Keyed storage: at most one value per identity.

use vstd::prelude::*;
use crate::account::AccountId;

verus! {

/// A finite map from identities to values.
pub struct AccountMap<V> {
    entries: Vec<(AccountId, V)>,
}

/// Whether `key` is the key of the entry at position `i`.
pub open spec fn key_at<V>(entries: Seq<(AccountId, V)>, key: AccountId, i: int) -> bool {
    0 <= i < entries.len() && entries[i].0 == key
}

/// Whether some entry has the key `key`.
pub open spec fn has_key<V>(entries: Seq<(AccountId, V)>, key: AccountId) -> bool {
    exists|i: int| key_at(entries, key, i)
}

/// A position at which `key` is stored.
pub open spec fn slot_of<V>(entries: Seq<(AccountId, V)>, key: AccountId) -> int {
    choose|i: int| key_at(entries, key, i)
}

/// The map that a list of entries with distinct keys stands for.
pub open spec fn entries_map<V>(entries: Seq<(AccountId, V)>) -> Map<AccountId, V> {
    Map::new(|k: AccountId| has_key(entries, k), |k: AccountId| entries[slot_of(entries, k)].1)
}

/// No key is stored at two positions.
pub open spec fn distinct_keys<V>(entries: Seq<(AccountId, V)>) -> bool {
    forall|i: int, j: int|
        0 <= i < entries.len() && 0 <= j < entries.len() && i != j ==> entries[i].0
            != entries[j].0
}

/// With distinct keys, the entry at position `i` is what the map holds for
/// its key.
proof fn lemma_entry_is_mapped<V>(entries: Seq<(AccountId, V)>, i: int)
    requires
        distinct_keys(entries),
        0 <= i < entries.len(),
    ensures
        entries_map(entries).contains_key(entries[i].0),
        entries_map(entries)[entries[i].0] == entries[i].1,
{
    let k = entries[i].0;
    assert(key_at(entries, k, i));
    let j = slot_of(entries, k);
    assert(key_at(entries, k, j));
    assert(i == j);
}

impl<V> View for AccountMap<V> {
    type V = Map<AccountId, V>;

    closed spec fn view(&self) -> Map<AccountId, V> {
        entries_map(self.entries@)
    }
}

impl<V> AccountMap<V> {
    /// The representation invariant: every identity is stored at most once.
    pub closed spec fn wf(&self) -> bool {
        distinct_keys(self.entries@)
    }

    /// The empty map.
    pub fn new() -> (m: AccountMap<V>)
        ensures
            m.wf(),
            m@ == Map::<AccountId, V>::empty(),
    {
        let m = AccountMap { entries: Vec::new() };
        assert(m@ =~= Map::<AccountId, V>::empty()) by {
            assert forall|k: AccountId| !has_key(m.entries@, k) by {
                if has_key(m.entries@, k) {
                    let i = slot_of(m.entries@, k);
                    assert(key_at(m.entries@, k, i));
                }
            }
        }
        m
    }

    /// The position at which `key` is stored, if it is.
    fn find(&self, key: &AccountId) -> (r: Option<usize>)
        ensures
            match r {
                Some(i) => key_at(self.entries@, *key, i as int),
                None => !has_key(self.entries@, *key),
            },
    {
        let mut i: usize = 0;
        while i < self.entries.len()
            invariant
                i <= self.entries@.len(),
                forall|k: int| 0 <= k < i ==> !key_at(self.entries@, *key, k),
            decreases self.entries@.len() - i,
        {
            if self.entries[i].0.same(key) {
                return Some(i);
            }
            i += 1;
        }
        None
    }

    /// Whether a value is stored for `key`.
    pub fn contains_key(&self, key: &AccountId) -> (r: bool)
        ensures
            r == self@.contains_key(*key),
    {
        self.find(key).is_some()
    }

    /// The value stored for `key`, if there is one.
    pub fn get(&self, key: &AccountId) -> (r: Option<&V>)
        requires
            self.wf(),
        ensures
            match r {
                Some(v) => self@.contains_key(*key) && *v == self@[*key],
                None => !self@.contains_key(*key),
            },
    {
        match self.find(key) {
            Some(i) => {
                proof {
                    lemma_entry_is_mapped(self.entries@, i as int);
                }
                Some(&self.entries[i].1)
            },
            None => None,
        }
    }

    /// Stores `value` for `key`, in place of any value stored for it before.
    pub fn insert(&mut self, key: AccountId, value: V)
        requires
            old(self).wf(),
        ensures
            final(self).wf(),
            final(self)@ == old(self)@.insert(key, value),
    {
        let ghost before = self.entries@;
        let ghost mut pos: int = 0;
        match self.find(&key) {
            Some(i) => {
                self.entries[i] = (key, value);
                proof {
                    pos = i as int;
                    let after = self.entries@;
                    assert forall|a: int, b: int|
                        0 <= a < after.len() && 0 <= b < after.len() && a != b implies after[a].0
                        != after[b].0 by {
                        assert(after[a].0 == before[a].0);
                        assert(after[b].0 == before[b].0);
                    }
                }
            },
            None => {
                self.entries.push((key, value));
                proof {
                    pos = before.len() as int;
                    let after = self.entries@;
                    assert forall|a: int, b: int|
                        0 <= a < after.len() && 0 <= b < after.len() && a != b implies after[a].0
                        != after[b].0 by {
                        if a < before.len() {
                            assert(!key_at(before, key, a));
                        }
                        if b < before.len() {
                            assert(!key_at(before, key, b));
                        }
                    }
                }
            },
        }
        proof {
            let after = self.entries@;
            assert(distinct_keys(after));
            assert(0 <= pos < after.len() && after[pos] == (key, value));
            assert(forall|a: int| 0 <= a < before.len() && a != pos ==> after[a] == before[a]);
            assert forall|k: AccountId| has_key(after, k) <==> (k == key || has_key(before, k)) by {
                if has_key(after, k) {
                    let j = slot_of(after, k);
                    assert(key_at(after, k, j));
                    if k != key {
                        assert(key_at(before, k, j));
                    }
                }
                if has_key(before, k) {
                    let j = slot_of(before, k);
                    assert(key_at(before, k, j));
                    assert(key_at(after, k, j));
                }
                if k == key {
                    if has_key(before, key) {
                        let j = slot_of(before, key);
                        assert(key_at(before, key, j));
                        assert(key_at(after, key, j));
                    } else {
                        assert(key_at(after, key, before.len() as int));
                    }
                }
            }
            assert forall|k: AccountId| has_key(after, k) implies entries_map(after)[k]
                == old(self)@.insert(key, value)[k] by {
                let j = slot_of(after, k);
                assert(key_at(after, k, j));
                lemma_entry_is_mapped(after, j);
                if k != key {
                    assert(key_at(before, k, j));
                    lemma_entry_is_mapped(before, j);
                } else {
                    assert(key_at(after, key, pos));
                    assert(j == pos);
                }
            }
            assert(self@ =~= old(self)@.insert(key, value));
        }
    }

    /// Takes out the value stored for `key`, if there is one.
    pub fn remove(&mut self, key: &AccountId) -> (r: Option<V>)
        requires
            old(self).wf(),
        ensures
            final(self).wf(),
            final(self)@ == old(self)@.remove(*key),
            r == (if old(self)@.contains_key(*key) {
                Some(old(self)@[*key])
            } else {
                None
            }),
    {
        let ghost before = self.entries@;
        match self.find(key) {
            Some(i) => {
                proof {
                    lemma_entry_is_mapped(before, i as int);
                }
                let entry = self.entries.remove(i);
                proof {
                    let after = self.entries@;
                    assert(after =~= before.remove(i as int));
                    assert(distinct_keys(after));
                    assert forall|k: AccountId| has_key(after, k) <==> (k != *key && has_key(
                        before,
                        k,
                    )) by {
                        if has_key(after, k) {
                            let j = slot_of(after, k);
                            assert(key_at(after, k, j));
                            let jb = if j < i { j } else { j + 1 };
                            assert(key_at(before, k, jb));
                        }
                        if k != *key && has_key(before, k) {
                            let j = slot_of(before, k);
                            assert(key_at(before, k, j));
                            let ja = if j < i { j } else { j - 1 };
                            assert(key_at(after, k, ja));
                        }
                    }
                    assert forall|k: AccountId| has_key(after, k) implies entries_map(after)[k]
                        == entries_map(before)[k] by {
                        let j = slot_of(after, k);
                        assert(key_at(after, k, j));
                        lemma_entry_is_mapped(after, j);
                        let jb = if j < i { j } else { j + 1 };
                        assert(key_at(before, k, jb));
                        lemma_entry_is_mapped(before, jb);
                    }
                    assert(self@ =~= old(self)@.remove(*key));
                }
                Some(entry.1)
            },
            None => {
                assert(self@ =~= old(self)@.remove(*key));
                None
            },
        }
    }

    /// The number of identities with a stored value.
    pub fn len(&self) -> (n: usize)
        requires
            self.wf(),
        ensures
            n == self@.dom().len(),
            self@.dom().finite(),
    {
        proof {
            lemma_domain_size(self.entries@);
        }
        self.entries.len()
    }
}

/// A list of entries with distinct keys stands for a map with as many keys as
/// the list has entries.
proof fn lemma_domain_size<V>(entries: Seq<(AccountId, V)>)
    requires
        distinct_keys(entries),
    ensures
        entries_map(entries).dom().finite(),
        entries_map(entries).dom().len() == entries.len(),
    decreases entries.len(),
{
    let dom = entries_map(entries).dom();
    if entries.len() == 0 {
        assert forall|k: AccountId| !dom.contains(k) by {
            if has_key(entries, k) {
                assert(key_at(entries, k, slot_of(entries, k)));
            }
        }
        assert(dom =~= Set::<AccountId>::empty());
    } else {
        let rest = entries.drop_last();
        let last = entries.last();
        lemma_domain_size(rest);
        let rest_dom = entries_map(rest).dom();
        assert forall|k: AccountId| dom.contains(k) <==> rest_dom.insert(last.0).contains(k) by {
            if has_key(entries, k) {
                let j = slot_of(entries, k);
                assert(key_at(entries, k, j));
                if j < rest.len() {
                    assert(key_at(rest, k, j));
                }
            }
            if has_key(rest, k) {
                let j = slot_of(rest, k);
                assert(key_at(rest, k, j));
                assert(key_at(entries, k, j));
            }
            if k == last.0 {
                assert(key_at(entries, k, entries.len() - 1));
            }
        }
        assert(dom =~= rest_dom.insert(last.0));
        assert(!rest_dom.contains(last.0)) by {
            if has_key(rest, last.0) {
                let j = slot_of(rest, last.0);
                assert(key_at(rest, last.0, j));
                assert(key_at(entries, last.0, j));
            }
        }
    }
}

} // verus!
