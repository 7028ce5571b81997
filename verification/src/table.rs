//! A string-keyed table with insertion order, the store behind the
//! aggregator's node and service records. Upserts replace the value of an
//! existing key in place; new keys append; removal closes the gap.

use vstd::prelude::*;

verus! {

/// No two entries share a key (keys compare by their character sequence).
pub open spec fn distinct_keys<V>(s: Seq<(String, V)>) -> bool {
    forall|i: int, j: int| 0 <= i < j < s.len() ==> s[i].0@ != s[j].0@
}

/// Some entry of `s` has key `k`.
pub open spec fn seq_has_key<V>(s: Seq<(String, V)>, k: Seq<char>) -> bool {
    exists|i: int| 0 <= i < s.len() && s[i].0@ == k
}

/// The index of the entry with key `k`; meaningful when `seq_has_key` holds
/// and the keys are distinct.
pub open spec fn seq_key_index<V>(s: Seq<(String, V)>, k: Seq<char>) -> int {
    choose|i: int| 0 <= i < s.len() && s[i].0@ == k
}

/// `s` after an upsert of `value` under `key`: the value of an existing
/// entry is replaced (the stored key object stays), a new key appends.
pub open spec fn seq_upsert<V>(s: Seq<(String, V)>, key: String, value: V) -> Seq<(String, V)> {
    if seq_has_key(s, key@) {
        s.update(seq_key_index(s, key@), (s[seq_key_index(s, key@)].0, value))
    } else {
        s.push((key, value))
    }
}

/// `s` after removing the entry with key `k`, if any.
pub open spec fn seq_remove_key<V>(s: Seq<(String, V)>, k: Seq<char>) -> Seq<(String, V)> {
    if seq_has_key(s, k) {
        s.remove(seq_key_index(s, k))
    } else {
        s
    }
}

/// With distinct keys, the entry holding key `k` is unique, so
/// `seq_key_index` picks exactly the witness.
pub proof fn lemma_key_index_unique<V>(s: Seq<(String, V)>, k: Seq<char>, i: int)
    requires
        distinct_keys(s),
        0 <= i < s.len(),
        s[i].0@ == k,
    ensures
        seq_has_key(s, k),
        seq_key_index(s, k) == i,
{
    assert(seq_has_key(s, k));
    let j = seq_key_index(s, k);
    if j != i {
        if j < i {
            assert(s[j].0@ != s[i].0@);
        } else {
            assert(s[i].0@ != s[j].0@);
        }
    }
}

/// Insertion-ordered table from string keys to values.
pub struct Table<V> {
    items: Vec<(String, V)>,
}

impl<V> Table<V> {
    /// The entries, oldest key first.
    pub closed spec fn entries(&self) -> Seq<(String, V)> {
        self.items@
    }

    /// Well-formed: no key occurs twice.
    pub open spec fn wf(&self) -> bool {
        distinct_keys(self.entries())
    }

    pub fn new() -> (t: Table<V>)
        ensures
            t.wf(),
            t.entries() == Seq::<(String, V)>::empty(),
    {
        Table { items: Vec::new() }
    }

    pub fn len(&self) -> (n: usize)
        ensures
            n == self.entries().len(),
    {
        self.items.len()
    }

    /// The entry at position `i` in insertion order.
    pub fn pair_at(&self, i: usize) -> (p: &(String, V))
        requires
            i < self.entries().len(),
        ensures
            *p == self.entries()[i as int],
    {
        &self.items[i]
    }

    /// The position of `key`, scanning from the front.
    fn find(&self, key: &String) -> (r: Option<usize>)
        ensures
            match r {
                Some(i) => i < self.entries().len() && self.entries()[i as int].0@ == key@,
                None => !seq_has_key(self.entries(), key@),
            },
    {
        let mut i: usize = 0;
        while i < self.items.len()
            invariant
                i <= self.entries().len(),
                forall|j: int| 0 <= j < i ==> self.entries()[j].0@ != key@,
            decreases self.entries().len() - i,
        {
            if self.items[i].0 == *key {
                return Some(i);
            }
            i = i + 1;
        }
        None
    }

    pub fn contains_key(&self, key: &String) -> (r: bool)
        ensures
            r == seq_has_key(self.entries(), key@),
    {
        match self.find(key) {
            Some(i) => {
                proof {
                    assert(self.entries()[i as int].0@ == key@);
                }
                true
            },
            None => false,
        }
    }

    /// Upsert: replace the value of an existing key, or append a new entry.
    pub fn insert(&mut self, key: String, value: V)
        requires
            old(self).wf(),
        ensures
            final(self).wf(),
            final(self).entries() == seq_upsert(old(self).entries(), key, value),
    {
        let ghost s0 = self.entries();
        match self.find(&key) {
            Some(i) => {
                proof {
                    lemma_key_index_unique(s0, key@, i as int);
                }
                let old_pair = self.items.remove(i);
                self.items.insert(i, (old_pair.0, value));
                proof {
                    assert(self.entries() =~= seq_upsert(s0, key, value));
                    assert forall|p: int, q: int|
                        0 <= p < q < self.entries().len() implies self.entries()[p].0@
                        != self.entries()[q].0@ by {
                        assert(self.entries()[p].0 == s0[p].0);
                        assert(self.entries()[q].0 == s0[q].0);
                    }
                }
            },
            None => {
                self.items.push((key, value));
                proof {
                    assert(self.entries() =~= seq_upsert(s0, key, value));
                    assert forall|p: int, q: int|
                        0 <= p < q < self.entries().len() implies self.entries()[p].0@
                        != self.entries()[q].0@ by {
                        if q < s0.len() {
                            assert(s0[p].0@ != s0[q].0@);
                        } else {
                            assert(self.entries()[q] == (key, value));
                            assert(!seq_has_key(s0, key@));
                            assert(s0[p].0@ != key@);
                        }
                    }
                }
            },
        }
    }

    /// Remove the entry with `key`, returning its value if it was present.
    pub fn remove(&mut self, key: &String) -> (r: Option<V>)
        requires
            old(self).wf(),
        ensures
            final(self).wf(),
            final(self).entries() == seq_remove_key(old(self).entries(), key@),
            r.is_some() == seq_has_key(old(self).entries(), key@),
            r matches Some(v) ==> v == old(self).entries()[seq_key_index(
                old(self).entries(),
                key@,
            )].1,
    {
        let ghost s0 = self.entries();
        match self.find(key) {
            Some(i) => {
                proof {
                    lemma_key_index_unique(s0, key@, i as int);
                }
                let pair = self.items.remove(i);
                proof {
                    assert(self.entries() =~= seq_remove_key(s0, key@));
                    assert forall|p: int, q: int|
                        0 <= p < q < self.entries().len() implies self.entries()[p].0@
                        != self.entries()[q].0@ by {
                        let p0 = if p < i as int {
                            p
                        } else {
                            p + 1
                        };
                        let q0 = if q < i as int {
                            q
                        } else {
                            q + 1
                        };
                        assert(self.entries()[p].0 == s0[p0].0);
                        assert(self.entries()[q].0 == s0[q0].0);
                    }
                }
                Some(pair.1)
            },
            None => None,
        }
    }

    /// Borrow the value stored under `key`, if any.
    pub fn get(&self, key: &String) -> (r: Option<&V>)
        requires
            self.wf(),
        ensures
            match r {
                Some(v) => seq_has_key(self.entries(), key@) && *v == self.entries()[seq_key_index(
                    self.entries(),
                    key@,
                )].1,
                None => !seq_has_key(self.entries(), key@),
            },
    {
        match self.find(key) {
            Some(i) => {
                proof {
                    lemma_key_index_unique(self.entries(), key@, i as int);
                }
                Some(&self.items[i].1)
            },
            None => None,
        }
    }
}

/// Removing a key twice is the same as removing it once: with distinct
/// keys the first removal leaves no entry under `k`, so the second finds
/// nothing and leaves the entries untouched.
pub proof fn lemma_remove_key_idempotent<V>(s: Seq<(String, V)>, k: Seq<char>)
    requires
        distinct_keys(s),
    ensures
        !seq_has_key(seq_remove_key(s, k), k),
        seq_remove_key(seq_remove_key(s, k), k) == seq_remove_key(s, k),
{
    if seq_has_key(s, k) {
        let s1 = seq_remove_key(s, k);
        if seq_has_key(s1, k) {
            let i = seq_key_index(s, k);
            let j = seq_key_index(s1, k);
            assert(0 <= i < s.len() && s[i].0@ == k);
            assert(0 <= j < s1.len() && s1[j].0@ == k);
            let j0 = if j < i {
                j
            } else {
                j + 1
            };
            assert(s1[j] == s[j0]);
            if j0 < i {
                assert(s[j0].0@ != s[i].0@);
            } else {
                assert(s[i].0@ != s[j0].0@);
            }
        }
    }
}

} // verus!
