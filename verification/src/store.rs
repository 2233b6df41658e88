//! A keyed store with last-write-wins semantics per key: the session's
//! schema cache writes each completed listing under its database name, so
//! results that resolve out of order can never clobber unrelated keys, and a
//! re-resolution for the same key simply replaces the prior value.

use vstd::prelude::*;
use crate::text;

verus! {

/// The value stored under a key: the latest entry bearing that key, if any.
pub open spec fn spec_lookup<V>(entries: Seq<(String, V)>, key: Seq<char>) -> Option<V>
    decreases entries.len(),
{
    if entries.len() == 0 {
        None
    } else if entries.last().0@ == key {
        Some(entries.last().1)
    } else {
        spec_lookup(entries.drop_last(), key)
    }
}

/// A mapping from text keys to values, written only whole-value, per key.
#[derive(Debug)]
pub struct KeyedStore<V> {
    pub entries: Vec<(String, V)>,
}

impl<V> KeyedStore<V> {
    /// What the store holds under a key.
    pub open spec fn spec_get(self, key: Seq<char>) -> Option<V> {
        spec_lookup(self.entries@, key)
    }

    pub fn new() -> (r: Self)
        ensures
            r.entries@.len() == 0,
            forall|k: Seq<char>| r.spec_get(k) is None,
    {
        let r = KeyedStore { entries: Vec::new() };
        proof {
            assert(forall|k: Seq<char>| r.spec_get(k) is None);
        }
        r
    }

    /// How many keys hold a value.
    pub fn len(&self) -> (n: usize)
        ensures
            n == self.entries@.len(),
    {
        self.entries.len()
    }

    /// Whether no key holds a value.
    pub fn is_empty(&self) -> (r: bool)
        ensures
            r == (self.entries@.len() == 0),
    {
        self.entries.len() == 0
    }

    /// Writes `value` under `key`: the key now holds exactly this value, any
    /// earlier entry for it is gone, and every other key holds what it held
    /// before (last-write-wins).
    pub fn put(&mut self, key: String, value: V)
        ensures
            final(self).spec_get(key@) == Some(value),
            forall|k: Seq<char>| k != key@ ==> final(self).spec_get(k) == old(self).spec_get(k),
    {
        self.remove(key.as_str());
        let ghost before = self.entries@;
        self.entries.push((key, value));
        proof {
            assert(self.entries@.drop_last() =~= before);
        }
    }

    /// Reads the value under `key`, if one was written.
    pub fn get(&self, key: &str) -> (r: Option<&V>)
        ensures
            match r {
                Some(v) => self.spec_get(key@) == Some(*v),
                None => self.spec_get(key@) is None,
            },
    {
        let n = self.entries.len();
        proof {
            assert(self.entries@.subrange(0, n as int) =~= self.entries@);
        }
        let mut i: usize = n;
        while i > 0
            invariant
                n == self.entries@.len(),
                i <= n,
                spec_lookup(self.entries@.subrange(0, i as int), key@) == self.spec_get(key@),
            decreases i,
        {
            let ghost prefix = self.entries@.subrange(0, i as int);
            proof {
                assert(prefix.drop_last() =~= self.entries@.subrange(0, i as int - 1));
            }
            i -= 1;
            if text::str_eq(self.entries[i].0.as_str(), key) {
                return Some(&self.entries[i].1);
            }
        }
        proof {
            assert(self.entries@.subrange(0, 0) =~= Seq::<(String, V)>::empty());
        }
        None
    }

    /// Whether anything was written under `key`.
    pub fn contains(&self, key: &str) -> (r: bool)
        ensures
            r == (self.spec_get(key@) is Some),
    {
        self.get(key).is_some()
    }

    /// Drops whatever `key` holds; every other key is untouched.
    pub fn remove(&mut self, key: &str)
        ensures
            final(self).spec_get(key@) is None,
            forall|k: Seq<char>| k != key@ ==> final(self).spec_get(k) == old(self).spec_get(k),
    {
        let ghost original = self.entries@;
        let mut kept: Vec<(String, V)> = Vec::new();
        let mut rest: Vec<(String, V)> = Vec::new();
        core::mem::swap(&mut self.entries, &mut rest);
        let n = rest.len();
        let mut i: usize = 0;
        while i < n
            invariant
                n == original.len(),
                i <= n,
                rest@ == original.subrange(i as int, n as int),
                spec_lookup(kept@, key@) is None,
                forall|k: Seq<char>|
                    k != key@ ==> spec_lookup(kept@, k) == spec_lookup(
                        original.subrange(0, i as int),
                        k,
                    ),
            decreases n - i,
        {
            let ghost kept_before = kept@;
            let ghost prefix = original.subrange(0, i as int);
            let entry = rest.remove(0);
            let matches_key = text::str_eq(entry.0.as_str(), key);
            if !matches_key {
                kept.push(entry);
            }
            i += 1;
            proof {
                let next = original.subrange(0, i as int);
                assert(next.drop_last() =~= prefix);
                assert(next.last() == entry);
                if !matches_key {
                    assert(kept@.drop_last() =~= kept_before);
                    assert(kept@.last() == entry);
                }
                assert forall|k: Seq<char>| k != key@ implies spec_lookup(kept@, k) == spec_lookup(
                    next,
                    k,
                ) by {
                    assert(spec_lookup(kept_before, k) == spec_lookup(prefix, k));
                    if entry.0@ == k {
                        assert(!matches_key);
                        assert(spec_lookup(next, k) == Some(entry.1));
                        assert(spec_lookup(kept@, k) == Some(entry.1));
                    } else {
                        assert(spec_lookup(next, k) == spec_lookup(prefix, k));
                        if matches_key {
                            assert(kept@ == kept_before);
                        } else {
                            assert(spec_lookup(kept@, k) == spec_lookup(kept_before, k));
                        }
                    }
                }
            }
        }
        proof {
            assert(original.subrange(0, n as int) =~= original);
        }
        self.entries = kept;
    }
}

} // verus!
