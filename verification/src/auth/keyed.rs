//! A small map from credential keys to values, kept as a list.

use crate::assoc::{
    as_map, has_key, is_first, lemma_absent_is_unmapped, lemma_empty_map, lemma_first_is_mapped,
    lemma_push_inserts, lemma_remove_keeps_others, lemma_update_inserts, same_but_for,
};
use crate::auth::key::{CredentialDomain, CredentialKey};
use vstd::prelude::*;

verus! {

/// What is filed under each credential key. Its view is the map from keys to
/// values.
pub struct KeyedEntries<V> {
    entries: Vec<(CredentialKey, V)>,
}

impl<V> View for KeyedEntries<V> {
    type V = Map<(CredentialDomain, Seq<char>), V>;

    closed spec fn view(&self) -> Map<(CredentialDomain, Seq<char>), V> {
        as_map(self.pairs())
    }
}

impl<V> KeyedEntries<V> {
    closed spec fn pairs(&self) -> Seq<((CredentialDomain, Seq<char>), V)> {
        self.entries@.map_values(|e: (CredentialKey, V)| (e.0@, e.1))
    }

    /// The empty map.
    pub fn new() -> (r: Self)
        ensures
            r@ == Map::<(CredentialDomain, Seq<char>), V>::empty(),
    {
        let r = KeyedEntries { entries: Vec::new() };
        proof {
            lemma_empty_map::<(CredentialDomain, Seq<char>), V>();
        }
        r
    }

    fn position(&self, key: &CredentialKey) -> (r: Option<usize>)
        ensures
            match r {
                Some(i) => is_first(self.pairs(), key@, i as int),
                None => !has_key(self.pairs(), key@),
            },
    {
        let mut i: usize = 0;
        while i < self.entries.len()
            invariant
                i <= self.entries.len(),
                forall|j: int| 0 <= j < i ==> (#[trigger] self.pairs()[j]).0 != key@,
            decreases self.entries.len() - i,
        {
            if self.entries[i].0.same_as(key) {
                return Some(i);
            }
            i += 1;
        }
        None
    }

    /// What is filed under `key`, if anything.
    pub fn find(&self, key: &CredentialKey) -> (r: Option<&V>)
        ensures
            match r {
                Some(v) => self@.contains_key(key@) && *v == self@[key@],
                None => !self@.contains_key(key@),
            },
    {
        match self.position(key) {
            Some(i) => {
                proof {
                    lemma_first_is_mapped(self.pairs(), key@, i as int);
                }
                Some(&self.entries[i].1)
            },
            None => {
                proof {
                    lemma_absent_is_unmapped(self.pairs(), key@);
                }
                None
            },
        }
    }

    /// Files `value` under `key`, in place of what was there.
    pub fn put(&mut self, key: CredentialKey, value: V)
        ensures
            final(self)@ == old(self)@.insert(key@, value),
    {
        let ghost before = self.pairs();
        match self.position(&key) {
            Some(i) => {
                proof {
                    lemma_update_inserts(before, i as int, value);
                }
                self.entries.set(i, (key, value));
                assert(self.pairs() =~= before.update(i as int, (before[i as int].0, value)));
            },
            None => {
                proof {
                    lemma_push_inserts(before, key@, value);
                }
                self.entries.push((key, value));
                assert(self.pairs() =~= before.push((key@, value)));
            },
        }
    }

    /// Takes out what is filed under `key`; nothing changes where nothing is.
    pub fn discard(&mut self, key: &CredentialKey)
        ensures
            final(self)@ == old(self)@.remove(key@),
    {
        let ghost before = self@;
        loop
            invariant
                same_but_for(self@, before, key@),
            ensures
                same_but_for(self@, before, key@),
                !self@.contains_key(key@),
            decreases self.entries.len(),
        {
            let ghost pairs = self.pairs();
            match self.position(key) {
                Some(i) => {
                    self.entries.remove(i);
                    proof {
                        assert(self.pairs() =~= pairs.remove(i as int));
                        lemma_remove_keeps_others(pairs, i as int);
                    }
                },
                None => {
                    proof {
                        lemma_absent_is_unmapped(pairs, key@);
                    }
                    break ;
                },
            }
        }
    }

    /// Takes everything out.
    pub fn clear(&mut self)
        ensures
            final(self)@ == Map::<(CredentialDomain, Seq<char>), V>::empty(),
    {
        self.entries = Vec::new();
        proof {
            lemma_empty_map::<(CredentialDomain, Seq<char>), V>();
        }
    }
}

} // verus!
