use crate::assoc::{
    distinct_keys, find, first_at, has_key, index_of, lemma_first_at_unique,
    lemma_upsert_distinct, lemma_without_distinct, upsert, without,
};
use vstd::prelude::*;

verus! {

/// A registry keyed by connection identifier, in which no identifier occurs twice.
/// An entry keeps the place at which its identifier first came in.
pub struct IdMap<V> {
    entries: Vec<(u64, V)>,
}

impl<V> View for IdMap<V> {
    type V = Seq<(u64, V)>;

    closed spec fn view(&self) -> Seq<(u64, V)> {
        self.entries@
    }
}

impl<V> IdMap<V> {
    #[verifier::type_invariant]
    spec fn ids_are_distinct(&self) -> bool {
        distinct_keys(self.entries@)
    }

    pub fn new() -> (map: Self)
        ensures
            map@ == Seq::<(u64, V)>::empty(),
    {
        IdMap { entries: Vec::new() }
    }

    /// The number of entries. No identifier is counted twice, since none occurs twice.
    pub fn len(&self) -> (n: usize)
        ensures
            n == self@.len(),
            distinct_keys(self@),
    {
        proof {
            use_type_invariant(self);
        }
        self.entries.len()
    }

    fn position(&self, id: u64) -> (at: Option<usize>)
        ensures
            at is Some == has_key(self@, id),
            at matches Some(i) ==> first_at(self@, id, i as int) && index_of(self@, id) == i,
    {
        let mut i: usize = 0;
        while i < self.entries.len()
            invariant
                i <= self.entries.len(),
                forall|j: int| 0 <= j < i ==> (#[trigger] self@[j]).0 != id,
            decreases self.entries.len() - i,
        {
            if self.entries[i].0 == id {
                proof {
                    lemma_first_at_unique(self@, id, i as int);
                }
                return Some(i);
            }
            i = i + 1;
        }
        None
    }

    /// The value stored under `id`, if there is one.
    pub fn get(&self, id: u64) -> (found: Option<&V>)
        ensures
            found is Some == has_key(self@, id),
            found matches Some(v) ==> find(self@, id) == Some(*v),
    {
        match self.position(id) {
            Some(i) => Some(&self.entries[i].1),
            None => None,
        }
    }

    pub fn contains_key(&self, id: u64) -> (b: bool)
        ensures
            b == has_key(self@, id),
    {
        self.position(id).is_some()
    }

    /// The entry at place `i`.
    pub fn entry(&self, i: usize) -> (e: (u64, &V))
        requires
            i < self@.len(),
        ensures
            e.0 == self@[i as int].0,
            *e.1 == self@[i as int].1,
    {
        (self.entries[i].0, &self.entries[i].1)
    }

    /// Stores `value` under `id`: in the place of the entry that has the identifier,
    /// or at the end.
    pub fn insert(&mut self, id: u64, value: V)
        ensures
            final(self)@ == upsert(old(self)@, (id, value)),
            distinct_keys(final(self)@),
    {
        proof {
            use_type_invariant(&*self);
            lemma_upsert_distinct(self@, (id, value));
        }
        let at = self.position(id);
        let mut entries: Vec<(u64, V)> = Vec::new();
        std::mem::swap(&mut entries, &mut self.entries);
        match at {
            Some(i) => {
                entries.set(i, (id, value));
            },
            None => {
                entries.push((id, value));
            },
        }
        self.entries = entries;
    }

    /// Takes the entry stored under `id` out, if there is one, and says whether there
    /// was.
    pub fn remove(&mut self, id: u64) -> (removed: bool)
        ensures
            removed == has_key(old(self)@, id),
            final(self)@ == without(old(self)@, id),
            distinct_keys(final(self)@),
    {
        proof {
            use_type_invariant(&*self);
            lemma_without_distinct(self@, id);
        }
        let at = self.position(id);
        match at {
            Some(i) => {
                let mut entries: Vec<(u64, V)> = Vec::new();
                std::mem::swap(&mut entries, &mut self.entries);
                let _ = entries.remove(i);
                self.entries = entries;
                true
            },
            None => false,
        }
    }
}

} // verus!
