use crate::assoc::{
    distinct_keys, find, first_at, has_key, index_of, lemma_first_at_unique,
    lemma_upsert_distinct, lemma_without_distinct, upsert, without,
};
use crate::entity::{copy_entities, records, AdminEntity, Records};
use vstd::prelude::*;

verus! {

/// A table of entities in which no key occurs twice. An entry keeps the place at
/// which its key first came in.
pub struct KeyedTable {
    entries: Vec<AdminEntity>,
}

impl View for KeyedTable {
    type V = Records;

    closed spec fn view(&self) -> Records {
        records(self.entries@)
    }
}

impl KeyedTable {
    #[verifier::type_invariant]
    spec fn keys_are_distinct(&self) -> bool {
        distinct_keys(records(self.entries@))
    }

    pub fn new() -> (table: Self)
        ensures
            table@ == Records::empty(),
    {
        let table = KeyedTable { entries: Vec::new() };
        assert(table@ =~= Records::empty());
        table
    }

    /// The number of entries. No key is counted twice, since none occurs twice.
    pub fn len(&self) -> (n: usize)
        ensures
            n == self@.len(),
            distinct_keys(self@),
    {
        proof {
            use_type_invariant(self);
        }
        self.entries.len()
    }

    fn position(&self, key: &String) -> (at: Option<usize>)
        ensures
            at is Some == has_key(self@, key@),
            at matches Some(i) ==> first_at(self@, key@, i as int) && index_of(self@, key@) == i,
    {
        let mut i: usize = 0;
        while i < self.entries.len()
            invariant
                i <= self.entries.len(),
                forall|j: int| 0 <= j < i ==> (#[trigger] self@[j]).0 != key@,
            decreases self.entries.len() - i,
        {
            if self.entries[i].key == *key {
                proof {
                    lemma_first_at_unique(self@, key@, i as int);
                }
                return Some(i);
            }
            i = i + 1;
        }
        None
    }

    /// The entry named `key`, if the table holds one.
    pub fn get(&self, key: &String) -> (found: Option<&AdminEntity>)
        ensures
            found is Some == has_key(self@, key@),
            found matches Some(e) ==> e.key@ == key@ && find(self@, key@) == Some(e.value@),
    {
        match self.position(key) {
            Some(i) => Some(&self.entries[i]),
            None => None,
        }
    }

    pub fn contains_key(&self, key: &String) -> (b: bool)
        ensures
            b == has_key(self@, key@),
    {
        self.position(key).is_some()
    }

    /// Stores `entity` under its key: in the place of the entry that has the key, or
    /// at the end.
    pub fn put(&mut self, entity: AdminEntity)
        ensures
            final(self)@ == upsert(old(self)@, entity@),
            distinct_keys(final(self)@),
    {
        proof {
            use_type_invariant(&*self);
            lemma_upsert_distinct(self@, entity@);
        }
        let at = self.position(&entity.key);
        let ghost before = self@;
        let mut entries: Vec<AdminEntity> = Vec::new();
        std::mem::swap(&mut entries, &mut self.entries);
        match at {
            Some(i) => {
                entries.set(i, entity);
            },
            None => {
                entries.push(entity);
            },
        }
        assert(records(entries@) =~= upsert(before, entity@));
        self.entries = entries;
    }

    /// Takes the entry named `key` out, if there is one, and says whether there was.
    pub fn remove(&mut self, key: &String) -> (removed: bool)
        ensures
            removed == has_key(old(self)@, key@),
            final(self)@ == without(old(self)@, key@),
            distinct_keys(final(self)@),
    {
        proof {
            use_type_invariant(&*self);
            lemma_without_distinct(self@, key@);
        }
        let at = self.position(key);
        let ghost before = self@;
        match at {
            Some(i) => {
                let mut entries: Vec<AdminEntity> = Vec::new();
                std::mem::swap(&mut entries, &mut self.entries);
                let _ = entries.remove(i);
                assert(records(entries@) =~= without(before, key@));
                self.entries = entries;
                true
            },
            None => false,
        }
    }

    /// Copies of all entries, in the table's order.
    pub fn to_vec(&self) -> (out: Vec<AdminEntity>)
        ensures
            records(out@) == self@,
            distinct_keys(self@),
    {
        proof {
            use_type_invariant(self);
        }
        copy_entities(&self.entries)
    }
}

} // verus!
