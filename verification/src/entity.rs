use vstd::prelude::*;

verus! {

/// What an entity is in contracts: its key and the bytes of its definition.
pub type Record = (Seq<char>, Seq<u8>);

/// What a table of entities is in contracts: its records, in order.
pub type Records = Seq<Record>;

/// One named configuration or runtime object: a key that identifies it within its
/// kind, and the bytes of its definition, which this layer carries without reading.
#[derive(Debug, PartialEq, Eq)]
pub struct AdminEntity {
    pub key: String,
    pub value: Vec<u8>,
}

impl View for AdminEntity {
    type V = Record;

    open spec fn view(&self) -> Record {
        (self.key@, self.value@)
    }
}

/// The records of a vector of entities, in order.
pub open spec fn records(entries: Seq<AdminEntity>) -> Records {
    Seq::new(entries.len(), |i: int| entries[i]@)
}

/// A copy of `bytes`.
pub fn copy_bytes(bytes: &Vec<u8>) -> (out: Vec<u8>)
    ensures
        out@ == bytes@,
{
    let mut out: Vec<u8> = Vec::new();
    let mut i: usize = 0;
    while i < bytes.len()
        invariant
            i <= bytes.len(),
            out@ == bytes@.subrange(0, i as int),
        decreases bytes.len() - i,
    {
        out.push(bytes[i]);
        i = i + 1;
    }
    out
}

impl Clone for AdminEntity {
    fn clone(&self) -> (out: Self)
        ensures
            out@ == self@,
    {
        AdminEntity { key: self.key.clone(), value: copy_bytes(&self.value) }
    }
}

impl AdminEntity {
    pub fn new(key: String, value: Vec<u8>) -> (entity: Self)
        ensures
            entity@ == (key@, value@),
    {
        AdminEntity { key, value }
    }
}

/// Copies of `entries`, in order.
pub fn copy_entities(entries: &Vec<AdminEntity>) -> (out: Vec<AdminEntity>)
    ensures
        records(out@) == records(entries@),
{
    let mut out: Vec<AdminEntity> = Vec::new();
    let mut i: usize = 0;
    while i < entries.len()
        invariant
            i <= entries.len(),
            records(out@) == records(entries@).subrange(0, i as int),
        decreases entries.len() - i,
    {
        let ghost earlier = out@;
        let entry = entries[i].clone();
        out.push(entry);
        assert(records(out@) =~= records(earlier).push(entry@));
        assert(records(out@) =~= records(entries@).subrange(0, i + 1));
        i = i + 1;
    }
    assert(records(entries@).subrange(0, i as int) =~= records(entries@));
    out
}

/// The kinds of administrative entity that the cluster keeps.
#[derive(Clone, Copy, Debug, PartialEq, Eq, Structural)]
pub enum EntityKind {
    User,
    Acl,
    Blacklist,
    TopicRewriteRule,
    Connector,
    Schema,
    SchemaBind,
    AutoSubscribeRule,
}

} // verus!
