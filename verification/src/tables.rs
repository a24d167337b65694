use crate::assoc::{find, has_key, upsert, without};
use crate::entity::{AdminEntity, EntityKind, Records};
use crate::table::KeyedTable;
use vstd::prelude::*;

verus! {

/// One table of administrative entities for each kind.
pub struct EntityTables {
    pub users: KeyedTable,
    pub acls: KeyedTable,
    pub blacklist: KeyedTable,
    pub topic_rewrite_rules: KeyedTable,
    pub connectors: KeyedTable,
    pub schemas: KeyedTable,
    pub schema_binds: KeyedTable,
    pub auto_subscribe_rules: KeyedTable,
}

/// What a set of tables is in contracts: the records of each kind.
pub type TablesView = Map<EntityKind, Records>;

impl View for EntityTables {
    type V = TablesView;

    open spec fn view(&self) -> TablesView {
        Map::new(|kind: EntityKind| true, |kind: EntityKind| self.table(kind))
    }
}

impl EntityTables {
    /// The records of one kind.
    pub open spec fn table(&self, kind: EntityKind) -> Records {
        match kind {
            EntityKind::User => self.users@,
            EntityKind::Acl => self.acls@,
            EntityKind::Blacklist => self.blacklist@,
            EntityKind::TopicRewriteRule => self.topic_rewrite_rules@,
            EntityKind::Connector => self.connectors@,
            EntityKind::Schema => self.schemas@,
            EntityKind::SchemaBind => self.schema_binds@,
            EntityKind::AutoSubscribeRule => self.auto_subscribe_rules@,
        }
    }

    pub fn new() -> (tables: Self)
        ensures
            forall|kind: EntityKind| #[trigger] tables@[kind] == Records::empty(),
            tables@.dom() == Set::<EntityKind>::full(),
    {
        let tables = EntityTables {
            users: KeyedTable::new(),
            acls: KeyedTable::new(),
            blacklist: KeyedTable::new(),
            topic_rewrite_rules: KeyedTable::new(),
            connectors: KeyedTable::new(),
            schemas: KeyedTable::new(),
            schema_binds: KeyedTable::new(),
            auto_subscribe_rules: KeyedTable::new(),
        };
        assert(tables@.dom() =~= Set::<EntityKind>::full());
        tables
    }

    /// The table of one kind.
    pub fn of(&self, kind: EntityKind) -> (table: &KeyedTable)
        ensures
            table@ == self@[kind],
    {
        match kind {
            EntityKind::User => &self.users,
            EntityKind::Acl => &self.acls,
            EntityKind::Blacklist => &self.blacklist,
            EntityKind::TopicRewriteRule => &self.topic_rewrite_rules,
            EntityKind::Connector => &self.connectors,
            EntityKind::Schema => &self.schemas,
            EntityKind::SchemaBind => &self.schema_binds,
            EntityKind::AutoSubscribeRule => &self.auto_subscribe_rules,
        }
    }

    /// A copy of the entity of `kind` named `key`, if there is one.
    pub fn get(&self, kind: EntityKind, key: &String) -> (found: Option<AdminEntity>)
        ensures
            found is Some == has_key(self@[kind], key@),
            found matches Some(e) ==> e.key@ == key@ && find(self@[kind], key@) == Some(e.value@),
    {
        match self.of(kind).get(key) {
            Some(entity) => Some(entity.clone()),
            None => None,
        }
    }

    /// Stores `entity` in the table of `kind`; the other tables stay as they are.
    pub fn put(&mut self, kind: EntityKind, entity: AdminEntity)
        ensures
            final(self)@ == old(self)@.insert(kind, upsert(old(self)@[kind], entity@)),
    {
        match kind {
            EntityKind::User => self.users.put(entity),
            EntityKind::Acl => self.acls.put(entity),
            EntityKind::Blacklist => self.blacklist.put(entity),
            EntityKind::TopicRewriteRule => self.topic_rewrite_rules.put(entity),
            EntityKind::Connector => self.connectors.put(entity),
            EntityKind::Schema => self.schemas.put(entity),
            EntityKind::SchemaBind => self.schema_binds.put(entity),
            EntityKind::AutoSubscribeRule => self.auto_subscribe_rules.put(entity),
        }
        assert(self@ =~= old(self)@.insert(kind, upsert(old(self)@[kind], entity@)));
    }

    /// Takes the entity of `kind` named `key` out of its table, and says whether
    /// there was one; the other tables stay as they are.
    pub fn remove(&mut self, kind: EntityKind, key: &String) -> (removed: bool)
        ensures
            removed == has_key(old(self)@[kind], key@),
            final(self)@ == old(self)@.insert(kind, without(old(self)@[kind], key@)),
    {
        let removed = match kind {
            EntityKind::User => self.users.remove(key),
            EntityKind::Acl => self.acls.remove(key),
            EntityKind::Blacklist => self.blacklist.remove(key),
            EntityKind::TopicRewriteRule => self.topic_rewrite_rules.remove(key),
            EntityKind::Connector => self.connectors.remove(key),
            EntityKind::Schema => self.schemas.remove(key),
            EntityKind::SchemaBind => self.schema_binds.remove(key),
            EntityKind::AutoSubscribeRule => self.auto_subscribe_rules.remove(key),
        };
        assert(self@ =~= old(self)@.insert(kind, without(old(self)@[kind], key@)));
        removed
    }
}

} // verus!
