use crate::assoc::{find, has_key};
use crate::config::{all_off, ClusterDynamicConfig};
use crate::entity::{EntityKind, Records};
use crate::idmap::IdMap;
use crate::node::BrokerNode;
use crate::table::KeyedTable;
use crate::tables::EntityTables;
use vstd::prelude::*;

verus! {

/// The local cache: runtime tables, and the mirror of what cluster metadata holds.
pub struct CacheManager {
    pub cluster_name: String,
    pub node_lists: IdMap<BrokerNode>,
    pub client_info: KeyedTable,
    pub session_info: KeyedTable,
    pub topic_info: KeyedTable,
    /// For each connection, the snapshot of its protocol-level session.
    pub connection_info: IdMap<serde_json::Value>,
    pub system_alarms: KeyedTable,
    pub slow_subscribes: KeyedTable,
    pub entities: EntityTables,
    pub cluster_config: ClusterDynamicConfig,
}

/// The nodes of a registry of nodes, in its order.
pub open spec fn nodes_of(entries: Seq<(u64, BrokerNode)>) -> Seq<BrokerNode> {
    Seq::new(entries.len(), |i: int| entries[i].1)
}

impl CacheManager {
    pub fn new(cluster_name: String) -> (cache: Self)
        ensures
            cache.cluster_name@ == cluster_name@,
            cache.node_lists@.len() == 0,
            cache.client_info@.len() == 0,
            cache.session_info@.len() == 0,
            cache.topic_info@.len() == 0,
            cache.connection_info@.len() == 0,
            cache.system_alarms@.len() == 0,
            cache.slow_subscribes@.len() == 0,
            forall|kind: EntityKind| #[trigger] cache.entities@[kind] == Records::empty(),
            cache.cluster_config == all_off(),
    {
        CacheManager {
            cluster_name,
            node_lists: IdMap::new(),
            client_info: KeyedTable::new(),
            session_info: KeyedTable::new(),
            topic_info: KeyedTable::new(),
            connection_info: IdMap::new(),
            system_alarms: KeyedTable::new(),
            slow_subscribes: KeyedTable::new(),
            entities: EntityTables::new(),
            cluster_config: ClusterDynamicConfig::new(),
        }
    }

    /// Copies of the cached nodes, in the cache's order.
    pub fn node_list(&self) -> (out: Vec<BrokerNode>)
        ensures
            out@ == nodes_of(self.node_lists@),
    {
        let mut out: Vec<BrokerNode> = Vec::new();
        let n = self.node_lists.len();
        let mut i: usize = 0;
        while i < n
            invariant
                n == self.node_lists@.len(),
                i <= n,
                out@ == nodes_of(self.node_lists@).subrange(0, i as int),
            decreases n - i,
        {
            let (_, node) = self.node_lists.entry(i);
            out.push(node.clone());
            assert(out@ =~= nodes_of(self.node_lists@).subrange(0, i + 1));
            i = i + 1;
        }
        assert(nodes_of(self.node_lists@).subrange(0, i as int) =~= nodes_of(self.node_lists@));
        out
    }

    /// The cached snapshot for the connection `id`, if the cache holds one.
    pub fn get_connection(&self, id: u64) -> (found: Option<&serde_json::Value>)
        ensures
            found is Some == has_key(self.connection_info@, id),
            found matches Some(v) ==> find(self.connection_info@, id) == Some(*v),
    {
        self.connection_info.get(id)
    }

    pub fn get_cluster_config(&self) -> (config: ClusterDynamicConfig)
        ensures
            config == self.cluster_config,
    {
        self.cluster_config
    }
}

} // verus!
