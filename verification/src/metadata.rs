use crate::assoc::{find, has_key, upsert, without};
use crate::cache::nodes_of;
use crate::config::{all_off, switched_by, ClusterDynamicConfig, ConfigSwitch};
use crate::entity::{records, AdminEntity, EntityKind, Records};
use crate::idmap::IdMap;
use crate::node::BrokerNode;
use crate::tables::{EntityTables, TablesView};
use vstd::prelude::*;
use vstd::string::StringExecFns;

verus! {

/// What the gateway asks of the metadata service.
#[derive(Debug, PartialEq, Eq)]
pub enum MetadataRequest {
    Get { kind: EntityKind, key: String },
    Put { kind: EntityKind, entity: AdminEntity },
    Delete { kind: EntityKind, key: String },
    List { kind: EntityKind },
    /// Sets one switch of the configuration, and leaves the others.
    Switch { switch: ConfigSwitch, enable: bool },
}

/// What the metadata service answers.
#[derive(Debug, PartialEq, Eq)]
pub enum MetadataResponse {
    /// The answer to `Get`.
    Entity(Option<AdminEntity>),
    /// The answer to `List`.
    Entities(Vec<AdminEntity>),
    /// The answer to `Put`, `Delete` and `Switch`.
    Done,
    /// The service could not be reached, with the reason.
    Unavailable(String),
}

/// What a metadata service holds that requests read or change.
pub struct StoreState {
    pub available: bool,
    pub tables: TablesView,
    pub config: ClusterDynamicConfig,
}

/// The reason an unreachable service is reported with.
pub open spec fn unreachable_text() -> Seq<char> {
    "metadata service is unreachable"@
}

/// The state of a service after it has served `request`. A service that cannot be
/// reached changes nothing, and neither does a read.
pub open spec fn state_after(s: StoreState, request: MetadataRequest) -> StoreState {
    if !s.available {
        s
    } else {
        match request {
            MetadataRequest::Put { kind, entity } => StoreState {
                tables: s.tables.insert(kind, upsert(s.tables[kind], entity@)),
                ..s
            },
            MetadataRequest::Delete { kind, key } => StoreState {
                tables: s.tables.insert(kind, without(s.tables[kind], key@)),
                ..s
            },
            MetadataRequest::Switch { switch, enable } => StoreState {
                config: switched_by(s.config, switch, enable),
                ..s
            },
            _ => s,
        }
    }
}

/// `response` is what a service in state `s` answers to `request`.
pub open spec fn answers(
    s: StoreState,
    request: MetadataRequest,
    response: MetadataResponse,
) -> bool {
    if !s.available {
        response matches MetadataResponse::Unavailable(reason) && reason@ == unreachable_text()
    } else {
        match request {
            MetadataRequest::Get { kind, key } => response matches MetadataResponse::Entity(found)
                && match found {
                Some(e) => e.key@ == key@ && find(s.tables[kind], key@) == Some(e.value@),
                None => !has_key(s.tables[kind], key@),
            },
            MetadataRequest::List { kind } => response matches MetadataResponse::Entities(items)
                && records(items@) == s.tables[kind],
            _ => response is Done,
        }
    }
}

/// A metadata service held in memory: what the cluster keeps durably, and a switch
/// that makes it unreachable.
pub struct MetadataStore {
    pub available: bool,
    pub nodes: IdMap<BrokerNode>,
    pub placement_status: String,
    pub entities: EntityTables,
    pub cluster_config: ClusterDynamicConfig,
}

impl MetadataStore {
    /// What requests read or change.
    pub open spec fn state(&self) -> StoreState {
        StoreState {
            available: self.available,
            tables: self.entities@,
            config: self.cluster_config,
        }
    }

    /// A reachable service that holds nothing, with the given health status.
    pub fn new(placement_status: String) -> (store: Self)
        ensures
            store.available,
            store.nodes@.len() == 0,
            store.placement_status@ == placement_status@,
            forall|kind: EntityKind| #[trigger] store.entities@[kind] == Records::empty(),
            store.cluster_config == all_off(),
    {
        MetadataStore {
            available: true,
            nodes: IdMap::new(),
            placement_status,
            entities: EntityTables::new(),
            cluster_config: ClusterDynamicConfig::new(),
        }
    }

    fn unreachable() -> (reason: String)
        ensures
            reason@ == unreachable_text(),
    {
        String::from_str("metadata service is unreachable")
    }

    /// The nodes of the cluster, or the reason they cannot be had.
    pub fn node_list(&self) -> (r: Result<Vec<BrokerNode>, String>)
        ensures
            match r {
                Ok(nodes) => self.available && nodes@ == nodes_of(self.nodes@),
                Err(reason) => !self.available && reason@ == unreachable_text(),
            },
    {
        if !self.available {
            return Err(Self::unreachable());
        }
        let mut out: Vec<BrokerNode> = Vec::new();
        let n = self.nodes.len();
        let mut i: usize = 0;
        while i < n
            invariant
                n == self.nodes@.len(),
                i <= n,
                out@ == nodes_of(self.nodes@).subrange(0, i as int),
            decreases n - i,
        {
            let (_, node) = self.nodes.entry(i);
            out.push(node.clone());
            assert(out@ =~= nodes_of(self.nodes@).subrange(0, i + 1));
            i = i + 1;
        }
        assert(nodes_of(self.nodes@).subrange(0, i as int) =~= nodes_of(self.nodes@));
        Ok(out)
    }

    /// The health of the placement cluster, or the reason it cannot be had.
    pub fn place_cluster_status(&self) -> (r: Result<String, String>)
        ensures
            match r {
                Ok(status) => self.available && status@ == self.placement_status@,
                Err(reason) => !self.available && reason@ == unreachable_text(),
            },
    {
        if !self.available {
            return Err(Self::unreachable());
        }
        Ok(self.placement_status.clone())
    }

    /// Answers a `List` request for `kind`.
    pub fn list(&self, kind: EntityKind) -> (response: MetadataResponse)
        ensures
            answers(self.state(), MetadataRequest::List { kind }, response),
    {
        if !self.available {
            return MetadataResponse::Unavailable(Self::unreachable());
        }
        MetadataResponse::Entities(self.entities.of(kind).to_vec())
    }

    /// Serves one request.
    pub fn serve(&mut self, request: &MetadataRequest) -> (response: MetadataResponse)
        ensures
            answers(old(self).state(), *request, response),
            final(self).state() == state_after(old(self).state(), *request),
            final(self).nodes == old(self).nodes,
            final(self).placement_status == old(self).placement_status,
    {
        if !self.available {
            return MetadataResponse::Unavailable(Self::unreachable());
        }
        match request {
            MetadataRequest::Get { kind, key } => MetadataResponse::Entity(
                self.entities.get(*kind, key),
            ),
            MetadataRequest::Put { kind, entity } => {
                self.entities.put(*kind, entity.clone());
                MetadataResponse::Done
            },
            MetadataRequest::Delete { kind, key } => {
                let _ = self.entities.remove(*kind, key);
                MetadataResponse::Done
            },
            MetadataRequest::List { kind } => self.list(*kind),
            MetadataRequest::Switch { switch, enable } => {
                self.cluster_config = self.cluster_config.switch(*switch, *enable);
                MetadataResponse::Done
            },
        }
    }
}

} // verus!
