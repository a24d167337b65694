use crate::assoc::{distinct_keys, find, has_key, lemma_has_key_first, upsert, without};
use crate::idmap::IdMap;
use vstd::prelude::*;

verus! {

/// The transports a client can connect over.
#[derive(Clone, Copy, Debug, PartialEq, Eq, Structural)]
pub enum NetworkConnectionType {
    Tcp,
    Tls,
    WebSocket,
    Quic,
}

/// The protocol versions a connection can have negotiated.
#[derive(Clone, Copy, Debug, PartialEq, Eq, Structural)]
pub enum MqttProtocol {
    Mqtt3,
    Mqtt4,
    Mqtt5,
}

/// One live client socket.
#[derive(Debug, PartialEq, Eq)]
pub struct NetworkConnection {
    pub connection_type: NetworkConnectionType,
    pub connection_id: u64,
    /// Absent until the protocol has been negotiated.
    pub protocol: Option<MqttProtocol>,
    /// The source address, as text.
    pub addr: String,
}

impl Clone for NetworkConnection {
    fn clone(&self) -> (out: Self)
        ensures
            out == *self,
    {
        NetworkConnection {
            connection_type: self.connection_type,
            connection_id: self.connection_id,
            protocol: self.protocol,
            addr: self.addr.clone(),
        }
    }
}

/// The name of a transport.
pub open spec fn connection_type_name(t: NetworkConnectionType) -> Seq<char> {
    match t {
        NetworkConnectionType::Tcp => "tcp"@,
        NetworkConnectionType::Tls => "tls"@,
        NetworkConnectionType::WebSocket => "websocket"@,
        NetworkConnectionType::Quic => "quic"@,
    }
}

/// The name of the negotiated protocol, or `None` before negotiation.
pub open spec fn protocol_name(protocol: Option<MqttProtocol>) -> Seq<char> {
    match protocol {
        Some(MqttProtocol::Mqtt3) => "MQTT3"@,
        Some(MqttProtocol::Mqtt4) => "MQTT4"@,
        Some(MqttProtocol::Mqtt5) => "MQTT5"@,
        None => "None"@,
    }
}

impl NetworkConnectionType {
    pub fn name(&self) -> (s: &'static str)
        ensures
            s@ == connection_type_name(*self),
    {
        match self {
            NetworkConnectionType::Tcp => "tcp",
            NetworkConnectionType::Tls => "tls",
            NetworkConnectionType::WebSocket => "websocket",
            NetworkConnectionType::Quic => "quic",
        }
    }
}

impl MqttProtocol {
    pub fn name(&self) -> (s: &'static str)
        ensures
            s@ == protocol_name(Some(*self)),
    {
        match self {
            MqttProtocol::Mqtt3 => "MQTT3",
            MqttProtocol::Mqtt4 => "MQTT4",
            MqttProtocol::Mqtt5 => "MQTT5",
        }
    }
}

/// Each entry is registered under the identifier of its own connection.
pub open spec fn registered_under_own_id(registry: Seq<(u64, NetworkConnection)>) -> bool {
    forall|i: int|
        0 <= i < registry.len() ==> (#[trigger] registry[i]).0 == registry[i].1.connection_id
}

/// The registry of live connections. A connection is registered under its own
/// identifier, and no identifier occurs twice.
pub struct ConnectionRegistry {
    entries: IdMap<NetworkConnection>,
}

impl View for ConnectionRegistry {
    type V = Seq<(u64, NetworkConnection)>;

    closed spec fn view(&self) -> Seq<(u64, NetworkConnection)> {
        self.entries@
    }
}

impl ConnectionRegistry {
    #[verifier::type_invariant]
    spec fn own_ids(&self) -> bool {
        registered_under_own_id(self.entries@)
    }

    pub fn new() -> (registry: Self)
        ensures
            registry@ == Seq::<(u64, NetworkConnection)>::empty(),
    {
        ConnectionRegistry { entries: IdMap::new() }
    }

    /// The number of live connections. Each is counted once, under its own
    /// identifier.
    pub fn len(&self) -> (n: usize)
        ensures
            n == self@.len(),
            distinct_keys(self@),
            registered_under_own_id(self@),
    {
        proof {
            use_type_invariant(self);
        }
        self.entries.len()
    }

    /// The connection with the identifier `id`, if it is live.
    pub fn get(&self, id: u64) -> (found: Option<&NetworkConnection>)
        ensures
            found is Some == has_key(self@, id),
            found matches Some(c) ==> find(self@, id) == Some(*c) && c.connection_id == id,
    {
        proof {
            use_type_invariant(self);
            lemma_has_key_first(self@, id);
        }
        self.entries.get(id)
    }

    pub fn contains_key(&self, id: u64) -> (b: bool)
        ensures
            b == has_key(self@, id),
    {
        self.entries.contains_key(id)
    }

    /// The entry at place `i`.
    pub fn entry(&self, i: usize) -> (e: (u64, &NetworkConnection))
        requires
            i < self@.len(),
        ensures
            e.0 == self@[i as int].0,
            *e.1 == self@[i as int].1,
            e.1.connection_id == e.0,
    {
        proof {
            use_type_invariant(self);
        }
        self.entries.entry(i)
    }

    /// Registers `connection` under its own identifier: in the place of the
    /// connection that has the identifier, or at the end.
    pub fn insert(&mut self, connection: NetworkConnection)
        ensures
            final(self)@ == upsert(old(self)@, (connection.connection_id, connection)),
            distinct_keys(final(self)@),
            registered_under_own_id(final(self)@),
    {
        proof {
            use_type_invariant(&*self);
            lemma_has_key_first(self@, connection.connection_id);
        }
        let mut entries: IdMap<NetworkConnection> = IdMap::new();
        std::mem::swap(&mut entries, &mut self.entries);
        entries.insert(connection.connection_id, connection);
        self.entries = entries;
    }

    /// Takes the connection with the identifier `id` out, if it is live, and says
    /// whether it was.
    pub fn remove(&mut self, id: u64) -> (removed: bool)
        ensures
            removed == has_key(old(self)@, id),
            final(self)@ == without(old(self)@, id),
            distinct_keys(final(self)@),
            registered_under_own_id(final(self)@),
    {
        proof {
            use_type_invariant(&*self);
            lemma_has_key_first(self@, id);
        }
        let mut entries: IdMap<NetworkConnection> = IdMap::new();
        std::mem::swap(&mut entries, &mut self.entries);
        let removed = entries.remove(id);
        self.entries = entries;
        removed
    }
}

/// The registry of live connections, and the socket tables of the four transports.
pub struct ConnectionManager {
    pub connections: ConnectionRegistry,
    pub tcp_write_list: IdMap<()>,
    pub tcp_tls_write_list: IdMap<()>,
    pub websocket_write_list: IdMap<()>,
    pub quic_write_list: IdMap<()>,
}

impl ConnectionManager {
    pub fn new() -> (manager: Self)
        ensures
            manager.connections@.len() == 0,
            manager.tcp_write_list@.len() == 0,
            manager.tcp_tls_write_list@.len() == 0,
            manager.websocket_write_list@.len() == 0,
            manager.quic_write_list@.len() == 0,
    {
        ConnectionManager {
            connections: ConnectionRegistry::new(),
            tcp_write_list: IdMap::new(),
            tcp_tls_write_list: IdMap::new(),
            websocket_write_list: IdMap::new(),
            quic_write_list: IdMap::new(),
        }
    }

    /// Copies of the live connections with the identifiers they are registered
    /// under, in the registry's order.
    pub fn list_connect(&self) -> (out: Vec<(u64, NetworkConnection)>)
        ensures
            out@ == self.connections@,
            distinct_keys(out@),
            registered_under_own_id(out@),
    {
        let mut out: Vec<(u64, NetworkConnection)> = Vec::new();
        let n = self.connections.len();
        let mut i: usize = 0;
        while i < n
            invariant
                n == self.connections@.len(),
                i <= n,
                out@ == self.connections@.subrange(0, i as int),
            decreases n - i,
        {
            let (id, connection) = self.connections.entry(i);
            out.push((id, connection.clone()));
            assert(out@ =~= self.connections@.subrange(0, i + 1));
            i = i + 1;
        }
        assert(self.connections@.subrange(0, i as int) =~= self.connections@);
        out
    }
}

} // verus!
