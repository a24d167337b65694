use crate::assoc::{find, has_key};
use crate::cache::{nodes_of, CacheManager};
use crate::connection::{
    connection_type_name, protocol_name, registered_under_own_id, ConnectionManager,
    NetworkConnection,
};
use crate::error::{AdminError, ErrorKind};
use crate::dispatch::{enable_flapping_detect, flapping_change};
use crate::handler::{apply, world_after, world_of};
use crate::json::{describe_json_error, encode_value, json_encoding, json_error_text};
use crate::metadata::{unreachable_text, MetadataStore};
use crate::node::{raws_of, to_raw_nodes, BrokerNode, BrokerNodeRaw};
use crate::operation::Operation;
use crate::subscribe::SubscribeManager;
use crate::transport::{reports, status_of, Answer};
use vstd::prelude::*;
use vstd::string::StringExecFns;

verus! {

/// One snapshot of the cluster: who is in it, how healthy its placement is, and
/// how much each registry holds. A count is wide enough for any registry.
#[derive(Debug, PartialEq, Eq)]
pub struct ClusterStatusReply {
    pub cluster_name: String,
    pub message_in_rate: u32,
    pub message_out_rate: u32,
    pub connection_num: u64,
    pub session_num: u64,
    pub subscribe_num: u64,
    pub exclusive_subscribe_num: u64,
    pub exclusive_subscribe_thread_num: u64,
    pub share_subscribe_leader_num: u64,
    pub share_subscribe_leader_thread_num: u64,
    pub share_subscribe_resub_num: u64,
    pub share_subscribe_follower_thread_num: u64,
    pub topic_num: u64,
    pub nodes: Vec<BrokerNodeRaw>,
    pub placement_status: String,
    pub tcp_connection_num: u64,
    pub tls_connection_num: u64,
    pub websocket_connection_num: u64,
    pub quic_connection_num: u64,
}

/// `reply` is the snapshot of these registries and this cache, with
/// `placement_status` as the health of the placement cluster.
pub open spec fn is_cluster_status(
    reply: ClusterStatusReply,
    placement_status: Seq<char>,
    subscribe_manager: SubscribeManager,
    connection_manager: ConnectionManager,
    cache_manager: CacheManager,
) -> bool {
    &&& reply.cluster_name@ == cache_manager.cluster_name@
    &&& reply.message_in_rate == 10
    &&& reply.message_out_rate == 3
    &&& reply.connection_num == connection_manager.connections@.len()
    &&& reply.session_num == cache_manager.session_info@.len()
    &&& reply.subscribe_num == subscribe_manager.subscribe_list@.len()
    &&& reply.exclusive_subscribe_num == subscribe_manager.exclusive_push@.len()
    &&& reply.exclusive_subscribe_thread_num == subscribe_manager.exclusive_push_thread@.len()
    &&& reply.share_subscribe_leader_num == subscribe_manager.share_leader_push@.len()
    &&& reply.share_subscribe_leader_thread_num == subscribe_manager.share_leader_push_thread@.len()
    &&& reply.share_subscribe_resub_num == subscribe_manager.share_follower_resub@.len()
    &&& reply.share_subscribe_follower_thread_num
        == subscribe_manager.share_follower_resub_thread@.len()
    &&& reply.topic_num == cache_manager.topic_info@.len()
    &&& reply.nodes@ == raws_of(nodes_of(cache_manager.node_lists@))
    &&& reply.placement_status@ == placement_status
    &&& reply.tcp_connection_num == connection_manager.tcp_write_list@.len()
    &&& reply.tls_connection_num == connection_manager.tcp_tls_write_list@.len()
    &&& reply.websocket_connection_num == connection_manager.websocket_write_list@.len()
    &&& reply.quic_connection_num == connection_manager.quic_write_list@.len()
}

fn upstream_failure(operation: Operation, reason: String) -> (e: AdminError)
    ensures
        e.kind == ErrorKind::UpstreamUnavailable,
        e.operation == operation,
        e.detail@ == reason@,
{
    AdminError::new(ErrorKind::UpstreamUnavailable, operation, reason)
}

/// Assembles the snapshot from what the metadata service answered and from one
/// read of each registry. A failed answer fails the whole operation: the node
/// list's first, then the placement status's.
pub fn assemble_cluster_status(
    node_list: Result<Vec<BrokerNode>, String>,
    placement_status: Result<String, String>,
    subscribe_manager: &SubscribeManager,
    connection_manager: &ConnectionManager,
    cache_manager: &CacheManager,
) -> (r: Result<ClusterStatusReply, AdminError>)
    ensures
        match (node_list, placement_status) {
            (Err(reason), _) => r matches Err(e) && e.kind == ErrorKind::UpstreamUnavailable
                && e.operation == Operation::ClusterStatus && e.detail@ == reason@,
            (Ok(_), Err(reason)) => r matches Err(e) && e.kind == ErrorKind::UpstreamUnavailable
                && e.operation == Operation::ClusterStatus && e.detail@ == reason@,
            (Ok(_), Ok(status)) => r matches Ok(reply) && is_cluster_status(
                reply,
                status@,
                *subscribe_manager,
                *connection_manager,
                *cache_manager,
            ),
        },
{
    match node_list {
        Err(reason) => { return Err(upstream_failure(Operation::ClusterStatus, reason)); },
        Ok(_) => {},
    }
    let placement_status = match placement_status {
        Err(reason) => { return Err(upstream_failure(Operation::ClusterStatus, reason)); },
        Ok(status) => status,
    };
    let node_list = cache_manager.node_list();
    let resp_node_list = to_raw_nodes(&node_list);
    let reply = ClusterStatusReply {
        cluster_name: cache_manager.cluster_name.clone(),
        message_in_rate: 10,
        message_out_rate: 3,
        connection_num: connection_manager.connections.len() as u64,
        session_num: cache_manager.session_info.len() as u64,
        subscribe_num: subscribe_manager.subscribe_list.len() as u64,
        exclusive_subscribe_num: subscribe_manager.exclusive_push.len() as u64,
        exclusive_subscribe_thread_num: subscribe_manager.exclusive_push_thread.len() as u64,
        share_subscribe_leader_num: subscribe_manager.share_leader_push.len() as u64,
        share_subscribe_leader_thread_num: subscribe_manager.share_leader_push_thread.len() as u64,
        share_subscribe_resub_num: subscribe_manager.share_follower_resub.len() as u64,
        share_subscribe_follower_thread_num: subscribe_manager.share_follower_resub_thread.len()
            as u64,
        topic_num: cache_manager.topic_info.len() as u64,
        nodes: resp_node_list,
        placement_status,
        tcp_connection_num: connection_manager.tcp_write_list.len() as u64,
        tls_connection_num: connection_manager.tcp_tls_write_list.len() as u64,
        websocket_connection_num: connection_manager.websocket_write_list.len() as u64,
        quic_connection_num: connection_manager.quic_write_list.len() as u64,
    };
    Ok(reply)
}

/// The snapshot of the cluster, read from the metadata service, the registries
/// and the cache.
pub fn cluster_status_by_req(
    metadata: &MetadataStore,
    subscribe_manager: &SubscribeManager,
    connection_manager: &ConnectionManager,
    cache_manager: &CacheManager,
) -> (r: Result<ClusterStatusReply, AdminError>)
    ensures
        if metadata.available {
            r matches Ok(reply) && is_cluster_status(
                reply,
                metadata.placement_status@,
                *subscribe_manager,
                *connection_manager,
                *cache_manager,
            )
        } else {
            r matches Err(e) && e.kind == ErrorKind::UpstreamUnavailable && e.operation
                == Operation::ClusterStatus && e.detail@ == unreachable_text()
        },
{
    let node_list = metadata.node_list();
    let placement_status = metadata.place_cluster_status();
    assemble_cluster_status(
        node_list,
        placement_status,
        subscribe_manager,
        connection_manager,
        cache_manager,
    )
}

/// One connection as a reply carries it.
#[derive(Debug, PartialEq, Eq)]
pub struct ListConnectionRaw {
    pub connection_id: u64,
    pub connection_type: String,
    pub protocol: String,
    pub source_addr: String,
    pub info: Vec<u8>,
}

/// What a `ListConnectionRaw` is in contracts.
pub struct ConnectionRow {
    pub connection_id: u64,
    pub connection_type: Seq<char>,
    pub protocol: Seq<char>,
    pub source_addr: Seq<char>,
    pub info: Seq<u8>,
}

impl View for ListConnectionRaw {
    type V = ConnectionRow;

    open spec fn view(&self) -> ConnectionRow {
        ConnectionRow {
            connection_id: self.connection_id,
            connection_type: self.connection_type@,
            protocol: self.protocol@,
            source_addr: self.source_addr@,
            info: self.info@,
        }
    }
}

/// The connections that are both live and known to the cache.
#[derive(Debug, PartialEq, Eq)]
pub struct ListConnectionReply {
    pub list_connection_raw: Vec<ListConnectionRaw>,
}

impl Default for ListConnectionReply {
    fn default() -> (reply: Self)
        ensures
            reply.list_connection_raw@.len() == 0,
    {
        ListConnectionReply { list_connection_raw: Vec::new() }
    }
}

/// The rows of a vector of raw connections, in order.
pub open spec fn rows_of(raws: Seq<ListConnectionRaw>) -> Seq<ConnectionRow> {
    Seq::new(raws.len(), |i: int| raws[i]@)
}

/// The row for a live connection whose cached snapshot serialized to `info`.
pub open spec fn row_for(connection: NetworkConnection, info: Seq<u8>) -> ConnectionRow {
    ConnectionRow {
        connection_id: connection.connection_id,
        connection_type: connection_type_name(connection.connection_type),
        protocol: protocol_name(connection.protocol),
        source_addr: connection.addr@,
        info,
    }
}

/// The listing of a registry against a cache: one row for each live connection
/// whose identifier the cache knows, in the registry's order, and none for the
/// others. The first snapshot that does not serialize fails the listing.
pub open spec fn listing(
    registry: Seq<(u64, NetworkConnection)>,
    cache: Seq<(u64, serde_json::Value)>,
) -> Result<Seq<ConnectionRow>, serde_json::Error>
    decreases registry.len(),
{
    if registry.len() == 0 {
        Ok(Seq::empty())
    } else {
        match listing(registry.drop_last(), cache) {
            Err(error) => Err(error),
            Ok(rows) => match find(cache, registry.last().0) {
                None => Ok(rows),
                Some(value) => match json_encoding(value) {
                    Ok(info) => Ok(rows.push(row_for(registry.last().1, info))),
                    Err(error) => Err(error),
                },
            },
        }
    }
}

/// The row for a live connection, from what serializing its cached snapshot gave.
pub fn connection_row(
    connection: &NetworkConnection,
    encoded: Result<Vec<u8>, serde_json::Error>,
) -> (r: Result<ListConnectionRaw, AdminError>)
    ensures
        match encoded {
            Ok(info) => r matches Ok(raw) && raw@ == row_for(*connection, info@),
            Err(error) => r matches Err(e) && e.kind == ErrorKind::SerializationError
                && e.operation == Operation::ListConnection && e.detail@ == json_error_text(error),
        },
{
    match encoded {
        Ok(mqtt_info) => Ok(
            ListConnectionRaw {
                connection_id: connection.connection_id,
                connection_type: String::from_str(connection.connection_type.name()),
                protocol: match connection.protocol {
                    Some(protocol) => String::from_str(protocol.name()),
                    None => String::from_str("None"),
                },
                source_addr: connection.addr.clone(),
                info: mqtt_info,
            },
        ),
        Err(error) => Err(
            AdminError::new(
                ErrorKind::SerializationError,
                Operation::ListConnection,
                describe_json_error(&error),
            ),
        ),
    }
}

/// Lists the live connections that the cache knows. A connection that the cache
/// does not know is left out, without an error: every row carries the identifier
/// of a connection that the cache knows.
pub fn list_connection_by_req(
    connection_manager: &ConnectionManager,
    cache_manager: &CacheManager,
) -> (r: Answer<ListConnectionReply>)
    ensures
        match listing(connection_manager.connections@, cache_manager.connection_info@) {
            Ok(rows) => r matches Ok(reply) && rows_of(reply.list_connection_raw@) == rows,
            Err(error) => r matches Err(status) && reports(
                status,
                Operation::ListConnection,
                ErrorKind::SerializationError,
                json_error_text(error),
            ),
        },
        r matches Ok(reply) ==> known_to_cache(
            rows_of(reply.list_connection_raw@),
            cache_manager.connection_info@,
        ),
{
    let mut reply = ListConnectionReply::default();
    let mut list_connection_raw: Vec<ListConnectionRaw> = Vec::new();
    let connections = connection_manager.list_connect();
    let ghost registry = connection_manager.connections@;
    let ghost cache = cache_manager.connection_info@;
    let mut i: usize = 0;
    assert(registry.subrange(0, 0).len() == 0);
    assert(rows_of(list_connection_raw@) =~= Seq::<ConnectionRow>::empty());
    while i < connections.len()
        invariant
            connections@ == registry,
            registry == connection_manager.connections@,
            registered_under_own_id(registry),
            cache == cache_manager.connection_info@,
            i <= connections.len(),
            listing(registry.subrange(0, i as int), cache) == Ok::<
                Seq<ConnectionRow>,
                serde_json::Error,
            >(rows_of(list_connection_raw@)),
        decreases connections.len() - i,
    {
        let key = connections[i].0;
        let ghost next = registry.subrange(0, i + 1);
        assert(next.drop_last() =~= registry.subrange(0, i as int));
        assert(next.last() == registry[i as int]);
        if let Some(mqtt_value) = cache_manager.get_connection(key) {
            let encoded = encode_value(mqtt_value);
            let ghost outcome = json_encoding(*mqtt_value);
            match connection_row(&connections[i].1, encoded) {
                Ok(raw) => {
                    let ghost earlier = rows_of(list_connection_raw@);
                    list_connection_raw.push(raw);
                    assert(rows_of(list_connection_raw@) =~= earlier.push(raw@));
                },
                Err(error) => {
                    proof {
                        assert(listing(next, cache) == Err::<Seq<ConnectionRow>, serde_json::Error>(
                            outcome->Err_0,
                        ));
                        lemma_listing_fails_on(registry, cache, i + 1);
                    }
                    return Err(status_of(&error));
                },
            }
        }
        i = i + 1;
    }
    assert(registry.subrange(0, i as int) =~= registry);
    proof {
        lemma_rows_are_known(registry, cache);
    }
    reply.list_connection_raw = list_connection_raw;
    Ok(reply)
}

/// Every row carries the identifier of a connection that the cache knows.
pub open spec fn known_to_cache(
    rows: Seq<ConnectionRow>,
    cache: Seq<(u64, serde_json::Value)>,
) -> bool {
    forall|r: int| 0 <= r < rows.len() ==> has_key(cache, (#[trigger] rows[r]).connection_id)
}

/// Where each connection is registered under its own identifier, every row of a
/// listing carries the identifier of a connection that the cache knows.
pub proof fn lemma_rows_are_known(
    registry: Seq<(u64, NetworkConnection)>,
    cache: Seq<(u64, serde_json::Value)>,
)
    requires
        registered_under_own_id(registry),
    ensures
        listing(registry, cache) is Ok ==> known_to_cache(listing(registry, cache)->Ok_0, cache),
    decreases registry.len(),
{
    if registry.len() > 0 {
        let earlier = registry.drop_last();
        assert forall|i: int| 0 <= i < earlier.len() implies (#[trigger] earlier[i]).0
            == earlier[i].1.connection_id by {
            assert(earlier[i] == registry[i]);
        }
        lemma_rows_are_known(earlier, cache);
        assert(registry.last() == registry[registry.len() - 1]);
    }
}

/// A listing that has failed on the first `n` connections fails on all of them,
/// with the same error.
pub proof fn lemma_listing_fails_on(
    registry: Seq<(u64, NetworkConnection)>,
    cache: Seq<(u64, serde_json::Value)>,
    n: int,
)
    requires
        0 <= n <= registry.len(),
        listing(registry.subrange(0, n), cache) is Err,
    ensures
        listing(registry, cache) == listing(registry.subrange(0, n), cache),
    decreases registry.len() - n,
{
    if n == registry.len() {
        assert(registry.subrange(0, n) =~= registry);
    } else {
        let next = registry.subrange(0, n + 1);
        assert(next.drop_last() =~= registry.subrange(0, n));
        lemma_listing_fails_on(registry, cache, n + 1);
    }
}

/// The request to switch flapping detection.
#[derive(Clone, Copy, Debug, PartialEq, Eq, Structural)]
pub struct EnableFlappingDetectRequest {
    pub is_enable: bool,
}

/// The acknowledgement of a switch of flapping detection: the value asked for.
#[derive(Clone, Copy, Debug, PartialEq, Eq, Structural)]
pub struct EnableFlappingDetectReply {
    pub is_enable: bool,
}

/// Switches flapping detection: saves the switch in the metadata service, then
/// sets it in the cache, and acknowledges the value asked for. Where the service
/// cannot be reached nothing changes, and the failure is reported as cancelled.
pub fn enable_flapping_detect_by_req(
    metadata: &mut MetadataStore,
    cache_manager: &mut CacheManager,
    request: EnableFlappingDetectRequest,
) -> (r: Answer<EnableFlappingDetectReply>)
    ensures
        world_of(*final(metadata), *final(cache_manager)) == world_after(
            world_of(*old(metadata), *old(cache_manager)),
            flapping_change(request),
        ),
        if old(metadata).available {
            r matches Ok(reply) && reply.is_enable == request.is_enable
        } else {
            r matches Err(status) && reports(
                status,
                Operation::EnableFlappingDetect,
                ErrorKind::UpstreamUnavailable,
                unreachable_text(),
            )
        },
        final(metadata).nodes == old(metadata).nodes,
        final(metadata).placement_status == old(metadata).placement_status,
        *final(cache_manager) == (CacheManager {
            entities: final(cache_manager).entities,
            cluster_config: final(cache_manager).cluster_config,
            ..*old(cache_manager)
        }),
{
    let command = enable_flapping_detect(request);
    flapping_detect_reply(request, apply(command, metadata, cache_manager))
}

/// The acknowledgement of a switch of flapping detection, which repeats the value
/// asked for, or the status for its failure.
pub fn flapping_detect_reply(
    request: EnableFlappingDetectRequest,
    outcome: Result<(), AdminError>,
) -> (r: Answer<EnableFlappingDetectReply>)
    ensures
        match outcome {
            Ok(_) => r matches Ok(reply) && reply.is_enable == request.is_enable,
            Err(e) => r matches Err(status) && reports(status, e.operation, e.kind, e.detail@),
        },
{
    match outcome {
        Ok(_) => Ok(EnableFlappingDetectReply { is_enable: request.is_enable }),
        Err(e) => Err(status_of(&e)),
    }
}

} // verus!
