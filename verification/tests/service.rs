use mqtt_broker_admin::admin::{
    assemble_cluster_status, cluster_status_by_req, connection_row, enable_flapping_detect_by_req,
    flapping_detect_reply, list_connection_by_req, EnableFlappingDetectReply, EnableFlappingDetectRequest,
    ListConnectionRaw, ListConnectionReply,
};
use mqtt_broker_admin::cache::CacheManager;
use mqtt_broker_admin::config::ClusterDynamicConfig;
use mqtt_broker_admin::connection::{
    ConnectionManager, MqttProtocol, NetworkConnection, NetworkConnectionType,
};
use mqtt_broker_admin::entity::{AdminEntity, EntityKind};
use mqtt_broker_admin::error::ErrorKind;
use mqtt_broker_admin::metadata::MetadataStore;
use mqtt_broker_admin::node::{BrokerNode, BrokerNodeRaw};
use mqtt_broker_admin::operation::Operation;
use mqtt_broker_admin::page::Pagination;
use mqtt_broker_admin::reply::{
    get_cluster_config_reply, set_cluster_config_reply, Acknowledgement, SetClusterConfigReply,
    SetClusterConfigRequest, SetSystemAlarmConfigReply, SetSystemAlarmConfigRequest,
};
use mqtt_broker_admin::service::GrpcAdminServices;
use mqtt_broker_admin::subscribe::SubscribeManager;

fn entity(key: &str, value: &[u8]) -> AdminEntity {
    AdminEntity::new(String::from(key), value.to_vec())
}

fn fresh() -> GrpcAdminServices {
    GrpcAdminServices::new(
        MetadataStore::new(String::from("running")),
        CacheManager::new(String::from("mqtt-cluster")),
        ConnectionManager::new(),
        SubscribeManager::new(),
    )
}

fn connection(id: u64, t: NetworkConnectionType, p: Option<MqttProtocol>) -> NetworkConnection {
    NetworkConnection {
        connection_type: t,
        connection_id: id,
        protocol: p,
        addr: format!("192.168.0.{}:1883", id),
    }
}

fn concat_members(members: &[&str]) -> String {
    format!("{{{}}}", members.join(","))
}

fn json_error() -> serde_json::Error {
    serde_json::from_str::<serde_json::Value>("{").unwrap_err()
}

#[test]
fn every_count_is_the_size_of_its_registry() {
    let mut s = fresh();
    for id in 0..3u64 {
        s.connection_manager.connections.insert(connection(id, NetworkConnectionType::Tcp, None));
    }
    for id in 0..4u64 {
        s.connection_manager.tcp_write_list.insert(id, ());
    }
    for id in 0..5u64 {
        s.connection_manager.tcp_tls_write_list.insert(id, ());
    }
    for id in 0..6u64 {
        s.connection_manager.websocket_write_list.insert(id, ());
    }
    for id in 0..7u64 {
        s.connection_manager.quic_write_list.insert(id, ());
    }
    let fill = |n: usize| -> Vec<AdminEntity> {
        (0..n).map(|i| entity(&format!("k{}", i), &[])).collect()
    };
    for e in fill(8) {
        s.cache_manager.session_info.put(e);
    }
    for e in fill(9) {
        s.cache_manager.topic_info.put(e);
    }
    for e in fill(10) {
        s.subscribe_manager.subscribe_list.put(e);
    }
    for e in fill(11) {
        s.subscribe_manager.exclusive_push.put(e);
    }
    for e in fill(12) {
        s.subscribe_manager.exclusive_push_thread.put(e);
    }
    for e in fill(13) {
        s.subscribe_manager.share_leader_push.put(e);
    }
    for e in fill(14) {
        s.subscribe_manager.share_leader_push_thread.put(e);
    }
    for e in fill(15) {
        s.subscribe_manager.share_follower_resub.put(e);
    }
    for e in fill(16) {
        s.subscribe_manager.share_follower_resub_thread.put(e);
    }
    s.cache_manager.node_lists.insert(1, BrokerNode { node_id: 1, node_ip: String::from("10.0.0.1") });
    s.cache_manager.node_lists.insert(2, BrokerNode { node_id: 2, node_ip: String::from("10.0.0.2") });

    let reply = s.cluster_status().unwrap();
    assert_eq!(reply.cluster_name, "mqtt-cluster");
    assert_eq!(reply.placement_status, "running");
    assert_eq!(reply.message_in_rate, 10);
    assert_eq!(reply.message_out_rate, 3);
    assert_eq!(reply.connection_num, 3);
    assert_eq!(reply.tcp_connection_num, 4);
    assert_eq!(reply.tls_connection_num, 5);
    assert_eq!(reply.websocket_connection_num, 6);
    assert_eq!(reply.quic_connection_num, 7);
    assert_eq!(reply.session_num, 8);
    assert_eq!(reply.topic_num, 9);
    assert_eq!(reply.subscribe_num, 10);
    assert_eq!(reply.exclusive_subscribe_num, 11);
    assert_eq!(reply.exclusive_subscribe_thread_num, 12);
    assert_eq!(reply.share_subscribe_leader_num, 13);
    assert_eq!(reply.share_subscribe_leader_thread_num, 14);
    assert_eq!(reply.share_subscribe_resub_num, 15);
    assert_eq!(reply.share_subscribe_follower_thread_num, 16);
    assert_eq!(
        reply.nodes,
        vec![
            BrokerNodeRaw { node_id: 1, node_ip: String::from("10.0.0.1") },
            BrokerNodeRaw { node_id: 2, node_ip: String::from("10.0.0.2") },
        ]
    );
}

#[test]
fn status_of_an_empty_cluster() {
    let s = fresh();
    let reply = s.cluster_status().unwrap();
    assert_eq!(reply.connection_num, 0);
    assert_eq!(reply.session_num, 0);
    assert_eq!(reply.topic_num, 0);
    assert!(reply.nodes.is_empty());
    let direct = cluster_status_by_req(
        &s.metadata,
        &s.subscribe_manager,
        &s.connection_manager,
        &s.cache_manager,
    )
    .unwrap();
    assert_eq!(direct, reply);
}

#[test]
fn status_fails_whole_when_the_metadata_service_is_unreachable() {
    let mut s = fresh();
    s.metadata.available = false;
    let status = s.cluster_status().unwrap_err();
    assert_eq!(status.code(), tonic::Code::Internal);
    assert_eq!(
        status.message(),
        "cluster_status: upstream unavailable: metadata service is unreachable"
    );
}

#[test]
fn assembling_reports_the_first_failed_answer() {
    let s = fresh();
    let e = assemble_cluster_status(
        Err(String::from("nodes timed out")),
        Err(String::from("status timed out")),
        &s.subscribe_manager,
        &s.connection_manager,
        &s.cache_manager,
    )
    .unwrap_err();
    assert_eq!(e.kind, ErrorKind::UpstreamUnavailable);
    assert_eq!(e.operation, Operation::ClusterStatus);
    assert_eq!(e.detail, "nodes timed out");
    let e = assemble_cluster_status(
        Ok(Vec::new()),
        Err(String::from("status timed out")),
        &s.subscribe_manager,
        &s.connection_manager,
        &s.cache_manager,
    )
    .unwrap_err();
    assert_eq!(e.detail, "status timed out");
    let e = assemble_cluster_status(
        Err(String::from("nodes timed out")),
        Ok(String::from("fine")),
        &s.subscribe_manager,
        &s.connection_manager,
        &s.cache_manager,
    )
    .unwrap_err();
    assert_eq!(e.detail, "nodes timed out");
    let reply = assemble_cluster_status(
        Ok(Vec::new()),
        Ok(String::from("fine")),
        &s.subscribe_manager,
        &s.connection_manager,
        &s.cache_manager,
    )
    .unwrap();
    assert_eq!(reply.placement_status, "fine");
}

#[test]
fn connections_unknown_to_the_cache_are_left_out() {
    let mut cm = ConnectionManager::new();
    let mut cache = CacheManager::new(String::from("c"));
    cm.connections.insert(connection(10, NetworkConnectionType::Tls, Some(MqttProtocol::Mqtt3)));
    cm.connections.insert(connection(11, NetworkConnectionType::Quic, None));
    assert_eq!(
        list_connection_by_req(&cm, &cache).unwrap(),
        ListConnectionReply { list_connection_raw: Vec::new() }
    );
    cache.connection_info.insert(11, serde_json::Value::Null);
    cache.connection_info.insert(99, serde_json::Value::Null);
    let reply = list_connection_by_req(&cm, &cache).unwrap();
    assert_eq!(
        reply.list_connection_raw,
        vec![ListConnectionRaw {
            connection_id: 11,
            connection_type: String::from("quic"),
            protocol: String::from("None"),
            source_addr: String::from("192.168.0.11:1883"),
            info: b"null".to_vec(),
        }]
    );
    assert_eq!(cm.list_connect().len(), 2);
    assert_eq!(ListConnectionReply::default().list_connection_raw.len(), 0);
}

#[test]
fn listed_info_is_the_json_of_the_cached_snapshot() {
    let mut cm = ConnectionManager::new();
    let mut cache = CacheManager::new(String::from("c"));
    cm.connections.insert(connection(1, NetworkConnectionType::WebSocket, Some(MqttProtocol::Mqtt5)));
    let snapshot: serde_json::Value =
        serde_json::from_str("{\"client_id\":\"c1\",\"keep_alive\":60,\"is_login\":true}").unwrap();
    cache.connection_info.insert(1, snapshot.clone());
    let reply = list_connection_by_req(&cm, &cache).unwrap();
    assert_eq!(reply.list_connection_raw.len(), 1);
    assert_eq!(reply.list_connection_raw[0].connection_type, "websocket");
    assert_eq!(reply.list_connection_raw[0].info, serde_json::to_vec(&snapshot).unwrap());
    let back: serde_json::Value = serde_json::from_slice(&reply.list_connection_raw[0].info).unwrap();
    assert_eq!(back, snapshot);
    assert_eq!(cache.get_connection(1), Some(&snapshot));
    assert_eq!(cache.get_connection(2), None);
}

#[test]
fn a_row_from_a_failed_serialization_is_a_serialization_error() {
    let c = connection(4, NetworkConnectionType::Tcp, Some(MqttProtocol::Mqtt4));
    let text = json_error().to_string();
    let e = connection_row(&c, Err(json_error())).unwrap_err();
    assert_eq!(e.kind, ErrorKind::SerializationError);
    assert_eq!(e.operation, Operation::ListConnection);
    assert_eq!(e.detail, text);
    assert!(!e.detail.is_empty());
    let raw = connection_row(&c, Ok(vec![1, 2])).unwrap();
    assert_eq!(
        raw,
        ListConnectionRaw {
            connection_id: 4,
            connection_type: String::from("tcp"),
            protocol: String::from("MQTT4"),
            source_addr: String::from("192.168.0.4:1883"),
            info: vec![1, 2],
        }
    );
    let tls = connection(5, NetworkConnectionType::Tls, Some(MqttProtocol::Mqtt3));
    let raw = connection_row(&tls, Ok(Vec::new())).unwrap();
    assert_eq!(raw.connection_type, "tls");
    assert_eq!(raw.protocol, "MQTT3");
}

#[test]
fn get_cluster_config_is_the_json_of_the_cached_configuration() {
    let mut s = fresh();
    let reply = s.mqtt_broker_get_cluster_config().unwrap();
    assert_eq!(
        String::from_utf8(reply.mqtt_broker_cluster_dynamic_config).unwrap(),
        concat_members(&[
            "\"flapping_detect\":false",
            "\"offline_message\":false",
            "\"slow_subscribe\":false",
            "\"system_alarm\":false",
        ])
    );
    s.cache_manager.cluster_config.offline_message = true;
    s.cache_manager.cluster_config.system_alarm = true;
    s.metadata.cluster_config.slow_subscribe = true;
    let reply = s.mqtt_broker_get_cluster_config().unwrap();
    let value: serde_json::Value =
        serde_json::from_slice(&reply.mqtt_broker_cluster_dynamic_config).unwrap();
    assert_eq!(value["slow_subscribe"], serde_json::Value::Bool(false));
    assert_eq!(value["offline_message"], serde_json::Value::Bool(true));
    assert_eq!(value["flapping_detect"], serde_json::Value::Bool(false));
    assert_eq!(value["system_alarm"], serde_json::Value::Bool(true));
    assert_eq!(value.as_object().unwrap().len(), 4);
    assert_eq!(s.cache_manager.cluster_config.to_json(), value);
    assert_eq!(s.cache_manager.get_cluster_config(), s.cache_manager.cluster_config);
}

#[test]
fn get_cluster_config_reply_carries_the_bytes_or_reports_the_error() {
    let reply = get_cluster_config_reply(Ok(vec![123, 125])).unwrap();
    assert_eq!(reply.mqtt_broker_cluster_dynamic_config, vec![123, 125]);
    let text = json_error().to_string();
    let status = get_cluster_config_reply(Err(json_error())).unwrap_err();
    assert_eq!(status.code(), tonic::Code::Internal);
    assert_eq!(
        status.message(),
        format!("mqtt_broker_get_cluster_config: serialization failed: {}", text)
    );
}

#[test]
fn set_cluster_config_writes_the_value_and_acknowledges_true() {
    let mut s = fresh();
    let reply = s
        .mqtt_broker_set_cluster_config(SetClusterConfigRequest {
            feature_name: String::from("SlowSubscribe"),
            is_enable: true,
        })
        .unwrap();
    assert_eq!(
        reply,
        SetClusterConfigReply { feature_name: String::from("SlowSubscribe"), is_enable: true }
    );
    assert!(s.metadata.cluster_config.slow_subscribe);
    assert!(s.cache_manager.cluster_config.slow_subscribe);
    let reply = s
        .mqtt_broker_set_cluster_config(SetClusterConfigRequest {
            feature_name: String::from("SlowSubscribe"),
            is_enable: false,
        })
        .unwrap();
    assert_eq!(
        reply,
        SetClusterConfigReply { feature_name: String::from("SlowSubscribe"), is_enable: true }
    );
    assert!(!s.metadata.cluster_config.slow_subscribe);
    assert!(!s.cache_manager.cluster_config.slow_subscribe);
}

#[test]
fn set_cluster_config_twice_is_as_once() {
    let mut once = fresh();
    let mut twice = fresh();
    let request = || SetClusterConfigRequest {
        feature_name: String::from("OfflineMessage"),
        is_enable: true,
    };
    once.mqtt_broker_set_cluster_config(request()).unwrap();
    let first = twice.mqtt_broker_set_cluster_config(request()).unwrap();
    let second = twice.mqtt_broker_set_cluster_config(request()).unwrap();
    assert_eq!(first, second);
    assert_eq!(once.metadata.cluster_config, twice.metadata.cluster_config);
    assert_eq!(once.cache_manager.cluster_config, twice.cache_manager.cluster_config);
}

#[test]
fn set_cluster_config_on_unreachable_service_changes_nothing() {
    let mut s = fresh();
    s.metadata.available = false;
    let status = s
        .mqtt_broker_set_cluster_config(SetClusterConfigRequest {
            feature_name: String::from("SlowSubscribe"),
            is_enable: true,
        })
        .unwrap_err();
    assert_eq!(status.code(), tonic::Code::Internal);
    assert_eq!(
        status.message(),
        "mqtt_broker_set_cluster_config: upstream unavailable: metadata service is unreachable"
    );
    assert_eq!(s.cache_manager.cluster_config, ClusterDynamicConfig::new());
    assert_eq!(s.metadata.cluster_config, ClusterDynamicConfig::new());
}

#[test]
fn flapping_detect_twice_is_as_once_and_acknowledged_twice() {
    let mut s = fresh();
    let request = EnableFlappingDetectRequest { is_enable: true };
    let first = s.mqtt_broker_enable_flapping_detect(request).unwrap();
    let after_first = (s.metadata.cluster_config, s.cache_manager.cluster_config);
    let second = s.mqtt_broker_enable_flapping_detect(request).unwrap();
    let after_second = (s.metadata.cluster_config, s.cache_manager.cluster_config);
    assert_eq!(first, EnableFlappingDetectReply { is_enable: true });
    assert_eq!(second, first);
    assert_eq!(after_first, after_second);
    assert!(after_second.0.flapping_detect && after_second.1.flapping_detect);
    let off = s
        .mqtt_broker_enable_flapping_detect(EnableFlappingDetectRequest { is_enable: false })
        .unwrap();
    assert_eq!(off, EnableFlappingDetectReply { is_enable: false });
    assert!(!s.cache_manager.cluster_config.flapping_detect);
}

#[test]
fn flapping_detect_failure_is_cancelled() {
    let mut metadata = MetadataStore::new(String::from("ok"));
    let mut cache = CacheManager::new(String::from("c"));
    metadata.available = false;
    let status = enable_flapping_detect_by_req(
        &mut metadata,
        &mut cache,
        EnableFlappingDetectRequest { is_enable: true },
    )
    .unwrap_err();
    assert_eq!(status.code(), tonic::Code::Cancelled);
    assert_eq!(
        status.message(),
        "mqtt_broker_enable_flapping_detect: upstream unavailable: metadata service is unreachable"
    );
    assert!(!cache.cluster_config.flapping_detect);
    assert!(!metadata.cluster_config.flapping_detect);
    metadata.available = true;
    let reply = enable_flapping_detect_by_req(
        &mut metadata,
        &mut cache,
        EnableFlappingDetectRequest { is_enable: true },
    )
    .unwrap();
    assert!(reply.is_enable);
    assert!(cache.cluster_config.flapping_detect);
}

#[test]
fn duplicate_create_is_refused_and_alters_nothing() {
    let mut s = fresh();
    assert_eq!(s.mqtt_broker_create_user(entity("alice", &[1])).unwrap(), Acknowledgement {});
    let status = s.mqtt_broker_create_user(entity("alice", &[2])).unwrap_err();
    assert_eq!(status.code(), tonic::Code::Internal);
    assert_eq!(status.message(), "mqtt_broker_create_user: already exists: alice");
    let listed = s.mqtt_broker_list_user(None).unwrap();
    assert_eq!(listed.items, vec![entity("alice", &[1])]);
    assert_eq!(listed.total_count, 1);
    assert_eq!(s.cache_manager.entities.of(EntityKind::User).to_vec(), vec![entity("alice", &[1])]);
}

#[test]
fn delete_of_a_missing_key_is_refused_and_alters_nothing() {
    let mut s = fresh();
    s.mqtt_broker_create_acl(entity("rule-1", &[1])).unwrap();
    let status = s.mqtt_broker_delete_acl(String::from("rule-2")).unwrap_err();
    assert_eq!(status.code(), tonic::Code::Internal);
    assert_eq!(status.message(), "mqtt_broker_delete_acl: not found: rule-2");
    let listed = s.mqtt_broker_list_acl().unwrap();
    assert_eq!(listed.items, vec![entity("rule-1", &[1])]);
    assert_eq!(listed.total_count, 1);
    assert_eq!(s.cache_manager.entities.of(EntityKind::Acl).len(), 1);
}

#[test]
fn empty_key_is_a_validation_error() {
    let mut s = fresh();
    let status = s.mqtt_broker_create_blacklist(entity("", &[1])).unwrap_err();
    assert_eq!(status.message(), "mqtt_broker_create_blacklist: invalid request: the key is empty");
    let status = s.mqtt_broker_delete_blacklist(String::new()).unwrap_err();
    assert_eq!(status.message(), "mqtt_broker_delete_blacklist: invalid request: the key is empty");
    assert_eq!(s.mqtt_broker_list_blacklist(None).unwrap().total_count, 0);
}

#[test]
fn created_entity_is_listed_once_and_deleted_entity_not_at_all() {
    let mut s = fresh();
    s.mqtt_broker_create_blacklist(entity("a", &[1])).unwrap();
    s.mqtt_broker_create_blacklist(entity("x", &[2])).unwrap();
    s.mqtt_broker_create_blacklist(entity("b", &[3])).unwrap();
    let listed = s.mqtt_broker_list_blacklist(None).unwrap();
    assert_eq!(listed.items.iter().filter(|e| e.key == "x").count(), 1);
    assert_eq!(listed.total_count as usize, listed.items.len());
    s.mqtt_broker_delete_blacklist(String::from("x")).unwrap();
    let listed = s.mqtt_broker_list_blacklist(None).unwrap();
    assert_eq!(listed.items, vec![entity("a", &[1]), entity("b", &[3])]);
    assert_eq!(listed.total_count, 2);
}

#[test]
fn a_page_has_the_count_of_the_whole() {
    let mut s = fresh();
    for name in ["u1", "u2", "u3", "u4"] {
        s.mqtt_broker_create_user(entity(name, &[])).unwrap();
    }
    let listed = s.mqtt_broker_list_user(Some(Pagination { offset: 1, limit: 2 })).unwrap();
    assert_eq!(listed.items, vec![entity("u2", &[]), entity("u3", &[])]);
    assert_eq!(listed.total_count, 4);
}

#[test]
fn lists_of_stored_entities_fail_when_the_service_is_unreachable() {
    let mut s = fresh();
    s.metadata.available = false;
    for (status, name) in [
        (s.mqtt_broker_list_user(None).unwrap_err(), "mqtt_broker_list_user"),
        (s.mqtt_broker_list_acl().unwrap_err(), "mqtt_broker_list_acl"),
        (s.mqtt_broker_list_blacklist(None).unwrap_err(), "mqtt_broker_list_blacklist"),
        (s.mqtt_broker_list_connector().unwrap_err(), "mqtt_broker_list_connector"),
        (s.mqtt_broker_list_schema().unwrap_err(), "mqtt_broker_list_schema"),
        (s.mqtt_broker_list_bind_schema().unwrap_err(), "mqtt_broker_list_bind_schema"),
    ] {
        assert_eq!(status.code(), tonic::Code::Internal);
        assert_eq!(
            status.message(),
            format!("{}: upstream unavailable: metadata service is unreachable", name)
        );
    }
    assert!(s.mqtt_broker_get_all_topic_rewrite_rule().is_ok());
    assert!(s.mqtt_broker_list_auto_subscribe_rule().is_ok());
    assert!(s.mqtt_broker_list_topic(None).is_ok());
}

#[test]
fn connectors_are_created_updated_and_deleted() {
    let mut s = fresh();
    let status = s.mqtt_broker_update_connector(entity("c1", &[1])).unwrap_err();
    assert_eq!(status.message(), "mqtt_broker_update_connector: not found: c1");
    s.mqtt_broker_create_connector(entity("c1", &[1])).unwrap();
    s.mqtt_broker_create_connector(entity("c2", &[2])).unwrap();
    s.mqtt_broker_update_connector(entity("c1", &[7])).unwrap();
    let listed = s.mqtt_broker_list_connector().unwrap();
    assert_eq!(listed.items, vec![entity("c1", &[7]), entity("c2", &[2])]);
    assert_eq!(listed.total_count, 2);
    s.mqtt_broker_delete_connector(String::from("c1")).unwrap();
    assert_eq!(s.mqtt_broker_list_connector().unwrap().items, vec![entity("c2", &[2])]);
    let status = s.mqtt_broker_delete_connector(String::from("c1")).unwrap_err();
    assert_eq!(status.message(), "mqtt_broker_delete_connector: not found: c1");
}

#[test]
fn schemas_and_their_bindings() {
    let mut s = fresh();
    s.mqtt_broker_create_schema(entity("s1", &[1])).unwrap();
    let status = s.mqtt_broker_create_schema(entity("s1", &[1])).unwrap_err();
    assert_eq!(status.message(), "mqtt_broker_create_schema: already exists: s1");
    s.mqtt_broker_update_schema(entity("s1", &[2])).unwrap();
    let status = s.mqtt_broker_update_schema(entity("s9", &[2])).unwrap_err();
    assert_eq!(status.message(), "mqtt_broker_update_schema: not found: s9");
    assert_eq!(s.mqtt_broker_list_schema().unwrap().items, vec![entity("s1", &[2])]);
    s.mqtt_broker_bind_schema(entity("s1/topic", &[])).unwrap();
    let status = s.mqtt_broker_bind_schema(entity("s1/topic", &[])).unwrap_err();
    assert_eq!(status.message(), "mqtt_broker_bind_schema: already exists: s1/topic");
    assert_eq!(s.mqtt_broker_list_bind_schema().unwrap().items, vec![entity("s1/topic", &[])]);
    s.mqtt_broker_unbind_schema(String::from("s1/topic")).unwrap();
    let status = s.mqtt_broker_unbind_schema(String::from("s1/topic")).unwrap_err();
    assert_eq!(status.message(), "mqtt_broker_unbind_schema: not found: s1/topic");
    assert!(s.mqtt_broker_list_bind_schema().unwrap().items.is_empty());
    s.mqtt_broker_delete_schema(String::from("s1")).unwrap();
    let status = s.mqtt_broker_delete_schema(String::from("s1")).unwrap_err();
    assert_eq!(status.message(), "mqtt_broker_delete_schema: not found: s1");
}

#[test]
fn topic_rewrite_rules_are_listed_from_the_cache() {
    let mut s = fresh();
    s.mqtt_broker_create_topic_rewrite_rule(entity("r1", &[1])).unwrap();
    s.mqtt_broker_create_topic_rewrite_rule(entity("r2", &[2])).unwrap();
    let status = s.mqtt_broker_create_topic_rewrite_rule(entity("r2", &[2])).unwrap_err();
    assert_eq!(status.message(), "mqtt_broker_create_topic_rewrite_rule: already exists: r2");
    let listed = s.mqtt_broker_get_all_topic_rewrite_rule().unwrap();
    assert_eq!(listed.items, vec![entity("r1", &[1]), entity("r2", &[2])]);
    assert_eq!(listed.total_count, 2);
    s.mqtt_broker_delete_topic_rewrite_rule(String::from("r1")).unwrap();
    let status = s.mqtt_broker_delete_topic_rewrite_rule(String::from("r1")).unwrap_err();
    assert_eq!(status.message(), "mqtt_broker_delete_topic_rewrite_rule: not found: r1");
    let listed = s.mqtt_broker_get_all_topic_rewrite_rule().unwrap();
    assert_eq!(listed.items, vec![entity("r2", &[2])]);
    assert_eq!(listed.total_count, 1);
}

#[test]
fn auto_subscribe_rules_are_set_whether_or_not_they_exist() {
    let mut s = fresh();
    s.mqtt_broker_set_auto_subscribe_rule(entity("t/#", &[1])).unwrap();
    s.mqtt_broker_set_auto_subscribe_rule(entity("t/#", &[2])).unwrap();
    s.mqtt_broker_set_auto_subscribe_rule(entity("u/#", &[3])).unwrap();
    let listed = s.mqtt_broker_list_auto_subscribe_rule().unwrap();
    assert_eq!(listed.items, vec![entity("t/#", &[2]), entity("u/#", &[3])]);
    assert_eq!(listed.total_count, 2);
    s.mqtt_broker_delete_auto_subscribe_rule(String::from("t/#")).unwrap();
    let status = s.mqtt_broker_delete_auto_subscribe_rule(String::from("t/#")).unwrap_err();
    assert_eq!(status.message(), "mqtt_broker_delete_auto_subscribe_rule: not found: t/#");
    assert_eq!(
        s.mqtt_broker_list_auto_subscribe_rule().unwrap().items,
        vec![entity("u/#", &[3])]
    );
}

#[test]
fn runtime_tables_are_listed_from_the_cache() {
    let mut s = fresh();
    s.cache_manager.client_info.put(entity("c1", &[1]));
    s.cache_manager.client_info.put(entity("c2", &[2]));
    s.cache_manager.session_info.put(entity("c1", &[3]));
    s.cache_manager.topic_info.put(entity("t/1", &[4]));
    s.cache_manager.system_alarms.put(entity("cpu", &[5]));
    s.cache_manager.slow_subscribes.put(entity("c1:t/1", &[6]));
    let clients = s.mqtt_broker_list_client(Some(Pagination { offset: 1, limit: 5 })).unwrap();
    assert_eq!(clients.items, vec![entity("c2", &[2])]);
    assert_eq!(clients.total_count, 2);
    let sessions = s.mqtt_broker_list_session(None).unwrap();
    assert_eq!(sessions.items, vec![entity("c1", &[3])]);
    assert_eq!(sessions.total_count, 1);
    let topics = s.mqtt_broker_list_topic(None).unwrap();
    assert_eq!(topics.items, vec![entity("t/1", &[4])]);
    assert_eq!(topics.total_count, 1);
    let alarms = s.mqtt_broker_list_system_alarm(None).unwrap();
    assert_eq!(alarms.items, vec![entity("cpu", &[5])]);
    let slow = s.mqtt_broker_list_slow_subscribe(None).unwrap();
    assert_eq!(slow.items, vec![entity("c1:t/1", &[6])]);
    s.metadata.available = false;
    assert!(s.mqtt_broker_list_client(None).is_ok());
    assert!(s.mqtt_broker_list_session(None).is_ok());
}

#[test]
fn system_alarm_is_switched_in_the_cache_alone() {
    let mut s = fresh();
    s.metadata.available = false;
    let reply = s
        .mqtt_broker_set_system_alarm_config(SetSystemAlarmConfigRequest { enable: true })
        .unwrap();
    assert_eq!(reply, SetSystemAlarmConfigReply { enable: true });
    assert!(s.cache_manager.cluster_config.system_alarm);
    assert!(!s.metadata.cluster_config.system_alarm);
}

#[test]
fn cached_nodes_are_copied_in_order() {
    let mut cache = CacheManager::new(String::from("c"));
    cache.node_lists.insert(3, BrokerNode { node_id: 3, node_ip: String::from("c") });
    cache.node_lists.insert(1, BrokerNode { node_id: 1, node_ip: String::from("a") });
    assert_eq!(
        cache.node_list(),
        vec![
            BrokerNode { node_id: 3, node_ip: String::from("c") },
            BrokerNode { node_id: 1, node_ip: String::from("a") },
        ]
    );
}

#[test]
fn replies_of_switches_from_outcomes() {
    let e = || mqtt_broker_admin::error::AdminError::new(
        ErrorKind::UpstreamUnavailable,
        Operation::SetClusterConfig,
        String::from("down"),
    );
    let reply = set_cluster_config_reply(String::from("SlowSubscribe"), Ok(())).unwrap();
    assert_eq!(
        reply,
        SetClusterConfigReply { feature_name: String::from("SlowSubscribe"), is_enable: true }
    );
    let status = set_cluster_config_reply(String::from("SlowSubscribe"), Err(e())).unwrap_err();
    assert_eq!(status.code(), tonic::Code::Internal);
    assert_eq!(status.message(), "mqtt_broker_set_cluster_config: upstream unavailable: down");
    let request = EnableFlappingDetectRequest { is_enable: false };
    assert_eq!(
        flapping_detect_reply(request, Ok(())).unwrap(),
        EnableFlappingDetectReply { is_enable: false }
    );
    let status = flapping_detect_reply(
        request,
        Err(mqtt_broker_admin::error::AdminError::new(
            ErrorKind::UpstreamUnavailable,
            Operation::EnableFlappingDetect,
            String::from("down"),
        )),
    )
    .unwrap_err();
    assert_eq!(status.code(), tonic::Code::Cancelled);
    let reply = get_cluster_config_reply(Ok(vec![1])).unwrap();
    assert_eq!(reply.mqtt_broker_cluster_dynamic_config, vec![1]);
    assert!(get_cluster_config_reply(Err(json_error())).is_err());
}

#[test]
fn the_registry_keeps_each_connection_under_its_own_identifier() {
    let mut registry = mqtt_broker_admin::connection::ConnectionRegistry::new();
    assert_eq!(registry.len(), 0);
    registry.insert(connection(7, NetworkConnectionType::Tcp, None));
    registry.insert(connection(9, NetworkConnectionType::Tls, None));
    registry.insert(connection(7, NetworkConnectionType::Quic, Some(MqttProtocol::Mqtt5)));
    assert_eq!(registry.len(), 2);
    assert_eq!(registry.entry(0).0, 7);
    assert_eq!(registry.entry(0).1.connection_id, 7);
    assert_eq!(registry.entry(0).1.connection_type, NetworkConnectionType::Quic);
    assert_eq!(registry.entry(1).0, 9);
    assert_eq!(registry.get(9).unwrap().connection_id, 9);
    assert!(registry.get(8).is_none());
    assert!(registry.contains_key(7));
    assert!(registry.remove(7));
    assert!(!registry.remove(7));
    assert!(!registry.contains_key(7));
    assert_eq!(registry.len(), 1);
    assert_eq!(registry.entry(0).0, 9);
}

#[test]
fn no_row_carries_the_identifier_of_an_unknown_connection() {
    let mut cm = ConnectionManager::new();
    let mut cache = CacheManager::new(String::from("c"));
    for id in [5u64, 6, 7, 8] {
        cm.connections.insert(connection(id, NetworkConnectionType::Tcp, None));
    }
    cache.connection_info.insert(6, serde_json::Value::Null);
    cache.connection_info.insert(8, serde_json::Value::Null);
    let reply = list_connection_by_req(&cm, &cache).unwrap();
    let ids: Vec<u64> = reply.list_connection_raw.iter().map(|r| r.connection_id).collect();
    assert_eq!(ids, vec![6, 8]);
    assert!(ids.iter().all(|id| cache.get_connection(*id).is_some()));
}
