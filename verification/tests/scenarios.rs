use mqtt_broker_admin::cache::CacheManager;
use mqtt_broker_admin::connection::{
    ConnectionManager, MqttProtocol, NetworkConnection, NetworkConnectionType,
};
use mqtt_broker_admin::entity::AdminEntity;
use mqtt_broker_admin::metadata::MetadataStore;
use mqtt_broker_admin::reply::SetClusterConfigRequest;
use mqtt_broker_admin::service::GrpcAdminServices;
use mqtt_broker_admin::subscribe::SubscribeManager;

fn service() -> GrpcAdminServices {
    GrpcAdminServices::new(
        MetadataStore::new(String::from("running")),
        CacheManager::new(String::from("mqtt-cluster")),
        ConnectionManager::new(),
        SubscribeManager::new(),
    )
}

fn connection(id: u64, protocol: Option<MqttProtocol>) -> NetworkConnection {
    NetworkConnection {
        connection_type: NetworkConnectionType::Tcp,
        connection_id: id,
        protocol,
        addr: format!("127.0.0.1:{}", 5000 + id),
    }
}

#[test]
fn three_live_connections_two_cached() {
    let mut s = service();
    s.connection_manager.connections.insert(connection(1, Some(MqttProtocol::Mqtt5)));
    s.connection_manager.connections.insert(connection(2, None));
    s.connection_manager.connections.insert(connection(3, Some(MqttProtocol::Mqtt4)));
    s.cache_manager.connection_info.insert(1, serde_json::Value::String(String::from("a")));
    s.cache_manager.connection_info.insert(3, serde_json::Value::Bool(true));

    let reply = s.mqtt_broker_list_connection().unwrap();
    assert_eq!(reply.list_connection_raw.len(), 2);
    assert_eq!(reply.list_connection_raw[0].connection_id, 1);
    assert_eq!(reply.list_connection_raw[0].connection_type, "tcp");
    assert_eq!(reply.list_connection_raw[0].protocol, "MQTT5");
    assert_eq!(reply.list_connection_raw[0].source_addr, "127.0.0.1:5001");
    assert_eq!(reply.list_connection_raw[0].info, b"\"a\"".to_vec());
    assert_eq!(reply.list_connection_raw[1].connection_id, 3);
    assert_eq!(reply.list_connection_raw[1].protocol, "MQTT4");
    assert_eq!(reply.list_connection_raw[1].info, b"true".to_vec());

    let status = s.cluster_status().unwrap();
    assert_eq!(status.connection_num, 3);
}

#[test]
fn unknown_feature_is_refused_and_nothing_is_written() {
    let mut s = service();
    let before_store = s.metadata.cluster_config;
    let before_cache = s.cache_manager.cluster_config;
    let r = s.mqtt_broker_set_cluster_config(SetClusterConfigRequest {
        feature_name: String::from("X"),
        is_enable: false,
    });
    let status = r.unwrap_err();
    assert_eq!(status.code(), tonic::Code::Internal);
    assert_eq!(status.message(), "mqtt_broker_set_cluster_config: invalid request: X");
    assert_eq!(s.metadata.cluster_config, before_store);
    assert_eq!(s.cache_manager.cluster_config, before_cache);
}

#[test]
fn create_then_list_then_delete() {
    let mut s = service();
    s.mqtt_broker_create_user(AdminEntity::new(String::from("alice"), vec![1, 2])).unwrap();
    let listed = s.mqtt_broker_list_user(None).unwrap();
    assert_eq!(listed.total_count, 1);
    assert_eq!(listed.items, vec![AdminEntity::new(String::from("alice"), vec![1, 2])]);
    s.mqtt_broker_delete_user(String::from("alice")).unwrap();
    let listed = s.mqtt_broker_list_user(None).unwrap();
    assert_eq!(listed.total_count, 0);
    assert!(listed.items.is_empty());
}
