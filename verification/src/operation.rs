use crate::entity::EntityKind;
use vstd::prelude::*;

verus! {

/// The remote operations of the admin service.
#[derive(Clone, Copy, Debug, PartialEq, Eq, Structural)]
pub enum Operation {
    SetClusterConfig,
    GetClusterConfig,
    ClusterStatus,
    CreateUser,
    DeleteUser,
    ListUser,
    ListClient,
    ListSession,
    ListAcl,
    CreateAcl,
    DeleteAcl,
    ListBlacklist,
    DeleteBlacklist,
    CreateBlacklist,
    EnableFlappingDetect,
    SetSystemAlarmConfig,
    ListSystemAlarm,
    ListConnection,
    ListSlowSubscribe,
    ListTopic,
    DeleteTopicRewriteRule,
    CreateTopicRewriteRule,
    GetAllTopicRewriteRule,
    ListConnector,
    CreateConnector,
    DeleteConnector,
    UpdateConnector,
    ListSchema,
    CreateSchema,
    UpdateSchema,
    DeleteSchema,
    ListBindSchema,
    BindSchema,
    UnbindSchema,
    SetAutoSubscribeRule,
    DeleteAutoSubscribeRule,
    ListAutoSubscribeRule,
}

/// The component that serves an operation.
#[derive(Clone, Copy, Debug, PartialEq, Eq, Structural)]
pub enum Target {
    /// Reads every registry once and assembles the snapshot of the cluster.
    Aggregator,
    /// Handles the commands on administrative entities and switches: validates
    /// them, applies them to cluster metadata and its local mirror, and lists.
    Gateway,
}

/// The transport codes that a failed operation is answered with.
#[derive(Clone, Copy, Debug, PartialEq, Eq, Structural)]
pub enum RpcCode {
    Cancelled,
    Internal,
}

/// The number that gRPC gives a code: 1 to `Cancelled`, 13 to `Internal`.
pub open spec fn code_number(code: RpcCode) -> int {
    match code {
        RpcCode::Cancelled => 1,
        RpcCode::Internal => 13,
    }
}

impl RpcCode {
    /// The number that gRPC gives the code.
    pub fn number(&self) -> (n: i32)
        ensures
            n == code_number(*self),
    {
        match self {
            RpcCode::Cancelled => 1,
            RpcCode::Internal => 13,
        }
    }
}

/// The name under which an operation is served.
pub open spec fn operation_name(op: Operation) -> Seq<char> {
    match op {
        Operation::SetClusterConfig => "mqtt_broker_set_cluster_config"@,
        Operation::GetClusterConfig => "mqtt_broker_get_cluster_config"@,
        Operation::ClusterStatus => "cluster_status"@,
        Operation::CreateUser => "mqtt_broker_create_user"@,
        Operation::DeleteUser => "mqtt_broker_delete_user"@,
        Operation::ListUser => "mqtt_broker_list_user"@,
        Operation::ListClient => "mqtt_broker_list_client"@,
        Operation::ListSession => "mqtt_broker_list_session"@,
        Operation::ListAcl => "mqtt_broker_list_acl"@,
        Operation::CreateAcl => "mqtt_broker_create_acl"@,
        Operation::DeleteAcl => "mqtt_broker_delete_acl"@,
        Operation::ListBlacklist => "mqtt_broker_list_blacklist"@,
        Operation::DeleteBlacklist => "mqtt_broker_delete_blacklist"@,
        Operation::CreateBlacklist => "mqtt_broker_create_blacklist"@,
        Operation::EnableFlappingDetect => "mqtt_broker_enable_flapping_detect"@,
        Operation::SetSystemAlarmConfig => "mqtt_broker_set_system_alarm_config"@,
        Operation::ListSystemAlarm => "mqtt_broker_list_system_alarm"@,
        Operation::ListConnection => "mqtt_broker_list_connection"@,
        Operation::ListSlowSubscribe => "mqtt_broker_list_slow_subscribe"@,
        Operation::ListTopic => "mqtt_broker_list_topic"@,
        Operation::DeleteTopicRewriteRule => "mqtt_broker_delete_topic_rewrite_rule"@,
        Operation::CreateTopicRewriteRule => "mqtt_broker_create_topic_rewrite_rule"@,
        Operation::GetAllTopicRewriteRule => "mqtt_broker_get_all_topic_rewrite_rule"@,
        Operation::ListConnector => "mqtt_broker_list_connector"@,
        Operation::CreateConnector => "mqtt_broker_create_connector"@,
        Operation::DeleteConnector => "mqtt_broker_delete_connector"@,
        Operation::UpdateConnector => "mqtt_broker_update_connector"@,
        Operation::ListSchema => "mqtt_broker_list_schema"@,
        Operation::CreateSchema => "mqtt_broker_create_schema"@,
        Operation::UpdateSchema => "mqtt_broker_update_schema"@,
        Operation::DeleteSchema => "mqtt_broker_delete_schema"@,
        Operation::ListBindSchema => "mqtt_broker_list_bind_schema"@,
        Operation::BindSchema => "mqtt_broker_bind_schema"@,
        Operation::UnbindSchema => "mqtt_broker_unbind_schema"@,
        Operation::SetAutoSubscribeRule => "mqtt_broker_set_auto_subscribe_rule"@,
        Operation::DeleteAutoSubscribeRule => "mqtt_broker_delete_auto_subscribe_rule"@,
        Operation::ListAutoSubscribeRule => "mqtt_broker_list_auto_subscribe_rule"@,
    }
}

/// Whether an operation only reads state.
pub open spec fn reads_only(op: Operation) -> bool {
    match op {
        Operation::GetClusterConfig
        | Operation::ClusterStatus
        | Operation::ListUser
        | Operation::ListClient
        | Operation::ListSession
        | Operation::ListAcl
        | Operation::ListBlacklist
        | Operation::ListSystemAlarm
        | Operation::ListConnection
        | Operation::ListSlowSubscribe
        | Operation::ListTopic
        | Operation::GetAllTopicRewriteRule
        | Operation::ListConnector
        | Operation::ListSchema
        | Operation::ListBindSchema
        | Operation::ListAutoSubscribeRule => true,
        _ => false,
    }
}

/// The component an operation is dispatched to: the cluster status to the
/// aggregator, every other operation to the gateway.
pub open spec fn target_of(op: Operation) -> Target {
    match op {
        Operation::ClusterStatus => Target::Aggregator,
        _ => Target::Gateway,
    }
}

/// The code a failure of `op` is reported with: `Cancelled` for the
/// flapping-detect toggle, `Internal` for every other operation.
pub open spec fn failure_code(op: Operation) -> RpcCode {
    match op {
        Operation::EnableFlappingDetect => RpcCode::Cancelled,
        _ => RpcCode::Internal,
    }
}

/// The kind of administrative entity an operation works on, if it works on one.
pub open spec fn entity_kind_of(op: Operation) -> Option<EntityKind> {
    match op {
        Operation::CreateUser | Operation::DeleteUser | Operation::ListUser => Some(
            EntityKind::User,
        ),
        Operation::CreateAcl | Operation::DeleteAcl | Operation::ListAcl => Some(EntityKind::Acl),
        Operation::CreateBlacklist | Operation::DeleteBlacklist | Operation::ListBlacklist => Some(
            EntityKind::Blacklist,
        ),
        Operation::CreateTopicRewriteRule
        | Operation::DeleteTopicRewriteRule
        | Operation::GetAllTopicRewriteRule => Some(EntityKind::TopicRewriteRule),
        Operation::CreateConnector
        | Operation::UpdateConnector
        | Operation::DeleteConnector
        | Operation::ListConnector => Some(EntityKind::Connector),
        Operation::CreateSchema
        | Operation::UpdateSchema
        | Operation::DeleteSchema
        | Operation::ListSchema => Some(EntityKind::Schema),
        Operation::BindSchema | Operation::UnbindSchema | Operation::ListBindSchema => Some(
            EntityKind::SchemaBind,
        ),
        Operation::SetAutoSubscribeRule
        | Operation::DeleteAutoSubscribeRule
        | Operation::ListAutoSubscribeRule => Some(EntityKind::AutoSubscribeRule),
        _ => None,
    }
}

impl Operation {
    pub fn name(&self) -> (s: &'static str)
        ensures
            s@ == operation_name(*self),
    {
        match self {
            Operation::SetClusterConfig => "mqtt_broker_set_cluster_config",
            Operation::GetClusterConfig => "mqtt_broker_get_cluster_config",
            Operation::ClusterStatus => "cluster_status",
            Operation::CreateUser => "mqtt_broker_create_user",
            Operation::DeleteUser => "mqtt_broker_delete_user",
            Operation::ListUser => "mqtt_broker_list_user",
            Operation::ListClient => "mqtt_broker_list_client",
            Operation::ListSession => "mqtt_broker_list_session",
            Operation::ListAcl => "mqtt_broker_list_acl",
            Operation::CreateAcl => "mqtt_broker_create_acl",
            Operation::DeleteAcl => "mqtt_broker_delete_acl",
            Operation::ListBlacklist => "mqtt_broker_list_blacklist",
            Operation::DeleteBlacklist => "mqtt_broker_delete_blacklist",
            Operation::CreateBlacklist => "mqtt_broker_create_blacklist",
            Operation::EnableFlappingDetect => "mqtt_broker_enable_flapping_detect",
            Operation::SetSystemAlarmConfig => "mqtt_broker_set_system_alarm_config",
            Operation::ListSystemAlarm => "mqtt_broker_list_system_alarm",
            Operation::ListConnection => "mqtt_broker_list_connection",
            Operation::ListSlowSubscribe => "mqtt_broker_list_slow_subscribe",
            Operation::ListTopic => "mqtt_broker_list_topic",
            Operation::DeleteTopicRewriteRule => "mqtt_broker_delete_topic_rewrite_rule",
            Operation::CreateTopicRewriteRule => "mqtt_broker_create_topic_rewrite_rule",
            Operation::GetAllTopicRewriteRule => "mqtt_broker_get_all_topic_rewrite_rule",
            Operation::ListConnector => "mqtt_broker_list_connector",
            Operation::CreateConnector => "mqtt_broker_create_connector",
            Operation::DeleteConnector => "mqtt_broker_delete_connector",
            Operation::UpdateConnector => "mqtt_broker_update_connector",
            Operation::ListSchema => "mqtt_broker_list_schema",
            Operation::CreateSchema => "mqtt_broker_create_schema",
            Operation::UpdateSchema => "mqtt_broker_update_schema",
            Operation::DeleteSchema => "mqtt_broker_delete_schema",
            Operation::ListBindSchema => "mqtt_broker_list_bind_schema",
            Operation::BindSchema => "mqtt_broker_bind_schema",
            Operation::UnbindSchema => "mqtt_broker_unbind_schema",
            Operation::SetAutoSubscribeRule => "mqtt_broker_set_auto_subscribe_rule",
            Operation::DeleteAutoSubscribeRule => "mqtt_broker_delete_auto_subscribe_rule",
            Operation::ListAutoSubscribeRule => "mqtt_broker_list_auto_subscribe_rule",
        }
    }

    pub fn is_read_only(&self) -> (b: bool)
        ensures
            b == reads_only(*self),
    {
        match self {
            Operation::GetClusterConfig
            | Operation::ClusterStatus
            | Operation::ListUser
            | Operation::ListClient
            | Operation::ListSession
            | Operation::ListAcl
            | Operation::ListBlacklist
            | Operation::ListSystemAlarm
            | Operation::ListConnection
            | Operation::ListSlowSubscribe
            | Operation::ListTopic
            | Operation::GetAllTopicRewriteRule
            | Operation::ListConnector
            | Operation::ListSchema
            | Operation::ListBindSchema
            | Operation::ListAutoSubscribeRule => true,
            _ => false,
        }
    }

    pub fn target(&self) -> (t: Target)
        ensures
            t == target_of(*self),
    {
        match self {
            Operation::ClusterStatus => Target::Aggregator,
            _ => Target::Gateway,
        }
    }

    pub fn failure_code(&self) -> (code: RpcCode)
        ensures
            code == failure_code(*self),
    {
        match self {
            Operation::EnableFlappingDetect => RpcCode::Cancelled,
            _ => RpcCode::Internal,
        }
    }

    pub fn entity_kind(&self) -> (kind: Option<EntityKind>)
        ensures
            kind == entity_kind_of(*self),
    {
        match self {
            Operation::CreateUser | Operation::DeleteUser | Operation::ListUser => Some(
                EntityKind::User,
            ),
            Operation::CreateAcl | Operation::DeleteAcl | Operation::ListAcl => Some(
                EntityKind::Acl,
            ),
            Operation::CreateBlacklist
            | Operation::DeleteBlacklist
            | Operation::ListBlacklist => Some(EntityKind::Blacklist),
            Operation::CreateTopicRewriteRule
            | Operation::DeleteTopicRewriteRule
            | Operation::GetAllTopicRewriteRule => Some(EntityKind::TopicRewriteRule),
            Operation::CreateConnector
            | Operation::UpdateConnector
            | Operation::DeleteConnector
            | Operation::ListConnector => Some(EntityKind::Connector),
            Operation::CreateSchema
            | Operation::UpdateSchema
            | Operation::DeleteSchema
            | Operation::ListSchema => Some(EntityKind::Schema),
            Operation::BindSchema | Operation::UnbindSchema | Operation::ListBindSchema => Some(
                EntityKind::SchemaBind,
            ),
            Operation::SetAutoSubscribeRule
            | Operation::DeleteAutoSubscribeRule
            | Operation::ListAutoSubscribeRule => Some(EntityKind::AutoSubscribeRule),
            _ => None,
        }
    }
}

} // verus!
