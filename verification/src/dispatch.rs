use crate::admin::EnableFlappingDetectRequest;
use crate::cache::CacheManager;
use crate::config::{config_json, ClusterDynamicConfig};
use crate::entity::{records, AdminEntity, EntityKind};
use crate::error::ErrorKind;
use crate::gateway::{unexpected_text, Change, Command, EntityChange};
use crate::handler::{list_from_answer, list_table};
use crate::json::{encode_value, json_encoding, json_error_text};
use crate::metadata::{MetadataRequest, MetadataResponse};
use crate::operation::Operation;
use crate::page::{page_of, Pagination};
use crate::reply::{
    get_cluster_config_reply, is_list_reply, list_reply, GetClusterConfigReply, ListReply,
    SetClusterConfigRequest, SetSystemAlarmConfigReply, SetSystemAlarmConfigRequest,
};
use crate::transport::{reports, Answer};
use vstd::prelude::*;

verus! {

/// A change to the entities of one kind.
pub open spec fn entity_change(kind: EntityKind, change: EntityChange) -> Change {
    Change::Entity { kind, change }
}

/// The change that a request to switch a cluster feature asks for.
pub open spec fn feature_change(request: SetClusterConfigRequest) -> Change {
    Change::Feature { name: request.feature_name, enable: request.is_enable }
}

/// The change that a request to switch flapping detection asks for.
pub open spec fn flapping_change(request: EnableFlappingDetectRequest) -> Change {
    Change::FlappingDetect { enable: request.is_enable }
}

/// The command by which `operation` changes the entities of `kind`.
pub open spec fn entity_command(
    operation: Operation,
    kind: EntityKind,
    change: EntityChange,
) -> Command {
    Command { operation, change: entity_change(kind, change) }
}

/// Creates a user.
pub fn create_user(user: AdminEntity) -> (command: Command)
    ensures
        command == entity_command(
            Operation::CreateUser,
            EntityKind::User,
            EntityChange::Create(user),
        ),
{
    Command {
        operation: Operation::CreateUser,
        change: Change::Entity { kind: EntityKind::User, change: EntityChange::Create(user) },
    }
}

/// Deletes the user of this name.
pub fn delete_user(username: String) -> (command: Command)
    ensures
        command == entity_command(
            Operation::DeleteUser,
            EntityKind::User,
            EntityChange::Delete(username),
        ),
{
    Command {
        operation: Operation::DeleteUser,
        change: Change::Entity { kind: EntityKind::User, change: EntityChange::Delete(username) },
    }
}

/// Creates an access-control rule.
pub fn create_acl(acl: AdminEntity) -> (command: Command)
    ensures
        command == entity_command(
            Operation::CreateAcl,
            EntityKind::Acl,
            EntityChange::Create(acl),
        ),
{
    Command {
        operation: Operation::CreateAcl,
        change: Change::Entity { kind: EntityKind::Acl, change: EntityChange::Create(acl) },
    }
}

/// Deletes the access-control rule of this key.
pub fn delete_acl(key: String) -> (command: Command)
    ensures
        command == entity_command(
            Operation::DeleteAcl,
            EntityKind::Acl,
            EntityChange::Delete(key),
        ),
{
    Command {
        operation: Operation::DeleteAcl,
        change: Change::Entity { kind: EntityKind::Acl, change: EntityChange::Delete(key) },
    }
}

/// Creates a blacklist entry.
pub fn create_blacklist(entry: AdminEntity) -> (command: Command)
    ensures
        command == entity_command(
            Operation::CreateBlacklist,
            EntityKind::Blacklist,
            EntityChange::Create(entry),
        ),
{
    Command {
        operation: Operation::CreateBlacklist,
        change: Change::Entity { kind: EntityKind::Blacklist, change: EntityChange::Create(entry) },
    }
}

/// Deletes the blacklist entry of this key.
pub fn delete_blacklist(key: String) -> (command: Command)
    ensures
        command == entity_command(
            Operation::DeleteBlacklist,
            EntityKind::Blacklist,
            EntityChange::Delete(key),
        ),
{
    Command {
        operation: Operation::DeleteBlacklist,
        change: Change::Entity { kind: EntityKind::Blacklist, change: EntityChange::Delete(key) },
    }
}

/// Creates a topic-rewrite rule.
pub fn create_topic_rewrite_rule(rule: AdminEntity) -> (command: Command)
    ensures
        command == entity_command(
            Operation::CreateTopicRewriteRule,
            EntityKind::TopicRewriteRule,
            EntityChange::Create(rule),
        ),
{
    Command {
        operation: Operation::CreateTopicRewriteRule,
        change: Change::Entity {
            kind: EntityKind::TopicRewriteRule,
            change: EntityChange::Create(rule),
        },
    }
}

/// Deletes the topic-rewrite rule of this key.
pub fn delete_topic_rewrite_rule(key: String) -> (command: Command)
    ensures
        command == entity_command(
            Operation::DeleteTopicRewriteRule,
            EntityKind::TopicRewriteRule,
            EntityChange::Delete(key),
        ),
{
    Command {
        operation: Operation::DeleteTopicRewriteRule,
        change: Change::Entity {
            kind: EntityKind::TopicRewriteRule,
            change: EntityChange::Delete(key),
        },
    }
}

/// Creates a connector.
pub fn create_connector(connector: AdminEntity) -> (command: Command)
    ensures
        command == entity_command(
            Operation::CreateConnector,
            EntityKind::Connector,
            EntityChange::Create(connector),
        ),
{
    Command {
        operation: Operation::CreateConnector,
        change: Change::Entity {
            kind: EntityKind::Connector,
            change: EntityChange::Create(connector),
        },
    }
}

/// Replaces the connector of this name.
pub fn update_connector(connector: AdminEntity) -> (command: Command)
    ensures
        command == entity_command(
            Operation::UpdateConnector,
            EntityKind::Connector,
            EntityChange::Update(connector),
        ),
{
    Command {
        operation: Operation::UpdateConnector,
        change: Change::Entity {
            kind: EntityKind::Connector,
            change: EntityChange::Update(connector),
        },
    }
}

/// Deletes the connector of this name.
pub fn delete_connector(key: String) -> (command: Command)
    ensures
        command == entity_command(
            Operation::DeleteConnector,
            EntityKind::Connector,
            EntityChange::Delete(key),
        ),
{
    Command {
        operation: Operation::DeleteConnector,
        change: Change::Entity { kind: EntityKind::Connector, change: EntityChange::Delete(key) },
    }
}

/// Creates a schema.
pub fn create_schema(schema: AdminEntity) -> (command: Command)
    ensures
        command == entity_command(
            Operation::CreateSchema,
            EntityKind::Schema,
            EntityChange::Create(schema),
        ),
{
    Command {
        operation: Operation::CreateSchema,
        change: Change::Entity { kind: EntityKind::Schema, change: EntityChange::Create(schema) },
    }
}

/// Replaces the schema of this name.
pub fn update_schema(schema: AdminEntity) -> (command: Command)
    ensures
        command == entity_command(
            Operation::UpdateSchema,
            EntityKind::Schema,
            EntityChange::Update(schema),
        ),
{
    Command {
        operation: Operation::UpdateSchema,
        change: Change::Entity { kind: EntityKind::Schema, change: EntityChange::Update(schema) },
    }
}

/// Deletes the schema of this name.
pub fn delete_schema(key: String) -> (command: Command)
    ensures
        command == entity_command(
            Operation::DeleteSchema,
            EntityKind::Schema,
            EntityChange::Delete(key),
        ),
{
    Command {
        operation: Operation::DeleteSchema,
        change: Change::Entity { kind: EntityKind::Schema, change: EntityChange::Delete(key) },
    }
}

/// Binds a schema to a resource.
pub fn bind_schema(binding: AdminEntity) -> (command: Command)
    ensures
        command == entity_command(
            Operation::BindSchema,
            EntityKind::SchemaBind,
            EntityChange::Create(binding),
        ),
{
    Command {
        operation: Operation::BindSchema,
        change: Change::Entity {
            kind: EntityKind::SchemaBind,
            change: EntityChange::Create(binding),
        },
    }
}

/// Removes the binding of this key.
pub fn unbind_schema(key: String) -> (command: Command)
    ensures
        command == entity_command(
            Operation::UnbindSchema,
            EntityKind::SchemaBind,
            EntityChange::Delete(key),
        ),
{
    Command {
        operation: Operation::UnbindSchema,
        change: Change::Entity { kind: EntityKind::SchemaBind, change: EntityChange::Delete(key) },
    }
}

/// Stores an auto-subscribe rule, whether or not one of its key exists.
pub fn set_auto_subscribe_rule(rule: AdminEntity) -> (command: Command)
    ensures
        command == entity_command(
            Operation::SetAutoSubscribeRule,
            EntityKind::AutoSubscribeRule,
            EntityChange::Upsert(rule),
        ),
{
    Command {
        operation: Operation::SetAutoSubscribeRule,
        change: Change::Entity {
            kind: EntityKind::AutoSubscribeRule,
            change: EntityChange::Upsert(rule),
        },
    }
}

/// Deletes the auto-subscribe rule of this key.
pub fn delete_auto_subscribe_rule(key: String) -> (command: Command)
    ensures
        command == entity_command(
            Operation::DeleteAutoSubscribeRule,
            EntityKind::AutoSubscribeRule,
            EntityChange::Delete(key),
        ),
{
    Command {
        operation: Operation::DeleteAutoSubscribeRule,
        change: Change::Entity {
            kind: EntityKind::AutoSubscribeRule,
            change: EntityChange::Delete(key),
        },
    }
}

/// Switches a cluster feature by its name.
pub fn set_cluster_config(request: SetClusterConfigRequest) -> (command: Command)
    ensures
        command == (Command {
            operation: Operation::SetClusterConfig,
            change: feature_change(request),
        }),
{
    Command {
        operation: Operation::SetClusterConfig,
        change: Change::Feature { name: request.feature_name, enable: request.is_enable },
    }
}

/// Switches flapping detection.
pub fn enable_flapping_detect(request: EnableFlappingDetectRequest) -> (command: Command)
    ensures
        command == (Command {
            operation: Operation::EnableFlappingDetect,
            change: flapping_change(request),
        }),
{
    Command {
        operation: Operation::EnableFlappingDetect,
        change: Change::FlappingDetect { enable: request.is_enable },
    }
}

/// A listing of what the metadata service holds of one kind.
#[derive(Clone, Copy, Debug, PartialEq, Eq, Structural)]
pub struct Query {
    pub operation: Operation,
    pub kind: EntityKind,
    pub options: Option<Pagination>,
}

/// `r` is what `query` answers on `answer`: the page asked for and the number of
/// all entities where the service has listed them; else the status that reports
/// why it has not.
pub open spec fn answers_query(
    query: Query,
    answer: MetadataResponse,
    r: Answer<ListReply>,
) -> bool {
    match answer {
        MetadataResponse::Entities(items) => r matches Ok(reply) && is_list_reply(
            reply,
            page_of(records(items@), query.options),
            items@.len(),
        ),
        MetadataResponse::Unavailable(reason) => r matches Err(status) && reports(
            status,
            query.operation,
            ErrorKind::UpstreamUnavailable,
            reason@,
        ),
        _ => r matches Err(status) && reports(
            status,
            query.operation,
            ErrorKind::UpstreamUnavailable,
            unexpected_text(),
        ),
    }
}

impl Query {
    /// What to ask of the metadata service.
    pub fn request(&self) -> (request: MetadataRequest)
        ensures
            request == (MetadataRequest::List { kind: self.kind }),
    {
        MetadataRequest::List { kind: self.kind }
    }

    /// The reply, on the answer of the metadata service.
    pub fn reply(&self, answer: MetadataResponse) -> (r: Answer<ListReply>)
        ensures
            answers_query(*self, answer, r),
    {
        list_reply(list_from_answer(self.operation, answer, self.options))
    }
}

/// Lists the users that the metadata service holds.
pub fn list_user(options: Option<Pagination>) -> (query: Query)
    ensures
        query == (Query { operation: Operation::ListUser, kind: EntityKind::User, options }),
{
    Query { operation: Operation::ListUser, kind: EntityKind::User, options }
}

/// Lists all access-control rules that the metadata service holds.
pub fn list_acl() -> (query: Query)
    ensures
        query == (Query {
            operation: Operation::ListAcl,
            kind: EntityKind::Acl,
            options: None,
        }),
{
    Query { operation: Operation::ListAcl, kind: EntityKind::Acl, options: None }
}

/// Lists the blacklist entries that the metadata service holds.
pub fn list_blacklist(options: Option<Pagination>) -> (query: Query)
    ensures
        query == (Query {
            operation: Operation::ListBlacklist,
            kind: EntityKind::Blacklist,
            options,
        }),
{
    Query { operation: Operation::ListBlacklist, kind: EntityKind::Blacklist, options }
}

/// Lists all connectors that the metadata service holds.
pub fn list_connector() -> (query: Query)
    ensures
        query == (Query {
            operation: Operation::ListConnector,
            kind: EntityKind::Connector,
            options: None,
        }),
{
    Query { operation: Operation::ListConnector, kind: EntityKind::Connector, options: None }
}

/// Lists all schemas that the metadata service holds.
pub fn list_schema() -> (query: Query)
    ensures
        query == (Query {
            operation: Operation::ListSchema,
            kind: EntityKind::Schema,
            options: None,
        }),
{
    Query { operation: Operation::ListSchema, kind: EntityKind::Schema, options: None }
}

/// Lists all schema bindings that the metadata service holds.
pub fn list_bind_schema() -> (query: Query)
    ensures
        query == (Query {
            operation: Operation::ListBindSchema,
            kind: EntityKind::SchemaBind,
            options: None,
        }),
{
    Query { operation: Operation::ListBindSchema, kind: EntityKind::SchemaBind, options: None }
}

/// Lists the clients that the cache knows.
pub fn list_client(
    cache_manager: &CacheManager,
    options: Option<Pagination>,
) -> (r: Answer<ListReply>)
    ensures
        r matches Ok(reply) && is_list_reply(
            reply,
            page_of(cache_manager.client_info@, options),
            cache_manager.client_info@.len(),
        ),
{
    list_reply(Ok(list_table(&cache_manager.client_info, options)))
}

/// Lists the sessions that the cache knows.
pub fn list_session(
    cache_manager: &CacheManager,
    options: Option<Pagination>,
) -> (r: Answer<ListReply>)
    ensures
        r matches Ok(reply) && is_list_reply(
            reply,
            page_of(cache_manager.session_info@, options),
            cache_manager.session_info@.len(),
        ),
{
    list_reply(Ok(list_table(&cache_manager.session_info, options)))
}

/// Lists the topics that the cache knows.
pub fn list_topic(
    cache_manager: &CacheManager,
    options: Option<Pagination>,
) -> (r: Answer<ListReply>)
    ensures
        r matches Ok(reply) && is_list_reply(
            reply,
            page_of(cache_manager.topic_info@, options),
            cache_manager.topic_info@.len(),
        ),
{
    list_reply(Ok(list_table(&cache_manager.topic_info, options)))
}

/// Lists the system alarms that the cache holds.
pub fn list_system_alarm(
    cache_manager: &CacheManager,
    options: Option<Pagination>,
) -> (r: Answer<ListReply>)
    ensures
        r matches Ok(reply) && is_list_reply(
            reply,
            page_of(cache_manager.system_alarms@, options),
            cache_manager.system_alarms@.len(),
        ),
{
    list_reply(Ok(list_table(&cache_manager.system_alarms, options)))
}

/// Lists the slow subscriptions that the cache holds.
pub fn list_slow_subscribe(
    cache_manager: &CacheManager,
    options: Option<Pagination>,
) -> (r: Answer<ListReply>)
    ensures
        r matches Ok(reply) && is_list_reply(
            reply,
            page_of(cache_manager.slow_subscribes@, options),
            cache_manager.slow_subscribes@.len(),
        ),
{
    list_reply(Ok(list_table(&cache_manager.slow_subscribes, options)))
}

/// Lists all topic-rewrite rules that the cache mirrors.
pub fn get_all_topic_rewrite_rule(cache_manager: &CacheManager) -> (r: Answer<ListReply>)
    ensures
        r matches Ok(reply) && is_list_reply(
            reply,
            cache_manager.entities@[EntityKind::TopicRewriteRule],
            cache_manager.entities@[EntityKind::TopicRewriteRule].len(),
        ),
{
    let table = cache_manager.entities.of(EntityKind::TopicRewriteRule);
    proof {
        assert(page_of(table@, None) =~= table@);
    }
    list_reply(Ok(list_table(table, None)))
}

/// Lists all auto-subscribe rules that the cache mirrors.
pub fn list_auto_subscribe_rule(cache_manager: &CacheManager) -> (r: Answer<ListReply>)
    ensures
        r matches Ok(reply) && is_list_reply(
            reply,
            cache_manager.entities@[EntityKind::AutoSubscribeRule],
            cache_manager.entities@[EntityKind::AutoSubscribeRule].len(),
        ),
{
    let table = cache_manager.entities.of(EntityKind::AutoSubscribeRule);
    proof {
        assert(page_of(table@, None) =~= table@);
    }
    list_reply(Ok(list_table(table, None)))
}

/// The dynamic configuration that the cache holds, serialized as JSON.
pub fn get_cluster_config(cache_manager: &CacheManager) -> (r: Answer<GetClusterConfigReply>)
    ensures
        match json_encoding(config_json(cache_manager.cluster_config)) {
            Ok(bytes) => r matches Ok(reply) && reply.mqtt_broker_cluster_dynamic_config@
                == bytes,
            Err(error) => r matches Err(status) && reports(
                status,
                Operation::GetClusterConfig,
                ErrorKind::SerializationError,
                json_error_text(error),
            ),
        },
{
    let value = cache_manager.get_cluster_config().to_json();
    get_cluster_config_reply(encode_value(&value))
}

/// Switches the system alarm, in the cache alone, and acknowledges the value now
/// in force.
pub fn set_system_alarm_config(
    cache_manager: &mut CacheManager,
    request: SetSystemAlarmConfigRequest,
) -> (r: Answer<SetSystemAlarmConfigReply>)
    ensures
        r matches Ok(reply) && reply.enable == request.enable,
        *final(cache_manager) == (CacheManager {
            cluster_config: ClusterDynamicConfig {
                system_alarm: request.enable,
                ..old(cache_manager).cluster_config
            },
            ..*old(cache_manager)
        }),
{
    cache_manager.cluster_config.system_alarm = request.enable;
    Ok(SetSystemAlarmConfigReply { enable: request.enable })
}

} // verus!
