use crate::admin::{
    cluster_status_by_req, enable_flapping_detect_by_req, is_cluster_status, known_to_cache,
    list_connection_by_req, listing, rows_of, ClusterStatusReply, EnableFlappingDetectReply,
    EnableFlappingDetectRequest, ListConnectionReply,
};
use crate::cache::CacheManager;
use crate::config::{config_json, ClusterDynamicConfig};
use crate::connection::ConnectionManager;
use crate::dispatch;
use crate::dispatch::{entity_change, feature_change, flapping_change, Query};
use crate::entity::{AdminEntity, EntityKind};
use crate::error::ErrorKind;
use crate::gateway::{Change, Command, EntityChange};
use crate::handler::{apply, refusal, world_after, world_of, World};
use crate::json::{json_encoding, json_error_text};
use crate::metadata::{unreachable_text, MetadataStore};
use crate::operation::Operation;
use crate::page::{page_of, Pagination};
use crate::reply::{
    acknowledge, is_list_reply, set_cluster_config_reply, Acknowledgement, GetClusterConfigReply,
    ListReply, SetClusterConfigReply, SetClusterConfigRequest, SetSystemAlarmConfigReply,
    SetSystemAlarmConfigRequest,
};
use crate::subscribe::SubscribeManager;
use crate::transport::{reports, status_of, Answer};
use vstd::prelude::*;

verus! {

/// The admin service: each remote operation, served from the metadata service,
/// the cache and the registries that it holds.
pub struct GrpcAdminServices {
    pub metadata: MetadataStore,
    pub cache_manager: CacheManager,
    pub connection_manager: ConnectionManager,
    pub subscribe_manager: SubscribeManager,
}

/// `after` is what `change` makes of `before`: the world that the change leads
/// to, and everything else as it was.
pub open spec fn changed_by(
    before: GrpcAdminServices,
    after: GrpcAdminServices,
    change: Change,
) -> bool {
    &&& after.world() == world_after(before.world(), change)
    &&& after.metadata.nodes == before.metadata.nodes
    &&& after.metadata.placement_status == before.metadata.placement_status
    &&& after.cache_manager == (CacheManager {
        entities: after.cache_manager.entities,
        cluster_config: after.cache_manager.cluster_config,
        ..before.cache_manager
    })
    &&& after.connection_manager == before.connection_manager
    &&& after.subscribe_manager == before.subscribe_manager
}

/// `r` answers a change: success where the change is made, and where it is
/// refused the status that reports why.
pub open spec fn answered<T>(
    before: GrpcAdminServices,
    operation: Operation,
    change: Change,
    r: Answer<T>,
) -> bool {
    match refusal(before.world(), change) {
        Some((kind, detail)) => r matches Err(status) && reports(status, operation, kind, detail),
        None => r is Ok,
    }
}

/// `r` answers a listing of what the metadata service holds of `kind`.
pub open spec fn lists_stored(
    service: GrpcAdminServices,
    operation: Operation,
    kind: EntityKind,
    options: Option<Pagination>,
    r: Answer<ListReply>,
) -> bool {
    if service.metadata.available {
        r matches Ok(reply) && is_list_reply(
            reply,
            page_of(service.metadata.entities@[kind], options),
            service.metadata.entities@[kind].len(),
        )
    } else {
        r matches Err(status) && reports(
            status,
            operation,
            ErrorKind::UpstreamUnavailable,
            unreachable_text(),
        )
    }
}

impl GrpcAdminServices {
    pub fn new(
        metadata: MetadataStore,
        cache_manager: CacheManager,
        connection_manager: ConnectionManager,
        subscribe_manager: SubscribeManager,
    ) -> (service: Self)
        ensures
            service.metadata == metadata,
            service.cache_manager == cache_manager,
            service.connection_manager == connection_manager,
            service.subscribe_manager == subscribe_manager,
    {
        GrpcAdminServices { metadata, cache_manager, connection_manager, subscribe_manager }
    }

    /// What changes act on.
    pub open spec fn world(&self) -> World {
        world_of(self.metadata, self.cache_manager)
    }

    fn carry(&mut self, command: Command) -> (r: Answer<Acknowledgement>)
        ensures
            changed_by(*old(self), *final(self), command.change),
            answered(*old(self), command.operation, command.change, r),
    {
        acknowledge(apply(command, &mut self.metadata, &mut self.cache_manager))
    }

    fn ask(&self, query: Query) -> (r: Answer<ListReply>)
        ensures
            lists_stored(*self, query.operation, query.kind, query.options, r),
    {
        query.reply(self.metadata.list(query.kind))
    }

    /// Switches a cluster feature by its name. An unknown name is refused, and
    /// then nothing is written. The acknowledgement repeats the name, and says
    /// `true` whatever value was asked for.
    pub fn mqtt_broker_set_cluster_config(
        &mut self,
        request: SetClusterConfigRequest,
    ) -> (r: Answer<SetClusterConfigReply>)
        ensures
            changed_by(*old(self), *final(self), feature_change(request)),
            answered(*old(self), Operation::SetClusterConfig, feature_change(request), r),
            r matches Ok(reply) ==> reply.feature_name@ == request.feature_name@
                && reply.is_enable,
    {
        let feature_name = request.feature_name.clone();
        let command = dispatch::set_cluster_config(request);
        set_cluster_config_reply(
            feature_name,
            apply(command, &mut self.metadata, &mut self.cache_manager),
        )
    }

    /// The dynamic configuration that the cache holds, serialized as JSON.
    pub fn mqtt_broker_get_cluster_config(&self) -> (r: Answer<GetClusterConfigReply>)
        ensures
            match json_encoding(config_json(self.cache_manager.cluster_config)) {
                Ok(bytes) => r matches Ok(reply) && reply.mqtt_broker_cluster_dynamic_config@
                    == bytes,
                Err(error) => r matches Err(status) && reports(
                    status,
                    Operation::GetClusterConfig,
                    ErrorKind::SerializationError,
                    json_error_text(error),
                ),
            },
    {
        dispatch::get_cluster_config(&self.cache_manager)
    }

    /// The snapshot of the cluster.
    pub fn cluster_status(&self) -> (r: Answer<ClusterStatusReply>)
        ensures
            if self.metadata.available {
                r matches Ok(reply) && is_cluster_status(
                    reply,
                    self.metadata.placement_status@,
                    self.subscribe_manager,
                    self.connection_manager,
                    self.cache_manager,
                )
            } else {
                r matches Err(status) && reports(
                    status,
                    Operation::ClusterStatus,
                    ErrorKind::UpstreamUnavailable,
                    unreachable_text(),
                )
            },
    {
        match cluster_status_by_req(
            &self.metadata,
            &self.subscribe_manager,
            &self.connection_manager,
            &self.cache_manager,
        ) {
            Ok(reply) => Ok(reply),
            Err(e) => Err(status_of(&e)),
        }
    }

    /// Switches flapping detection. Asking twice for the same value leaves the
    /// same state as asking once, and is acknowledged both times.
    pub fn mqtt_broker_enable_flapping_detect(
        &mut self,
        request: EnableFlappingDetectRequest,
    ) -> (r: Answer<EnableFlappingDetectReply>)
        ensures
            changed_by(*old(self), *final(self), flapping_change(request)),
            answered(*old(self), Operation::EnableFlappingDetect, flapping_change(request), r),
            r matches Ok(reply) ==> reply.is_enable == request.is_enable,
    {
        enable_flapping_detect_by_req(&mut self.metadata, &mut self.cache_manager, request)
    }

    /// Switches the system alarm, in the cache alone.
    pub fn mqtt_broker_set_system_alarm_config(
        &mut self,
        request: SetSystemAlarmConfigRequest,
    ) -> (r: Answer<SetSystemAlarmConfigReply>)
        ensures
            r matches Ok(reply) && reply.enable == request.enable,
            final(self).cache_manager == (CacheManager {
                cluster_config: ClusterDynamicConfig {
                    system_alarm: request.enable,
                    ..old(self).cache_manager.cluster_config
                },
                ..old(self).cache_manager
            }),
            final(self).metadata == old(self).metadata,
            final(self).connection_manager == old(self).connection_manager,
            final(self).subscribe_manager == old(self).subscribe_manager,
    {
        dispatch::set_system_alarm_config(&mut self.cache_manager, request)
    }

    /// The live connections that the cache knows.
    pub fn mqtt_broker_list_connection(&self) -> (r: Answer<ListConnectionReply>)
        ensures
            match listing(
                self.connection_manager.connections@,
                self.cache_manager.connection_info@,
            ) {
                Ok(rows) => r matches Ok(reply) && rows_of(reply.list_connection_raw@) == rows,
                Err(error) => r matches Err(status) && reports(
                    status,
                    Operation::ListConnection,
                    ErrorKind::SerializationError,
                    json_error_text(error),
                ),
            },
            r matches Ok(reply) ==> known_to_cache(
                rows_of(reply.list_connection_raw@),
                self.cache_manager.connection_info@,
            ),
    {
        list_connection_by_req(&self.connection_manager, &self.cache_manager)
    }

    pub fn mqtt_broker_create_user(&mut self, user: AdminEntity) -> (r: Answer<Acknowledgement>)
        ensures
            changed_by(
                *old(self),
                *final(self),
                entity_change(EntityKind::User, EntityChange::Create(user)),
            ),
            answered(
                *old(self),
                Operation::CreateUser,
                entity_change(EntityKind::User, EntityChange::Create(user)),
                r,
            ),
    {
        self.carry(dispatch::create_user(user))
    }

    pub fn mqtt_broker_delete_user(&mut self, username: String) -> (r: Answer<Acknowledgement>)
        ensures
            changed_by(
                *old(self),
                *final(self),
                entity_change(EntityKind::User, EntityChange::Delete(username)),
            ),
            answered(
                *old(self),
                Operation::DeleteUser,
                entity_change(EntityKind::User, EntityChange::Delete(username)),
                r,
            ),
    {
        self.carry(dispatch::delete_user(username))
    }

    pub fn mqtt_broker_create_acl(&mut self, acl: AdminEntity) -> (r: Answer<Acknowledgement>)
        ensures
            changed_by(
                *old(self),
                *final(self),
                entity_change(EntityKind::Acl, EntityChange::Create(acl)),
            ),
            answered(
                *old(self),
                Operation::CreateAcl,
                entity_change(EntityKind::Acl, EntityChange::Create(acl)),
                r,
            ),
    {
        self.carry(dispatch::create_acl(acl))
    }

    pub fn mqtt_broker_delete_acl(&mut self, key: String) -> (r: Answer<Acknowledgement>)
        ensures
            changed_by(
                *old(self),
                *final(self),
                entity_change(EntityKind::Acl, EntityChange::Delete(key)),
            ),
            answered(
                *old(self),
                Operation::DeleteAcl,
                entity_change(EntityKind::Acl, EntityChange::Delete(key)),
                r,
            ),
    {
        self.carry(dispatch::delete_acl(key))
    }

    pub fn mqtt_broker_create_blacklist(
        &mut self,
        entry: AdminEntity,
    ) -> (r: Answer<Acknowledgement>)
        ensures
            changed_by(
                *old(self),
                *final(self),
                entity_change(EntityKind::Blacklist, EntityChange::Create(entry)),
            ),
            answered(
                *old(self),
                Operation::CreateBlacklist,
                entity_change(EntityKind::Blacklist, EntityChange::Create(entry)),
                r,
            ),
    {
        self.carry(dispatch::create_blacklist(entry))
    }

    pub fn mqtt_broker_delete_blacklist(&mut self, key: String) -> (r: Answer<Acknowledgement>)
        ensures
            changed_by(
                *old(self),
                *final(self),
                entity_change(EntityKind::Blacklist, EntityChange::Delete(key)),
            ),
            answered(
                *old(self),
                Operation::DeleteBlacklist,
                entity_change(EntityKind::Blacklist, EntityChange::Delete(key)),
                r,
            ),
    {
        self.carry(dispatch::delete_blacklist(key))
    }

    pub fn mqtt_broker_create_topic_rewrite_rule(
        &mut self,
        rule: AdminEntity,
    ) -> (r: Answer<Acknowledgement>)
        ensures
            changed_by(
                *old(self),
                *final(self),
                entity_change(EntityKind::TopicRewriteRule, EntityChange::Create(rule)),
            ),
            answered(
                *old(self),
                Operation::CreateTopicRewriteRule,
                entity_change(EntityKind::TopicRewriteRule, EntityChange::Create(rule)),
                r,
            ),
    {
        self.carry(dispatch::create_topic_rewrite_rule(rule))
    }

    pub fn mqtt_broker_delete_topic_rewrite_rule(
        &mut self,
        key: String,
    ) -> (r: Answer<Acknowledgement>)
        ensures
            changed_by(
                *old(self),
                *final(self),
                entity_change(EntityKind::TopicRewriteRule, EntityChange::Delete(key)),
            ),
            answered(
                *old(self),
                Operation::DeleteTopicRewriteRule,
                entity_change(EntityKind::TopicRewriteRule, EntityChange::Delete(key)),
                r,
            ),
    {
        self.carry(dispatch::delete_topic_rewrite_rule(key))
    }

    pub fn mqtt_broker_create_connector(
        &mut self,
        connector: AdminEntity,
    ) -> (r: Answer<Acknowledgement>)
        ensures
            changed_by(
                *old(self),
                *final(self),
                entity_change(EntityKind::Connector, EntityChange::Create(connector)),
            ),
            answered(
                *old(self),
                Operation::CreateConnector,
                entity_change(EntityKind::Connector, EntityChange::Create(connector)),
                r,
            ),
    {
        self.carry(dispatch::create_connector(connector))
    }

    pub fn mqtt_broker_update_connector(
        &mut self,
        connector: AdminEntity,
    ) -> (r: Answer<Acknowledgement>)
        ensures
            changed_by(
                *old(self),
                *final(self),
                entity_change(EntityKind::Connector, EntityChange::Update(connector)),
            ),
            answered(
                *old(self),
                Operation::UpdateConnector,
                entity_change(EntityKind::Connector, EntityChange::Update(connector)),
                r,
            ),
    {
        self.carry(dispatch::update_connector(connector))
    }

    pub fn mqtt_broker_delete_connector(&mut self, key: String) -> (r: Answer<Acknowledgement>)
        ensures
            changed_by(
                *old(self),
                *final(self),
                entity_change(EntityKind::Connector, EntityChange::Delete(key)),
            ),
            answered(
                *old(self),
                Operation::DeleteConnector,
                entity_change(EntityKind::Connector, EntityChange::Delete(key)),
                r,
            ),
    {
        self.carry(dispatch::delete_connector(key))
    }

    pub fn mqtt_broker_create_schema(&mut self, schema: AdminEntity) -> (r: Answer<Acknowledgement>)
        ensures
            changed_by(
                *old(self),
                *final(self),
                entity_change(EntityKind::Schema, EntityChange::Create(schema)),
            ),
            answered(
                *old(self),
                Operation::CreateSchema,
                entity_change(EntityKind::Schema, EntityChange::Create(schema)),
                r,
            ),
    {
        self.carry(dispatch::create_schema(schema))
    }

    pub fn mqtt_broker_update_schema(&mut self, schema: AdminEntity) -> (r: Answer<Acknowledgement>)
        ensures
            changed_by(
                *old(self),
                *final(self),
                entity_change(EntityKind::Schema, EntityChange::Update(schema)),
            ),
            answered(
                *old(self),
                Operation::UpdateSchema,
                entity_change(EntityKind::Schema, EntityChange::Update(schema)),
                r,
            ),
    {
        self.carry(dispatch::update_schema(schema))
    }

    pub fn mqtt_broker_delete_schema(&mut self, key: String) -> (r: Answer<Acknowledgement>)
        ensures
            changed_by(
                *old(self),
                *final(self),
                entity_change(EntityKind::Schema, EntityChange::Delete(key)),
            ),
            answered(
                *old(self),
                Operation::DeleteSchema,
                entity_change(EntityKind::Schema, EntityChange::Delete(key)),
                r,
            ),
    {
        self.carry(dispatch::delete_schema(key))
    }

    pub fn mqtt_broker_bind_schema(&mut self, binding: AdminEntity) -> (r: Answer<Acknowledgement>)
        ensures
            changed_by(
                *old(self),
                *final(self),
                entity_change(EntityKind::SchemaBind, EntityChange::Create(binding)),
            ),
            answered(
                *old(self),
                Operation::BindSchema,
                entity_change(EntityKind::SchemaBind, EntityChange::Create(binding)),
                r,
            ),
    {
        self.carry(dispatch::bind_schema(binding))
    }

    pub fn mqtt_broker_unbind_schema(&mut self, key: String) -> (r: Answer<Acknowledgement>)
        ensures
            changed_by(
                *old(self),
                *final(self),
                entity_change(EntityKind::SchemaBind, EntityChange::Delete(key)),
            ),
            answered(
                *old(self),
                Operation::UnbindSchema,
                entity_change(EntityKind::SchemaBind, EntityChange::Delete(key)),
                r,
            ),
    {
        self.carry(dispatch::unbind_schema(key))
    }

    pub fn mqtt_broker_set_auto_subscribe_rule(
        &mut self,
        rule: AdminEntity,
    ) -> (r: Answer<Acknowledgement>)
        ensures
            changed_by(
                *old(self),
                *final(self),
                entity_change(EntityKind::AutoSubscribeRule, EntityChange::Upsert(rule)),
            ),
            answered(
                *old(self),
                Operation::SetAutoSubscribeRule,
                entity_change(EntityKind::AutoSubscribeRule, EntityChange::Upsert(rule)),
                r,
            ),
    {
        self.carry(dispatch::set_auto_subscribe_rule(rule))
    }

    pub fn mqtt_broker_delete_auto_subscribe_rule(
        &mut self,
        key: String,
    ) -> (r: Answer<Acknowledgement>)
        ensures
            changed_by(
                *old(self),
                *final(self),
                entity_change(EntityKind::AutoSubscribeRule, EntityChange::Delete(key)),
            ),
            answered(
                *old(self),
                Operation::DeleteAutoSubscribeRule,
                entity_change(EntityKind::AutoSubscribeRule, EntityChange::Delete(key)),
                r,
            ),
    {
        self.carry(dispatch::delete_auto_subscribe_rule(key))
    }

    pub fn mqtt_broker_list_user(&self, options: Option<Pagination>) -> (r: Answer<ListReply>)
        ensures
            lists_stored(*self, Operation::ListUser, EntityKind::User, options, r),
    {
        self.ask(dispatch::list_user(options))
    }

    pub fn mqtt_broker_list_acl(&self) -> (r: Answer<ListReply>)
        ensures
            lists_stored(*self, Operation::ListAcl, EntityKind::Acl, None, r),
    {
        self.ask(dispatch::list_acl())
    }

    pub fn mqtt_broker_list_blacklist(&self, options: Option<Pagination>) -> (r: Answer<ListReply>)
        ensures
            lists_stored(*self, Operation::ListBlacklist, EntityKind::Blacklist, options, r),
    {
        self.ask(dispatch::list_blacklist(options))
    }

    pub fn mqtt_broker_list_connector(&self) -> (r: Answer<ListReply>)
        ensures
            lists_stored(*self, Operation::ListConnector, EntityKind::Connector, None, r),
    {
        self.ask(dispatch::list_connector())
    }

    pub fn mqtt_broker_list_schema(&self) -> (r: Answer<ListReply>)
        ensures
            lists_stored(*self, Operation::ListSchema, EntityKind::Schema, None, r),
    {
        self.ask(dispatch::list_schema())
    }

    pub fn mqtt_broker_list_bind_schema(&self) -> (r: Answer<ListReply>)
        ensures
            lists_stored(*self, Operation::ListBindSchema, EntityKind::SchemaBind, None, r),
    {
        self.ask(dispatch::list_bind_schema())
    }

    pub fn mqtt_broker_list_client(&self, options: Option<Pagination>) -> (r: Answer<ListReply>)
        ensures
            r matches Ok(reply) && is_list_reply(
                reply,
                page_of(self.cache_manager.client_info@, options),
                self.cache_manager.client_info@.len(),
            ),
    {
        dispatch::list_client(&self.cache_manager, options)
    }

    pub fn mqtt_broker_list_session(&self, options: Option<Pagination>) -> (r: Answer<ListReply>)
        ensures
            r matches Ok(reply) && is_list_reply(
                reply,
                page_of(self.cache_manager.session_info@, options),
                self.cache_manager.session_info@.len(),
            ),
    {
        dispatch::list_session(&self.cache_manager, options)
    }

    pub fn mqtt_broker_list_topic(&self, options: Option<Pagination>) -> (r: Answer<ListReply>)
        ensures
            r matches Ok(reply) && is_list_reply(
                reply,
                page_of(self.cache_manager.topic_info@, options),
                self.cache_manager.topic_info@.len(),
            ),
    {
        dispatch::list_topic(&self.cache_manager, options)
    }

    pub fn mqtt_broker_list_system_alarm(
        &self,
        options: Option<Pagination>,
    ) -> (r: Answer<ListReply>)
        ensures
            r matches Ok(reply) && is_list_reply(
                reply,
                page_of(self.cache_manager.system_alarms@, options),
                self.cache_manager.system_alarms@.len(),
            ),
    {
        dispatch::list_system_alarm(&self.cache_manager, options)
    }

    pub fn mqtt_broker_list_slow_subscribe(
        &self,
        options: Option<Pagination>,
    ) -> (r: Answer<ListReply>)
        ensures
            r matches Ok(reply) && is_list_reply(
                reply,
                page_of(self.cache_manager.slow_subscribes@, options),
                self.cache_manager.slow_subscribes@.len(),
            ),
    {
        dispatch::list_slow_subscribe(&self.cache_manager, options)
    }

    pub fn mqtt_broker_get_all_topic_rewrite_rule(&self) -> (r: Answer<ListReply>)
        ensures
            r matches Ok(reply) && is_list_reply(
                reply,
                self.cache_manager.entities@[EntityKind::TopicRewriteRule],
                self.cache_manager.entities@[EntityKind::TopicRewriteRule].len(),
            ),
    {
        dispatch::get_all_topic_rewrite_rule(&self.cache_manager)
    }

    pub fn mqtt_broker_list_auto_subscribe_rule(&self) -> (r: Answer<ListReply>)
        ensures
            r matches Ok(reply) && is_list_reply(
                reply,
                self.cache_manager.entities@[EntityKind::AutoSubscribeRule],
                self.cache_manager.entities@[EntityKind::AutoSubscribeRule].len(),
            ),
    {
        dispatch::list_auto_subscribe_rule(&self.cache_manager)
    }
}

} // verus!
