use crate::admin::{
    is_cluster_status, known_to_cache, lemma_rows_are_known, listing, ClusterStatusReply,
};
use crate::assoc::{
    distinct_keys, find, has_key, index_of, lemma_has_key_first, lemma_upsert_distinct,
    lemma_without_distinct, upsert,
};
use crate::cache::CacheManager;
use crate::connection::{registered_under_own_id, ConnectionManager, NetworkConnection};
use crate::dispatch::entity_change;
use crate::entity::{records, AdminEntity, EntityKind, Record, Records};
use crate::error::ErrorKind;
use crate::gateway::{resumes, Change, EntityChange, Pending, Step};
use crate::handler::{refusal, world_after, World};
use crate::json::json_encoding;
use crate::metadata::MetadataResponse;
use crate::page::page_of;
use crate::reply::{is_list_reply, ListReply};
use crate::subscribe::SubscribeManager;
use vstd::prelude::*;

verus! {

/// The counts of a snapshot are the sizes of the registries they are read from,
/// whatever the sizes.
pub proof fn law_counts_are_registry_sizes(
    reply: ClusterStatusReply,
    placement_status: Seq<char>,
    subscribe_manager: SubscribeManager,
    connection_manager: ConnectionManager,
    cache_manager: CacheManager,
)
    requires
        is_cluster_status(
            reply,
            placement_status,
            subscribe_manager,
            connection_manager,
            cache_manager,
        ),
    ensures
        reply.connection_num == connection_manager.connections@.len(),
        reply.session_num == cache_manager.session_info@.len(),
        reply.subscribe_num == subscribe_manager.subscribe_list@.len(),
        reply.exclusive_subscribe_num == subscribe_manager.exclusive_push@.len(),
        reply.exclusive_subscribe_thread_num == subscribe_manager.exclusive_push_thread@.len(),
        reply.share_subscribe_leader_num == subscribe_manager.share_leader_push@.len(),
        reply.share_subscribe_leader_thread_num
            == subscribe_manager.share_leader_push_thread@.len(),
        reply.share_subscribe_resub_num == subscribe_manager.share_follower_resub@.len(),
        reply.share_subscribe_follower_thread_num
            == subscribe_manager.share_follower_resub_thread@.len(),
        reply.topic_num == cache_manager.topic_info@.len(),
        reply.tcp_connection_num == connection_manager.tcp_write_list@.len(),
        reply.tls_connection_num == connection_manager.tcp_tls_write_list@.len(),
        reply.websocket_connection_num == connection_manager.websocket_write_list@.len(),
        reply.quic_connection_num == connection_manager.quic_write_list@.len(),
{
}

/// The count of live connections is read from the registry alone: it is the same
/// whatever the cache knows of them.
pub proof fn law_connection_count_ignores_cache(
    first: ClusterStatusReply,
    second: ClusterStatusReply,
    placement_status: Seq<char>,
    subscribe_manager: SubscribeManager,
    connection_manager: ConnectionManager,
    one_cache: CacheManager,
    other_cache: CacheManager,
)
    requires
        is_cluster_status(
            first,
            placement_status,
            subscribe_manager,
            connection_manager,
            one_cache,
        ),
        is_cluster_status(
            second,
            placement_status,
            subscribe_manager,
            connection_manager,
            other_cache,
        ),
    ensures
        first.connection_num == second.connection_num,
{
}

/// A switch is idempotent: asking for it a second time is answered as the first
/// time was, and leaves the world that the first left.
pub proof fn law_switch_is_idempotent(w: World, change: Change)
    requires
        change is Feature || change is FlappingDetect,
    ensures
        refusal(world_after(w, change), change) == refusal(w, change),
        world_after(world_after(w, change), change) == world_after(w, change),
{
}

/// The cache follows the metadata service and never leads it: while a call still
/// has something to ask of the service the cache is as it was, and the cache
/// changes only on the answer that the service has done what was asked.
pub proof fn law_cache_follows_metadata(
    pending: Pending,
    answer: MetadataResponse,
    before: CacheManager,
    after: CacheManager,
    step: Step,
)
    requires
        resumes(pending, answer, before, after, step),
    ensures
        step is Ask ==> after == before,
        !(answer is Done) ==> after == before,
        step matches Step::Done(Err(_)) ==> after == before,
{
}

/// A mirror that agrees with the metadata service still agrees after any change,
/// made or refused: on the entities of a kind, and on the configuration. And a
/// switch leaves every switch but its own as it was, in the service and in the
/// cache.
pub proof fn law_mirror_stays_in_step(w: World, change: Change)
    ensures
        forall|kind: EntityKind|
            w.cache_tables[kind] == w.store.tables[kind] ==> #[trigger] world_after(
                w,
                change,
            ).cache_tables[kind] == world_after(w, change).store.tables[kind],
        w.cache_config == w.store.config ==> world_after(w, change).cache_config
            == world_after(w, change).store.config,
        change is FlappingDetect ==> {
            let after = world_after(w, change);
            &&& after.store.config.slow_subscribe == w.store.config.slow_subscribe
            &&& after.store.config.offline_message == w.store.config.offline_message
            &&& after.store.config.system_alarm == w.store.config.system_alarm
            &&& after.cache_config.slow_subscribe == w.cache_config.slow_subscribe
            &&& after.cache_config.offline_message == w.cache_config.offline_message
            &&& after.cache_config.system_alarm == w.cache_config.system_alarm
        },
        change is Feature ==> {
            let after = world_after(w, change);
            &&& after.store.config.flapping_detect == w.store.config.flapping_detect
            &&& after.store.config.system_alarm == w.store.config.system_alarm
            &&& after.cache_config.flapping_detect == w.cache_config.flapping_detect
            &&& after.cache_config.system_alarm == w.cache_config.system_alarm
        },
{
}

/// `r` occurs in `s`, and no other entry of `s` has its key.
pub open spec fn occurs_once(s: Records, r: Record) -> bool {
    exists|i: int|
        {
            &&& 0 <= i < s.len()
            &&& #[trigger] s[i] == r
            &&& forall|j: int| 0 <= j < s.len() && (#[trigger] s[j]).0 == r.0 ==> j == i
        }
}

/// Storing an entry in a table of distinct keys leaves it there exactly once.
pub proof fn lemma_upsert_occurs_once(s: Records, r: Record)
    requires
        distinct_keys(s),
    ensures
        occurs_once(upsert(s, r), r),
{
    let t = upsert(s, r);
    lemma_upsert_distinct(s, r);
    let i = index_of(t, r.0);
    lemma_has_key_first(t, r.0);
    assert(t[i].0 == r.0);
    assert(find(t, r.0) == Some(r.1));
    assert(t[i] == r);
    assert forall|j: int| 0 <= j < t.len() && (#[trigger] t[j]).0 == r.0 implies j == i by {
        if j < i {
            assert(t[j].0 != t[i].0);
        }
        if i < j {
            assert(t[i].0 != t[j].0);
        }
    }
}

/// An entity that has been created is listed exactly once, by the metadata
/// service and by the cache's mirror alike.
pub proof fn law_created_is_listed_once(w: World, kind: EntityKind, entity: AdminEntity)
    requires
        distinct_keys(w.store.tables[kind]),
        distinct_keys(w.cache_tables[kind]),
        refusal(w, entity_change(kind, EntityChange::Create(entity))) is None,
    ensures
        occurs_once(
            world_after(w, entity_change(kind, EntityChange::Create(entity))).store.tables[kind],
            entity@,
        ),
        occurs_once(
            world_after(w, entity_change(kind, EntityChange::Create(entity))).cache_tables[kind],
            entity@,
        ),
{
    lemma_upsert_occurs_once(w.store.tables[kind], entity@);
    lemma_upsert_occurs_once(w.cache_tables[kind], entity@);
}

/// An entity that has been deleted is listed no more, neither by the metadata
/// service nor by the cache's mirror.
pub proof fn law_deleted_is_not_listed(w: World, kind: EntityKind, key: String)
    requires
        distinct_keys(w.store.tables[kind]),
        distinct_keys(w.cache_tables[kind]),
        refusal(w, entity_change(kind, EntityChange::Delete(key))) is None,
    ensures
        !has_key(
            world_after(w, entity_change(kind, EntityChange::Delete(key))).store.tables[kind],
            key@,
        ),
        !has_key(
            world_after(w, entity_change(kind, EntityChange::Delete(key))).cache_tables[kind],
            key@,
        ),
{
    lemma_without_distinct(w.store.tables[kind], key@);
    lemma_without_distinct(w.cache_tables[kind], key@);
}

/// Creating and then deleting an entity, then listing: the entity is there once
/// after the create, and gone after the delete, which is not refused.
pub proof fn law_create_then_delete(w: World, kind: EntityKind, entity: AdminEntity, key: String)
    requires
        distinct_keys(w.store.tables[kind]),
        distinct_keys(w.cache_tables[kind]),
        refusal(w, entity_change(kind, EntityChange::Create(entity))) is None,
        key@ == entity.key@,
    ensures
        ({
            let created = world_after(w, entity_change(kind, EntityChange::Create(entity)));
            let deleted = world_after(created, entity_change(kind, EntityChange::Delete(key)));
            &&& occurs_once(created.store.tables[kind], entity@)
            &&& refusal(created, entity_change(kind, EntityChange::Delete(key))) is None
            &&& !has_key(deleted.store.tables[kind], key@)
            &&& !has_key(deleted.cache_tables[kind], key@)
        }),
{
    let created = world_after(w, entity_change(kind, EntityChange::Create(entity)));
    law_created_is_listed_once(w, kind, entity);
    lemma_upsert_distinct(w.store.tables[kind], entity@);
    lemma_upsert_distinct(w.cache_tables[kind], entity@);
    assert(has_key(created.store.tables[kind], key@));
    law_deleted_is_not_listed(created, kind, key);
}

/// The count of an unfiltered listing is the number of entries listed, and the
/// entries are all that the table holds.
pub proof fn law_unfiltered_count_is_length(reply: ListReply, table: Records)
    requires
        is_list_reply(reply, page_of(table, None), table.len()),
    ensures
        reply.total_count == reply.items@.len(),
        records(reply.items@) == table,
{
    assert(page_of(table, None) =~= table);
    assert(records(reply.items@).len() == reply.items@.len());
}

/// A create of a key that the metadata service holds is refused as already
/// existing, and changes nothing.
pub proof fn law_duplicate_create_is_refused(w: World, kind: EntityKind, entity: AdminEntity)
    requires
        entity.key@.len() > 0,
        w.store.available,
        has_key(w.store.tables[kind], entity.key@),
    ensures
        refusal(w, entity_change(kind, EntityChange::Create(entity))) == Some(
            (ErrorKind::AlreadyExists, entity.key@),
        ),
        world_after(w, entity_change(kind, EntityChange::Create(entity))) == w,
{
}

/// Creating the same key twice: the second create is refused as already
/// existing, and leaves what the first left.
pub proof fn law_second_create_is_refused(
    w: World,
    kind: EntityKind,
    first: AdminEntity,
    second: AdminEntity,
)
    requires
        refusal(w, entity_change(kind, EntityChange::Create(first))) is None,
        second.key@ == first.key@,
    ensures
        ({
            let created = world_after(w, entity_change(kind, EntityChange::Create(first)));
            &&& refusal(created, entity_change(kind, EntityChange::Create(second))) == Some(
                (ErrorKind::AlreadyExists, first.key@),
            )
            &&& world_after(created, entity_change(kind, EntityChange::Create(second))) == created
        }),
{
    let s = w.store.tables[kind];
    let t = upsert(s, first@);
    assert(!has_key(s, first.key@));
    assert(t[s.len() as int].0 == first.key@);
    assert(has_key(t, first.key@));
}

/// A delete of a key that the metadata service does not hold is refused as not
/// found, and changes nothing.
pub proof fn law_delete_of_missing_is_refused(w: World, kind: EntityKind, key: String)
    requires
        key@.len() > 0,
        w.store.available,
        !has_key(w.store.tables[kind], key@),
    ensures
        refusal(w, entity_change(kind, EntityChange::Delete(key))) == Some(
            (ErrorKind::NotFound, key@),
        ),
        world_after(w, entity_change(kind, EntityChange::Delete(key))) == w,
{
}

/// A live connection that the cache does not know is left out of the listing,
/// and raises no error: the listing is that of the registry without it.
pub proof fn law_unknown_connection_is_omitted(
    registry: Seq<(u64, NetworkConnection)>,
    cache: Seq<(u64, serde_json::Value)>,
    i: int,
)
    requires
        0 <= i < registry.len(),
        !has_key(cache, registry[i].0),
    ensures
        listing(registry, cache) == listing(registry.remove(i), cache),
    decreases registry.len(),
{
    if i == registry.len() - 1 {
        assert(registry.remove(i) =~= registry.drop_last());
    } else {
        let shorter = registry.remove(i);
        assert(shorter.drop_last() =~= registry.drop_last().remove(i));
        assert(shorter.last() == registry.last());
        law_unknown_connection_is_omitted(registry.drop_last(), cache, i);
    }
}

/// A live connection that the cache does not know has no row in the listing: no
/// row carries its identifier.
pub proof fn law_unknown_connection_has_no_row(
    registry: Seq<(u64, NetworkConnection)>,
    cache: Seq<(u64, serde_json::Value)>,
    i: int,
)
    requires
        registered_under_own_id(registry),
        0 <= i < registry.len(),
        !has_key(cache, registry[i].0),
    ensures
        listing(registry, cache) matches Ok(rows) ==> forall|r: int|
            0 <= r < rows.len() ==> (#[trigger] rows[r]).connection_id
                != registry[i].1.connection_id,
{
    lemma_rows_are_known(registry, cache);
    if listing(registry, cache) is Ok {
        let rows = listing(registry, cache)->Ok_0;
        assert(known_to_cache(rows, cache));
        assert forall|r: int| 0 <= r < rows.len() implies (#[trigger] rows[r]).connection_id
            != registry[i].1.connection_id by {
            assert(has_key(cache, rows[r].connection_id));
        }
    }
}

/// Where every snapshot that the cache holds serializes, the listing succeeds,
/// with at most one row for each live connection.
pub proof fn law_listing_succeeds(
    registry: Seq<(u64, NetworkConnection)>,
    cache: Seq<(u64, serde_json::Value)>,
)
    requires
        forall|j: int| 0 <= j < cache.len() ==> json_encoding((#[trigger] cache[j]).1) is Ok,
    ensures
        listing(registry, cache) matches Ok(rows) && rows.len() <= registry.len(),
    decreases registry.len(),
{
    if registry.len() > 0 {
        law_listing_succeeds(registry.drop_last(), cache);
        let id = registry.last().0;
        lemma_has_key_first(cache, id);
        if has_key(cache, id) {
            let at = index_of(cache, id);
            assert(json_encoding(cache[at].1) is Ok);
        }
    }
}

} // verus!
