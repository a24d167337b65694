use crate::assoc::has_key;
use crate::cache::CacheManager;
use crate::config::{feature_named, with_feature, with_flapping_detect, ClusterDynamicConfig};
use crate::entity::{records, EntityKind};
use crate::error::{AdminError, ErrorKind};
use crate::gateway::{
    applied, begin, empty_key_text, lookup_refusal, resume, unexpected_text, Change, Command,
    Step,
};
use crate::metadata::{unreachable_text, MetadataResponse, MetadataStore, StoreState};
use crate::operation::Operation;
use crate::page::{page_of, paginate, Listing, Pagination};
use crate::table::KeyedTable;
use crate::tables::TablesView;
use vstd::prelude::*;
use vstd::string::StringExecFns;

verus! {

/// What changes act on: the metadata service, and the cache's mirror of it.
pub struct World {
    pub store: StoreState,
    pub cache_tables: TablesView,
    pub cache_config: ClusterDynamicConfig,
}

/// The world that a metadata service and a cache make up.
pub open spec fn world_of(metadata: MetadataStore, cache_manager: CacheManager) -> World {
    World {
        store: metadata.state(),
        cache_tables: cache_manager.entities@,
        cache_config: cache_manager.cluster_config,
    }
}

/// Why a change is refused in `w`, with the detail of the failure, if it is
/// refused. Validation comes first, then the reach of the metadata service, then
/// what the service holds under the key.
pub open spec fn refusal(w: World, change: Change) -> Option<(ErrorKind, Seq<char>)> {
    match change {
        Change::Entity { kind, change } => if change.key().len() == 0 {
            Some((ErrorKind::ValidationError, empty_key_text()))
        } else if !w.store.available {
            Some((ErrorKind::UpstreamUnavailable, unreachable_text()))
        } else {
            match lookup_refusal(change, has_key(w.store.tables[kind], change.key())) {
                Some(kind_of_refusal) => Some((kind_of_refusal, change.key())),
                None => None,
            }
        },
        Change::Feature { name, enable } => if feature_named(name@) is None {
            Some((ErrorKind::ValidationError, name@))
        } else if !w.store.available {
            Some((ErrorKind::UpstreamUnavailable, unreachable_text()))
        } else {
            None
        },
        Change::FlappingDetect { enable } => if !w.store.available {
            Some((ErrorKind::UpstreamUnavailable, unreachable_text()))
        } else {
            None
        },
    }
}

/// The configuration that a switch leads to from `config`: the one switch that
/// the change names is set, and every other is as it was.
pub open spec fn switched(config: ClusterDynamicConfig, change: Change) -> ClusterDynamicConfig {
    match change {
        Change::Feature { name, enable } => match feature_named(name@) {
            Some(feature) => with_feature(config, feature, enable),
            None => config,
        },
        Change::FlappingDetect { enable } => with_flapping_detect(config, enable),
        _ => config,
    }
}

/// The world after a change: as it was where the change is refused; else with
/// the change made in the metadata service and in the cache alike, each on what
/// it held.
pub open spec fn world_after(w: World, change: Change) -> World {
    if refusal(w, change) is Some {
        w
    } else {
        match change {
            Change::Entity { kind, change } => World {
                store: StoreState { tables: applied(w.store.tables, kind, change), ..w.store },
                cache_tables: applied(w.cache_tables, kind, change),
                cache_config: w.cache_config,
            },
            _ => World {
                store: StoreState { config: switched(w.store.config, change), ..w.store },
                cache_tables: w.cache_tables,
                cache_config: switched(w.cache_config, change),
            },
        }
    }
}

/// `r` is the outcome of `command` in the world `before`, and `after` the world
/// it leaves.
pub open spec fn outcome_of(
    command: Command,
    before: World,
    after: World,
    r: Result<(), AdminError>,
) -> bool {
    &&& after == world_after(before, command.change)
    &&& match refusal(before, command.change) {
        Some((kind, detail)) => {
            &&& r matches Err(e)
            &&& e.kind == kind
            &&& e.operation == command.operation
            &&& e.detail@ == detail
        },
        None => r is Ok,
    }
}

/// Carries a command through: validates it, asks the metadata service whether
/// the key is taken, has the service make the change, and then makes it in the
/// cache.
pub fn apply(
    command: Command,
    metadata: &mut MetadataStore,
    cache_manager: &mut CacheManager,
) -> (r: Result<(), AdminError>)
    ensures
        outcome_of(
            command,
            world_of(*old(metadata), *old(cache_manager)),
            world_of(*final(metadata), *final(cache_manager)),
            r,
        ),
        final(metadata).nodes == old(metadata).nodes,
        final(metadata).placement_status == old(metadata).placement_status,
        *final(cache_manager) == (CacheManager {
            entities: final(cache_manager).entities,
            cluster_config: final(cache_manager).cluster_config,
            ..*old(cache_manager)
        }),
{
    let ghost before = world_of(*metadata, *cache_manager);
    let (request, pending) = match begin(command) {
        Step::Done(r) => {
            return r;
        },
        Step::Ask(request, pending) => (request, pending),
    };
    let answer = metadata.serve(&request);
    let (request, pending) = match resume(pending, answer, cache_manager) {
        Step::Done(r) => {
            assert(world_of(*metadata, *cache_manager).store.tables =~= world_after(
                before,
                command.change,
            ).store.tables);
            return r;
        },
        Step::Ask(request, pending) => (request, pending),
    };
    let answer = metadata.serve(&request);
    match resume(pending, answer, cache_manager) {
        Step::Done(r) => {
            assert(world_of(*metadata, *cache_manager).store.tables =~= world_after(
                before,
                command.change,
            ).store.tables);
            r
        },
        // a write or a save that was asked for is answered with the end of the call
        Step::Ask(_, _) => vstd::pervasive::unreached(),
    }
}

/// The listing that an answer to a `List` request gives: the page asked for, and
/// the number of all entities, whatever the page.
pub fn list_from_answer(
    operation: Operation,
    answer: MetadataResponse,
    options: Option<Pagination>,
) -> (r: Result<Listing, AdminError>)
    ensures
        match answer {
            MetadataResponse::Entities(items) => {
                &&& r matches Ok(listing)
                &&& records(listing.0@) == page_of(records(items@), options)
                &&& listing.1 == items@.len()
            },
            MetadataResponse::Unavailable(reason) => {
                &&& r matches Err(e)
                &&& e.kind == ErrorKind::UpstreamUnavailable
                &&& e.operation == operation
                &&& e.detail@ == reason@
            },
            _ => {
                &&& r matches Err(e)
                &&& e.kind == ErrorKind::UpstreamUnavailable
                &&& e.operation == operation
                &&& e.detail@ == unexpected_text()
            },
        },
{
    match answer {
        MetadataResponse::Entities(items) => Ok(paginate(&items, options)),
        MetadataResponse::Unavailable(reason) => Err(
            AdminError::new(ErrorKind::UpstreamUnavailable, operation, reason),
        ),
        _ => Err(
            AdminError::new(
                ErrorKind::UpstreamUnavailable,
                operation,
                String::from_str("unexpected answer from the metadata service"),
            ),
        ),
    }
}

/// The listing of a table of the cache: the page asked for, and the number of all
/// its entries.
pub fn list_table(table: &KeyedTable, options: Option<Pagination>) -> (r: Listing)
    ensures
        records(r.0@) == page_of(table@, options),
        r.1 == table@.len(),
{
    let items = table.to_vec();
    paginate(&items, options)
}

/// The listing of the entities of `kind` that the metadata service holds.
pub fn list_stored(
    operation: Operation,
    kind: EntityKind,
    metadata: &MetadataStore,
    options: Option<Pagination>,
) -> (r: Result<Listing, AdminError>)
    ensures
        if metadata.available {
            &&& r matches Ok(listing)
            &&& records(listing.0@) == page_of(metadata.entities@[kind], options)
            &&& listing.1 == metadata.entities@[kind].len()
        } else {
            &&& r matches Err(e)
            &&& e.kind == ErrorKind::UpstreamUnavailable
            &&& e.operation == operation
            &&& e.detail@ == unreachable_text()
        },
{
    list_from_answer(operation, metadata.list(kind), options)
}

} // verus!
