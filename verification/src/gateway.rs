use crate::assoc::{upsert, without};
use crate::cache::CacheManager;
use crate::config::{feature_named, switched_by, ConfigSwitch, FeatureType};
use crate::entity::{AdminEntity, EntityKind};
use crate::error::{AdminError, ErrorKind};
use crate::metadata::{MetadataRequest, MetadataResponse};
use crate::operation::Operation;
use crate::tables::TablesView;
use vstd::prelude::*;
use vstd::string::StringExecFns;

verus! {

/// A change to the entities of one kind.
#[derive(Debug, PartialEq, Eq)]
pub enum EntityChange {
    /// Adds an entity; its key must be free.
    Create(AdminEntity),
    /// Replaces an entity; its key must be taken.
    Update(AdminEntity),
    /// Stores an entity, whether or not its key is taken.
    Upsert(AdminEntity),
    /// Removes the entity of this key; the key must be taken.
    Delete(String),
}

/// A change that an administrator asks for.
#[derive(Debug, PartialEq, Eq)]
pub enum Change {
    Entity { kind: EntityKind, change: EntityChange },
    Feature { name: String, enable: bool },
    FlappingDetect { enable: bool },
}

/// A change, with the operation it came in by.
#[derive(Debug, PartialEq, Eq)]
pub struct Command {
    pub operation: Operation,
    pub change: Change,
}

/// What a call waits for from the metadata service.
#[derive(Debug, PartialEq, Eq)]
pub enum Pending {
    /// Whether the key of the change is taken.
    Lookup(Command),
    /// That the change to the entities is written.
    Write(Command),
    /// That this switch is set to this value.
    Save(Command, ConfigSwitch, bool),
}

/// What a call does next.
#[derive(Debug, PartialEq, Eq)]
pub enum Step {
    /// Send the request, and resume with the answer.
    Ask(MetadataRequest, Pending),
    /// Answer the caller.
    Done(Result<(), AdminError>),
}

impl EntityChange {
    /// The key that the change is about.
    pub open spec fn key(&self) -> Seq<char> {
        match self {
            EntityChange::Create(e) => e.key@,
            EntityChange::Update(e) => e.key@,
            EntityChange::Upsert(e) => e.key@,
            EntityChange::Delete(key) => key@,
        }
    }

    /// Why the change is refused once it is known whether its key is taken, if it
    /// is refused.
    pub fn refusal(&self, taken: bool) -> (refusal: Option<ErrorKind>)
        ensures
            refusal == lookup_refusal(*self, taken),
    {
        match self {
            EntityChange::Create(_) => if taken {
                Some(ErrorKind::AlreadyExists)
            } else {
                None
            },
            EntityChange::Update(_) | EntityChange::Delete(_) => if taken {
                None
            } else {
                Some(ErrorKind::NotFound)
            },
            EntityChange::Upsert(_) => None,
        }
    }

    /// The key that the change is about.
    pub fn key_of(&self) -> (key: &String)
        ensures
            key@ == self.key(),
    {
        match self {
            EntityChange::Create(e) => &e.key,
            EntityChange::Update(e) => &e.key,
            EntityChange::Upsert(e) => &e.key,
            EntityChange::Delete(key) => key,
        }
    }
}

/// The detail of the failure that an empty key is refused with.
pub open spec fn empty_key_text() -> Seq<char> {
    "the key is empty"@
}

/// The detail of the failure that an answer of the wrong form is refused with.
pub open spec fn unexpected_text() -> Seq<char> {
    "unexpected answer from the metadata service"@
}

/// Why a change is refused once it is known whether its key is taken, if it is
/// refused: a create of a taken key, an update or a delete of a free one.
pub open spec fn lookup_refusal(change: EntityChange, taken: bool) -> Option<ErrorKind> {
    match change {
        EntityChange::Create(_) => if taken {
            Some(ErrorKind::AlreadyExists)
        } else {
            None
        },
        EntityChange::Update(_) | EntityChange::Delete(_) => if taken {
            None
        } else {
            Some(ErrorKind::NotFound)
        },
        EntityChange::Upsert(_) => None,
    }
}

/// The tables of one store after a change to the entities of `kind`.
pub open spec fn applied(tables: TablesView, kind: EntityKind, change: EntityChange) -> TablesView {
    match change {
        EntityChange::Create(e) | EntityChange::Update(e) | EntityChange::Upsert(e) => {
            tables.insert(kind, upsert(tables[kind], e@))
        },
        EntityChange::Delete(key) => tables.insert(kind, without(tables[kind], key@)),
    }
}

/// `request` asks the metadata service to make the change.
pub open spec fn writes(request: MetadataRequest, kind: EntityKind, change: EntityChange) -> bool {
    match change {
        EntityChange::Create(e) | EntityChange::Update(e) | EntityChange::Upsert(e) => {
            &&& request matches MetadataRequest::Put { kind: k, entity }
            &&& k == kind
            &&& entity@ == e@
        },
        EntityChange::Delete(key) => {
            &&& request matches MetadataRequest::Delete { kind: k, key: named }
            &&& k == kind
            &&& named@ == key@
        },
    }
}

/// `step` answers the caller with this failure.
pub open spec fn fails_with(
    step: Step,
    kind: ErrorKind,
    operation: Operation,
    detail: Seq<char>,
) -> bool {
    &&& step matches Step::Done(Err(e))
    &&& e.kind == kind
    &&& e.operation == operation
    &&& e.detail@ == detail
}

/// `step` asks the metadata service to set `switch` to `enable`, on behalf of
/// `command`.
pub open spec fn asks_switch(
    step: Step,
    command: Command,
    switch: ConfigSwitch,
    enable: bool,
) -> bool {
    step == Step::Ask(
        MetadataRequest::Switch { switch, enable },
        Pending::Save(command, switch, enable),
    )
}

/// `step` is the first step of `command`. A change with an empty key or an
/// unknown feature name is refused before anything is asked of the metadata
/// service. An entity change first asks whether its key is taken; a switch asks
/// for that one switch to be set, by its name and with its value.
pub open spec fn begins(command: Command, step: Step) -> bool {
    match command.change {
        Change::Entity { kind, change } => if change.key().len() == 0 {
            fails_with(step, ErrorKind::ValidationError, command.operation, empty_key_text())
        } else {
            &&& step matches Step::Ask(request, pending)
            &&& pending == Pending::Lookup(command)
            &&& request matches MetadataRequest::Get { kind: k, key }
            &&& k == kind
            &&& key@ == change.key()
        },
        Change::Feature { name, enable } => match feature_named(name@) {
            None => fails_with(step, ErrorKind::ValidationError, command.operation, name@),
            Some(feature) => asks_switch(step, command, ConfigSwitch::Feature(feature), enable),
        },
        Change::FlappingDetect { enable } => asks_switch(
            step,
            command,
            ConfigSwitch::FlappingDetect,
            enable,
        ),
    }
}

/// The operation that a pending call belongs to.
pub open spec fn operation_of(pending: Pending) -> Operation {
    match pending {
        Pending::Lookup(command) => command.operation,
        Pending::Write(command) => command.operation,
        Pending::Save(command, _, _) => command.operation,
    }
}

/// `step` is the next step of a pending call on `answer`, and `after` is the cache
/// that `before` has become.
///
/// The cache changes only once a write or a save has been done, so never before
/// the metadata service holds the change. An unreachable service, or an answer
/// of a form that was not asked for, fails the call and leaves the cache as it was.
pub open spec fn resumes(
    pending: Pending,
    answer: MetadataResponse,
    before: CacheManager,
    after: CacheManager,
    step: Step,
) -> bool {
    match (pending, answer) {
        (_, MetadataResponse::Unavailable(reason)) => {
            &&& fails_with(
                step,
                ErrorKind::UpstreamUnavailable,
                operation_of(pending),
                reason@,
            )
            &&& after == before
        },
        (
            Pending::Lookup(Command { operation, change: Change::Entity { kind, change } }),
            MetadataResponse::Entity(found),
        ) => {
            &&& after == before
            &&& match lookup_refusal(change, found is Some) {
                Some(refusal) => fails_with(step, refusal, operation, change.key()),
                None => {
                    &&& step matches Step::Ask(request, next)
                    &&& next == Pending::Write(pending->Lookup_0)
                    &&& writes(request, kind, change)
                },
            }
        },
        (
            Pending::Write(Command { operation, change: Change::Entity { kind, change } }),
            MetadataResponse::Done,
        ) => {
            &&& step == Step::Done(Ok(()))
            &&& after.entities@ == applied(before.entities@, kind, change)
            &&& after == (CacheManager { entities: after.entities, ..before })
        },
        (Pending::Save(_, switch, enable), MetadataResponse::Done) => {
            &&& step == Step::Done(Ok(()))
            &&& after == (CacheManager {
                cluster_config: switched_by(before.cluster_config, switch, enable),
                ..before
            })
        },
        _ => {
            &&& fails_with(
                step,
                ErrorKind::UpstreamUnavailable,
                operation_of(pending),
                unexpected_text(),
            )
            &&& after == before
        },
    }
}

impl Pending {
    /// The operation that the call belongs to.
    pub fn operation(&self) -> (operation: Operation)
        ensures
            operation == operation_of(*self),
    {
        match self {
            Pending::Lookup(command) => command.operation,
            Pending::Write(command) => command.operation,
            Pending::Save(command, _, _) => command.operation,
        }
    }
}

fn failure(kind: ErrorKind, operation: Operation, detail: String) -> (step: Step)
    ensures
        fails_with(step, kind, operation, detail@),
{
    Step::Done(Err(AdminError::new(kind, operation, detail)))
}

/// The first step of a command: its validation, and what to ask of the metadata
/// service if it is valid.
pub fn begin(command: Command) -> (step: Step)
    ensures
        begins(command, step),
{
    match &command.change {
        Change::Entity { kind, change } => {
            let key = change.key_of();
            if key.as_str().is_empty() {
                failure(
                    ErrorKind::ValidationError,
                    command.operation,
                    String::from_str("the key is empty"),
                )
            } else {
                let request = MetadataRequest::Get { kind: *kind, key: key.clone() };
                Step::Ask(request, Pending::Lookup(command))
            }
        },
        Change::Feature { name, enable } => {
            match FeatureType::parse(name) {
                None => failure(ErrorKind::ValidationError, command.operation, name.clone()),
                Some(feature) => {
                    let switch = ConfigSwitch::Feature(feature);
                    let enable = *enable;
                    Step::Ask(
                        MetadataRequest::Switch { switch, enable },
                        Pending::Save(command, switch, enable),
                    )
                },
            }
        },
        Change::FlappingDetect { enable } => {
            let switch = ConfigSwitch::FlappingDetect;
            let enable = *enable;
            Step::Ask(
                MetadataRequest::Switch { switch, enable },
                Pending::Save(command, switch, enable),
            )
        },
    }
}

fn write_request(kind: EntityKind, change: &EntityChange) -> (request: MetadataRequest)
    ensures
        writes(request, kind, *change),
{
    match change {
        EntityChange::Create(e) => MetadataRequest::Put { kind, entity: e.clone() },
        EntityChange::Update(e) => MetadataRequest::Put { kind, entity: e.clone() },
        EntityChange::Upsert(e) => MetadataRequest::Put { kind, entity: e.clone() },
        EntityChange::Delete(key) => MetadataRequest::Delete { kind, key: key.clone() },
    }
}

/// The next step of a pending call, on the answer of the metadata service. The
/// cache is touched only here, and only once the service has done the change.
pub fn resume(
    pending: Pending,
    answer: MetadataResponse,
    cache_manager: &mut CacheManager,
) -> (step: Step)
    ensures
        resumes(pending, answer, *old(cache_manager), *final(cache_manager), step),
{
    match (pending, answer) {
        (pending, MetadataResponse::Unavailable(reason)) => {
            failure(ErrorKind::UpstreamUnavailable, pending.operation(), reason)
        },
        (
            Pending::Lookup(Command { operation, change: Change::Entity { kind, change } }),
            MetadataResponse::Entity(found),
        ) => {
            match change.refusal(found.is_some()) {
                Some(kind_of_refusal) => failure(
                    kind_of_refusal,
                    operation,
                    change.key_of().clone(),
                ),
                None => {
                    let request = write_request(kind, &change);
                    let command = Command { operation, change: Change::Entity { kind, change } };
                    Step::Ask(request, Pending::Write(command))
                },
            }
        },
        (
            Pending::Write(Command { operation, change: Change::Entity { kind, change } }),
            MetadataResponse::Done,
        ) => {
            match change {
                EntityChange::Create(e) => cache_manager.entities.put(kind, e),
                EntityChange::Update(e) => cache_manager.entities.put(kind, e),
                EntityChange::Upsert(e) => cache_manager.entities.put(kind, e),
                EntityChange::Delete(key) => {
                    let _ = cache_manager.entities.remove(kind, &key);
                },
            }
            Step::Done(Ok(()))
        },
        (Pending::Save(_, switch, enable), MetadataResponse::Done) => {
            cache_manager.cluster_config = cache_manager.cluster_config.switch(switch, enable);
            Step::Done(Ok(()))
        },
        (pending, _) => failure(
            ErrorKind::UpstreamUnavailable,
            pending.operation(),
            String::from_str("unexpected answer from the metadata service"),
        ),
    }
}

} // verus!
