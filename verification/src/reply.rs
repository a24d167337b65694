use crate::entity::{records, AdminEntity, Records};
use crate::error::{AdminError, ErrorKind};
use crate::json::{describe_json_error, json_error_text};
use crate::operation::Operation;
use crate::page::Listing;
use crate::transport::{reply_or_status, reports, status_of, Answer};
use vstd::prelude::*;

verus! {

/// The empty acknowledgement of a change.
#[derive(Clone, Copy, Debug, PartialEq, Eq, Structural)]
pub struct Acknowledgement {}

/// A page of entities, and the number of all entities whatever the page.
#[derive(Debug, PartialEq, Eq)]
pub struct ListReply {
    pub items: Vec<AdminEntity>,
    pub total_count: u64,
}

/// The request to switch a cluster feature by its name.
#[derive(Debug, PartialEq, Eq)]
pub struct SetClusterConfigRequest {
    pub feature_name: String,
    pub is_enable: bool,
}

/// The acknowledgement of a switch of a cluster feature.
#[derive(Debug, PartialEq, Eq)]
pub struct SetClusterConfigReply {
    pub feature_name: String,
    pub is_enable: bool,
}

/// The dynamic configuration of the cluster, serialized.
#[derive(Debug, PartialEq, Eq)]
pub struct GetClusterConfigReply {
    pub mqtt_broker_cluster_dynamic_config: Vec<u8>,
}

/// The request to switch the system alarm.
#[derive(Clone, Copy, Debug, PartialEq, Eq, Structural)]
pub struct SetSystemAlarmConfigRequest {
    pub enable: bool,
}

/// The acknowledgement of a switch of the system alarm: the value now in force.
#[derive(Clone, Copy, Debug, PartialEq, Eq, Structural)]
pub struct SetSystemAlarmConfigReply {
    pub enable: bool,
}

/// `reply` carries the page `page` of a listing of `total` entities.
pub open spec fn is_list_reply(reply: ListReply, page: Records, total: nat) -> bool {
    &&& records(reply.items@) == page
    &&& reply.total_count == total
}

/// The reply for a listing, or the status for its failure.
pub fn list_reply(outcome: Result<Listing, AdminError>) -> (r: Answer<ListReply>)
    ensures
        match outcome {
            Ok(listing) => r matches Ok(reply) && reply.items == listing.0 && reply.total_count
                == listing.1,
            Err(e) => r matches Err(status) && reports(status, e.operation, e.kind, e.detail@),
        },
{
    match reply_or_status(outcome) {
        Ok((items, count)) => Ok(ListReply { items, total_count: count as u64 }),
        Err(status) => Err(status),
    }
}

/// The acknowledgement of a change that was made, or the status for its failure.
pub fn acknowledge(outcome: Result<(), AdminError>) -> (r: Answer<Acknowledgement>)
    ensures
        match outcome {
            Ok(_) => r is Ok,
            Err(e) => r matches Err(status) && reports(status, e.operation, e.kind, e.detail@),
        },
{
    match reply_or_status(outcome) {
        Ok(_) => Ok(Acknowledgement {  }),
        Err(status) => Err(status),
    }
}

/// The acknowledgement of a switch of the feature named `feature_name`, or the
/// status for its failure. The acknowledgement repeats the name and says `true`,
/// whatever value was asked for.
pub fn set_cluster_config_reply(
    feature_name: String,
    outcome: Result<(), AdminError>,
) -> (r: Answer<SetClusterConfigReply>)
    ensures
        match outcome {
            Ok(_) => r matches Ok(reply) && reply.feature_name@ == feature_name@
                && reply.is_enable,
            Err(e) => r matches Err(status) && reports(status, e.operation, e.kind, e.detail@),
        },
{
    match reply_or_status(outcome) {
        Ok(_) => Ok(SetClusterConfigReply { feature_name, is_enable: true }),
        Err(status) => Err(status),
    }
}

/// The reply that carries the serialized configuration, from what serializing it
/// gave; a failure to serialize is reported as such.
pub fn get_cluster_config_reply(
    encoded: Result<Vec<u8>, serde_json::Error>,
) -> (r: Answer<GetClusterConfigReply>)
    ensures
        match encoded {
            Ok(bytes) => r matches Ok(reply) && reply.mqtt_broker_cluster_dynamic_config@
                == bytes@,
            Err(error) => r matches Err(status) && reports(
                status,
                Operation::GetClusterConfig,
                ErrorKind::SerializationError,
                json_error_text(error),
            ),
        },
{
    match encoded {
        Ok(bytes) => Ok(GetClusterConfigReply { mqtt_broker_cluster_dynamic_config: bytes }),
        Err(error) => Err(
            status_of(
                &AdminError::new(
                    ErrorKind::SerializationError,
                    Operation::GetClusterConfig,
                    describe_json_error(&error),
                ),
            ),
        ),
    }
}

} // verus!
