use crate::error::{error_text, AdminError, ErrorKind};
use crate::operation::{code_number, failure_code, Operation, RpcCode};
use vstd::prelude::*;

verus! {

#[verifier::external_type_specification]
#[verifier::external_body]
pub struct ExStatus(tonic::Status);

/// What an operation answers: its reply, or the transport status of its failure.
pub type Answer<T> = Result<T, tonic::Status>;

/// The number of the code that `tonic::Status::code` reports for `status`, as
/// `tonic::Code` and gRPC number the codes.
pub uninterp spec fn status_code(status: tonic::Status) -> int;

/// The text that `tonic::Status::message` reports for `status`.
pub uninterp spec fn status_message(status: tonic::Status) -> Seq<char>;

/// `tonic::Status::internal`: a status whose code is `Internal`, which has the
/// number 13, and whose message is `message`.
#[verifier::external_body]
pub(crate) fn internal_status(message: String) -> (status: tonic::Status)
    ensures
        status_code(status) == 13,
        status_message(status) == message@,
{
    tonic::Status::internal(message)
}

/// `tonic::Status::cancelled`: a status whose code is `Cancelled`, which has the
/// number 1, and whose message is `message`.
#[verifier::external_body]
pub(crate) fn cancelled_status(message: String) -> (status: tonic::Status)
    ensures
        status_code(status) == 1,
        status_message(status) == message@,
{
    tonic::Status::cancelled(message)
}

/// `status` reports a failure as its operation asks: with the operation's failure
/// code and the failure's description.
pub open spec fn reports(
    status: tonic::Status,
    operation: Operation,
    kind: ErrorKind,
    detail: Seq<char>,
) -> bool {
    &&& status_code(status) == code_number(failure_code(operation))
    &&& status_message(status) == error_text(kind, operation, detail)
}

/// The transport status for a failure.
pub fn status_of(error: &AdminError) -> (status: tonic::Status)
    ensures
        reports(status, error.operation, error.kind, error.detail@),
{
    match error.operation.failure_code() {
        RpcCode::Cancelled => cancelled_status(error.message()),
        RpcCode::Internal => internal_status(error.message()),
    }
}

/// The reply of a handler, or the transport status for its failure.
pub fn reply_or_status<T>(outcome: Result<T, AdminError>) -> (r: Answer<T>)
    ensures
        match outcome {
            Ok(reply) => r == Ok::<T, tonic::Status>(reply),
            Err(error) => r matches Err(status) && reports(
                status,
                error.operation,
                error.kind,
                error.detail@,
            ),
        },
{
    match outcome {
        Ok(reply) => Ok(reply),
        Err(error) => Err(status_of(&error)),
    }
}

} // verus!
