use crate::operation::{operation_name, Operation};
use vstd::prelude::*;
use vstd::string::StringExecFns;

verus! {

/// Why an operation failed.
#[derive(Clone, Copy, Debug, PartialEq, Eq, Structural)]
pub enum ErrorKind {
    /// The key that a change names is absent.
    NotFound,
    /// The key that a create names is taken.
    AlreadyExists,
    /// The input is malformed or names something unknown.
    ValidationError,
    /// The metadata service did not answer, or not as asked.
    UpstreamUnavailable,
    /// A cached value could not be serialized for the reply.
    SerializationError,
}

/// A failure, with the operation it belongs to and the key or reason it is about.
#[derive(Debug, PartialEq, Eq)]
pub struct AdminError {
    pub kind: ErrorKind,
    pub operation: Operation,
    pub detail: String,
}

/// The words for a kind of failure.
pub open spec fn kind_text(kind: ErrorKind) -> Seq<char> {
    match kind {
        ErrorKind::NotFound => "not found"@,
        ErrorKind::AlreadyExists => "already exists"@,
        ErrorKind::ValidationError => "invalid request"@,
        ErrorKind::UpstreamUnavailable => "upstream unavailable"@,
        ErrorKind::SerializationError => "serialization failed"@,
    }
}

/// The description of a failure: the operation's name, the kind's words and the
/// detail, with a colon and a space between them.
pub open spec fn error_text(kind: ErrorKind, operation: Operation, detail: Seq<char>) -> Seq<
    char,
> {
    operation_name(operation) + ": "@ + kind_text(kind) + ": "@ + detail
}

impl ErrorKind {
    pub fn text(&self) -> (s: &'static str)
        ensures
            s@ == kind_text(*self),
    {
        match self {
            ErrorKind::NotFound => "not found",
            ErrorKind::AlreadyExists => "already exists",
            ErrorKind::ValidationError => "invalid request",
            ErrorKind::UpstreamUnavailable => "upstream unavailable",
            ErrorKind::SerializationError => "serialization failed",
        }
    }
}

impl AdminError {
    pub fn new(kind: ErrorKind, operation: Operation, detail: String) -> (e: Self)
        ensures
            e.kind == kind,
            e.operation == operation,
            e.detail@ == detail@,
    {
        AdminError { kind, operation, detail }
    }

    /// What the failure is in contracts.
    pub open spec fn text(&self) -> Seq<char> {
        error_text(self.kind, self.operation, self.detail@)
    }

    /// The description that is sent to the caller.
    pub fn message(&self) -> (s: String)
        ensures
            s@ == self.text(),
    {
        let mut s = String::from_str(self.operation.name());
        s.append(": ");
        s.append(self.kind.text());
        s.append(": ");
        s.append(self.detail.as_str());
        s
    }
}

} // verus!
