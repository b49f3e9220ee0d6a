//! What can go wrong in the client, and when the server's refusal means that a
//! compiled plan has expired.

use crate::text;
use crate::text::occurs_in;
use gcp_auth::Error as CredentialFailure;
use tonic::transport::Error as TransportFailure;
use vstd::prelude::*;
use vstd::std_specs::convert::FromSpecImpl;

verus! {

/// A gRPC status as the server sent it. It is carried through unread.
#[verifier::external_type_specification]
#[verifier::external_body]
pub struct ExStatus(tonic::Status);

/// A failure of the gRPC transport. It is carried through unread.
#[verifier::external_type_specification]
#[verifier::external_body]
pub struct ExTransportError(TransportFailure);

/// The rejection of a metadata value. It is carried through unread.
#[verifier::external_type_specification]
#[verifier::external_body]
pub struct ExInvalidMetadataValue(tonic::metadata::errors::InvalidMetadataValue);

/// A failure to obtain credentials. It is carried through unread.
#[verifier::external_type_specification]
#[verifier::external_body]
pub struct ExAuthError(CredentialFailure);

/// A failure of local I/O. It is carried through unread.
#[verifier::external_type_specification]
#[verifier::external_body]
pub struct ExIoError(std::io::Error);

/// Error types the client may have
#[derive(Debug)]
pub enum Error {
    /// The access token could not be used.
    AccessTokenError(String),
    /// The root certificate could not be loaded.
    CertificateError(String),
    /// Local I/O failed.
    IoError(std::io::Error),
    /// The connection could not be set up.
    TransportError(TransportFailure),
    /// The chunks of a row did not fit together.
    ChunkError(String),
    /// No such row.
    RowNotFound,
    /// The row was not written.
    RowWriteFailed,
    /// No such object.
    ObjectNotFound(String),
    /// The object cannot be read.
    ObjectCorrupt(String),
    /// The server answered with a status other than OK.
    RpcError(tonic::Status),
    /// Nothing came back within this many seconds.
    TimeoutError(u64),
    /// Credentials could not be obtained.
    GCPAuthError(CredentialFailure),
    /// A header value holds a character that a header cannot carry.
    MetadataError(tonic::metadata::errors::InvalidMetadataValue),
    /// The SQL type of a parameter (first field) cannot be told from its value, and why.
    ParameterTypeInferenceFailed(String, String),
}

impl std::convert::From<std::io::Error> for Error {
    fn from(err: std::io::Error) -> (e: Self) {
        Error::IoError(err)
    }
}

impl FromSpecImpl<std::io::Error> for Error {
    open spec fn obeys_from_spec() -> bool {
        true
    }

    open spec fn from_spec(err: std::io::Error) -> Self {
        Error::IoError(err)
    }
}

impl std::convert::From<TransportFailure> for Error {
    fn from(err: TransportFailure) -> (e: Self) {
        Error::TransportError(err)
    }
}

impl FromSpecImpl<TransportFailure> for Error {
    open spec fn obeys_from_spec() -> bool {
        true
    }

    open spec fn from_spec(err: TransportFailure) -> Self {
        Error::TransportError(err)
    }
}

impl std::convert::From<tonic::Status> for Error {
    fn from(err: tonic::Status) -> (e: Self) {
        Error::RpcError(err)
    }
}

impl FromSpecImpl<tonic::Status> for Error {
    open spec fn obeys_from_spec() -> bool {
        true
    }

    open spec fn from_spec(err: tonic::Status) -> Self {
        Error::RpcError(err)
    }
}

impl std::convert::From<CredentialFailure> for Error {
    fn from(err: CredentialFailure) -> (e: Self) {
        Error::GCPAuthError(err)
    }
}

impl FromSpecImpl<CredentialFailure> for Error {
    open spec fn obeys_from_spec() -> bool {
        true
    }

    open spec fn from_spec(err: CredentialFailure) -> Self {
        Error::GCPAuthError(err)
    }
}

/// The status codes of gRPC.
#[derive(Debug, Clone, Copy, PartialEq, Eq, Structural)]
pub enum Code {
    Okay,
    Cancelled,
    Unknown,
    InvalidArgument,
    DeadlineExceeded,
    NotFound,
    AlreadyExists,
    PermissionDenied,
    ResourceExhausted,
    FailedPrecondition,
    Aborted,
    OutOfRange,
    Unimplemented,
    Internal,
    Unavailable,
    DataLoss,
    Unauthenticated,
}

/// What the server says in the message of a status that refuses an expired plan.
pub const PLAN_EXPIRED_MARK: &'static str = "PREPARED_QUERY_EXPIRED";

/// A refused request: the two parts of the status that decide what happens next,
/// and the status itself.
#[derive(Debug)]
pub struct Refusal {
    pub code: Code,
    pub message: String,
    pub status: tonic::Status,
}

/// The server refused the request because the plan behind its token has expired:
/// the message carries the mark, under one of the two codes the server uses for it.
pub open spec fn is_plan_expired(code: Code, message: Seq<char>) -> bool {
    &&& code == Code::InvalidArgument || code == Code::FailedPrecondition
    &&& occurs_in(message, PLAN_EXPIRED_MARK@)
}

impl Refusal {
    /// The refusal is that of an expired plan.
    pub open spec fn expired(self) -> bool {
        is_plan_expired(self.code, self.message@)
    }

    /// Whether the refusal is that of an expired plan.
    pub fn is_plan_expired(&self) -> (expired: bool)
        ensures
            expired == self.expired(),
    {
        (self.code == Code::InvalidArgument || self.code == Code::FailedPrecondition)
            && text::contains(self.message.as_str(), PLAN_EXPIRED_MARK)
    }
}

} // verus!
