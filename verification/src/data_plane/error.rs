//! Errors of the data plane and the RPC statuses they map to.
use vstd::prelude::*;
use vstd::string::StringExecFns;

verus! {

/// Errors of the data plane.
#[derive(Debug, Clone, PartialEq, Eq)]
pub enum DataPlaneError {
    /// A resource already exists.
    AlreadyExists { resource_id: String },
    /// An error decoding text as Base64.
    Base64Decode { message: String },
    /// A database connection environment variable is not set.
    DatabaseConnection { message: String },
    /// A precondition is not met.
    FailedPrecondition { message: String },
    /// An argument did not meet one or more requirements.
    InvalidArgument { message: String },
    /// A URL is not valid.
    InvalidUrl { message: String },
    /// SQL migrations failed to execute.
    Migration { message: String },
    /// A resource does not exist.
    NotFound { resource_id: String },
    /// A client exceeded its request limit.
    ResourceExhausted,
    /// A JSON (de)serialization error.
    SerdeJson { message: String },
    /// A database error.
    Sqlx { message: String },
}

pub type DataPlaneResult<T> = Result<T, DataPlaneError>;

/// The kinds of data plane errors.
#[derive(Debug, Clone, Copy, PartialEq, Eq, Structural)]
pub enum ErrorKind {
    AlreadyExists,
    Base64Decode,
    DatabaseConnection,
    FailedPrecondition,
    InvalidArgument,
    InvalidUrl,
    Migration,
    NotFound,
    ResourceExhausted,
    SerdeJson,
    Sqlx,
}

/// An error as its kind and the text it holds (resource ID or message; empty for
/// `ResourceExhausted`).
pub open spec fn error_view(err: DataPlaneError) -> (ErrorKind, Seq<char>) {
    match err {
        DataPlaneError::AlreadyExists { resource_id } => (ErrorKind::AlreadyExists, resource_id@),
        DataPlaneError::Base64Decode { message } => (ErrorKind::Base64Decode, message@),
        DataPlaneError::DatabaseConnection { message } => (ErrorKind::DatabaseConnection, message@),
        DataPlaneError::FailedPrecondition { message } => (ErrorKind::FailedPrecondition, message@),
        DataPlaneError::InvalidArgument { message } => (ErrorKind::InvalidArgument, message@),
        DataPlaneError::InvalidUrl { message } => (ErrorKind::InvalidUrl, message@),
        DataPlaneError::Migration { message } => (ErrorKind::Migration, message@),
        DataPlaneError::NotFound { resource_id } => (ErrorKind::NotFound, resource_id@),
        DataPlaneError::ResourceExhausted => (ErrorKind::ResourceExhausted, Seq::empty()),
        DataPlaneError::SerdeJson { message } => (ErrorKind::SerdeJson, message@),
        DataPlaneError::Sqlx { message } => (ErrorKind::Sqlx, message@),
    }
}

/// A result as its success value's view or its error's view.
pub open spec fn unit_result_view(r: DataPlaneResult<()>) -> Result<(), (ErrorKind, Seq<char>)> {
    match r {
        Ok(_) => Ok(()),
        Err(e) => Err(error_view(e)),
    }
}

pub open spec fn string_result_view(r: DataPlaneResult<String>) -> Result<Seq<char>, (ErrorKind, Seq<char>)> {
    match r {
        Ok(s) => Ok(s@),
        Err(e) => Err(error_view(e)),
    }
}

impl DataPlaneError {
    /// The kind of the error.
    pub fn kind(&self) -> (kind: ErrorKind)
        ensures
            kind == error_view(*self).0,
    {
        match self {
            DataPlaneError::AlreadyExists { .. } => ErrorKind::AlreadyExists,
            DataPlaneError::Base64Decode { .. } => ErrorKind::Base64Decode,
            DataPlaneError::DatabaseConnection { .. } => ErrorKind::DatabaseConnection,
            DataPlaneError::FailedPrecondition { .. } => ErrorKind::FailedPrecondition,
            DataPlaneError::InvalidArgument { .. } => ErrorKind::InvalidArgument,
            DataPlaneError::InvalidUrl { .. } => ErrorKind::InvalidUrl,
            DataPlaneError::Migration { .. } => ErrorKind::Migration,
            DataPlaneError::NotFound { .. } => ErrorKind::NotFound,
            DataPlaneError::ResourceExhausted => ErrorKind::ResourceExhausted,
            DataPlaneError::SerdeJson { .. } => ErrorKind::SerdeJson,
            DataPlaneError::Sqlx { .. } => ErrorKind::Sqlx,
        }
    }
}

/// The text that describes an error.
pub open spec fn error_message(err: DataPlaneError) -> Seq<char> {
    match err {
        DataPlaneError::AlreadyExists { resource_id } => "Resource already exists: "@ + resource_id@,
        DataPlaneError::Base64Decode { message } => message@,
        DataPlaneError::DatabaseConnection { message } => message@,
        DataPlaneError::FailedPrecondition { message } => "Failed precondition: "@ + message@,
        DataPlaneError::InvalidArgument { message } => "Argument requirement not met: "@ + message@,
        DataPlaneError::InvalidUrl { message } => "Invalid URL for shortcut: "@ + message@,
        DataPlaneError::Migration { message } => message@,
        DataPlaneError::NotFound { resource_id } => "Resource not found: "@ + resource_id@,
        DataPlaneError::ResourceExhausted => "Request limit exceeded, try again shortly"@,
        DataPlaneError::SerdeJson { message } => message@,
        DataPlaneError::Sqlx { message } => message@,
    }
}

fn prefixed(prefix: &str, text: &String) -> (joined: String)
    ensures
        joined@ == prefix@ + text@,
{
    let mut joined = String::from_str(prefix);
    joined.append(text.as_str());
    joined
}

impl DataPlaneError {
    /// The text that describes the error.
    pub fn to_message(&self) -> (message: String)
        ensures
            message@ == error_message(*self),
    {
        match self {
            DataPlaneError::AlreadyExists { resource_id } => prefixed("Resource already exists: ", resource_id),
            DataPlaneError::Base64Decode { message } => message.clone(),
            DataPlaneError::DatabaseConnection { message } => message.clone(),
            DataPlaneError::FailedPrecondition { message } => prefixed("Failed precondition: ", message),
            DataPlaneError::InvalidArgument { message } => prefixed("Argument requirement not met: ", message),
            DataPlaneError::InvalidUrl { message } => prefixed("Invalid URL for shortcut: ", message),
            DataPlaneError::Migration { message } => message.clone(),
            DataPlaneError::NotFound { resource_id } => prefixed("Resource not found: ", resource_id),
            DataPlaneError::ResourceExhausted => "Request limit exceeded, try again shortly".to_owned(),
            DataPlaneError::SerdeJson { message } => message.clone(),
            DataPlaneError::Sqlx { message } => message.clone(),
        }
    }
}

/// The status codes of the control plane's RPC interface that data plane errors map to.
#[derive(Debug, Clone, Copy, PartialEq, Eq, Structural)]
pub enum RpcCode {
    AlreadyExists,
    FailedPrecondition,
    Internal,
    InvalidArgument,
    NotFound,
    ResourceExhausted,
}

/// An RPC status: a code and a message.
#[derive(Debug, Clone, PartialEq, Eq)]
pub struct RpcStatus {
    pub code: RpcCode,
    pub message: String,
}

/// The RPC status an error maps to: its code, and the message shown to callers.
/// Internal details (database, environment and serialization errors) are not shown.
pub open spec fn rpc_status_of(err: DataPlaneError) -> (RpcCode, Seq<char>) {
    match err {
        DataPlaneError::AlreadyExists { resource_id } => (RpcCode::AlreadyExists, resource_id@),
        DataPlaneError::Base64Decode { .. } => (RpcCode::InvalidArgument, "Invalid continuation token"@),
        DataPlaneError::DatabaseConnection { .. } => (RpcCode::Internal, "Internal error"@),
        DataPlaneError::FailedPrecondition { message } => (RpcCode::FailedPrecondition, message@),
        DataPlaneError::InvalidArgument { message } => (RpcCode::InvalidArgument, message@),
        DataPlaneError::InvalidUrl { .. } => (RpcCode::InvalidArgument, "Invalid URL for shortcut"@),
        DataPlaneError::Migration { .. } => (RpcCode::Internal, "Internal error"@),
        DataPlaneError::NotFound { resource_id } => (RpcCode::NotFound, resource_id@),
        DataPlaneError::ResourceExhausted => (
            RpcCode::ResourceExhausted,
            "Request limit exceeded, try again shortly"@,
        ),
        DataPlaneError::SerdeJson { .. } => (RpcCode::Internal, "Internal error"@),
        DataPlaneError::Sqlx { .. } => (RpcCode::Internal, "Internal error"@),
    }
}

impl RpcStatus {
    pub fn new(code: RpcCode, message: &str) -> (status: Self)
        ensures
            status.code == code,
            status.message@ == message@,
    {
        RpcStatus { code, message: message.to_owned() }
    }

    /// The RPC status a data plane error maps to.
    pub fn from_data_plane_error(err: DataPlaneError) -> (status: Self)
        ensures
            (status.code, status.message@) == rpc_status_of(err),
    {
        match err {
            DataPlaneError::AlreadyExists { resource_id } => RpcStatus {
                code: RpcCode::AlreadyExists,
                message: resource_id,
            },
            DataPlaneError::Base64Decode { .. } => RpcStatus::new(
                RpcCode::InvalidArgument,
                "Invalid continuation token",
            ),
            DataPlaneError::DatabaseConnection { .. } => RpcStatus::new(RpcCode::Internal, "Internal error"),
            DataPlaneError::FailedPrecondition { message } => RpcStatus {
                code: RpcCode::FailedPrecondition,
                message,
            },
            DataPlaneError::InvalidArgument { message } => RpcStatus {
                code: RpcCode::InvalidArgument,
                message,
            },
            DataPlaneError::InvalidUrl { .. } => RpcStatus::new(
                RpcCode::InvalidArgument,
                "Invalid URL for shortcut",
            ),
            DataPlaneError::Migration { .. } => RpcStatus::new(RpcCode::Internal, "Internal error"),
            DataPlaneError::NotFound { resource_id } => RpcStatus {
                code: RpcCode::NotFound,
                message: resource_id,
            },
            DataPlaneError::ResourceExhausted => RpcStatus::new(
                RpcCode::ResourceExhausted,
                "Request limit exceeded, try again shortly",
            ),
            DataPlaneError::SerdeJson { .. } => RpcStatus::new(RpcCode::Internal, "Internal error"),
            DataPlaneError::Sqlx { .. } => RpcStatus::new(RpcCode::Internal, "Internal error"),
        }
    }
}

/// The RPC code of an error follows its kind: an existing resource is `AlreadyExists`,
/// a missing one `NotFound`, an unmet precondition `FailedPrecondition`, a bad argument,
/// URL or continuation token `InvalidArgument`, an exceeded limit `ResourceExhausted`;
/// only database, environment and serialization errors are `Internal`, and they show no
/// detail. The resource or message of an existing or missing resource, an unmet
/// precondition or a bad argument is shown as it is.
pub proof fn lemma_rpc_code_follows_kind(err: DataPlaneError)
    ensures
        ({
            let (kind, text) = error_view(err);
            let (code, message) = rpc_status_of(err);
            &&& kind == ErrorKind::AlreadyExists ==> code == RpcCode::AlreadyExists && message == text
            &&& kind == ErrorKind::NotFound ==> code == RpcCode::NotFound && message == text
            &&& kind == ErrorKind::FailedPrecondition ==> code == RpcCode::FailedPrecondition && message == text
            &&& kind == ErrorKind::InvalidArgument ==> code == RpcCode::InvalidArgument && message == text
            &&& (kind == ErrorKind::InvalidUrl || kind == ErrorKind::Base64Decode) ==> code
                == RpcCode::InvalidArgument
            &&& kind == ErrorKind::ResourceExhausted ==> code == RpcCode::ResourceExhausted
            &&& code == RpcCode::Internal <==> (kind == ErrorKind::Sqlx || kind == ErrorKind::Migration || kind
                == ErrorKind::SerdeJson || kind == ErrorKind::DatabaseConnection)
            &&& code == RpcCode::Internal ==> message == "Internal error"@
            &&& kind == ErrorKind::InvalidUrl ==> message == "Invalid URL for shortcut"@
            &&& kind == ErrorKind::Base64Decode ==> message == "Invalid continuation token"@
            &&& kind == ErrorKind::ResourceExhausted ==> message == "Request limit exceeded, try again shortly"@
        }),
{
}

} // verus!
