//! The errors of the schema registry, their messages, and the gRPC status
//! that each is answered with.
use vstd::prelude::*;
use crate::ids::{uuid_text, uuid_to_string};
use crate::rpc::error::{ClientError, client_error_text};
use crate::text::{join_strings, join_with, views};

verus! {

/// A schema id together with the version requirement that no version of it
/// met.
pub struct VersionedUuid {
    pub id: u128,
    pub version_req: String,
}

/// An error of the schema registry. Where the cause is an error of a
/// database driver, a JSON library or a message queue, it is held by its
/// message.
pub enum RegistryError {
    ConnectionError(String),
    DbError(String),
    NoSchemaWithId(u128),
    NoViewWithId(u128),
    NoInsertDestination(String),
    InvalidSchemaType,
    InvalidVersion(String),
    NoVersionMatchesRequirement(VersionedUuid),
    NewVersionMustBeGreatest { schema_id: u128, max_version: String },
    InvalidData(Vec<String>),
    InvalidJsonSchema(String),
    NotificationError(String),
    MalformedNotification(String),
    CacheError(String),
    MQError(String),
    MalformedViewFields(String),
    MalformedViewFilters(String),
    MalformedViewRelations(String),
}

/// The result of an operation of the registry.
pub type RegistryResult<T> = Result<T, RegistryError>;

/// The gRPC status codes that the registry answers with.
#[derive(Clone, Copy, Debug, PartialEq, Eq, Structural)]
pub enum Code {
    Unknown,
    InvalidArgument,
    NotFound,
    Unimplemented,
    Internal,
}

/// The number of a gRPC status code.
pub open spec fn code_number(c: Code) -> int {
    match c {
        Code::Unknown => 2,
        Code::InvalidArgument => 3,
        Code::NotFound => 5,
        Code::Unimplemented => 12,
        Code::Internal => 13,
    }
}

impl Code {
    /// The number of the status code, as sent in the `grpc-status` header.
    pub fn number(self) -> (res: i32)
        ensures
            res == code_number(self),
    {
        match self {
            Code::Unknown => 2,
            Code::InvalidArgument => 3,
            Code::NotFound => 5,
            Code::Unimplemented => 12,
            Code::Internal => 13,
        }
    }
}

/// A gRPC status: a code and a message.
pub struct Status {
    pub code: Code,
    pub message: String,
}

/// The messages joined with `", "`.
pub open spec fn commas(errors: Seq<String>) -> Seq<char> {
    join_with(views(errors), ", "@)
}

/// Joins error messages with `", "`.
pub fn join_with_commas(errors: &Vec<String>) -> (res: String)
    ensures
        res@ == commas(errors@),
{
    join_strings(errors, ", ")
}

/// The message of an error (its `Display` text).
pub open spec fn registry_error_text(e: RegistryError) -> Seq<char> {
    match e {
        RegistryError::ConnectionError(m) => "Unable to connect to database: "@ + m@,
        RegistryError::DbError(m) => "Error occurred while accessing database: "@ + m@,
        RegistryError::NoSchemaWithId(id) => "No schema found with id \""@ + uuid_text(id) + "\""@,
        RegistryError::NoViewWithId(id) => "No view found with id \""@ + uuid_text(id) + "\""@,
        RegistryError::NoInsertDestination(d) => "No insert destination found named \""@ + d@ + "\""@,
        RegistryError::InvalidSchemaType => "Given schema type is invalid"@,
        RegistryError::InvalidVersion(m) => "Invalid version retrieved from database: "@ + m@,
        RegistryError::NoVersionMatchesRequirement(v) => "No version of schema with id "@
            + uuid_text(v.id) + " matches the given requirement "@ + v.version_req@,
        RegistryError::NewVersionMustBeGreatest { schema_id, max_version } =>
            "New schema version for schema with id "@ + uuid_text(schema_id)
                + " must be greater than the current max "@ + max_version@,
        RegistryError::InvalidData(errors) => "Input data does not match schema: "@ + commas(errors@),
        RegistryError::InvalidJsonSchema(m) => "Invalid JSON schema: "@ + m@,
        RegistryError::NotificationError(m) => "Error receiving notification from database: "@ + m@,
        RegistryError::MalformedNotification(m) => "Malformed notification payload: "@ + m@,
        RegistryError::CacheError(m) => m@,
        RegistryError::MQError(m) => m@,
        RegistryError::MalformedViewFields(m) => "JSON error processing view fields: "@ + m@,
        RegistryError::MalformedViewFilters(m) => "JSON error processing view filters: "@ + m@,
        RegistryError::MalformedViewRelations(m) => "JSON error processing view relations: "@ + m@,
    }
}

/// The status code that an error is answered with: not found for a missing
/// schema, view or insert destination; invalid argument for what the caller
/// sent wrong; internal for everything else.
pub open spec fn registry_error_code(e: RegistryError) -> Code {
    match e {
        RegistryError::NoInsertDestination(_)
        | RegistryError::NoSchemaWithId(_)
        | RegistryError::NoViewWithId(_) => Code::NotFound,
        RegistryError::InvalidSchemaType
        | RegistryError::NewVersionMustBeGreatest { .. }
        | RegistryError::InvalidVersion(_)
        | RegistryError::NoVersionMatchesRequirement(_)
        | RegistryError::InvalidData(_)
        | RegistryError::InvalidJsonSchema(_) => Code::InvalidArgument,
        _ => Code::Internal,
    }
}

fn prefixed(prefix: &str, rest: &str) -> (res: String)
    ensures
        res@ == prefix@ + rest@,
{
    let mut s = String::from_str(prefix);
    s.append(rest);
    s
}

fn quoted(prefix: &str, middle: &str) -> (res: String)
    ensures
        res@ == prefix@ + middle@ + "\""@,
{
    let mut s = String::from_str(prefix);
    s.append(middle);
    s.append("\"");
    s
}

impl RegistryError {
    /// The message of the error (its `Display` text).
    pub fn message(&self) -> (res: String)
        ensures
            res@ == registry_error_text(*self),
    {
        match self {
            RegistryError::ConnectionError(m) => prefixed("Unable to connect to database: ", m.as_str()),
            RegistryError::DbError(m) => prefixed("Error occurred while accessing database: ", m.as_str()),
            RegistryError::NoSchemaWithId(id) => {
                let t = uuid_to_string(*id);
                quoted("No schema found with id \"", t.as_str())
            },
            RegistryError::NoViewWithId(id) => {
                let t = uuid_to_string(*id);
                quoted("No view found with id \"", t.as_str())
            },
            RegistryError::NoInsertDestination(d) => quoted("No insert destination found named \"", d.as_str()),
            RegistryError::InvalidSchemaType => String::from_str("Given schema type is invalid"),
            RegistryError::InvalidVersion(m) => prefixed("Invalid version retrieved from database: ", m.as_str()),
            RegistryError::NoVersionMatchesRequirement(v) => {
                let t = uuid_to_string(v.id);
                let mut s = prefixed("No version of schema with id ", t.as_str());
                s.append(" matches the given requirement ");
                s.append(v.version_req.as_str());
                s
            },
            RegistryError::NewVersionMustBeGreatest { schema_id, max_version } => {
                let t = uuid_to_string(*schema_id);
                let mut s = prefixed("New schema version for schema with id ", t.as_str());
                s.append(" must be greater than the current max ");
                s.append(max_version.as_str());
                s
            },
            RegistryError::InvalidData(errors) => {
                let j = join_with_commas(errors);
                prefixed("Input data does not match schema: ", j.as_str())
            },
            RegistryError::InvalidJsonSchema(m) => prefixed("Invalid JSON schema: ", m.as_str()),
            RegistryError::NotificationError(m) => prefixed("Error receiving notification from database: ", m.as_str()),
            RegistryError::MalformedNotification(m) => prefixed("Malformed notification payload: ", m.as_str()),
            RegistryError::CacheError(m) => m.clone(),
            RegistryError::MQError(m) => m.clone(),
            RegistryError::MalformedViewFields(m) => prefixed("JSON error processing view fields: ", m.as_str()),
            RegistryError::MalformedViewFilters(m) => prefixed("JSON error processing view filters: ", m.as_str()),
            RegistryError::MalformedViewRelations(m) => prefixed("JSON error processing view relations: ", m.as_str()),
        }
    }

    /// The status code the error is answered with.
    pub fn status_code(&self) -> (res: Code)
        ensures
            res == registry_error_code(*self),
    {
        match self {
            RegistryError::NoInsertDestination(_)
            | RegistryError::NoSchemaWithId(_)
            | RegistryError::NoViewWithId(_) => Code::NotFound,
            RegistryError::InvalidSchemaType
            | RegistryError::NewVersionMustBeGreatest { .. }
            | RegistryError::InvalidVersion(_)
            | RegistryError::NoVersionMatchesRequirement(_)
            | RegistryError::InvalidData(_)
            | RegistryError::InvalidJsonSchema(_) => Code::InvalidArgument,
            _ => Code::Internal,
        }
    }

    /// The gRPC status the error is answered with (`From<RegistryError> for
    /// Status`): its code and its message.
    pub fn into_status(self) -> (res: Status)
        ensures
            res.code == registry_error_code(self),
            res.message@ == registry_error_text(self),
    {
        let code = self.status_code();
        let message = self.message();
        Status { code, message }
    }
}

/// An error of the schema cache: the registry could not be reached, it
/// answered with an error status, the schema is missing or malformed, or an
/// update could not be received.
pub enum CacheError {
    ConnectionError(ClientError),
    RegistryError(Status),
    MissingSchema,
    MalformedSchema,
    SchemaUpdateReceiveError(Status),
}

/// The result of an operation of the schema cache.
pub type CacheResult<T> = Result<T, CacheError>;

/// The message of a cache error. A status is shown by its message.
pub open spec fn cache_error_text(e: CacheError) -> Seq<char> {
    match e {
        CacheError::ConnectionError(c) => "Failed to connect to schema registry: "@ + client_error_text(c),
        CacheError::RegistryError(s) => "Error returned from schema registry: "@ + s.message@,
        CacheError::MissingSchema => "Missing schema"@,
        CacheError::MalformedSchema => "Malformed schema"@,
        CacheError::SchemaUpdateReceiveError(s) => "Failed to receive schema update: "@ + s.message@,
    }
}

impl CacheError {
    /// The message of the error.
    pub fn message(&self) -> (res: String)
        ensures
            res@ == cache_error_text(*self),
    {
        match self {
            CacheError::ConnectionError(c) => {
                let m = c.message();
                prefixed("Failed to connect to schema registry: ", m.as_str())
            },
            CacheError::RegistryError(s) => prefixed("Error returned from schema registry: ", s.message.as_str()),
            CacheError::MissingSchema => String::from_str("Missing schema"),
            CacheError::MalformedSchema => String::from_str("Malformed schema"),
            CacheError::SchemaUpdateReceiveError(s) => prefixed("Failed to receive schema update: ", s.message.as_str()),
        }
    }
}

/// An error of a client of the registry: it could not connect, the call was
/// answered with an error status, the value could not be written as JSON,
/// or the registry found the value invalid, with its reasons.
pub enum RegistryClientError {
    ClientError(ClientError),
    QueryError(Status),
    JsonError(String),
    InvalidData(Vec<String>),
}

/// What a client makes of the registry's answer to a validation request:
/// the value is valid when the registry found no error.
pub fn validation_outcome(errors: Vec<String>) -> (res: Result<(), RegistryClientError>)
    ensures
        errors@.len() == 0 ==> res is Ok,
        errors@.len() > 0 ==> (res matches Err(RegistryClientError::InvalidData(e)) && e@ == errors@),
{
    if errors.len() == 0 {
        Ok(())
    } else {
        Err(RegistryClientError::InvalidData(errors))
    }
}

} // verus!
