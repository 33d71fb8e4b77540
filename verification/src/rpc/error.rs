//! The errors of the gRPC clients.
use vstd::prelude::*;
use crate::error::Status;

verus! {

/// An error of a gRPC client: the connection failed (held by the
/// transport's message), the service did not answer in time, or the query
/// was answered with an error status.
pub enum ClientError {
    ConnectionError { source: String },
    TimeoutError { service: String },
    QueryError { source: Status },
}

/// The message of a client error. A status is shown by its message.
pub open spec fn client_error_text(e: ClientError) -> Seq<char> {
    match e {
        ClientError::ConnectionError { source } => "Failed to connect to: "@ + source@,
        ClientError::TimeoutError { service } => "Timed out trying to connect to "@ + service@
            + ". Is the service up?"@,
        ClientError::QueryError { source } => "Error during query: "@ + source.message@,
    }
}

impl ClientError {
    /// The message of the error.
    pub fn message(&self) -> (res: String)
        ensures
            res@ == client_error_text(*self),
    {
        match self {
            ClientError::ConnectionError { source } => {
                let mut s = String::from_str("Failed to connect to: ");
                s.append(source.as_str());
                s
            },
            ClientError::TimeoutError { service } => {
                let mut s = String::from_str("Timed out trying to connect to ");
                s.append(service.as_str());
                s.append(". Is the service up?");
                s
            },
            ClientError::QueryError { source } => {
                let mut s = String::from_str("Error during query: ");
                s.append(source.message.as_str());
                s
            },
        }
    }
}

} // verus!
