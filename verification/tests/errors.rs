use schema_registry::error::{
    join_with_commas, validation_outcome, CacheError, Code, RegistryClientError, RegistryError, Status, VersionedUuid,
};
use schema_registry::rpc::error::ClientError;

const ID: u128 = 0x2cfad3c7_411a_11eb_8000_000000000000;

fn s(text: &str) -> String {
    text.to_string()
}

#[test]
fn join_with_commas_joins() {
    assert_eq!(join_with_commas(&vec![s("a"), s("b"), s("c")]), "a, b, c");
    assert_eq!(join_with_commas(&vec![s("only")]), "only");
    assert_eq!(join_with_commas(&vec![]), "");
}

#[test]
fn not_found_errors() {
    let e = RegistryError::NoSchemaWithId(ID);
    assert_eq!(e.message(), "No schema found with id \"2cfad3c7-411a-11eb-8000-000000000000\"");
    assert_eq!(e.status_code(), Code::NotFound);
    let e = RegistryError::NoViewWithId(ID);
    assert_eq!(e.message(), "No view found with id \"2cfad3c7-411a-11eb-8000-000000000000\"");
    let st = RegistryError::NoInsertDestination(s("topic")).into_status();
    assert_eq!(st.code, Code::NotFound);
    assert_eq!(st.message, "No insert destination found named \"topic\"");
}

#[test]
fn invalid_argument_errors() {
    let st = RegistryError::InvalidData(vec![s("x"), s("y")]).into_status();
    assert_eq!(st.code, Code::InvalidArgument);
    assert_eq!(st.message, "Input data does not match schema: x, y");
    let st = RegistryError::InvalidSchemaType.into_status();
    assert_eq!(st.code, Code::InvalidArgument);
    assert_eq!(st.message, "Given schema type is invalid");
    let e = RegistryError::NoVersionMatchesRequirement(VersionedUuid { id: ID, version_req: s("^1.0") });
    assert_eq!(
        e.message(),
        "No version of schema with id 2cfad3c7-411a-11eb-8000-000000000000 matches the given requirement ^1.0"
    );
    let e = RegistryError::NewVersionMustBeGreatest { schema_id: ID, max_version: s("2.0.0") };
    assert_eq!(
        e.message(),
        "New schema version for schema with id 2cfad3c7-411a-11eb-8000-000000000000 must be greater than the current max 2.0.0"
    );
    assert_eq!(e.status_code(), Code::InvalidArgument);
    assert_eq!(RegistryError::InvalidJsonSchema(s("bad")).message(), "Invalid JSON schema: bad");
    assert_eq!(RegistryError::InvalidVersion(s("v")).status_code(), Code::InvalidArgument);
}

#[test]
fn internal_errors() {
    let st = RegistryError::DbError(s("gone")).into_status();
    assert_eq!(st.code, Code::Internal);
    assert_eq!(st.message, "Error occurred while accessing database: gone");
    assert_eq!(RegistryError::ConnectionError(s("x")).message(), "Unable to connect to database: x");
    assert_eq!(RegistryError::CacheError(s("plain")).message(), "plain");
    assert_eq!(RegistryError::MQError(s("queue")).status_code(), Code::Internal);
    assert_eq!(
        RegistryError::MalformedViewFilters(s("e")).message(),
        "JSON error processing view filters: e"
    );
    assert_eq!(
        RegistryError::MalformedViewRelations(s("e")).message(),
        "JSON error processing view relations: e"
    );
    assert_eq!(RegistryError::NotificationError(s("n")).message(), "Error receiving notification from database: n");
    assert_eq!(RegistryError::MalformedNotification(s("m")).message(), "Malformed notification payload: m");
}

#[test]
fn code_numbers() {
    assert_eq!(Code::Unknown.number(), 2);
    assert_eq!(Code::InvalidArgument.number(), 3);
    assert_eq!(Code::NotFound.number(), 5);
    assert_eq!(Code::Unimplemented.number(), 12);
    assert_eq!(Code::Internal.number(), 13);
}

#[test]
fn client_error_messages() {
    assert_eq!(
        ClientError::ConnectionError { source: s("refused") }.message(),
        "Failed to connect to: refused"
    );
    assert_eq!(
        ClientError::TimeoutError { service: s("schema registry") }.message(),
        "Timed out trying to connect to schema registry. Is the service up?"
    );
    let q = ClientError::QueryError { source: Status { code: Code::Internal, message: s("boom") } };
    assert_eq!(q.message(), "Error during query: boom");
}

#[test]
fn cache_error_messages() {
    assert_eq!(CacheError::MissingSchema.message(), "Missing schema");
    assert_eq!(CacheError::MalformedSchema.message(), "Malformed schema");
    let c = CacheError::ConnectionError(ClientError::ConnectionError { source: s("x") });
    assert_eq!(c.message(), "Failed to connect to schema registry: Failed to connect to: x");
    let r = CacheError::RegistryError(Status { code: Code::NotFound, message: s("nope") });
    assert_eq!(r.message(), "Error returned from schema registry: nope");
    let u = CacheError::SchemaUpdateReceiveError(Status { code: Code::Internal, message: s("cut") });
    assert_eq!(u.message(), "Failed to receive schema update: cut");
}

#[test]
fn validation_outcome_of_client() {
    assert!(validation_outcome(vec![]).is_ok());
    match validation_outcome(vec![s("e1"), s("e2")]) {
        Err(RegistryClientError::InvalidData(errors)) => assert_eq!(errors, vec![s("e1"), s("e2")]),
        _ => panic!("expected invalid data"),
    }
}
