//! The messages of the schema registry service. Definitions, materializer
//! options and field definitions travel as JSON bytes or text, in requests
//! and in replies; the relations and filters of a view are held as the
//! registry stores them.
use vstd::prelude::*;
use crate::json::JsonValue;
use crate::types::view::Relation;

verus! {

/// A schema type as the wire carries it: its enumeration value.
pub struct SchemaType {
    pub schema_type: i32,
}

/// A request to add a schema; `definition` is JSON text.
pub struct NewSchema {
    pub name: String,
    pub insert_destination: String,
    pub query_address: String,
    pub schema_type: SchemaType,
    pub definition: Vec<u8>,
}

/// A schema in a reply; `definition` is JSON bytes.
pub struct Schema {
    pub id: String,
    pub name: String,
    pub insert_destination: String,
    pub query_address: String,
    pub schema_type: SchemaType,
    pub definition: Vec<u8>,
}

/// A schema with its views, in a reply; `definition` is JSON bytes.
pub struct FullSchema {
    pub id: String,
    pub name: String,
    pub insert_destination: String,
    pub query_address: String,
    pub schema_type: SchemaType,
    pub definition: Vec<u8>,
    pub views: Vec<View>,
}

/// A request to update a schema; `definition`, when given, is JSON text.
pub struct SchemaUpdate {
    pub id: String,
    pub name: Option<String>,
    pub insert_destination: Option<String>,
    pub query_address: Option<String>,
    pub schema_type: Option<SchemaType>,
    pub definition: Option<Vec<u8>>,
}

/// A view of a schema, in a reply; the materializer options and each field
/// definition are JSON text.
pub struct View {
    pub id: String,
    pub name: String,
    pub materializer_address: String,
    pub materializer_options: String,
    pub fields: Vec<(String, String)>,
    pub filters: Option<JsonValue>,
    pub relations: Vec<Relation>,
}

/// A view with the id of its schema, in a reply; the materializer options
/// and each field definition are JSON text.
pub struct FullView {
    pub id: String,
    pub base_schema_id: String,
    pub name: String,
    pub materializer_address: String,
    pub materializer_options: String,
    pub fields: Vec<(String, String)>,
    pub filters: Option<JsonValue>,
    pub relations: Vec<Relation>,
}

/// A request to add a view; the materializer options and each field
/// definition are JSON text.
pub struct NewView {
    pub view_id: Option<String>,
    pub base_schema_id: String,
    pub name: String,
    pub materializer_address: String,
    pub materializer_options: String,
    pub fields: Vec<(String, String)>,
    pub filters: Option<JsonValue>,
    pub relations: Vec<Relation>,
}

/// A request to update a view. The fields, relations and filters are
/// replaced only when their flag is set; the materializer options, JSON
/// text, only when they are not empty.
pub struct ViewUpdate {
    pub id: String,
    pub name: Option<String>,
    pub materializer_address: Option<String>,
    pub materializer_options: String,
    pub fields: Vec<(String, String)>,
    pub update_fields: bool,
    pub filters: Option<JsonValue>,
    pub relations: Vec<Relation>,
    pub update_filters: bool,
    pub update_relations: bool,
}

/// An id.
pub struct Id {
    pub id: String,
}

/// Schemas, in a reply.
pub struct Schemas {
    pub schemas: Vec<Schema>,
}

/// Schemas with their views, in a reply.
pub struct FullSchemas {
    pub schemas: Vec<FullSchema>,
}

/// Views, in a reply.
pub struct SchemaViews {
    pub views: Vec<FullView>,
}

/// A request to check a value (JSON text) against a schema.
pub struct ValueToValidate {
    pub schema_id: String,
    pub value: Vec<u8>,
}

/// The messages of a check; none when the value is valid.
pub struct Errors {
    pub errors: Vec<String>,
}

/// No content.
pub struct Empty {}

} // verus!
