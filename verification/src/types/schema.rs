//! Schemas: the stored record, a new schema, an update of one, and a schema
//! together with its views.
use vstd::prelude::*;
use crate::json::JsonValue;
use crate::rpc::schema_registry_types::SchemaType;
use crate::types::view::FullView;

verus! {

/// A stored schema.
pub struct Schema {
    pub id: u128,
    pub name: String,
    pub insert_destination: String,
    pub query_address: String,
    pub schema_type: SchemaType,
    pub definition: JsonValue,
}

/// A schema to be added; the registry gives it its id.
pub struct NewSchema {
    pub name: String,
    pub insert_destination: String,
    pub query_address: String,
    pub schema_type: SchemaType,
    pub definition: JsonValue,
}

/// An update of a schema: each field that is given replaces the stored one.
pub struct SchemaUpdate {
    pub name: Option<String>,
    pub insert_destination: Option<String>,
    pub query_address: Option<String>,
    pub schema_type: Option<SchemaType>,
    pub definition: Option<JsonValue>,
}

/// A schema together with the views built on it.
pub struct FullSchema {
    pub id: u128,
    pub name: String,
    pub insert_destination: String,
    pub query_address: String,
    pub schema_type: SchemaType,
    pub definition: JsonValue,
    pub views: Vec<FullView>,
}

} // verus!
