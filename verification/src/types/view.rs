//! Views: a stored view with the schema it is built on, a view as it is
//! exported under its schema, a new view, an update of one, and the
//! relations a view follows.
use vstd::prelude::*;
use crate::json::JsonValue;
use crate::rpc::common_types::SearchFor;

verus! {

/// A relation that a view follows: the relation's global id, its local id
/// within the view, the direction to search in, and the relations nested
/// under it.
pub struct Relation {
    pub global_id: u128,
    pub local_id: u32,
    pub search_for: SearchFor,
    pub relations: Vec<Relation>,
}

/// A stored view. Its field definitions (field name, definition document)
/// and its filter are JSON documents that the materializers read.
pub struct FullView {
    pub id: u128,
    pub base_schema: u128,
    pub name: String,
    pub materializer_address: String,
    pub materializer_options: JsonValue,
    pub fields: Vec<(String, JsonValue)>,
    pub relations: Vec<Relation>,
    pub filters: Option<JsonValue>,
}

/// A view as it is exported under its schema (without the schema's id).
pub struct View {
    pub id: u128,
    pub name: String,
    pub materializer_address: String,
    pub materializer_options: JsonValue,
    pub fields: Vec<(String, JsonValue)>,
    pub relations: Vec<Relation>,
    pub filters: Option<JsonValue>,
}

/// A view to be added to a schema, with the id it asks for, if any.
pub struct NewView {
    pub view_id: Option<u128>,
    pub base_schema_id: u128,
    pub name: String,
    pub materializer_address: String,
    pub materializer_options: JsonValue,
    pub fields: Vec<(String, JsonValue)>,
    pub relations: Vec<Relation>,
    pub filters: Option<JsonValue>,
}

/// An update of a view: each field that is given replaces the stored one.
pub struct ViewUpdate {
    pub name: Option<String>,
    pub materializer_address: Option<String>,
    pub materializer_options: Option<JsonValue>,
    pub fields: Option<Vec<(String, JsonValue)>>,
    pub relations: Option<Vec<Relation>>,
    pub filters: Option<Option<JsonValue>>,
}

} // verus!
