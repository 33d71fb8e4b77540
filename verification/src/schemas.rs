//! Field definitions of a schema: what the data stored under a schema must
//! look like.
use vstd::prelude::*;
use crate::rpc::schema_registry_types::ScalarType;

verus! {

/// The type of a field: a scalar, an object with named fields, or an array
/// of items of one type. The fields of an object are checked in the order
/// they are listed.
pub enum SchemaFieldType {
    Scalar(ScalarType),
    Object(Vec<(String, SchemaFieldDefinition)>),
    Array(Box<SchemaFieldDefinition>),
}

/// A field definition: its type and whether it may be missing or null.
pub struct SchemaFieldDefinition {
    pub optional: bool,
    pub field_type: SchemaFieldType,
}

/// No two of the fields have the same name, as in the map of field
/// definitions that a schema is written as.
pub open spec fn distinct_names(fields: Seq<(String, SchemaFieldDefinition)>) -> bool {
    forall|i: int, j: int| 0 <= i < j < fields.len() ==> #[trigger] fields[i].0@ != #[trigger] fields[j].0@
}

/// Every object in the definition, at any depth, has fields with distinct
/// names.
pub open spec fn well_keyed(def: SchemaFieldDefinition) -> bool
    decreases def,
{
    match def.field_type {
        SchemaFieldType::Scalar(_) => true,
        SchemaFieldType::Object(fields) => distinct_names(fields@) && forall|i: int|
            #![trigger fields@[i]]
            0 <= i < fields@.len() ==> well_keyed(fields@[i].1),
        SchemaFieldType::Array(item) => well_keyed(*item),
    }
}

/// The field definitions of a schema form a map: distinct names at the top
/// and in every nested object.
pub open spec fn well_keyed_schema(fields: Seq<(String, SchemaFieldDefinition)>) -> bool {
    &&& distinct_names(fields)
    &&& forall|i: int| #![trigger fields[i]] 0 <= i < fields.len() ==> well_keyed(fields[i].1)
}

} // verus!
