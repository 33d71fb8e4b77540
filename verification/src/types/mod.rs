//! The records the registry stores, exchanges and exports: schemas, views,
//! and the export of the whole database.
use vstd::prelude::*;
use crate::json::JsonValue;
use crate::rpc::schema_registry_types::SchemaType;
use self::view::View as ExportedView;

pub mod schema;
pub mod storage;
pub mod view;

verus! {

/// The export of the whole registry: every schema with its views.
pub struct DbExport {
    pub schemas: Vec<ExportSchema>,
}

/// A schema as it is exported, with its views.
pub struct ExportSchema {
    pub id: u128,
    pub name: String,
    pub insert_destination: String,
    pub query_address: String,
    pub schema_type: SchemaType,
    pub definition: JsonValue,
    pub views: Vec<ExportedView>,
}

} // verus!
