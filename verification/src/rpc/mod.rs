pub mod common;
pub mod common_types;
pub mod edge_registry_types;
pub mod schema_registry_types;
pub mod routing;
pub mod schema_registry;
pub mod clients;
pub mod error;
