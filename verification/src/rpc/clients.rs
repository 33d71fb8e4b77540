//! Where the gRPC clients connect: each pool of connections is made by a
//! manager that knows the service's address.
use vstd::prelude::*;

verus! {

/// Makes connections to the edge registry.
pub struct EdgeRegistryConnectionManager {
    pub address: String,
}

/// Makes connections to the on-demand materializer.
pub struct OnDemandMaterializerConnectionManager {
    pub address: String,
}

/// Makes connections to the schema registry.
pub struct SchemaRegistryConnectionManager {
    pub address: String,
}

} // verus!
