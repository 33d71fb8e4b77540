//! Dispatching of the services' requests by request path. A request path
//! is `/` followed by the service's package and name, `/`, and the method
//! name; the server passes a request to the method its path names and
//! answers any other path as unimplemented.
use vstd::prelude::*;
use crate::error::{code_number, Code};
use crate::text::str_eq;

verus! {

/// Whether a method answers with one message or with a stream of them.
#[derive(Clone, Copy, Debug, PartialEq, Eq, Structural)]
pub enum CallKind {
    Unary,
    ServerStreaming,
}

/// The answer to a request whose path no method has: HTTP status 200, gRPC
/// status `Unimplemented`, content type `application/grpc`, empty body.
pub struct UnimplementedReply {
    pub http_status: u16,
    pub grpc_status: Code,
    pub content_type: String,
}

/// The reply for a path that no method of the service has.
pub fn unimplemented_reply() -> (res: UnimplementedReply)
    ensures
        res.http_status == 200,
        res.grpc_status == Code::Unimplemented,
        code_number(res.grpc_status) == 12,
        res.content_type@ == "application/grpc"@,
{
    UnimplementedReply {
        http_status: 200,
        grpc_status: Code::Unimplemented,
        content_type: String::from_str("application/grpc"),
    }
}

/// A method of the schema registry service.
#[derive(Clone, Copy, Debug, PartialEq, Eq, Structural)]
pub enum SchemaRegistryMethod {
    AddSchema,
    UpdateSchema,
    AddViewToSchema,
    UpdateView,
    GetSchema,
    GetFullSchema,
    GetView,
    GetAllSchemas,
    GetAllFullSchemas,
    GetAllViewsOfSchema,
    GetAllViewsByRelation,
    GetBaseSchemaOfView,
    ValidateValue,
    WatchAllSchemaUpdates,
    Heartbeat,
}

/// The request path of a method of the SchemaRegistry service.
pub open spec fn schema_registry_path(m: SchemaRegistryMethod) -> Seq<char> {
    match m {
        SchemaRegistryMethod::AddSchema => "/schema_registry.SchemaRegistry/AddSchema"@,
        SchemaRegistryMethod::UpdateSchema => "/schema_registry.SchemaRegistry/UpdateSchema"@,
        SchemaRegistryMethod::AddViewToSchema => "/schema_registry.SchemaRegistry/AddViewToSchema"@,
        SchemaRegistryMethod::UpdateView => "/schema_registry.SchemaRegistry/UpdateView"@,
        SchemaRegistryMethod::GetSchema => "/schema_registry.SchemaRegistry/GetSchema"@,
        SchemaRegistryMethod::GetFullSchema => "/schema_registry.SchemaRegistry/GetFullSchema"@,
        SchemaRegistryMethod::GetView => "/schema_registry.SchemaRegistry/GetView"@,
        SchemaRegistryMethod::GetAllSchemas => "/schema_registry.SchemaRegistry/GetAllSchemas"@,
        SchemaRegistryMethod::GetAllFullSchemas => "/schema_registry.SchemaRegistry/GetAllFullSchemas"@,
        SchemaRegistryMethod::GetAllViewsOfSchema => "/schema_registry.SchemaRegistry/GetAllViewsOfSchema"@,
        SchemaRegistryMethod::GetAllViewsByRelation => "/schema_registry.SchemaRegistry/GetAllViewsByRelation"@,
        SchemaRegistryMethod::GetBaseSchemaOfView => "/schema_registry.SchemaRegistry/GetBaseSchemaOfView"@,
        SchemaRegistryMethod::ValidateValue => "/schema_registry.SchemaRegistry/ValidateValue"@,
        SchemaRegistryMethod::WatchAllSchemaUpdates => "/schema_registry.SchemaRegistry/WatchAllSchemaUpdates"@,
        SchemaRegistryMethod::Heartbeat => "/schema_registry.SchemaRegistry/Heartbeat"@,
    }
}

/// How a method of the SchemaRegistry service answers.
pub open spec fn schema_registry_kind(m: SchemaRegistryMethod) -> CallKind {
    match m {
        SchemaRegistryMethod::AddSchema => CallKind::Unary,
        SchemaRegistryMethod::UpdateSchema => CallKind::Unary,
        SchemaRegistryMethod::AddViewToSchema => CallKind::Unary,
        SchemaRegistryMethod::UpdateView => CallKind::Unary,
        SchemaRegistryMethod::GetSchema => CallKind::Unary,
        SchemaRegistryMethod::GetFullSchema => CallKind::Unary,
        SchemaRegistryMethod::GetView => CallKind::Unary,
        SchemaRegistryMethod::GetAllSchemas => CallKind::Unary,
        SchemaRegistryMethod::GetAllFullSchemas => CallKind::Unary,
        SchemaRegistryMethod::GetAllViewsOfSchema => CallKind::Unary,
        SchemaRegistryMethod::GetAllViewsByRelation => CallKind::Unary,
        SchemaRegistryMethod::GetBaseSchemaOfView => CallKind::Unary,
        SchemaRegistryMethod::ValidateValue => CallKind::Unary,
        SchemaRegistryMethod::WatchAllSchemaUpdates => CallKind::ServerStreaming,
        SchemaRegistryMethod::Heartbeat => CallKind::Unary,
    }
}

/// The method that a request path names, if any.
pub open spec fn schema_registry_route(path: Seq<char>) -> Option<SchemaRegistryMethod> {
    if path == "/schema_registry.SchemaRegistry/AddSchema"@ {
        Some(SchemaRegistryMethod::AddSchema)
    } else if path == "/schema_registry.SchemaRegistry/UpdateSchema"@ {
        Some(SchemaRegistryMethod::UpdateSchema)
    } else if path == "/schema_registry.SchemaRegistry/AddViewToSchema"@ {
        Some(SchemaRegistryMethod::AddViewToSchema)
    } else if path == "/schema_registry.SchemaRegistry/UpdateView"@ {
        Some(SchemaRegistryMethod::UpdateView)
    } else if path == "/schema_registry.SchemaRegistry/GetSchema"@ {
        Some(SchemaRegistryMethod::GetSchema)
    } else if path == "/schema_registry.SchemaRegistry/GetFullSchema"@ {
        Some(SchemaRegistryMethod::GetFullSchema)
    } else if path == "/schema_registry.SchemaRegistry/GetView"@ {
        Some(SchemaRegistryMethod::GetView)
    } else if path == "/schema_registry.SchemaRegistry/GetAllSchemas"@ {
        Some(SchemaRegistryMethod::GetAllSchemas)
    } else if path == "/schema_registry.SchemaRegistry/GetAllFullSchemas"@ {
        Some(SchemaRegistryMethod::GetAllFullSchemas)
    } else if path == "/schema_registry.SchemaRegistry/GetAllViewsOfSchema"@ {
        Some(SchemaRegistryMethod::GetAllViewsOfSchema)
    } else if path == "/schema_registry.SchemaRegistry/GetAllViewsByRelation"@ {
        Some(SchemaRegistryMethod::GetAllViewsByRelation)
    } else if path == "/schema_registry.SchemaRegistry/GetBaseSchemaOfView"@ {
        Some(SchemaRegistryMethod::GetBaseSchemaOfView)
    } else if path == "/schema_registry.SchemaRegistry/ValidateValue"@ {
        Some(SchemaRegistryMethod::ValidateValue)
    } else if path == "/schema_registry.SchemaRegistry/WatchAllSchemaUpdates"@ {
        Some(SchemaRegistryMethod::WatchAllSchemaUpdates)
    } else if path == "/schema_registry.SchemaRegistry/Heartbeat"@ {
        Some(SchemaRegistryMethod::Heartbeat)
    } else {
        None
    }
}

impl SchemaRegistryMethod {
    /// The request path of the method.
    pub fn path(self) -> (res: String)
        ensures
            res@ == schema_registry_path(self),
    {
        match self {
            SchemaRegistryMethod::AddSchema => String::from_str("/schema_registry.SchemaRegistry/AddSchema"),
            SchemaRegistryMethod::UpdateSchema => String::from_str("/schema_registry.SchemaRegistry/UpdateSchema"),
            SchemaRegistryMethod::AddViewToSchema => String::from_str("/schema_registry.SchemaRegistry/AddViewToSchema"),
            SchemaRegistryMethod::UpdateView => String::from_str("/schema_registry.SchemaRegistry/UpdateView"),
            SchemaRegistryMethod::GetSchema => String::from_str("/schema_registry.SchemaRegistry/GetSchema"),
            SchemaRegistryMethod::GetFullSchema => String::from_str("/schema_registry.SchemaRegistry/GetFullSchema"),
            SchemaRegistryMethod::GetView => String::from_str("/schema_registry.SchemaRegistry/GetView"),
            SchemaRegistryMethod::GetAllSchemas => String::from_str("/schema_registry.SchemaRegistry/GetAllSchemas"),
            SchemaRegistryMethod::GetAllFullSchemas => String::from_str("/schema_registry.SchemaRegistry/GetAllFullSchemas"),
            SchemaRegistryMethod::GetAllViewsOfSchema => String::from_str("/schema_registry.SchemaRegistry/GetAllViewsOfSchema"),
            SchemaRegistryMethod::GetAllViewsByRelation => String::from_str("/schema_registry.SchemaRegistry/GetAllViewsByRelation"),
            SchemaRegistryMethod::GetBaseSchemaOfView => String::from_str("/schema_registry.SchemaRegistry/GetBaseSchemaOfView"),
            SchemaRegistryMethod::ValidateValue => String::from_str("/schema_registry.SchemaRegistry/ValidateValue"),
            SchemaRegistryMethod::WatchAllSchemaUpdates => String::from_str("/schema_registry.SchemaRegistry/WatchAllSchemaUpdates"),
            SchemaRegistryMethod::Heartbeat => String::from_str("/schema_registry.SchemaRegistry/Heartbeat"),
        }
    }

    /// Whether the method answers with one message or a stream.
    pub fn kind(self) -> (res: CallKind)
        ensures
            res == schema_registry_kind(self),
    {
        match self {
            SchemaRegistryMethod::AddSchema => CallKind::Unary,
            SchemaRegistryMethod::UpdateSchema => CallKind::Unary,
            SchemaRegistryMethod::AddViewToSchema => CallKind::Unary,
            SchemaRegistryMethod::UpdateView => CallKind::Unary,
            SchemaRegistryMethod::GetSchema => CallKind::Unary,
            SchemaRegistryMethod::GetFullSchema => CallKind::Unary,
            SchemaRegistryMethod::GetView => CallKind::Unary,
            SchemaRegistryMethod::GetAllSchemas => CallKind::Unary,
            SchemaRegistryMethod::GetAllFullSchemas => CallKind::Unary,
            SchemaRegistryMethod::GetAllViewsOfSchema => CallKind::Unary,
            SchemaRegistryMethod::GetAllViewsByRelation => CallKind::Unary,
            SchemaRegistryMethod::GetBaseSchemaOfView => CallKind::Unary,
            SchemaRegistryMethod::ValidateValue => CallKind::Unary,
            SchemaRegistryMethod::WatchAllSchemaUpdates => CallKind::ServerStreaming,
            SchemaRegistryMethod::Heartbeat => CallKind::Unary,
        }
    }

    /// The method that the server dispatches a request with this path to;
    /// `None` for a path the service does not have, which the server answers
    /// as unimplemented.
    pub fn route(path: &str) -> (res: Option<SchemaRegistryMethod>)
        ensures
            res == schema_registry_route(path@),
    {
        if str_eq(path, "/schema_registry.SchemaRegistry/AddSchema") {
            Some(SchemaRegistryMethod::AddSchema)
        } else if str_eq(path, "/schema_registry.SchemaRegistry/UpdateSchema") {
            Some(SchemaRegistryMethod::UpdateSchema)
        } else if str_eq(path, "/schema_registry.SchemaRegistry/AddViewToSchema") {
            Some(SchemaRegistryMethod::AddViewToSchema)
        } else if str_eq(path, "/schema_registry.SchemaRegistry/UpdateView") {
            Some(SchemaRegistryMethod::UpdateView)
        } else if str_eq(path, "/schema_registry.SchemaRegistry/GetSchema") {
            Some(SchemaRegistryMethod::GetSchema)
        } else if str_eq(path, "/schema_registry.SchemaRegistry/GetFullSchema") {
            Some(SchemaRegistryMethod::GetFullSchema)
        } else if str_eq(path, "/schema_registry.SchemaRegistry/GetView") {
            Some(SchemaRegistryMethod::GetView)
        } else if str_eq(path, "/schema_registry.SchemaRegistry/GetAllSchemas") {
            Some(SchemaRegistryMethod::GetAllSchemas)
        } else if str_eq(path, "/schema_registry.SchemaRegistry/GetAllFullSchemas") {
            Some(SchemaRegistryMethod::GetAllFullSchemas)
        } else if str_eq(path, "/schema_registry.SchemaRegistry/GetAllViewsOfSchema") {
            Some(SchemaRegistryMethod::GetAllViewsOfSchema)
        } else if str_eq(path, "/schema_registry.SchemaRegistry/GetAllViewsByRelation") {
            Some(SchemaRegistryMethod::GetAllViewsByRelation)
        } else if str_eq(path, "/schema_registry.SchemaRegistry/GetBaseSchemaOfView") {
            Some(SchemaRegistryMethod::GetBaseSchemaOfView)
        } else if str_eq(path, "/schema_registry.SchemaRegistry/ValidateValue") {
            Some(SchemaRegistryMethod::ValidateValue)
        } else if str_eq(path, "/schema_registry.SchemaRegistry/WatchAllSchemaUpdates") {
            Some(SchemaRegistryMethod::WatchAllSchemaUpdates)
        } else if str_eq(path, "/schema_registry.SchemaRegistry/Heartbeat") {
            Some(SchemaRegistryMethod::Heartbeat)
        } else {
            None
        }
    }
}

/// Each method of the SchemaRegistry service is routed to by its own path, and
/// only by it.
pub proof fn schema_registry_routes_by_path(m: SchemaRegistryMethod)
    ensures
        schema_registry_route(schema_registry_path(m)) == Some(m),
        forall|p: Seq<char>| schema_registry_route(p) == Some(m) ==> p == schema_registry_path(m),
{
    reveal_strlit("/schema_registry.SchemaRegistry/AddSchema");
    reveal_strlit("/schema_registry.SchemaRegistry/UpdateSchema");
    reveal_strlit("/schema_registry.SchemaRegistry/AddViewToSchema");
    reveal_strlit("/schema_registry.SchemaRegistry/UpdateView");
    reveal_strlit("/schema_registry.SchemaRegistry/GetSchema");
    reveal_strlit("/schema_registry.SchemaRegistry/GetFullSchema");
    reveal_strlit("/schema_registry.SchemaRegistry/GetView");
    reveal_strlit("/schema_registry.SchemaRegistry/GetAllSchemas");
    reveal_strlit("/schema_registry.SchemaRegistry/GetAllFullSchemas");
    reveal_strlit("/schema_registry.SchemaRegistry/GetAllViewsOfSchema");
    reveal_strlit("/schema_registry.SchemaRegistry/GetAllViewsByRelation");
    reveal_strlit("/schema_registry.SchemaRegistry/GetBaseSchemaOfView");
    reveal_strlit("/schema_registry.SchemaRegistry/ValidateValue");
    reveal_strlit("/schema_registry.SchemaRegistry/WatchAllSchemaUpdates");
    reveal_strlit("/schema_registry.SchemaRegistry/Heartbeat");
    assert("/schema_registry.SchemaRegistry/UpdateSchema"@.len() != "/schema_registry.SchemaRegistry/AddSchema"@.len());
    assert("/schema_registry.SchemaRegistry/AddViewToSchema"@.len() != "/schema_registry.SchemaRegistry/AddSchema"@.len());
    assert("/schema_registry.SchemaRegistry/AddViewToSchema"@.len() != "/schema_registry.SchemaRegistry/UpdateSchema"@.len());
    assert("/schema_registry.SchemaRegistry/UpdateView"@.len() != "/schema_registry.SchemaRegistry/AddSchema"@.len());
    assert("/schema_registry.SchemaRegistry/UpdateView"@.len() != "/schema_registry.SchemaRegistry/UpdateSchema"@.len());
    assert("/schema_registry.SchemaRegistry/UpdateView"@.len() != "/schema_registry.SchemaRegistry/AddViewToSchema"@.len());
    assert("/schema_registry.SchemaRegistry/GetSchema"@[32] != "/schema_registry.SchemaRegistry/AddSchema"@[32]);
    assert("/schema_registry.SchemaRegistry/GetSchema"@.len() != "/schema_registry.SchemaRegistry/UpdateSchema"@.len());
    assert("/schema_registry.SchemaRegistry/GetSchema"@.len() != "/schema_registry.SchemaRegistry/AddViewToSchema"@.len());
    assert("/schema_registry.SchemaRegistry/GetSchema"@.len() != "/schema_registry.SchemaRegistry/UpdateView"@.len());
    assert("/schema_registry.SchemaRegistry/GetFullSchema"@.len() != "/schema_registry.SchemaRegistry/AddSchema"@.len());
    assert("/schema_registry.SchemaRegistry/GetFullSchema"@.len() != "/schema_registry.SchemaRegistry/UpdateSchema"@.len());
    assert("/schema_registry.SchemaRegistry/GetFullSchema"@.len() != "/schema_registry.SchemaRegistry/AddViewToSchema"@.len());
    assert("/schema_registry.SchemaRegistry/GetFullSchema"@.len() != "/schema_registry.SchemaRegistry/UpdateView"@.len());
    assert("/schema_registry.SchemaRegistry/GetFullSchema"@.len() != "/schema_registry.SchemaRegistry/GetSchema"@.len());
    assert("/schema_registry.SchemaRegistry/GetView"@.len() != "/schema_registry.SchemaRegistry/AddSchema"@.len());
    assert("/schema_registry.SchemaRegistry/GetView"@.len() != "/schema_registry.SchemaRegistry/UpdateSchema"@.len());
    assert("/schema_registry.SchemaRegistry/GetView"@.len() != "/schema_registry.SchemaRegistry/AddViewToSchema"@.len());
    assert("/schema_registry.SchemaRegistry/GetView"@.len() != "/schema_registry.SchemaRegistry/UpdateView"@.len());
    assert("/schema_registry.SchemaRegistry/GetView"@.len() != "/schema_registry.SchemaRegistry/GetSchema"@.len());
    assert("/schema_registry.SchemaRegistry/GetView"@.len() != "/schema_registry.SchemaRegistry/GetFullSchema"@.len());
    assert("/schema_registry.SchemaRegistry/GetAllSchemas"@.len() != "/schema_registry.SchemaRegistry/AddSchema"@.len());
    assert("/schema_registry.SchemaRegistry/GetAllSchemas"@.len() != "/schema_registry.SchemaRegistry/UpdateSchema"@.len());
    assert("/schema_registry.SchemaRegistry/GetAllSchemas"@.len() != "/schema_registry.SchemaRegistry/AddViewToSchema"@.len());
    assert("/schema_registry.SchemaRegistry/GetAllSchemas"@.len() != "/schema_registry.SchemaRegistry/UpdateView"@.len());
    assert("/schema_registry.SchemaRegistry/GetAllSchemas"@.len() != "/schema_registry.SchemaRegistry/GetSchema"@.len());
    assert("/schema_registry.SchemaRegistry/GetAllSchemas"@[35] != "/schema_registry.SchemaRegistry/GetFullSchema"@[35]);
    assert("/schema_registry.SchemaRegistry/GetAllSchemas"@.len() != "/schema_registry.SchemaRegistry/GetView"@.len());
    assert("/schema_registry.SchemaRegistry/GetAllFullSchemas"@.len() != "/schema_registry.SchemaRegistry/AddSchema"@.len());
    assert("/schema_registry.SchemaRegistry/GetAllFullSchemas"@.len() != "/schema_registry.SchemaRegistry/UpdateSchema"@.len());
    assert("/schema_registry.SchemaRegistry/GetAllFullSchemas"@.len() != "/schema_registry.SchemaRegistry/AddViewToSchema"@.len());
    assert("/schema_registry.SchemaRegistry/GetAllFullSchemas"@.len() != "/schema_registry.SchemaRegistry/UpdateView"@.len());
    assert("/schema_registry.SchemaRegistry/GetAllFullSchemas"@.len() != "/schema_registry.SchemaRegistry/GetSchema"@.len());
    assert("/schema_registry.SchemaRegistry/GetAllFullSchemas"@.len() != "/schema_registry.SchemaRegistry/GetFullSchema"@.len());
    assert("/schema_registry.SchemaRegistry/GetAllFullSchemas"@.len() != "/schema_registry.SchemaRegistry/GetView"@.len());
    assert("/schema_registry.SchemaRegistry/GetAllFullSchemas"@.len() != "/schema_registry.SchemaRegistry/GetAllSchemas"@.len());
    assert("/schema_registry.SchemaRegistry/GetAllViewsOfSchema"@.len() != "/schema_registry.SchemaRegistry/AddSchema"@.len());
    assert("/schema_registry.SchemaRegistry/GetAllViewsOfSchema"@.len() != "/schema_registry.SchemaRegistry/UpdateSchema"@.len());
    assert("/schema_registry.SchemaRegistry/GetAllViewsOfSchema"@.len() != "/schema_registry.SchemaRegistry/AddViewToSchema"@.len());
    assert("/schema_registry.SchemaRegistry/GetAllViewsOfSchema"@.len() != "/schema_registry.SchemaRegistry/UpdateView"@.len());
    assert("/schema_registry.SchemaRegistry/GetAllViewsOfSchema"@.len() != "/schema_registry.SchemaRegistry/GetSchema"@.len());
    assert("/schema_registry.SchemaRegistry/GetAllViewsOfSchema"@.len() != "/schema_registry.SchemaRegistry/GetFullSchema"@.len());
    assert("/schema_registry.SchemaRegistry/GetAllViewsOfSchema"@.len() != "/schema_registry.SchemaRegistry/GetView"@.len());
    assert("/schema_registry.SchemaRegistry/GetAllViewsOfSchema"@.len() != "/schema_registry.SchemaRegistry/GetAllSchemas"@.len());
    assert("/schema_registry.SchemaRegistry/GetAllViewsOfSchema"@.len() != "/schema_registry.SchemaRegistry/GetAllFullSchemas"@.len());
    assert("/schema_registry.SchemaRegistry/GetAllViewsByRelation"@.len() != "/schema_registry.SchemaRegistry/AddSchema"@.len());
    assert("/schema_registry.SchemaRegistry/GetAllViewsByRelation"@.len() != "/schema_registry.SchemaRegistry/UpdateSchema"@.len());
    assert("/schema_registry.SchemaRegistry/GetAllViewsByRelation"@.len() != "/schema_registry.SchemaRegistry/AddViewToSchema"@.len());
    assert("/schema_registry.SchemaRegistry/GetAllViewsByRelation"@.len() != "/schema_registry.SchemaRegistry/UpdateView"@.len());
    assert("/schema_registry.SchemaRegistry/GetAllViewsByRelation"@.len() != "/schema_registry.SchemaRegistry/GetSchema"@.len());
    assert("/schema_registry.SchemaRegistry/GetAllViewsByRelation"@.len() != "/schema_registry.SchemaRegistry/GetFullSchema"@.len());
    assert("/schema_registry.SchemaRegistry/GetAllViewsByRelation"@.len() != "/schema_registry.SchemaRegistry/GetView"@.len());
    assert("/schema_registry.SchemaRegistry/GetAllViewsByRelation"@.len() != "/schema_registry.SchemaRegistry/GetAllSchemas"@.len());
    assert("/schema_registry.SchemaRegistry/GetAllViewsByRelation"@.len() != "/schema_registry.SchemaRegistry/GetAllFullSchemas"@.len());
    assert("/schema_registry.SchemaRegistry/GetAllViewsByRelation"@.len() != "/schema_registry.SchemaRegistry/GetAllViewsOfSchema"@.len());
    assert("/schema_registry.SchemaRegistry/GetBaseSchemaOfView"@.len() != "/schema_registry.SchemaRegistry/AddSchema"@.len());
    assert("/schema_registry.SchemaRegistry/GetBaseSchemaOfView"@.len() != "/schema_registry.SchemaRegistry/UpdateSchema"@.len());
    assert("/schema_registry.SchemaRegistry/GetBaseSchemaOfView"@.len() != "/schema_registry.SchemaRegistry/AddViewToSchema"@.len());
    assert("/schema_registry.SchemaRegistry/GetBaseSchemaOfView"@.len() != "/schema_registry.SchemaRegistry/UpdateView"@.len());
    assert("/schema_registry.SchemaRegistry/GetBaseSchemaOfView"@.len() != "/schema_registry.SchemaRegistry/GetSchema"@.len());
    assert("/schema_registry.SchemaRegistry/GetBaseSchemaOfView"@.len() != "/schema_registry.SchemaRegistry/GetFullSchema"@.len());
    assert("/schema_registry.SchemaRegistry/GetBaseSchemaOfView"@.len() != "/schema_registry.SchemaRegistry/GetView"@.len());
    assert("/schema_registry.SchemaRegistry/GetBaseSchemaOfView"@.len() != "/schema_registry.SchemaRegistry/GetAllSchemas"@.len());
    assert("/schema_registry.SchemaRegistry/GetBaseSchemaOfView"@.len() != "/schema_registry.SchemaRegistry/GetAllFullSchemas"@.len());
    assert("/schema_registry.SchemaRegistry/GetBaseSchemaOfView"@[35] != "/schema_registry.SchemaRegistry/GetAllViewsOfSchema"@[35]);
    assert("/schema_registry.SchemaRegistry/GetBaseSchemaOfView"@.len() != "/schema_registry.SchemaRegistry/GetAllViewsByRelation"@.len());
    assert("/schema_registry.SchemaRegistry/ValidateValue"@.len() != "/schema_registry.SchemaRegistry/AddSchema"@.len());
    assert("/schema_registry.SchemaRegistry/ValidateValue"@.len() != "/schema_registry.SchemaRegistry/UpdateSchema"@.len());
    assert("/schema_registry.SchemaRegistry/ValidateValue"@.len() != "/schema_registry.SchemaRegistry/AddViewToSchema"@.len());
    assert("/schema_registry.SchemaRegistry/ValidateValue"@.len() != "/schema_registry.SchemaRegistry/UpdateView"@.len());
    assert("/schema_registry.SchemaRegistry/ValidateValue"@.len() != "/schema_registry.SchemaRegistry/GetSchema"@.len());
    assert("/schema_registry.SchemaRegistry/ValidateValue"@[32] != "/schema_registry.SchemaRegistry/GetFullSchema"@[32]);
    assert("/schema_registry.SchemaRegistry/ValidateValue"@.len() != "/schema_registry.SchemaRegistry/GetView"@.len());
    assert("/schema_registry.SchemaRegistry/ValidateValue"@[32] != "/schema_registry.SchemaRegistry/GetAllSchemas"@[32]);
    assert("/schema_registry.SchemaRegistry/ValidateValue"@.len() != "/schema_registry.SchemaRegistry/GetAllFullSchemas"@.len());
    assert("/schema_registry.SchemaRegistry/ValidateValue"@.len() != "/schema_registry.SchemaRegistry/GetAllViewsOfSchema"@.len());
    assert("/schema_registry.SchemaRegistry/ValidateValue"@.len() != "/schema_registry.SchemaRegistry/GetAllViewsByRelation"@.len());
    assert("/schema_registry.SchemaRegistry/ValidateValue"@.len() != "/schema_registry.SchemaRegistry/GetBaseSchemaOfView"@.len());
    assert("/schema_registry.SchemaRegistry/WatchAllSchemaUpdates"@.len() != "/schema_registry.SchemaRegistry/AddSchema"@.len());
    assert("/schema_registry.SchemaRegistry/WatchAllSchemaUpdates"@.len() != "/schema_registry.SchemaRegistry/UpdateSchema"@.len());
    assert("/schema_registry.SchemaRegistry/WatchAllSchemaUpdates"@.len() != "/schema_registry.SchemaRegistry/AddViewToSchema"@.len());
    assert("/schema_registry.SchemaRegistry/WatchAllSchemaUpdates"@.len() != "/schema_registry.SchemaRegistry/UpdateView"@.len());
    assert("/schema_registry.SchemaRegistry/WatchAllSchemaUpdates"@.len() != "/schema_registry.SchemaRegistry/GetSchema"@.len());
    assert("/schema_registry.SchemaRegistry/WatchAllSchemaUpdates"@.len() != "/schema_registry.SchemaRegistry/GetFullSchema"@.len());
    assert("/schema_registry.SchemaRegistry/WatchAllSchemaUpdates"@.len() != "/schema_registry.SchemaRegistry/GetView"@.len());
    assert("/schema_registry.SchemaRegistry/WatchAllSchemaUpdates"@.len() != "/schema_registry.SchemaRegistry/GetAllSchemas"@.len());
    assert("/schema_registry.SchemaRegistry/WatchAllSchemaUpdates"@.len() != "/schema_registry.SchemaRegistry/GetAllFullSchemas"@.len());
    assert("/schema_registry.SchemaRegistry/WatchAllSchemaUpdates"@.len() != "/schema_registry.SchemaRegistry/GetAllViewsOfSchema"@.len());
    assert("/schema_registry.SchemaRegistry/WatchAllSchemaUpdates"@[32] != "/schema_registry.SchemaRegistry/GetAllViewsByRelation"@[32]);
    assert("/schema_registry.SchemaRegistry/WatchAllSchemaUpdates"@.len() != "/schema_registry.SchemaRegistry/GetBaseSchemaOfView"@.len());
    assert("/schema_registry.SchemaRegistry/WatchAllSchemaUpdates"@.len() != "/schema_registry.SchemaRegistry/ValidateValue"@.len());
    assert("/schema_registry.SchemaRegistry/Heartbeat"@[32] != "/schema_registry.SchemaRegistry/AddSchema"@[32]);
    assert("/schema_registry.SchemaRegistry/Heartbeat"@.len() != "/schema_registry.SchemaRegistry/UpdateSchema"@.len());
    assert("/schema_registry.SchemaRegistry/Heartbeat"@.len() != "/schema_registry.SchemaRegistry/AddViewToSchema"@.len());
    assert("/schema_registry.SchemaRegistry/Heartbeat"@.len() != "/schema_registry.SchemaRegistry/UpdateView"@.len());
    assert("/schema_registry.SchemaRegistry/Heartbeat"@[32] != "/schema_registry.SchemaRegistry/GetSchema"@[32]);
    assert("/schema_registry.SchemaRegistry/Heartbeat"@.len() != "/schema_registry.SchemaRegistry/GetFullSchema"@.len());
    assert("/schema_registry.SchemaRegistry/Heartbeat"@.len() != "/schema_registry.SchemaRegistry/GetView"@.len());
    assert("/schema_registry.SchemaRegistry/Heartbeat"@.len() != "/schema_registry.SchemaRegistry/GetAllSchemas"@.len());
    assert("/schema_registry.SchemaRegistry/Heartbeat"@.len() != "/schema_registry.SchemaRegistry/GetAllFullSchemas"@.len());
    assert("/schema_registry.SchemaRegistry/Heartbeat"@.len() != "/schema_registry.SchemaRegistry/GetAllViewsOfSchema"@.len());
    assert("/schema_registry.SchemaRegistry/Heartbeat"@.len() != "/schema_registry.SchemaRegistry/GetAllViewsByRelation"@.len());
    assert("/schema_registry.SchemaRegistry/Heartbeat"@.len() != "/schema_registry.SchemaRegistry/GetBaseSchemaOfView"@.len());
    assert("/schema_registry.SchemaRegistry/Heartbeat"@.len() != "/schema_registry.SchemaRegistry/ValidateValue"@.len());
    assert("/schema_registry.SchemaRegistry/Heartbeat"@.len() != "/schema_registry.SchemaRegistry/WatchAllSchemaUpdates"@.len());
}

/// A method of the edge registry service.
#[derive(Clone, Copy, Debug, PartialEq, Eq, Structural)]
pub enum EdgeRegistryMethod {
    AddRelation,
    GetRelation,
    GetSchemaByRelation,
    GetSchemaRelations,
    ListRelations,
    ValidateRelation,
    AddEdges,
    GetEdge,
    GetEdges,
    Heartbeat,
    ResolveTree,
}

/// The request path of a method of the EdgeRegistry service.
pub open spec fn edge_registry_path(m: EdgeRegistryMethod) -> Seq<char> {
    match m {
        EdgeRegistryMethod::AddRelation => "/edge_registry.EdgeRegistry/AddRelation"@,
        EdgeRegistryMethod::GetRelation => "/edge_registry.EdgeRegistry/GetRelation"@,
        EdgeRegistryMethod::GetSchemaByRelation => "/edge_registry.EdgeRegistry/GetSchemaByRelation"@,
        EdgeRegistryMethod::GetSchemaRelations => "/edge_registry.EdgeRegistry/GetSchemaRelations"@,
        EdgeRegistryMethod::ListRelations => "/edge_registry.EdgeRegistry/ListRelations"@,
        EdgeRegistryMethod::ValidateRelation => "/edge_registry.EdgeRegistry/ValidateRelation"@,
        EdgeRegistryMethod::AddEdges => "/edge_registry.EdgeRegistry/AddEdges"@,
        EdgeRegistryMethod::GetEdge => "/edge_registry.EdgeRegistry/GetEdge"@,
        EdgeRegistryMethod::GetEdges => "/edge_registry.EdgeRegistry/GetEdges"@,
        EdgeRegistryMethod::Heartbeat => "/edge_registry.EdgeRegistry/Heartbeat"@,
        EdgeRegistryMethod::ResolveTree => "/edge_registry.EdgeRegistry/ResolveTree"@,
    }
}

/// How a method of the EdgeRegistry service answers.
pub open spec fn edge_registry_kind(m: EdgeRegistryMethod) -> CallKind {
    match m {
        EdgeRegistryMethod::AddRelation => CallKind::Unary,
        EdgeRegistryMethod::GetRelation => CallKind::Unary,
        EdgeRegistryMethod::GetSchemaByRelation => CallKind::Unary,
        EdgeRegistryMethod::GetSchemaRelations => CallKind::Unary,
        EdgeRegistryMethod::ListRelations => CallKind::Unary,
        EdgeRegistryMethod::ValidateRelation => CallKind::Unary,
        EdgeRegistryMethod::AddEdges => CallKind::Unary,
        EdgeRegistryMethod::GetEdge => CallKind::Unary,
        EdgeRegistryMethod::GetEdges => CallKind::Unary,
        EdgeRegistryMethod::Heartbeat => CallKind::Unary,
        EdgeRegistryMethod::ResolveTree => CallKind::Unary,
    }
}

/// The method that a request path names, if any.
pub open spec fn edge_registry_route(path: Seq<char>) -> Option<EdgeRegistryMethod> {
    if path == "/edge_registry.EdgeRegistry/AddRelation"@ {
        Some(EdgeRegistryMethod::AddRelation)
    } else if path == "/edge_registry.EdgeRegistry/GetRelation"@ {
        Some(EdgeRegistryMethod::GetRelation)
    } else if path == "/edge_registry.EdgeRegistry/GetSchemaByRelation"@ {
        Some(EdgeRegistryMethod::GetSchemaByRelation)
    } else if path == "/edge_registry.EdgeRegistry/GetSchemaRelations"@ {
        Some(EdgeRegistryMethod::GetSchemaRelations)
    } else if path == "/edge_registry.EdgeRegistry/ListRelations"@ {
        Some(EdgeRegistryMethod::ListRelations)
    } else if path == "/edge_registry.EdgeRegistry/ValidateRelation"@ {
        Some(EdgeRegistryMethod::ValidateRelation)
    } else if path == "/edge_registry.EdgeRegistry/AddEdges"@ {
        Some(EdgeRegistryMethod::AddEdges)
    } else if path == "/edge_registry.EdgeRegistry/GetEdge"@ {
        Some(EdgeRegistryMethod::GetEdge)
    } else if path == "/edge_registry.EdgeRegistry/GetEdges"@ {
        Some(EdgeRegistryMethod::GetEdges)
    } else if path == "/edge_registry.EdgeRegistry/Heartbeat"@ {
        Some(EdgeRegistryMethod::Heartbeat)
    } else if path == "/edge_registry.EdgeRegistry/ResolveTree"@ {
        Some(EdgeRegistryMethod::ResolveTree)
    } else {
        None
    }
}

impl EdgeRegistryMethod {
    /// The request path of the method.
    pub fn path(self) -> (res: String)
        ensures
            res@ == edge_registry_path(self),
    {
        match self {
            EdgeRegistryMethod::AddRelation => String::from_str("/edge_registry.EdgeRegistry/AddRelation"),
            EdgeRegistryMethod::GetRelation => String::from_str("/edge_registry.EdgeRegistry/GetRelation"),
            EdgeRegistryMethod::GetSchemaByRelation => String::from_str("/edge_registry.EdgeRegistry/GetSchemaByRelation"),
            EdgeRegistryMethod::GetSchemaRelations => String::from_str("/edge_registry.EdgeRegistry/GetSchemaRelations"),
            EdgeRegistryMethod::ListRelations => String::from_str("/edge_registry.EdgeRegistry/ListRelations"),
            EdgeRegistryMethod::ValidateRelation => String::from_str("/edge_registry.EdgeRegistry/ValidateRelation"),
            EdgeRegistryMethod::AddEdges => String::from_str("/edge_registry.EdgeRegistry/AddEdges"),
            EdgeRegistryMethod::GetEdge => String::from_str("/edge_registry.EdgeRegistry/GetEdge"),
            EdgeRegistryMethod::GetEdges => String::from_str("/edge_registry.EdgeRegistry/GetEdges"),
            EdgeRegistryMethod::Heartbeat => String::from_str("/edge_registry.EdgeRegistry/Heartbeat"),
            EdgeRegistryMethod::ResolveTree => String::from_str("/edge_registry.EdgeRegistry/ResolveTree"),
        }
    }

    /// Whether the method answers with one message or a stream.
    pub fn kind(self) -> (res: CallKind)
        ensures
            res == edge_registry_kind(self),
    {
        match self {
            EdgeRegistryMethod::AddRelation => CallKind::Unary,
            EdgeRegistryMethod::GetRelation => CallKind::Unary,
            EdgeRegistryMethod::GetSchemaByRelation => CallKind::Unary,
            EdgeRegistryMethod::GetSchemaRelations => CallKind::Unary,
            EdgeRegistryMethod::ListRelations => CallKind::Unary,
            EdgeRegistryMethod::ValidateRelation => CallKind::Unary,
            EdgeRegistryMethod::AddEdges => CallKind::Unary,
            EdgeRegistryMethod::GetEdge => CallKind::Unary,
            EdgeRegistryMethod::GetEdges => CallKind::Unary,
            EdgeRegistryMethod::Heartbeat => CallKind::Unary,
            EdgeRegistryMethod::ResolveTree => CallKind::Unary,
        }
    }

    /// The method that the server dispatches a request with this path to;
    /// `None` for a path the service does not have, which the server answers
    /// as unimplemented.
    pub fn route(path: &str) -> (res: Option<EdgeRegistryMethod>)
        ensures
            res == edge_registry_route(path@),
    {
        if str_eq(path, "/edge_registry.EdgeRegistry/AddRelation") {
            Some(EdgeRegistryMethod::AddRelation)
        } else if str_eq(path, "/edge_registry.EdgeRegistry/GetRelation") {
            Some(EdgeRegistryMethod::GetRelation)
        } else if str_eq(path, "/edge_registry.EdgeRegistry/GetSchemaByRelation") {
            Some(EdgeRegistryMethod::GetSchemaByRelation)
        } else if str_eq(path, "/edge_registry.EdgeRegistry/GetSchemaRelations") {
            Some(EdgeRegistryMethod::GetSchemaRelations)
        } else if str_eq(path, "/edge_registry.EdgeRegistry/ListRelations") {
            Some(EdgeRegistryMethod::ListRelations)
        } else if str_eq(path, "/edge_registry.EdgeRegistry/ValidateRelation") {
            Some(EdgeRegistryMethod::ValidateRelation)
        } else if str_eq(path, "/edge_registry.EdgeRegistry/AddEdges") {
            Some(EdgeRegistryMethod::AddEdges)
        } else if str_eq(path, "/edge_registry.EdgeRegistry/GetEdge") {
            Some(EdgeRegistryMethod::GetEdge)
        } else if str_eq(path, "/edge_registry.EdgeRegistry/GetEdges") {
            Some(EdgeRegistryMethod::GetEdges)
        } else if str_eq(path, "/edge_registry.EdgeRegistry/Heartbeat") {
            Some(EdgeRegistryMethod::Heartbeat)
        } else if str_eq(path, "/edge_registry.EdgeRegistry/ResolveTree") {
            Some(EdgeRegistryMethod::ResolveTree)
        } else {
            None
        }
    }
}

/// Each method of the EdgeRegistry service is routed to by its own path, and
/// only by it.
pub proof fn edge_registry_routes_by_path(m: EdgeRegistryMethod)
    ensures
        edge_registry_route(edge_registry_path(m)) == Some(m),
        forall|p: Seq<char>| edge_registry_route(p) == Some(m) ==> p == edge_registry_path(m),
{
    reveal_strlit("/edge_registry.EdgeRegistry/AddRelation");
    reveal_strlit("/edge_registry.EdgeRegistry/GetRelation");
    reveal_strlit("/edge_registry.EdgeRegistry/GetSchemaByRelation");
    reveal_strlit("/edge_registry.EdgeRegistry/GetSchemaRelations");
    reveal_strlit("/edge_registry.EdgeRegistry/ListRelations");
    reveal_strlit("/edge_registry.EdgeRegistry/ValidateRelation");
    reveal_strlit("/edge_registry.EdgeRegistry/AddEdges");
    reveal_strlit("/edge_registry.EdgeRegistry/GetEdge");
    reveal_strlit("/edge_registry.EdgeRegistry/GetEdges");
    reveal_strlit("/edge_registry.EdgeRegistry/Heartbeat");
    reveal_strlit("/edge_registry.EdgeRegistry/ResolveTree");
    assert("/edge_registry.EdgeRegistry/GetRelation"@[28] != "/edge_registry.EdgeRegistry/AddRelation"@[28]);
    assert("/edge_registry.EdgeRegistry/GetSchemaByRelation"@.len() != "/edge_registry.EdgeRegistry/AddRelation"@.len());
    assert("/edge_registry.EdgeRegistry/GetSchemaByRelation"@.len() != "/edge_registry.EdgeRegistry/GetRelation"@.len());
    assert("/edge_registry.EdgeRegistry/GetSchemaRelations"@.len() != "/edge_registry.EdgeRegistry/AddRelation"@.len());
    assert("/edge_registry.EdgeRegistry/GetSchemaRelations"@.len() != "/edge_registry.EdgeRegistry/GetRelation"@.len());
    assert("/edge_registry.EdgeRegistry/GetSchemaRelations"@.len() != "/edge_registry.EdgeRegistry/GetSchemaByRelation"@.len());
    assert("/edge_registry.EdgeRegistry/ListRelations"@.len() != "/edge_registry.EdgeRegistry/AddRelation"@.len());
    assert("/edge_registry.EdgeRegistry/ListRelations"@.len() != "/edge_registry.EdgeRegistry/GetRelation"@.len());
    assert("/edge_registry.EdgeRegistry/ListRelations"@.len() != "/edge_registry.EdgeRegistry/GetSchemaByRelation"@.len());
    assert("/edge_registry.EdgeRegistry/ListRelations"@.len() != "/edge_registry.EdgeRegistry/GetSchemaRelations"@.len());
    assert("/edge_registry.EdgeRegistry/ValidateRelation"@.len() != "/edge_registry.EdgeRegistry/AddRelation"@.len());
    assert("/edge_registry.EdgeRegistry/ValidateRelation"@.len() != "/edge_registry.EdgeRegistry/GetRelation"@.len());
    assert("/edge_registry.EdgeRegistry/ValidateRelation"@.len() != "/edge_registry.EdgeRegistry/GetSchemaByRelation"@.len());
    assert("/edge_registry.EdgeRegistry/ValidateRelation"@.len() != "/edge_registry.EdgeRegistry/GetSchemaRelations"@.len());
    assert("/edge_registry.EdgeRegistry/ValidateRelation"@.len() != "/edge_registry.EdgeRegistry/ListRelations"@.len());
    assert("/edge_registry.EdgeRegistry/AddEdges"@.len() != "/edge_registry.EdgeRegistry/AddRelation"@.len());
    assert("/edge_registry.EdgeRegistry/AddEdges"@.len() != "/edge_registry.EdgeRegistry/GetRelation"@.len());
    assert("/edge_registry.EdgeRegistry/AddEdges"@.len() != "/edge_registry.EdgeRegistry/GetSchemaByRelation"@.len());
    assert("/edge_registry.EdgeRegistry/AddEdges"@.len() != "/edge_registry.EdgeRegistry/GetSchemaRelations"@.len());
    assert("/edge_registry.EdgeRegistry/AddEdges"@.len() != "/edge_registry.EdgeRegistry/ListRelations"@.len());
    assert("/edge_registry.EdgeRegistry/AddEdges"@.len() != "/edge_registry.EdgeRegistry/ValidateRelation"@.len());
    assert("/edge_registry.EdgeRegistry/GetEdge"@.len() != "/edge_registry.EdgeRegistry/AddRelation"@.len());
    assert("/edge_registry.EdgeRegistry/GetEdge"@.len() != "/edge_registry.EdgeRegistry/GetRelation"@.len());
    assert("/edge_registry.EdgeRegistry/GetEdge"@.len() != "/edge_registry.EdgeRegistry/GetSchemaByRelation"@.len());
    assert("/edge_registry.EdgeRegistry/GetEdge"@.len() != "/edge_registry.EdgeRegistry/GetSchemaRelations"@.len());
    assert("/edge_registry.EdgeRegistry/GetEdge"@.len() != "/edge_registry.EdgeRegistry/ListRelations"@.len());
    assert("/edge_registry.EdgeRegistry/GetEdge"@.len() != "/edge_registry.EdgeRegistry/ValidateRelation"@.len());
    assert("/edge_registry.EdgeRegistry/GetEdge"@.len() != "/edge_registry.EdgeRegistry/AddEdges"@.len());
    assert("/edge_registry.EdgeRegistry/GetEdges"@.len() != "/edge_registry.EdgeRegistry/AddRelation"@.len());
    assert("/edge_registry.EdgeRegistry/GetEdges"@.len() != "/edge_registry.EdgeRegistry/GetRelation"@.len());
    assert("/edge_registry.EdgeRegistry/GetEdges"@.len() != "/edge_registry.EdgeRegistry/GetSchemaByRelation"@.len());
    assert("/edge_registry.EdgeRegistry/GetEdges"@.len() != "/edge_registry.EdgeRegistry/GetSchemaRelations"@.len());
    assert("/edge_registry.EdgeRegistry/GetEdges"@.len() != "/edge_registry.EdgeRegistry/ListRelations"@.len());
    assert("/edge_registry.EdgeRegistry/GetEdges"@.len() != "/edge_registry.EdgeRegistry/ValidateRelation"@.len());
    assert("/edge_registry.EdgeRegistry/GetEdges"@[28] != "/edge_registry.EdgeRegistry/AddEdges"@[28]);
    assert("/edge_registry.EdgeRegistry/GetEdges"@.len() != "/edge_registry.EdgeRegistry/GetEdge"@.len());
    assert("/edge_registry.EdgeRegistry/Heartbeat"@.len() != "/edge_registry.EdgeRegistry/AddRelation"@.len());
    assert("/edge_registry.EdgeRegistry/Heartbeat"@.len() != "/edge_registry.EdgeRegistry/GetRelation"@.len());
    assert("/edge_registry.EdgeRegistry/Heartbeat"@.len() != "/edge_registry.EdgeRegistry/GetSchemaByRelation"@.len());
    assert("/edge_registry.EdgeRegistry/Heartbeat"@.len() != "/edge_registry.EdgeRegistry/GetSchemaRelations"@.len());
    assert("/edge_registry.EdgeRegistry/Heartbeat"@.len() != "/edge_registry.EdgeRegistry/ListRelations"@.len());
    assert("/edge_registry.EdgeRegistry/Heartbeat"@.len() != "/edge_registry.EdgeRegistry/ValidateRelation"@.len());
    assert("/edge_registry.EdgeRegistry/Heartbeat"@.len() != "/edge_registry.EdgeRegistry/AddEdges"@.len());
    assert("/edge_registry.EdgeRegistry/Heartbeat"@.len() != "/edge_registry.EdgeRegistry/GetEdge"@.len());
    assert("/edge_registry.EdgeRegistry/Heartbeat"@.len() != "/edge_registry.EdgeRegistry/GetEdges"@.len());
    assert("/edge_registry.EdgeRegistry/ResolveTree"@[28] != "/edge_registry.EdgeRegistry/AddRelation"@[28]);
    assert("/edge_registry.EdgeRegistry/ResolveTree"@[28] != "/edge_registry.EdgeRegistry/GetRelation"@[28]);
    assert("/edge_registry.EdgeRegistry/ResolveTree"@.len() != "/edge_registry.EdgeRegistry/GetSchemaByRelation"@.len());
    assert("/edge_registry.EdgeRegistry/ResolveTree"@.len() != "/edge_registry.EdgeRegistry/GetSchemaRelations"@.len());
    assert("/edge_registry.EdgeRegistry/ResolveTree"@.len() != "/edge_registry.EdgeRegistry/ListRelations"@.len());
    assert("/edge_registry.EdgeRegistry/ResolveTree"@.len() != "/edge_registry.EdgeRegistry/ValidateRelation"@.len());
    assert("/edge_registry.EdgeRegistry/ResolveTree"@.len() != "/edge_registry.EdgeRegistry/AddEdges"@.len());
    assert("/edge_registry.EdgeRegistry/ResolveTree"@.len() != "/edge_registry.EdgeRegistry/GetEdge"@.len());
    assert("/edge_registry.EdgeRegistry/ResolveTree"@.len() != "/edge_registry.EdgeRegistry/GetEdges"@.len());
    assert("/edge_registry.EdgeRegistry/ResolveTree"@.len() != "/edge_registry.EdgeRegistry/Heartbeat"@.len());
}

/// A method of the time-series query service.
#[derive(Clone, Copy, Debug, PartialEq, Eq, Structural)]
pub enum QueryServiceTsMethod {
    QueryBySchema,
    QueryByRange,
    QueryRaw,
}

/// The request path of a method of the QueryServiceTs service.
pub open spec fn query_service_ts_path(m: QueryServiceTsMethod) -> Seq<char> {
    match m {
        QueryServiceTsMethod::QueryBySchema => "/query_service_ts.QueryServiceTs/QueryBySchema"@,
        QueryServiceTsMethod::QueryByRange => "/query_service_ts.QueryServiceTs/QueryByRange"@,
        QueryServiceTsMethod::QueryRaw => "/query_service_ts.QueryServiceTs/QueryRaw"@,
    }
}

/// How a method of the QueryServiceTs service answers.
pub open spec fn query_service_ts_kind(m: QueryServiceTsMethod) -> CallKind {
    match m {
        QueryServiceTsMethod::QueryBySchema => CallKind::Unary,
        QueryServiceTsMethod::QueryByRange => CallKind::Unary,
        QueryServiceTsMethod::QueryRaw => CallKind::Unary,
    }
}

/// The method that a request path names, if any.
pub open spec fn query_service_ts_route(path: Seq<char>) -> Option<QueryServiceTsMethod> {
    if path == "/query_service_ts.QueryServiceTs/QueryBySchema"@ {
        Some(QueryServiceTsMethod::QueryBySchema)
    } else if path == "/query_service_ts.QueryServiceTs/QueryByRange"@ {
        Some(QueryServiceTsMethod::QueryByRange)
    } else if path == "/query_service_ts.QueryServiceTs/QueryRaw"@ {
        Some(QueryServiceTsMethod::QueryRaw)
    } else {
        None
    }
}

impl QueryServiceTsMethod {
    /// The request path of the method.
    pub fn path(self) -> (res: String)
        ensures
            res@ == query_service_ts_path(self),
    {
        match self {
            QueryServiceTsMethod::QueryBySchema => String::from_str("/query_service_ts.QueryServiceTs/QueryBySchema"),
            QueryServiceTsMethod::QueryByRange => String::from_str("/query_service_ts.QueryServiceTs/QueryByRange"),
            QueryServiceTsMethod::QueryRaw => String::from_str("/query_service_ts.QueryServiceTs/QueryRaw"),
        }
    }

    /// Whether the method answers with one message or a stream.
    pub fn kind(self) -> (res: CallKind)
        ensures
            res == query_service_ts_kind(self),
    {
        match self {
            QueryServiceTsMethod::QueryBySchema => CallKind::Unary,
            QueryServiceTsMethod::QueryByRange => CallKind::Unary,
            QueryServiceTsMethod::QueryRaw => CallKind::Unary,
        }
    }

    /// The method that the server dispatches a request with this path to;
    /// `None` for a path the service does not have, which the server answers
    /// as unimplemented.
    pub fn route(path: &str) -> (res: Option<QueryServiceTsMethod>)
        ensures
            res == query_service_ts_route(path@),
    {
        if str_eq(path, "/query_service_ts.QueryServiceTs/QueryBySchema") {
            Some(QueryServiceTsMethod::QueryBySchema)
        } else if str_eq(path, "/query_service_ts.QueryServiceTs/QueryByRange") {
            Some(QueryServiceTsMethod::QueryByRange)
        } else if str_eq(path, "/query_service_ts.QueryServiceTs/QueryRaw") {
            Some(QueryServiceTsMethod::QueryRaw)
        } else {
            None
        }
    }
}

/// Each method of the QueryServiceTs service is routed to by its own path, and
/// only by it.
pub proof fn query_service_ts_routes_by_path(m: QueryServiceTsMethod)
    ensures
        query_service_ts_route(query_service_ts_path(m)) == Some(m),
        forall|p: Seq<char>| query_service_ts_route(p) == Some(m) ==> p == query_service_ts_path(m),
{
    reveal_strlit("/query_service_ts.QueryServiceTs/QueryBySchema");
    reveal_strlit("/query_service_ts.QueryServiceTs/QueryByRange");
    reveal_strlit("/query_service_ts.QueryServiceTs/QueryRaw");
    assert("/query_service_ts.QueryServiceTs/QueryByRange"@.len() != "/query_service_ts.QueryServiceTs/QueryBySchema"@.len());
    assert("/query_service_ts.QueryServiceTs/QueryRaw"@.len() != "/query_service_ts.QueryServiceTs/QueryBySchema"@.len());
    assert("/query_service_ts.QueryServiceTs/QueryRaw"@.len() != "/query_service_ts.QueryServiceTs/QueryByRange"@.len());
}

/// A method of the on-demand materializer service.
#[derive(Clone, Copy, Debug, PartialEq, Eq, Structural)]
pub enum OnDemandMaterializerMethod {
    Materialize,
    Heartbeat,
}

/// The request path of a method of the OnDemandMaterializer service.
pub open spec fn on_demand_materializer_path(m: OnDemandMaterializerMethod) -> Seq<char> {
    match m {
        OnDemandMaterializerMethod::Materialize => "/materializer_ondemand.OnDemandMaterializer/Materialize"@,
        OnDemandMaterializerMethod::Heartbeat => "/materializer_ondemand.OnDemandMaterializer/Heartbeat"@,
    }
}

/// How a method of the OnDemandMaterializer service answers.
pub open spec fn on_demand_materializer_kind(m: OnDemandMaterializerMethod) -> CallKind {
    match m {
        OnDemandMaterializerMethod::Materialize => CallKind::ServerStreaming,
        OnDemandMaterializerMethod::Heartbeat => CallKind::Unary,
    }
}

/// The method that a request path names, if any.
pub open spec fn on_demand_materializer_route(path: Seq<char>) -> Option<OnDemandMaterializerMethod> {
    if path == "/materializer_ondemand.OnDemandMaterializer/Materialize"@ {
        Some(OnDemandMaterializerMethod::Materialize)
    } else if path == "/materializer_ondemand.OnDemandMaterializer/Heartbeat"@ {
        Some(OnDemandMaterializerMethod::Heartbeat)
    } else {
        None
    }
}

impl OnDemandMaterializerMethod {
    /// The request path of the method.
    pub fn path(self) -> (res: String)
        ensures
            res@ == on_demand_materializer_path(self),
    {
        match self {
            OnDemandMaterializerMethod::Materialize => String::from_str("/materializer_ondemand.OnDemandMaterializer/Materialize"),
            OnDemandMaterializerMethod::Heartbeat => String::from_str("/materializer_ondemand.OnDemandMaterializer/Heartbeat"),
        }
    }

    /// Whether the method answers with one message or a stream.
    pub fn kind(self) -> (res: CallKind)
        ensures
            res == on_demand_materializer_kind(self),
    {
        match self {
            OnDemandMaterializerMethod::Materialize => CallKind::ServerStreaming,
            OnDemandMaterializerMethod::Heartbeat => CallKind::Unary,
        }
    }

    /// The method that the server dispatches a request with this path to;
    /// `None` for a path the service does not have, which the server answers
    /// as unimplemented.
    pub fn route(path: &str) -> (res: Option<OnDemandMaterializerMethod>)
        ensures
            res == on_demand_materializer_route(path@),
    {
        if str_eq(path, "/materializer_ondemand.OnDemandMaterializer/Materialize") {
            Some(OnDemandMaterializerMethod::Materialize)
        } else if str_eq(path, "/materializer_ondemand.OnDemandMaterializer/Heartbeat") {
            Some(OnDemandMaterializerMethod::Heartbeat)
        } else {
            None
        }
    }
}

/// Each method of the OnDemandMaterializer service is routed to by its own path, and
/// only by it.
pub proof fn on_demand_materializer_routes_by_path(m: OnDemandMaterializerMethod)
    ensures
        on_demand_materializer_route(on_demand_materializer_path(m)) == Some(m),
        forall|p: Seq<char>| on_demand_materializer_route(p) == Some(m) ==> p == on_demand_materializer_path(m),
{
    reveal_strlit("/materializer_ondemand.OnDemandMaterializer/Materialize");
    reveal_strlit("/materializer_ondemand.OnDemandMaterializer/Heartbeat");
    assert("/materializer_ondemand.OnDemandMaterializer/Heartbeat"@.len() != "/materializer_ondemand.OnDemandMaterializer/Materialize"@.len());
}

} // verus!
