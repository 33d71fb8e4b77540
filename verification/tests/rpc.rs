use schema_registry::error::Code;
use schema_registry::rpc::clients::{
    EdgeRegistryConnectionManager, OnDemandMaterializerConnectionManager, SchemaRegistryConnectionManager,
};
use schema_registry::rpc::common::{self, Direction, Operator};
use schema_registry::rpc::common_types::{LogicOperator, SearchFor};
use schema_registry::rpc::edge_registry_types::SimpleFilterSide;
use schema_registry::rpc::routing::{
    unimplemented_reply, CallKind, EdgeRegistryMethod, OnDemandMaterializerMethod, QueryServiceTsMethod,
    SchemaRegistryMethod,
};
use schema_registry::rpc::schema_registry_types::{ScalarType, SchemaType};

#[test]
fn schema_types_round_trip() {
    for t in [SchemaType::DocumentStorage, SchemaType::Timeseries] {
        assert_eq!(SchemaType::try_from_wire(t.wire_value()), Ok(t));
        assert_eq!(SchemaType::from_name(&t.name()), Ok(t));
    }
    assert_eq!(SchemaType::DocumentStorage.wire_value(), 0);
    assert_eq!(SchemaType::Timeseries.wire_value(), 1);
    assert_eq!(SchemaType::try_from_wire(2), Err("Invalid schema type".to_string()));
    assert_eq!(SchemaType::from_name("Blob"), Err("Invalid schema type: Blob".to_string()));
    assert_eq!(SchemaType::Timeseries.name(), "Timeseries");
}

#[test]
fn scalar_types_round_trip() {
    for t in [ScalarType::Bool, ScalarType::String, ScalarType::Integer, ScalarType::Decimal, ScalarType::Any] {
        assert_eq!(ScalarType::try_from_wire(t.wire_value()), Ok(t));
        assert_eq!(ScalarType::from_name(&t.name()), Ok(t));
    }
    assert_eq!(ScalarType::Decimal.wire_value(), 3);
    assert_eq!(ScalarType::try_from_wire(-1), Err("Invalid scalar type".to_string()));
    assert_eq!(ScalarType::from_name("bool"), Err("Invalid scalar type: bool".to_string()));
}

#[test]
fn relation_directions_and_operators() {
    assert_eq!(SearchFor::from_direction(Direction::Parents), SearchFor::Parents);
    assert_eq!(SearchFor::from_direction(Direction::Children), SearchFor::Children);
    assert_eq!(SearchFor::Children.to_message().search_for, Direction::Children.wire_value());
    assert_eq!(SearchFor::try_from_message(&common::SearchFor { search_for: 0 }), Ok(SearchFor::Parents));
    assert_eq!(
        SearchFor::try_from_message(&common::SearchFor { search_for: 9 }),
        Err("Invalid relation direction".to_string())
    );
    assert_eq!(SearchFor::from_name("Children"), Ok(SearchFor::Children));
    assert_eq!(SearchFor::from_name("Up"), Err("Invalid relation direction: Up".to_string()));
    assert_eq!(LogicOperator::from_operator(Operator::Or), LogicOperator::Or);
    assert_eq!(LogicOperator::And.to_message().operator, Operator::And.wire_value());
    assert_eq!(LogicOperator::try_from_message(&common::LogicOperator { operator: 1 }), Ok(LogicOperator::Or));
    assert_eq!(
        LogicOperator::try_from_message(&common::LogicOperator { operator: 5 }),
        Err("Invalid logic operator".to_string())
    );
    assert_eq!(LogicOperator::from_name("Xor"), Err("Invalid logic operator: Xor".to_string()));
    assert_eq!(LogicOperator::try_from_wire(LogicOperator::And.wire_value()), Ok(LogicOperator::And));
}

#[test]
fn simple_filter_sides() {
    for t in [SimpleFilterSide::InParentObjIds, SimpleFilterSide::InChildObjIds] {
        assert_eq!(SimpleFilterSide::try_from_wire(t.wire_value()), Ok(t));
        assert_eq!(SimpleFilterSide::from_name(&t.name()), Ok(t));
    }
    assert_eq!(SimpleFilterSide::try_from_wire(7), Err("Invalid simple filter side".to_string()));
}

#[test]
fn schema_registry_paths_route_back() {
    let all = [
        SchemaRegistryMethod::AddSchema,
        SchemaRegistryMethod::UpdateSchema,
        SchemaRegistryMethod::AddViewToSchema,
        SchemaRegistryMethod::UpdateView,
        SchemaRegistryMethod::GetSchema,
        SchemaRegistryMethod::GetFullSchema,
        SchemaRegistryMethod::GetView,
        SchemaRegistryMethod::GetAllSchemas,
        SchemaRegistryMethod::GetAllFullSchemas,
        SchemaRegistryMethod::GetAllViewsOfSchema,
        SchemaRegistryMethod::GetAllViewsByRelation,
        SchemaRegistryMethod::GetBaseSchemaOfView,
        SchemaRegistryMethod::ValidateValue,
        SchemaRegistryMethod::WatchAllSchemaUpdates,
        SchemaRegistryMethod::Heartbeat,
    ];
    for m in all {
        assert_eq!(SchemaRegistryMethod::route(&m.path()), Some(m));
    }
    assert_eq!(SchemaRegistryMethod::GetView.path(), "/schema_registry.SchemaRegistry/GetView");
    assert_eq!(SchemaRegistryMethod::WatchAllSchemaUpdates.kind(), CallKind::ServerStreaming);
    assert_eq!(SchemaRegistryMethod::AddSchema.kind(), CallKind::Unary);
    assert_eq!(SchemaRegistryMethod::route("/schema_registry.SchemaRegistry/Nothing"), None);
}

#[test]
fn other_services_paths_route_back() {
    for m in [
        EdgeRegistryMethod::AddRelation,
        EdgeRegistryMethod::GetRelation,
        EdgeRegistryMethod::GetSchemaByRelation,
        EdgeRegistryMethod::GetSchemaRelations,
        EdgeRegistryMethod::ListRelations,
        EdgeRegistryMethod::ValidateRelation,
        EdgeRegistryMethod::AddEdges,
        EdgeRegistryMethod::GetEdge,
        EdgeRegistryMethod::GetEdges,
        EdgeRegistryMethod::Heartbeat,
        EdgeRegistryMethod::ResolveTree,
    ] {
        assert_eq!(EdgeRegistryMethod::route(&m.path()), Some(m));
    }
    for m in [QueryServiceTsMethod::QueryBySchema, QueryServiceTsMethod::QueryByRange, QueryServiceTsMethod::QueryRaw] {
        assert_eq!(QueryServiceTsMethod::route(&m.path()), Some(m));
    }
    for m in [OnDemandMaterializerMethod::Materialize, OnDemandMaterializerMethod::Heartbeat] {
        assert_eq!(OnDemandMaterializerMethod::route(&m.path()), Some(m));
    }
    assert_eq!(
        OnDemandMaterializerMethod::Materialize.path(),
        "/materializer_ondemand.OnDemandMaterializer/Materialize"
    );
    assert_eq!(QueryServiceTsMethod::QueryRaw.path(), "/query_service_ts.QueryServiceTs/QueryRaw");
    assert_eq!(EdgeRegistryMethod::route("/edge_registry.EdgeRegistry/heartbeat"), None);
}

#[test]
fn unknown_path_is_unimplemented() {
    let r = unimplemented_reply();
    assert_eq!(r.http_status, 200);
    assert_eq!(r.grpc_status, Code::Unimplemented);
    assert_eq!(r.grpc_status.number(), 12);
    assert_eq!(r.content_type, "application/grpc");
}

#[test]
fn connection_managers_hold_addresses() {
    let e = EdgeRegistryConnectionManager { address: "http://localhost:50110".to_string() };
    let o = OnDemandMaterializerConnectionManager { address: "http://localhost:50108".to_string() };
    let s = SchemaRegistryConnectionManager { address: "http://localhost:50101".to_string() };
    assert_eq!(e.address, "http://localhost:50110");
    assert_eq!(o.address, "http://localhost:50108");
    assert_eq!(s.address, "http://localhost:50101");
}
