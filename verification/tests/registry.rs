use schema_registry::db::{
    validate_data_with_schema, export_all, full_schema, group_full_schemas, import_statements, new_view_id, updated_schema, updated_view,
    validation_result, views_by_relation, ImportStatement,
};
use schema_registry::error::{Code, RegistryError, Status};
use schema_registry::json::{JsonNumber, JsonValue};
use schema_registry::rpc::common_types::SearchFor;
use schema_registry::rpc::schema_registry as rpc;
use schema_registry::rpc::schema_registry_types::SchemaType;
use schema_registry::service::{
    collect_fields, destination_needs_check, destination_outcome, full_schema_reply, full_schemas_reply, id_reply,
    invalid_json, new_schema_from_request, new_view_from_request, parse_uuid, relation_ids_to_validate,
    schema_reply, schema_type_from_request, schema_update_from_request, schemas_reply, validate_value_reply,
    relation_walk, relations_outcome, validate_value, view_reply, view_update_from_request, views_reply,
    RelationAnswer, RelationWalkStep,
};
use schema_registry::startup::{export_file_name, export_folder_name};
use schema_registry::types::schema::{Schema, SchemaUpdate};
use schema_registry::types::storage::vertices;
use schema_registry::types::view::{FullView, Relation, ViewUpdate};
use schema_registry::utils::{build_full_schema, compiled_outcome, definitions_to_retrieve, with_definitions};

const S1: u128 = 0x2cfad3c7_411a_11eb_8000_000000000000;
const S2: u128 = 0xa5e0c7e2_412c_11eb_8000_000000000000;
const V1: u128 = 0xec8cc976_412b_11eb_8000_000000000000;
const V2: u128 = 0x11111111_2222_3333_4444_555555555555;
const S1_TEXT: &str = "2cfad3c7-411a-11eb-8000-000000000000";
const V1_TEXT: &str = "ec8cc976-412b-11eb-8000-000000000000";

fn s(text: &str) -> String {
    text.to_string()
}

fn text(t: &str) -> JsonValue {
    JsonValue::String(s(t))
}

fn object(members: Vec<(&str, JsonValue)>) -> JsonValue {
    JsonValue::Object(members.into_iter().map(|(k, v)| (s(k), v)).collect())
}

fn schema(id: u128, name: &str) -> Schema {
    Schema {
        id,
        name: s(name),
        insert_destination: s("cdl.document.1.data"),
        query_address: s("http://localhost:50201"),
        schema_type: SchemaType::DocumentStorage,
        definition: object(vec![]),
    }
}

fn relation(id: u128, nested: Vec<Relation>) -> Relation {
    Relation { global_id: id, local_id: 1, search_for: SearchFor::Children, relations: nested }
}

fn view(id: u128, base: u128, name: &str, relations: Vec<Relation>) -> FullView {
    FullView {
        id,
        base_schema: base,
        name: s(name),
        materializer_address: s("http://localhost:50203"),
        materializer_options: object(vec![("table", text("MATERIALIZED_VIEW"))]),
        fields: vec![(s("foo"), text("bar"))],
        relations,
        filters: None,
    }
}

fn status_of<T>(r: Result<T, Status>) -> Status {
    match r {
        Err(st) => st,
        Ok(_) => panic!("expected a status"),
    }
}

#[test]
fn parse_uuid_reads_and_refuses() {
    assert_eq!(parse_uuid(S1_TEXT).ok(), Some(S1));
    let st = status_of(parse_uuid("not-a-uuid"));
    assert_eq!(st.code, Code::InvalidArgument);
    assert!(st.message.starts_with("Failed to parse UUID: "));
    assert!(st.message.len() > "Failed to parse UUID: ".len());
}

#[test]
fn id_reply_prints_hyphenated_lower_case() {
    assert_eq!(id_reply(S1).id, S1_TEXT);
    assert_eq!(id_reply(0).id, "00000000-0000-0000-0000-000000000000");
    assert_eq!(parse_uuid(&id_reply(V2).id).ok(), Some(V2));
}

#[test]
fn invalid_json_status() {
    let st = invalid_json("expected value at line 1 column 1");
    assert_eq!(st.code, Code::InvalidArgument);
    assert_eq!(st.message, "Invalid JSON provided: expected value at line 1 column 1");
    let st = status_of(schema_type_from_request(&rpc::SchemaType { schema_type: 9 }));
    assert_eq!(st.message, "Invalid schema type");
    assert_eq!(schema_type_from_request(&rpc::SchemaType { schema_type: 1 }).ok(), Some(SchemaType::Timeseries));
}

fn new_schema_request(schema_type: i32) -> rpc::NewSchema {
    rpc::NewSchema {
        name: s("new schema"),
        insert_destination: s("cdl.document.1.data"),
        query_address: s("http://localhost:50201"),
        schema_type: rpc::SchemaType { schema_type },
        definition: b"{}".to_vec(),
    }
}

#[test]
fn new_schema_checks_definition_then_type() {
    let st = status_of(new_schema_from_request(new_schema_request(7), Err(s("eof"))));
    assert_eq!(st.message, "Invalid JSON provided: eof");
    let st = status_of(new_schema_from_request(new_schema_request(7), Ok(object(vec![]))));
    assert_eq!(st.message, "Invalid schema type");
    let n = new_schema_from_request(new_schema_request(0), Ok(object(vec![]))).ok().unwrap();
    assert_eq!(n.name, "new schema");
    assert_eq!(n.schema_type, SchemaType::DocumentStorage);
}

#[test]
fn insert_destination_checks() {
    assert!(destination_needs_check("topic"));
    assert!(!destination_needs_check(""));
    assert!(destination_outcome(&s("topic"), true).is_ok());
    let st = status_of(destination_outcome(&s("topic"), false));
    assert_eq!(st.code, Code::NotFound);
    assert_eq!(st.message, "No insert destination found named \"topic\"");
}

#[test]
fn schema_update_checks_in_order() {
    let request = |id: &str, t: Option<i32>| rpc::SchemaUpdate {
        id: s(id),
        name: Some(s("renamed")),
        insert_destination: None,
        query_address: None,
        schema_type: t.map(|schema_type| rpc::SchemaType { schema_type }),
        definition: None,
    };
    let st = status_of(schema_update_from_request(request("x", Some(9)), Some(Err(s("bad")))));
    assert!(st.message.starts_with("Failed to parse UUID: "));
    let st = status_of(schema_update_from_request(request(S1_TEXT, Some(9)), Some(Err(s("bad")))));
    assert_eq!(st.message, "Invalid schema type");
    let st = status_of(schema_update_from_request(request(S1_TEXT, Some(1)), Some(Err(s("bad")))));
    assert_eq!(st.message, "Definition was not valid JSON: bad");
    let (id, update) = schema_update_from_request(request(S1_TEXT, None), None).ok().unwrap();
    assert_eq!(id, S1);
    assert_eq!(update.name, Some(s("renamed")));
    assert!(update.schema_type.is_none());
    assert!(update.definition.is_none());
}

#[test]
fn relations_are_validated_depth_first() {
    let relations = vec![relation(1, vec![relation(2, vec![relation(3, vec![])])]), relation(4, vec![])];
    assert_eq!(relation_ids_to_validate(&relations), vec![1, 2, 3, 4]);
    assert!(relation_ids_to_validate(&vec![]).is_empty());
}

#[test]
fn fields_stop_at_the_first_malformed() {
    let fields = vec![(s("a"), Ok(text("x"))), (s("b"), Err(s("first"))), (s("c"), Err(s("second")))];
    let st = status_of(collect_fields(fields));
    assert_eq!(st.code, Code::Internal);
    assert_eq!(st.message, "JSON error processing view fields: first");
    let ok = collect_fields(vec![(s("a"), Ok(text("x"))), (s("b"), Ok(JsonValue::Null))]).ok().unwrap();
    assert_eq!(ok.len(), 2);
    assert_eq!(ok[1].0, "b");
}

fn new_view_request(view_id: Option<&str>, base: &str) -> rpc::NewView {
    rpc::NewView {
        view_id: view_id.map(s),
        base_schema_id: s(base),
        name: s("new view"),
        materializer_address: s("http://localhost:50203"),
        materializer_options: s("{}"),
        fields: vec![],
        filters: None,
        relations: vec![],
    }
}

#[test]
fn new_view_checks_in_order() {
    let none: Vec<RelationAnswer> = vec![];
    let st = status_of(new_view_from_request(new_view_request(None, S1_TEXT), Err(s("opts")), &none, vec![]));
    assert_eq!(st.message, "JSON error processing view fields: opts");
    let st = status_of(new_view_from_request(
        new_view_request(None, S1_TEXT),
        Ok(object(vec![])),
        &vec![RelationAnswer::Accepted, RelationAnswer::Rejected(s("no such relation"))],
        vec![],
    ));
    assert_eq!(st.code, Code::InvalidArgument);
    assert_eq!(st.message, "no such relation");
    let st = status_of(new_view_from_request(new_view_request(Some("bad"), S1_TEXT), Ok(object(vec![])), &none, vec![]));
    assert!(st.message.starts_with("Failed to parse UUID: "));
    let st = status_of(new_view_from_request(new_view_request(None, "bad"), Ok(object(vec![])), &none, vec![]));
    assert!(st.message.starts_with("Failed to parse UUID: "));
    let n = new_view_from_request(
        new_view_request(Some(V1_TEXT), S1_TEXT),
        Ok(object(vec![])),
        &vec![RelationAnswer::Accepted],
        vec![(s("f"), Ok(text("v")))],
    )
    .ok()
    .unwrap();
    assert_eq!(n.view_id, Some(V1));
    assert_eq!(n.base_schema_id, S1);
    assert_eq!(n.fields.len(), 1);
}

#[test]
fn view_update_applies_flags() {
    let request = rpc::ViewUpdate {
        id: s(V1_TEXT),
        name: None,
        materializer_address: Some(s("http://m")),
        materializer_options: s(""),
        fields: vec![],
        update_fields: false,
        filters: None,
        relations: vec![relation(5, vec![])],
        update_filters: true,
        update_relations: true,
    };
    let (id, u) = view_update_from_request(request, vec![(s("x"), Err(s("ignored")))], &vec![], Err(s("ignored")))
        .ok()
        .unwrap();
    assert_eq!(id, V1);
    assert!(u.fields.is_none());
    assert!(u.materializer_options.is_none());
    assert!(matches!(u.filters, Some(None)));
    assert_eq!(u.relations.map(|r| r.len()), Some(1));
    assert_eq!(u.materializer_address, Some(s("http://m")));
}

#[test]
fn view_update_refuses_malformed_options() {
    let request = rpc::ViewUpdate {
        id: s(V1_TEXT),
        name: None,
        materializer_address: None,
        materializer_options: s("{"),
        fields: vec![],
        update_fields: true,
        filters: None,
        relations: vec![],
        update_filters: false,
        update_relations: false,
    };
    let st = status_of(view_update_from_request(request, vec![], &vec![], Err(s("eof"))));
    assert_eq!(st.message, "JSON error processing view fields: eof");
}

#[test]
fn replies_carry_ids_as_text() {
    let r = schema_reply(schema(S1, "new schema"));
    assert_eq!(r.id, S1_TEXT);
    assert_eq!(r.definition, b"{}".to_vec());
    assert_eq!(r.schema_type.schema_type, 0);
    let all = schemas_reply(vec![schema(S1, "a"), schema(S2, "b")]);
    assert_eq!(all.schemas.len(), 2);
    assert_eq!(all.schemas[1].name, "b");
    let v = view_reply(s("as asked"), view(V1, S1, "new view", vec![]));
    assert_eq!(v.id, "as asked");
    assert_eq!(v.base_schema_id, S1_TEXT);
    assert_eq!(v.materializer_options, "{\"table\":\"MATERIALIZED_VIEW\"}");
    assert_eq!(v.fields, vec![(s("foo"), s("\"bar\""))]);
    let vs = views_reply(vec![view(V1, S1, "new view", vec![])]);
    assert_eq!(vs.views[0].id, V1_TEXT);
}

#[test]
fn full_schema_replies_and_filters() {
    let mut v = view(V1, S1, "new view", vec![]);
    v.filters = Some(object(vec![]));
    let one = full_schema_reply(s(S1_TEXT), full_schema(schema(S1, "s"), vec![v]));
    assert_eq!(one.views.len(), 1);
    assert!(one.views[0].filters.is_none());
    let mut v = view(V1, S1, "new view", vec![]);
    v.filters = Some(object(vec![]));
    let all = full_schemas_reply(vec![full_schema(schema(S1, "s"), vec![v])]);
    assert_eq!(all.schemas[0].id, S1_TEXT);
    assert!(all.schemas[0].views[0].filters.is_some());
}

#[test]
fn validate_value_replies() {
    let r = validate_value_reply(Ok(vec![s("bad")])).ok().unwrap();
    assert_eq!(r.errors, vec![s("bad")]);
    let st = status_of(validate_value_reply(Err(s("not a schema"))));
    assert_eq!(st.code, Code::InvalidArgument);
    assert_eq!(st.message, "Invalid JSON schema: not a schema");
    assert!(validation_result(vec![]).is_ok());
    assert!(matches!(validation_result(vec![s("e")]), Err(RegistryError::InvalidData(e)) if e == vec![s("e")]));
}

#[test]
fn views_are_picked_by_relation() {
    let views = vec![
        view(V1, S1, "a", vec![relation(10, vec![])]),
        view(V2, S1, "b", vec![relation(11, vec![relation(10, vec![])])]),
        view(3, S2, "c", vec![relation(11, vec![]), relation(10, vec![])]),
    ];
    let picked = views_by_relation(views, 10);
    assert_eq!(picked.len(), 2);
    assert_eq!(picked[0].name, "a");
    assert_eq!(picked[1].name, "c");
}

#[test]
fn views_are_grouped_under_their_schemas() {
    let views = vec![view(V1, S2, "x", vec![]), view(V2, S1, "y", vec![]), view(3, S2, "z", vec![])];
    let full = group_full_schemas(vec![schema(S1, "one"), schema(S2, "two")], views);
    assert_eq!(full.len(), 2);
    assert_eq!(full[0].views.iter().map(|v| v.name.clone()).collect::<Vec<_>>(), vec![s("y")]);
    assert_eq!(full[1].views.iter().map(|v| v.name.clone()).collect::<Vec<_>>(), vec![s("x"), s("z")]);
}

#[test]
fn export_then_import_restores_everything() {
    let views = vec![view(V1, S1, "new view", vec![]), view(V2, S2, "other", vec![])];
    let full = group_full_schemas(vec![schema(S1, "new schema"), schema(S2, "second schema")], views);
    let exported = export_all(full);
    assert_eq!(exported.schemas.len(), 2);
    assert_eq!(exported.schemas[0].views[0].id, V1);
    let statements = import_statements(true, exported);
    let summary: Vec<(bool, u128)> = statements
        .iter()
        .map(|st| match st {
            ImportStatement::InsertSchema(sc) => (true, sc.id),
            ImportStatement::InsertView(v) => (false, v.id),
        })
        .collect();
    assert_eq!(summary, vec![(true, S1), (false, V1), (true, S2), (false, V2)]);
    match &statements[3] {
        ImportStatement::InsertView(v) => assert_eq!(v.base_schema, S2),
        _ => panic!("expected a view"),
    }
}

#[test]
fn import_into_a_filled_registry_does_nothing() {
    let full = group_full_schemas(vec![schema(S1, "new schema")], vec![]);
    assert!(import_statements(false, export_all(full)).is_empty());
}

#[test]
fn updates_replace_given_fields() {
    let u = SchemaUpdate {
        name: Some(s("renamed")),
        insert_destination: None,
        query_address: None,
        schema_type: Some(SchemaType::Timeseries),
        definition: None,
    };
    let r = updated_schema(schema(S1, "old"), u);
    assert_eq!(r.id, S1);
    assert_eq!(r.name, "renamed");
    assert_eq!(r.schema_type, SchemaType::Timeseries);
    assert_eq!(r.insert_destination, "cdl.document.1.data");
    let vu = ViewUpdate {
        name: None,
        materializer_address: Some(s("http://new")),
        materializer_options: Some(object(vec![])),
        fields: Some(vec![]),
        relations: None,
        filters: Some(Some(object(vec![]))),
    };
    let v = updated_view(view(V1, S1, "v", vec![relation(1, vec![])]), vu);
    assert_eq!(v.name, "v");
    assert_eq!(v.materializer_address, "http://new");
    assert!(matches!(&v.materializer_options, JsonValue::Object(m) if m.len() == 1));
    assert!(v.fields.is_empty());
    assert_eq!(v.relations.len(), 1);
    assert!(v.filters.is_some());
    assert_eq!(new_view_id(Some(V2)), V2);
}

#[test]
fn referenced_definitions_are_found_and_filled() {
    let schema = object(vec![
        ("type", text("object")),
        (
            "definitions",
            object(vec![
                ("address", text(S1_TEXT)),
                ("plain", object(vec![("type", text("string"))])),
                ("named", text("not an id")),
            ]),
        ),
    ]);
    let refs = definitions_to_retrieve(&schema);
    assert_eq!(refs, vec![(s("address"), S1)]);
    let filled = with_definitions(schema, vec![(s("address"), object(vec![("type", text("number"))]))]);
    match &filled {
        JsonValue::Object(members) => {
            assert_eq!(members.len(), 2);
            match &members[1].1 {
                JsonValue::Object(defs) => {
                    assert_eq!(defs.len(), 3);
                    assert_eq!(defs[0].0, "address");
                    assert!(matches!(&defs[0].1, JsonValue::Object(d) if d.len() == 1));
                    assert!(matches!(&defs[2].1, JsonValue::String(t) if t == "not an id"));
                }
                _ => panic!("expected definitions"),
            }
        }
        _ => panic!("expected an object"),
    }
}

#[test]
fn schemas_without_definitions_are_left_alone() {
    let schema = object(vec![("definitions", text(S1_TEXT))]);
    assert!(definitions_to_retrieve(&schema).is_empty());
    assert!(definitions_to_retrieve(&JsonValue::Number(JsonNumber::PosInt(1))).is_empty());
    let same = with_definitions(schema, vec![(s("x"), JsonValue::Null)]);
    assert!(matches!(&same, JsonValue::Object(m) if m.len() == 1 && matches!(&m[0].1, JsonValue::String(_))));
    assert!(compiled_outcome(Ok(())).is_ok());
    assert!(matches!(compiled_outcome(Err(s("bad"))), Err(RegistryError::InvalidJsonSchema(m)) if m == "bad"));
}

#[test]
fn vertices_store_and_read_properties() {
    let v = vertices::View { name: s("new view"), jmespath: s("a.b") };
    let props = v.into_properties();
    assert_eq!(props[0].0, "VIEW_NAME");
    let (id, back) = vertices::View::from_properties(V1, &props).unwrap();
    assert_eq!(id, V1);
    assert_eq!(back.name, "new view");
    assert_eq!(back.jmespath, "a.b");
    let d = vertices::Definition { definition: text("x") };
    let (_, back) = vertices::Definition::from_properties(S1, d.into_properties()).unwrap();
    assert!(matches!(back.definition, JsonValue::String(t) if t == "x"));
    assert!(vertices::View::from_properties(V1, &vec![(s("VIEW_NAME"), text("n"))]).is_none());
    assert_eq!(vertices::Schema::db_type(), "SCHEMA");
    assert_eq!(vertices::Definition::db_type(), "DEFINITION");
    assert_eq!(vertices::View::db_type(), "VIEW");
}

#[test]
fn schema_vertex_type_is_written_by_name_and_read_upper_case() {
    let sv = vertices::Schema {
        name: s("new schema"),
        insert_destination: s("d"),
        query_address: s("q"),
        schema_type: SchemaType::DocumentStorage,
    };
    let props = sv.into_properties();
    assert!(matches!(&props[3].1, JsonValue::String(t) if t == "DocumentStorage"));
    assert!(vertices::Schema::from_properties(S1, &props).is_none());
    let stored = vec![
        (s("SCHEMA_NAME"), text("n")),
        (s("SCHEMA_INSERT_DESTINATION"), text("d")),
        (s("SCHEMA_QUERY_ADDRESS"), text("q")),
        (s("SCHEMA_TYPE"), text("TIMESERIES")),
    ];
    let (_, read) = vertices::Schema::from_properties(S1, &stored).unwrap();
    assert_eq!(read.schema_type, SchemaType::Timeseries);
}

#[test]
fn relation_walk_stops_at_the_first_refusal() {
    let ids = vec![1u128, 2, 3];
    assert!(matches!(relation_walk(&ids, &vec![]), RelationWalkStep::Ask(1)));
    assert!(matches!(relation_walk(&ids, &vec![RelationAnswer::Accepted]), RelationWalkStep::Ask(2)));
    match relation_walk(&ids, &vec![RelationAnswer::Accepted, RelationAnswer::Rejected(s("unknown relation"))]) {
        RelationWalkStep::Finished(Err(st)) => {
            assert_eq!(st.code, Code::InvalidArgument);
            assert_eq!(st.message, "unknown relation");
        }
        _ => panic!("expected the walk to end"),
    }
    let all = vec![RelationAnswer::Accepted, RelationAnswer::Accepted, RelationAnswer::Accepted];
    assert!(matches!(relation_walk(&ids, &all), RelationWalkStep::Finished(Ok(()))));
    let st = status_of(relations_outcome(&vec![RelationAnswer::Unreachable(s("pool timed out"))]));
    assert_eq!(st.code, Code::Internal);
    assert_eq!(st.message, "pool timed out");
}

fn type_schema(t: &str) -> JsonValue {
    object(vec![("type", text(t))])
}

#[test]
fn values_are_checked_against_json_schemas() {
    let r = validate_value(&type_schema("string"), Ok(text("ok"))).ok().unwrap();
    assert!(r.errors.is_empty());
    let r = validate_value(&type_schema("string"), Ok(JsonValue::Number(JsonNumber::PosInt(3)))).ok().unwrap();
    assert_eq!(r.errors.len(), 1);
    let st = status_of(validate_value(&type_schema("string"), Err(s("eof"))));
    assert_eq!(st.message, "Invalid JSON provided: eof");
    let st = status_of(validate_value(&type_schema("no such type"), Ok(text("x"))));
    assert_eq!(st.code, Code::InvalidArgument);
    assert!(st.message.starts_with("Invalid JSON schema: "));
}

#[test]
fn data_is_checked_against_json_schemas() {
    assert!(validate_data_with_schema(&type_schema("integer"), &JsonValue::Number(JsonNumber::PosInt(1))).is_ok());
    assert!(matches!(
        validate_data_with_schema(&type_schema("integer"), &text("one")),
        Err(RegistryError::InvalidData(e)) if e.len() == 1
    ));
    assert!(matches!(
        validate_data_with_schema(&type_schema("no such type"), &text("one")),
        Err(RegistryError::InvalidJsonSchema(_))
    ));
}

#[test]
fn full_schema_is_filled_then_compiled() {
    let schema = object(vec![("type", text("object")), ("definitions", object(vec![("a", text(S1_TEXT))]))]);
    let (filled, outcome) = build_full_schema(schema, vec![(s("a"), type_schema("string"))]);
    assert!(outcome.is_ok());
    assert!(matches!(&filled, JsonValue::Object(m) if matches!(&m[1].1, JsonValue::Object(d) if matches!(&d[0].1, JsonValue::Object(_)))));
    let (_, outcome) = build_full_schema(type_schema("no such type"), vec![]);
    assert!(matches!(outcome, Err(RegistryError::InvalidJsonSchema(_))));
}

#[test]
fn export_file_is_named_by_time() {
    assert_eq!(export_file_name("2021-01-02T03:04:05Z"), "export_2021-01-02T03:04:05Z.json");
    assert_eq!(export_folder_name("2021-01-02T03:04:05Z"), "export_2021-01-02T03:04:05Z");
}

#[test]
fn import_then_export_gives_the_import_back() {
    let views = vec![view(V1, S1, "new view", vec![]), view(V2, S2, "other", vec![]), view(3, S1, "third", vec![])];
    let original = export_all(group_full_schemas(vec![schema(S1, "new schema"), schema(S2, "second schema")], views));
    let again = export_all(group_full_schemas(vec![schema(S1, "new schema"), schema(S2, "second schema")], vec![
        view(V1, S1, "new view", vec![]),
        view(V2, S2, "other", vec![]),
        view(3, S1, "third", vec![]),
    ]));
    let mut schemas = vec![];
    let mut stored_views = vec![];
    for statement in import_statements(true, again) {
        match statement {
            ImportStatement::InsertSchema(sc) => schemas.push(sc),
            ImportStatement::InsertView(v) => stored_views.push(v),
        }
    }
    let exported = export_all(group_full_schemas(schemas, stored_views));
    assert_eq!(exported.schemas.len(), original.schemas.len());
    for (e, o) in exported.schemas.iter().zip(original.schemas.iter()) {
        assert_eq!(e.id, o.id);
        assert_eq!(e.name, o.name);
        let ids: Vec<u128> = e.views.iter().map(|v| v.id).collect();
        let expected: Vec<u128> = o.views.iter().map(|v| v.id).collect();
        assert_eq!(ids, expected);
    }
    assert_eq!(exported.schemas[0].views.len(), 2);
}

#[test]
fn fresh_view_ids_are_version_4() {
    let id = new_view_id(None);
    assert_eq!((id >> 76) & 0xf, 4);
    assert_eq!((id >> 62) & 0x3, 2);
}

#[test]
fn checker_messages_are_reported_in_full() {
    let schema = object(vec![("type", text("object")), ("required", JsonValue::Array(vec![text("a"), text("b")]))]);
    let r = validate_value(&schema, Ok(object(vec![]))).ok().unwrap();
    assert_eq!(r.errors.len(), 2);
    match validate_data_with_schema(&schema, &object(vec![])) {
        Err(RegistryError::InvalidData(e)) => assert_eq!(e, r.errors),
        _ => panic!("expected invalid data"),
    }
}
