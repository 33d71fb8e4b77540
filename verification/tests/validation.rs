use schema_registry::error::RegistryError;
use schema_registry::json::{JsonNumber, JsonValue};
use schema_registry::rpc::schema_registry_types::ScalarType;
use schema_registry::schemas::{SchemaFieldDefinition, SchemaFieldType};
use schema_registry::validation::{extend_path, validate_data, wrong_type};

fn s(text: &str) -> String {
    text.to_string()
}

fn scalar(t: ScalarType, optional: bool) -> SchemaFieldDefinition {
    SchemaFieldDefinition { optional, field_type: SchemaFieldType::Scalar(t) }
}

fn object(members: Vec<(&str, JsonValue)>) -> JsonValue {
    JsonValue::Object(members.into_iter().map(|(k, v)| (s(k), v)).collect())
}

fn num(n: u64) -> JsonValue {
    JsonValue::Number(JsonNumber::PosInt(n))
}

fn text(t: &str) -> JsonValue {
    JsonValue::String(s(t))
}

/// The single message of an invalid-data error.
fn invalid_message(r: Result<(), RegistryError>) -> String {
    match r {
        Err(RegistryError::InvalidData(m)) => {
            assert_eq!(m.len(), 1);
            m[0].clone()
        }
        Err(e) => panic!("unexpected error: {}", e.message()),
        Ok(()) => panic!("expected invalid data"),
    }
}

#[test]
fn valid_object_passes() {
    let schema = vec![
        (s("name"), scalar(ScalarType::String, false)),
        (s("age"), scalar(ScalarType::Integer, false)),
        (s("nick"), scalar(ScalarType::String, true)),
    ];
    let data = object(vec![("name", text("Ann")), ("age", num(30))]);
    assert!(validate_data(&data, &schema).is_ok());
}

#[test]
fn top_level_must_be_object() {
    let schema = vec![(s("name"), scalar(ScalarType::String, false))];
    let data = JsonValue::Array(vec![]);
    assert_eq!(invalid_message(validate_data(&data, &schema)), "Data must be an object at the top level");
}

#[test]
fn missing_top_level_field_is_unexpectedly_null() {
    let schema = vec![(s("name"), scalar(ScalarType::String, false))];
    let data = object(vec![]);
    assert_eq!(invalid_message(validate_data(&data, &schema)), "Value was unexpectedly null: path `name`");
}

#[test]
fn integer_field_rejects_decimal() {
    let schema = vec![(s("age"), scalar(ScalarType::Integer, false))];
    let data = object(vec![("age", JsonValue::Number(JsonNumber::Float(s("1.5"))))]);
    assert_eq!(invalid_message(validate_data(&data, &schema)), "Expected data to be a integer: path `age`");
}

#[test]
fn decimal_field_rejects_integer() {
    let schema = vec![(s("price"), scalar(ScalarType::Decimal, false))];
    let data = object(vec![("price", num(3))]);
    assert_eq!(invalid_message(validate_data(&data, &schema)), "Expected data to be a decimal: path `price`");
}

#[test]
fn negative_integer_is_an_integer() {
    let schema = vec![(s("delta"), scalar(ScalarType::Integer, false))];
    let data = object(vec![("delta", JsonValue::Number(JsonNumber::NegInt(-4)))]);
    assert!(validate_data(&data, &schema).is_ok());
}

#[test]
fn bool_and_any_fields() {
    let schema = vec![(s("flag"), scalar(ScalarType::Bool, false)), (s("extra"), scalar(ScalarType::Any, false))];
    let good = object(vec![("flag", JsonValue::Bool(true)), ("extra", JsonValue::Array(vec![]))]);
    assert!(validate_data(&good, &schema).is_ok());
    let bad = object(vec![("flag", text("yes")), ("extra", JsonValue::Null)]);
    assert_eq!(invalid_message(validate_data(&bad, &schema)), "Expected data to be a boolean: path `flag`");
}

#[test]
fn nested_missing_field_names_the_path() {
    let inner = SchemaFieldDefinition {
        optional: false,
        field_type: SchemaFieldType::Object(vec![(s("street"), scalar(ScalarType::String, false))]),
    };
    let schema = vec![(s("address"), inner)];
    let data = object(vec![("address", object(vec![("street", JsonValue::Null)]))]);
    assert_eq!(
        invalid_message(validate_data(&data, &schema)),
        "Value was null or missing: path `address, street`"
    );
}

#[test]
fn nested_object_of_wrong_kind() {
    let inner = SchemaFieldDefinition {
        optional: false,
        field_type: SchemaFieldType::Object(vec![(s("street"), scalar(ScalarType::String, true))]),
    };
    let schema = vec![(s("address"), inner)];
    let data = object(vec![("address", num(5))]);
    assert_eq!(invalid_message(validate_data(&data, &schema)), "Expected data to be a object: path `address`");
}

#[test]
fn array_of_wrong_kind_is_reported_as_object() {
    let list = SchemaFieldDefinition {
        optional: false,
        field_type: SchemaFieldType::Array(Box::new(scalar(ScalarType::Bool, false))),
    };
    let schema = vec![(s("flags"), list)];
    let data = object(vec![("flags", text("no"))]);
    assert_eq!(invalid_message(validate_data(&data, &schema)), "Expected data to be a object: path `flags`");
}

#[test]
fn array_items_are_checked_by_index() {
    let list = SchemaFieldDefinition {
        optional: false,
        field_type: SchemaFieldType::Array(Box::new(scalar(ScalarType::Bool, false))),
    };
    let schema = vec![(s("flags"), list)];
    let data = object(vec![("flags", JsonValue::Array(vec![JsonValue::Bool(true), num(1)]))]);
    assert_eq!(invalid_message(validate_data(&data, &schema)), "Expected data to be a boolean: path `flags, 1`");
}

#[test]
fn null_array_item_is_unexpectedly_null() {
    let list = SchemaFieldDefinition {
        optional: true,
        field_type: SchemaFieldType::Array(Box::new(scalar(ScalarType::String, false))),
    };
    let schema = vec![(s("tags"), list)];
    let data = object(vec![("tags", JsonValue::Array(vec![text("a"), text("b"), JsonValue::Null]))]);
    assert_eq!(invalid_message(validate_data(&data, &schema)), "Value was unexpectedly null: path `tags, 2`");
}

#[test]
fn first_violation_in_schema_order_is_reported() {
    let schema = vec![(s("b"), scalar(ScalarType::String, false)), (s("a"), scalar(ScalarType::String, false))];
    let data = object(vec![("a", num(1)), ("b", num(2))]);
    assert_eq!(invalid_message(validate_data(&data, &schema)), "Expected data to be a string: path `b`");
}

#[test]
fn optional_fields_may_be_missing_or_null() {
    let schema = vec![(s("a"), scalar(ScalarType::String, true)), (s("b"), scalar(ScalarType::String, true))];
    let data = object(vec![("a", JsonValue::Null)]);
    assert!(validate_data(&data, &schema).is_ok());
}

#[test]
fn extend_path_appends_a_segment() {
    let base = vec![s("a"), s("b")];
    assert_eq!(extend_path(&base, s("c")), vec![s("a"), s("b"), s("c")]);
    assert_eq!(extend_path(&vec![], s("x")), vec![s("x")]);
}

#[test]
fn wrong_type_message() {
    let e = wrong_type("string", &vec![s("a"), s("0")]);
    assert_eq!(invalid_message(Err(e)), "Expected data to be a string: path `a, 0`");
}

#[test]
fn relaxed_definition_accepts_what_the_strict_one_accepts() {
    let strict = vec![(s("count"), scalar(ScalarType::Integer, false))];
    let relaxed = vec![(s("count"), scalar(ScalarType::Any, true))];
    let data = object(vec![("count", num(4))]);
    assert!(validate_data(&data, &strict).is_ok());
    assert!(validate_data(&data, &relaxed).is_ok());
    let missing = object(vec![]);
    assert!(validate_data(&missing, &strict).is_err());
    assert!(validate_data(&missing, &relaxed).is_ok());
}
