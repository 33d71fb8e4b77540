//! Checking data against the field definitions of a schema.
use vstd::prelude::*;
use crate::error::{RegistryError, RegistryResult};
use crate::json::{key_position, JsonNumber, JsonValue, find_member};
use crate::rpc::schema_registry_types::ScalarType;
use crate::schemas::{SchemaFieldDefinition, SchemaFieldType, well_keyed_schema};
use crate::text::{decimal, join_strings, join_with, usize_to_string, views};

verus! {

/// The first way in which data fails its definition, with the path of field
/// names and array indices at which it does.
pub enum Violation {
    /// A required value is `null` (or, at the top level, missing).
    UnexpectedNull(Seq<Seq<char>>),
    /// A value is not of the expected kind (`boolean`, `string`, `decimal`,
    /// `integer` or `object`).
    WrongType(Seq<char>, Seq<Seq<char>>),
    /// A required field of an object is missing or `null`.
    MissingField(Seq<Seq<char>>),
}

/// The path as it is printed in messages: its segments joined with `", "`.
pub open spec fn path_text(path: Seq<Seq<char>>) -> Seq<char> {
    join_with(path, ", "@)
}

/// The message that reports a violation.
pub open spec fn violation_text(v: Violation) -> Seq<char> {
    match v {
        Violation::UnexpectedNull(p) => "Value was unexpectedly null: path `"@ + path_text(p) + "`"@,
        Violation::WrongType(t, p) => "Expected data to be a "@ + t + ": path `"@ + path_text(p) + "`"@,
        Violation::MissingField(p) => "Value was null or missing: path `"@ + path_text(p) + "`"@,
    }
}

/// The kind name that a scalar type expects, when `data` is not of it.
pub open spec fn scalar_mismatch(data: JsonValue, scalar: ScalarType) -> Option<Seq<char>> {
    match scalar {
        ScalarType::Bool => if data is Bool { None } else { Some("boolean"@) },
        ScalarType::String => if data is String { None } else { Some("string"@) },
        ScalarType::Decimal => if data matches JsonValue::Number(JsonNumber::Float(_)) {
            None
        } else {
            Some("decimal"@)
        },
        ScalarType::Integer => if data matches JsonValue::Number(JsonNumber::PosInt(_))
            || data matches JsonValue::Number(JsonNumber::NegInt(_)) {
            None
        } else {
            Some("integer"@)
        },
        ScalarType::Any => None,
    }
}

/// How many fields a definition has at its top (0 unless it is an object).
pub open spec fn field_count(def: SchemaFieldDefinition) -> nat {
    match def.field_type {
        SchemaFieldType::Object(fields) => fields@.len(),
        _ => 0,
    }
}

/// How many items a value has at its top (0 unless it is an array).
pub open spec fn item_count(data: JsonValue) -> nat {
    match data {
        JsonValue::Array(items) => items@.len(),
        _ => 0,
    }
}

/// The first violation of `def` by `data`, found at `path`, or `None` when
/// `data` meets `def`. A `null` value meets an optional definition; the
/// fields of an object are checked in the order `def` lists them, the items
/// of an array in their order.
pub open spec fn value_violation(data: JsonValue, def: SchemaFieldDefinition, path: Seq<Seq<char>>) -> Option<Violation>
    decreases data, field_count(def) + item_count(data) + 1,
{
    if data is Null {
        if def.optional {
            None
        } else {
            Some(Violation::UnexpectedNull(path))
        }
    } else {
        match def.field_type {
            SchemaFieldType::Scalar(s) => match scalar_mismatch(data, s) {
                Some(t) => Some(Violation::WrongType(t, path)),
                None => None,
            },
            SchemaFieldType::Object(fields) => if data is Object {
                fields_violation(data, fields@, path, 0)
            } else {
                Some(Violation::WrongType("object"@, path))
            },
            SchemaFieldType::Array(item) => if data is Array {
                items_violation(data, *item, path, 0)
            } else {
                Some(Violation::WrongType("object"@, path))
            },
        }
    }
}

/// The first violation among the fields `fields[i..]` of the object `data`.
pub open spec fn fields_violation(
    data: JsonValue,
    fields: Seq<(String, SchemaFieldDefinition)>,
    path: Seq<Seq<char>>,
    i: int,
) -> Option<Violation>
    decreases data, fields.len() - i,
{
    if i < 0 || i >= fields.len() || !(data is Object) {
        None
    } else {
        let entries = data->Object_0@;
        let name = fields[i].0@;
        let fdef = fields[i].1;
        let fpath = path.push(name);
        let p = key_position(entries, name);
        let here = if 0 <= p < entries.len() && !(entries[p].1 is Null) {
            value_violation(entries[p].1, fdef, fpath)
        } else if !fdef.optional {
            Some(Violation::MissingField(fpath))
        } else {
            None
        };
        if here is Some {
            here
        } else {
            fields_violation(data, fields, path, i + 1)
        }
    }
}

/// The first violation among the items `items[i..]` of the array `data`.
pub open spec fn items_violation(
    data: JsonValue,
    item: SchemaFieldDefinition,
    path: Seq<Seq<char>>,
    i: int,
) -> Option<Violation>
    decreases data, item_count(data) - i,
{
    if i < 0 || !(data is Array) || i >= data->Array_0@.len() {
        None
    } else {
        let here = value_violation(data->Array_0@[i], item, path.push(decimal(i as nat)));
        if here is Some {
            here
        } else {
            items_violation(data, item, path, i + 1)
        }
    }
}

/// The first violation among the top-level fields `schema[i..]` of an
/// object with members `entries`. A missing top-level field is read as
/// `null`.
pub open spec fn top_violation(
    entries: Seq<(String, JsonValue)>,
    schema: Seq<(String, SchemaFieldDefinition)>,
    i: int,
) -> Option<Violation>
    decreases schema.len() - i,
{
    if i < 0 || i >= schema.len() {
        None
    } else {
        let name = schema[i].0@;
        let p = key_position(entries, name);
        let value = if 0 <= p < entries.len() {
            entries[p].1
        } else {
            JsonValue::Null
        };
        let here = value_violation(value, schema[i].1, seq![name]);
        if here is Some {
            here
        } else {
            top_violation(entries, schema, i + 1)
        }
    }
}

/// `data` meets the definition `def`: `null` only where the definition is
/// optional; a scalar of the expected kind; an object each of whose listed
/// fields is present and meets its definition, or is optional and missing
/// or `null`; an array each of whose items meets the item definition.
pub open spec fn conforms(data: JsonValue, def: SchemaFieldDefinition) -> bool
    decreases data,
{
    if data is Null {
        def.optional
    } else {
        match def.field_type {
            SchemaFieldType::Scalar(s) => scalar_mismatch(data, s) is None,
            SchemaFieldType::Object(fields) => match data {
                JsonValue::Object(entries) => forall|i: int|
                    #![trigger fields@[i]]
                    0 <= i < fields@.len() ==> {
                        let p = key_position(entries@, fields@[i].0@);
                        if 0 <= p < entries@.len() && !(entries@[p].1 is Null) {
                            conforms(entries@[p].1, fields@[i].1)
                        } else {
                            fields@[i].1.optional
                        }
                    },
                _ => false,
            },
            SchemaFieldType::Array(item) => match data {
                JsonValue::Array(items) => forall|i: int|
                    #![trigger items@[i]]
                    0 <= i < items@.len() ==> conforms(items@[i], *item),
                _ => false,
            },
        }
    }
}

/// The field `f` of an object with members `entries` meets its definition.
pub open spec fn field_conforms(entries: Seq<(String, JsonValue)>, f: (String, SchemaFieldDefinition)) -> bool {
    let p = key_position(entries, f.0@);
    if 0 <= p < entries.len() && !(entries[p].1 is Null) {
        conforms(entries[p].1, f.1)
    } else {
        f.1.optional
    }
}

/// The value of a top-level field: the member of that name, or `null`.
pub open spec fn top_value(entries: Seq<(String, JsonValue)>, name: Seq<char>) -> JsonValue {
    let p = key_position(entries, name);
    if 0 <= p < entries.len() {
        entries[p].1
    } else {
        JsonValue::Null
    }
}

/// An object with members `entries` meets the schema: each listed field
/// (a missing one read as `null`) meets its definition.
pub open spec fn top_conforms(entries: Seq<(String, JsonValue)>, schema: Seq<(String, SchemaFieldDefinition)>) -> bool {
    forall|i: int| #![trigger schema[i]] 0 <= i < schema.len() ==> conforms(top_value(entries, schema[i].0@), schema[i].1)
}

/// A value has no violation of a definition exactly when it meets it,
/// wherever it is found.
pub proof fn no_violation_iff_conforms(data: JsonValue, def: SchemaFieldDefinition, path: Seq<Seq<char>>)
    ensures
        value_violation(data, def, path) is None <==> conforms(data, def),
    decreases data, field_count(def) + item_count(data) + 1,
{
    if !(data is Null) {
        match def.field_type {
            SchemaFieldType::Object(fields) => {
                if data is Object {
                    lemma_fields(data, fields@, path, 0);
                    let entries = data->Object_0@;
                    assert(value_violation(data, def, path) == fields_violation(data, fields@, path, 0));
                    if conforms(data, def) {
                        assert forall|j: int| 0 <= j < fields@.len() implies #[trigger] field_conforms(entries, fields@[j]) by {
                            assert(fields@[j] == fields@[j]);
                        }
                        assert(value_violation(data, def, path) is None);
                    }
                    if value_violation(data, def, path) is None {
                        assert forall|j: int| #![trigger fields@[j]] 0 <= j < fields@.len() implies ({
                            let p = key_position(entries, fields@[j].0@);
                            if 0 <= p < entries.len() && !(entries[p].1 is Null) {
                                conforms(entries[p].1, fields@[j].1)
                            } else {
                                fields@[j].1.optional
                            }
                        }) by {
                            assert(field_conforms(entries, fields@[j]));
                        }
                        assert(conforms(data, def));
                    }
                }
            },
            SchemaFieldType::Array(item) => {
                if data is Array {
                    lemma_items(data, *item, path, 0);
                    let items = data->Array_0@;
                    assert(value_violation(data, def, path) == items_violation(data, *item, path, 0));
                    if conforms(data, def) {
                        assert forall|j: int| 0 <= j < items.len() implies #[trigger] conforms(items[j], *item) by {
                            assert(items[j] == items[j]);
                        }
                    }
                    if value_violation(data, def, path) is None {
                        assert forall|j: int| #![trigger items[j]] 0 <= j < items.len() implies conforms(items[j], *item) by {
                            assert(conforms(items[j], *item));
                        }
                        assert(conforms(data, def));
                    }
                }
            },
            _ => {},
        }
    }
}

spec fn value_here_none(data: JsonValue, fields: Seq<(String, SchemaFieldDefinition)>, path: Seq<Seq<char>>, i: int) -> bool {
    let entries = data->Object_0@;
    let p = key_position(entries, fields[i].0@);
    if 0 <= p < entries.len() && !(entries[p].1 is Null) {
        value_violation(entries[p].1, fields[i].1, path.push(fields[i].0@)) is None
    } else {
        fields[i].1.optional
    }
}

proof fn lemma_fields(data: JsonValue, fields: Seq<(String, SchemaFieldDefinition)>, path: Seq<Seq<char>>, i: int)
    requires
        data is Object,
        0 <= i <= fields.len(),
    ensures
        fields_violation(data, fields, path, i) is None <==> (forall|j: int|
            i <= j < fields.len() ==> #[trigger] field_conforms(data->Object_0@, fields[j])),
    decreases data, fields.len() - i,
{
    if i < fields.len() {
        let entries = data->Object_0@;
        let p = key_position(entries, fields[i].0@);
        if 0 <= p < entries.len() && !(entries[p].1 is Null) {
            no_violation_iff_conforms(entries[p].1, fields[i].1, path.push(fields[i].0@));
        }
        lemma_fields(data, fields, path, i + 1);
        assert(field_conforms(entries, fields[i]) <==> value_here_none(data, fields, path, i));
    }
}

proof fn lemma_items(data: JsonValue, item: SchemaFieldDefinition, path: Seq<Seq<char>>, i: int)
    requires
        data is Array,
        0 <= i <= data->Array_0@.len(),
    ensures
        items_violation(data, item, path, i) is None <==> (forall|j: int|
            i <= j < data->Array_0@.len() ==> #[trigger] conforms(data->Array_0@[j], item)),
    decreases data, item_count(data) - i,
{
    let items = data->Array_0@;
    if i < items.len() {
        no_violation_iff_conforms(items[i], item, path.push(decimal(i as nat)));
        lemma_items(data, item, path, i + 1);
    }
}

/// The top-level check finds no violation exactly when the object meets the
/// schema.
pub proof fn no_top_violation_iff_conforms(entries: Seq<(String, JsonValue)>, schema: Seq<(String, SchemaFieldDefinition)>)
    ensures
        top_violation(entries, schema, 0) is None <==> top_conforms(entries, schema),
{
    lemma_top(entries, schema, 0);
}

proof fn lemma_top(entries: Seq<(String, JsonValue)>, schema: Seq<(String, SchemaFieldDefinition)>, i: int)
    requires
        0 <= i <= schema.len(),
    ensures
        top_violation(entries, schema, i) is None <==> (forall|j: int|
            #![trigger schema[j]] i <= j < schema.len() ==> conforms(top_value(entries, schema[j].0@), schema[j].1)),
    decreases schema.len() - i,
{
    if i < schema.len() {
        no_violation_iff_conforms(top_value(entries, schema[i].0@), schema[i].1, seq![schema[i].0@]);
        lemma_top(entries, schema, i + 1);
    }
}

/// `weak` asks no more of data than `strong`: it is optional wherever
/// `strong` is, and it has the same shape with the same field names, where
/// each scalar is the same or `Any`.
pub open spec fn relaxes(weak: SchemaFieldDefinition, strong: SchemaFieldDefinition) -> bool
    decreases strong,
{
    &&& (strong.optional ==> weak.optional)
    &&& match strong.field_type {
        SchemaFieldType::Scalar(st) => match weak.field_type {
            SchemaFieldType::Scalar(wt) => wt == st || wt == ScalarType::Any,
            _ => false,
        },
        SchemaFieldType::Object(sf) => match weak.field_type {
            SchemaFieldType::Object(wf) => wf@.len() == sf@.len() && forall|i: int|
                #![trigger sf@[i]]
                0 <= i < sf@.len() ==> wf@[i].0@ == sf@[i].0@ && relaxes(wf@[i].1, sf@[i].1),
            _ => false,
        },
        SchemaFieldType::Array(si) => match weak.field_type {
            SchemaFieldType::Array(wi) => relaxes(*wi, *si),
            _ => false,
        },
    }
}

/// Data that meets a definition meets every relaxation of it: making a
/// field optional, or a scalar `Any`, anywhere in the definition keeps valid
/// data valid.
pub proof fn relaxing_keeps_conformance(data: JsonValue, weak: SchemaFieldDefinition, strong: SchemaFieldDefinition)
    requires
        conforms(data, strong),
        relaxes(weak, strong),
    ensures
        conforms(data, weak),
    decreases data,
{
    if !(data is Null) {
        match strong.field_type {
            SchemaFieldType::Object(sf) => {
                let wf = weak.field_type->Object_0;
                let entries = data->Object_0@;
                assert forall|i: int| #![trigger wf@[i]] 0 <= i < wf@.len() implies ({
                    let p = key_position(entries, wf@[i].0@);
                    if 0 <= p < entries.len() && !(entries[p].1 is Null) {
                        conforms(entries[p].1, wf@[i].1)
                    } else {
                        wf@[i].1.optional
                    }
                }) by {
                    assert(sf@[i] == sf@[i]);
                    let p = key_position(entries, sf@[i].0@);
                    if 0 <= p < entries.len() && !(entries[p].1 is Null) {
                        relaxing_keeps_conformance(entries[p].1, wf@[i].1, sf@[i].1);
                    }
                }
            },
            SchemaFieldType::Array(si) => {
                let wi = weak.field_type->Array_0;
                let items = data->Array_0@;
                assert forall|i: int| #![trigger items[i]] 0 <= i < items.len() implies conforms(items[i], *wi) by {
                    assert(conforms(items[i], *si));
                    relaxing_keeps_conformance(items[i], *wi, *si);
                }
            },
            _ => {},
        }
    }
}

/// Whether a value has a violation of a definition does not depend on the
/// path it is found at: the path only shapes the message.
pub proof fn violation_ignores_path(data: JsonValue, def: SchemaFieldDefinition, p1: Seq<Seq<char>>, p2: Seq<Seq<char>>)
    ensures
        value_violation(data, def, p1) is None <==> value_violation(data, def, p2) is None,
{
    no_violation_iff_conforms(data, def, p1);
    no_violation_iff_conforms(data, def, p2);
}

/// `e` reports invalid data with the single message `msg`.
pub open spec fn is_invalid_data(e: RegistryError, msg: Seq<char>) -> bool {
    e matches RegistryError::InvalidData(m) && m@.len() == 1 && m@[0]@ == msg
}

/// `res` is what a check that found `v` returns: `Ok` when nothing was
/// found, otherwise invalid data with the message that reports `v`.
pub open spec fn reports(res: RegistryResult<()>, v: Option<Violation>) -> bool {
    match v {
        None => res is Ok,
        Some(v) => res matches Err(e) && is_invalid_data(e, violation_text(v)),
    }
}

/// The message for a value that is missing where it is required.
pub open spec fn top_level_text() -> Seq<char> {
    "Data must be an object at the top level"@
}

proof fn lemma_views_push(path: Seq<String>, s: String)
    ensures
        views(path.push(s)) == views(path).push(s@),
{
    assert(views(path.push(s)) =~= views(path).push(s@));
}

fn invalid_data(msg: String) -> (res: RegistryError)
    ensures
        is_invalid_data(res, msg@),
{
    let mut m = Vec::new();
    m.push(msg);
    RegistryError::InvalidData(m)
}

fn path_message(prefix: &str, path: &Vec<String>) -> (res: String)
    ensures
        res@ == prefix@ + path_text(views(path@)) + "`"@,
{
    let mut s = String::from_str(prefix);
    let joined = join_strings(path, ", ");
    s.append(joined.as_str());
    s.append("`");
    s
}

/// The error for a value that is not of the `expected_type`, at `path`.
pub fn wrong_type(expected_type: &str, path: &Vec<String>) -> (res: RegistryError)
    ensures
        is_invalid_data(res, violation_text(Violation::WrongType(expected_type@, views(path@)))),
{
    let mut s = String::from_str("Expected data to be a ");
    s.append(expected_type);
    s.append(": path `");
    let joined = join_strings(path, ", ");
    s.append(joined.as_str());
    s.append("`");
    invalid_data(s)
}

/// `base_path` with `segment` appended.
pub fn extend_path(base_path: &Vec<String>, segment: String) -> (res: Vec<String>)
    ensures
        res@ == base_path@.push(segment),
{
    let mut res: Vec<String> = Vec::new();
    let mut i: usize = 0;
    while i < base_path.len()
        invariant
            i <= base_path.len(),
            res@ == base_path@.take(i as int),
        decreases base_path.len() - i,
    {
        res.push(base_path[i].clone());
        assert(base_path@.take(i as int + 1) =~= base_path@.take(i as int).push(base_path@[i as int]));
        i = i + 1;
    }
    assert(base_path@.take(base_path.len() as int) =~= base_path@);
    res.push(segment);
    res
}

/// Checks `data` against the definition `type_`, reporting the first
/// violation at `path`.
fn validate_data_inner(data: &JsonValue, type_: &SchemaFieldDefinition, path: &Vec<String>) -> (res: RegistryResult<()>)
    ensures
        reports(res, value_violation(*data, *type_, views(path@))),
    decreases *data,
{
    let ghost p = views(path@);
    if let JsonValue::Null = data {
        if type_.optional {
            return Ok(());
        } else {
            let msg = path_message("Value was unexpectedly null: path `", path);
            return Err(invalid_data(msg));
        }
    }
    match &type_.field_type {
        SchemaFieldType::Scalar(scalar) => {
            match scalar {
                ScalarType::Bool => {
                    if !matches!(data, JsonValue::Bool(_)) {
                        return Err(wrong_type("boolean", path));
                    }
                },
                ScalarType::String => {
                    if !matches!(data, JsonValue::String(_)) {
                        return Err(wrong_type("string", path));
                    }
                },
                ScalarType::Decimal => {
                    let ok = match data {
                        JsonValue::Number(JsonNumber::Float(_)) => true,
                        _ => false,
                    };
                    if !ok {
                        return Err(wrong_type("decimal", path));
                    }
                },
                ScalarType::Integer => {
                    let ok = match data {
                        JsonValue::Number(JsonNumber::PosInt(_)) => true,
                        JsonValue::Number(JsonNumber::NegInt(_)) => true,
                        _ => false,
                    };
                    if !ok {
                        return Err(wrong_type("integer", path));
                    }
                },
                ScalarType::Any => {},
            }
            Ok(())
        },
        SchemaFieldType::Object(fields) => {
            let entries = match data {
                JsonValue::Object(entries) => entries,
                _ => {
                    return Err(wrong_type("object", path));
                },
            };
            assert(value_violation(*data, *type_, p) == fields_violation(*data, fields@, p, 0));
            let mut i: usize = 0;
            while i < fields.len()
                invariant
                    i <= fields.len(),
                    *data == JsonValue::Object(*entries),
                    p == views(path@),
                    value_violation(*data, *type_, p) == fields_violation(*data, fields@, p, 0),
                    fields_violation(*data, fields@, p, 0) == fields_violation(*data, fields@, p, i as int),
                decreases fields.len() - i,
            {
                let name = &fields[i].0;
                let field_definition = &fields[i].1;
                let field_path = extend_path(path, name.clone());
                proof {
                    lemma_views_push(path@, *name);
                }
                let found = find_member(entries, name);
                let mut present = false;
                match found {
                    Some(k) => {
                        if !matches!(entries[k].1, JsonValue::Null) {
                            present = true;
                            let r = validate_data_inner(&entries[k].1, field_definition, &field_path);
                            if r.is_err() {
                                return r;
                            }
                        }
                    },
                    None => {},
                }
                if !present && !field_definition.optional {
                    let msg = path_message("Value was null or missing: path `", &field_path);
                    return Err(invalid_data(msg));
                }
                i = i + 1;
            }
            Ok(())
        },
        SchemaFieldType::Array(item_type) => {
            let items = match data {
                JsonValue::Array(items) => items,
                _ => {
                    return Err(wrong_type("object", path));
                },
            };
            assert(value_violation(*data, *type_, p) == items_violation(*data, **item_type, p, 0));
            let mut index: usize = 0;
            while index < items.len()
                invariant
                    index <= items.len(),
                    *data == JsonValue::Array(*items),
                    p == views(path@),
                    value_violation(*data, *type_, p) == items_violation(*data, **item_type, p, 0),
                    items_violation(*data, **item_type, p, 0) == items_violation(*data, **item_type, p, index as int),
                decreases items.len() - index,
            {
                let segment = usize_to_string(index);
                let item_path = extend_path(path, segment);
                proof {
                    lemma_views_push(path@, segment);
                }
                let r = validate_data_inner(&items[index], item_type, &item_path);
                if r.is_err() {
                    return r;
                }
                index = index + 1;
            }
            Ok(())
        },
    }
}

/// Checks `data` against the field definitions of a schema: it must be an
/// object, and each listed field (the names are distinct, as in the map a
/// schema is written as), in the order listed, must meet its
/// definition (a missing field is read as `null`). The first violation is
/// reported as invalid data with its message.
pub fn validate_data(data: &JsonValue, schema_definition: &Vec<(String, SchemaFieldDefinition)>) -> (res: RegistryResult<()>)
    requires
        well_keyed_schema(schema_definition@),
    ensures
        match *data {
            JsonValue::Object(entries) => reports(res, top_violation(entries@, schema_definition@, 0)),
            _ => res matches Err(e) && is_invalid_data(e, top_level_text()),
        },
        res is Ok <==> (data matches JsonValue::Object(entries) && top_conforms(entries@, schema_definition@)),
{
    let fields = match data {
        JsonValue::Object(entries) => entries,
        _ => {
            return Err(invalid_data(String::from_str("Data must be an object at the top level")));
        },
    };
    let null = JsonValue::Null;
    let mut i: usize = 0;
    while i < schema_definition.len()
        invariant
            i <= schema_definition.len(),
            *data == JsonValue::Object(*fields),
            null == JsonValue::Null,
            top_violation(fields@, schema_definition@, 0) == top_violation(fields@, schema_definition@, i as int),
        decreases schema_definition.len() - i,
    {
        let field_name = &schema_definition[i].0;
        let definition = &schema_definition[i].1;
        let mut path: Vec<String> = Vec::new();
        path.push(field_name.clone());
        proof {
            assert(views(path@) =~= seq![field_name@]);
        }
        let found = find_member(fields, field_name);
        let value = match found {
            Some(k) => &fields[k].1,
            None => &null,
        };
        let r = validate_data_inner(value, definition, &path);
        if r.is_err() {
            proof {
                no_top_violation_iff_conforms(fields@, schema_definition@);
            }
            return r;
        }
        i = i + 1;
    }
    proof {
        no_top_violation_iff_conforms(fields@, schema_definition@);
    }
    Ok(())
}

} // verus!
