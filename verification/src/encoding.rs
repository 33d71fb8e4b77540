//! JSON text of the registry's documents, written by `serde_json`, and the
//! JSON Schema checks made on them with `jsonschema`.
use vstd::prelude::*;
use crate::json::{JsonNumber, JsonValue};
use crate::text::views;

verus! {

/// A `serde_json` document; the library hands its documents to `serde_json`
/// and `jsonschema` in this form.
#[verifier::external_type_specification]
#[verifier::external_body]
pub struct ExSerdeValue(serde_json::Value);

/// A `serde_json` number.
#[verifier::external_type_specification]
#[verifier::external_body]
pub struct ExSerdeNumber(serde_json::Number);

/// A number as `serde_json` holds it: an integer as it is, a floating-point
/// value read from its decimal text (`Number`'s `FromStr`); a text that does
/// not read is `None`. Nothing is stated of the result.
#[verifier::external_body]
fn serde_number(n: &JsonNumber) -> Option<serde_json::Number> {
    match n {
        JsonNumber::PosInt(u) => Some(serde_json::Number::from(*u)),
        JsonNumber::NegInt(i) => Some(serde_json::Number::from(*i)),
        JsonNumber::Float(text) => text.parse::<serde_json::Number>().ok(),
    }
}

/// A document as a `serde_json` document, variant for variant. Of a key
/// that occurs more than once in an object, `serde_json`'s map keeps the
/// first (the members are inserted last to first); a number whose text does
/// not read becomes `null`. Nothing is stated of the result.
#[verifier::external_body]
fn serde_value(v: &JsonValue) -> serde_json::Value {
    match v {
        JsonValue::Null => serde_json::Value::Null,
        JsonValue::Bool(b) => serde_json::Value::Bool(*b),
        JsonValue::Number(n) => serde_number(n).map_or(serde_json::Value::Null, serde_json::Value::Number),
        JsonValue::String(s) => serde_json::Value::String(s.clone()),
        JsonValue::Array(items) => serde_json::Value::Array(items.iter().map(serde_value).collect()),
        JsonValue::Object(members) => {
            let mut map = serde_json::Map::new();
            for (k, x) in members.iter().rev() {
                map.insert(k.clone(), serde_value(x));
            }
            serde_json::Value::Object(map)
        },
    }
}

/// The bytes that `serde_json::to_vec` writes for a document.
pub uninterp spec fn json_bytes(v: JsonValue) -> Seq<u8>;

/// The text that `serde_json::to_string` writes for a document.
pub uninterp spec fn json_text(v: JsonValue) -> Seq<char>;

/// What `jsonschema::JSONSchema::compile` makes of a definition: nothing,
/// or the message of the error it refuses the definition with.
pub uninterp spec fn json_schema_compiles(definition: JsonValue) -> Result<(), Seq<char>>;

/// The messages (each error's `Display`) that a definition which compiles
/// finds in a value, in the order `jsonschema`'s `validate` gives them; none
/// for a valid value.
pub uninterp spec fn json_schema_errors(definition: JsonValue, value: JsonValue) -> Seq<Seq<char>>;

/// Writes a document as JSON bytes with `serde_json::to_vec`. Writing a
/// `serde_json` document, whose keys are strings, does not fail, as
/// `serde_json` documents. The contract names the bytes (`json_bytes`).
#[verifier::external_body]
pub(crate) fn to_json_bytes(v: &JsonValue) -> (res: Vec<u8>)
    ensures
        res@ == json_bytes(*v),
{
    serde_json::to_vec(&serde_value(v)).unwrap_or_default()
}

/// Writes a document as JSON text with `serde_json::to_string`, which does
/// not fail on a `serde_json` document. The contract names the text
/// (`json_text`).
#[verifier::external_body]
pub(crate) fn to_json_text(v: &JsonValue) -> (res: String)
    ensures
        res@ == json_text(*v),
{
    serde_json::to_string(&serde_value(v)).unwrap_or_default()
}

/// Compiles a definition with `jsonschema::JSONSchema::compile`: nothing,
/// or the refusal's message (its `Display`). The contract names the outcome
/// (`json_schema_compiles`) and states nothing of which definitions compile.
#[verifier::external_body]
pub(crate) fn compile_json_schema(definition: &JsonValue) -> (res: Result<(), String>)
    ensures
        match res {
            Ok(_) => json_schema_compiles(*definition) is Ok,
            Err(m) => json_schema_compiles(*definition) == Err::<(), Seq<char>>(m@),
        },
{
    match jsonschema::JSONSchema::compile(&serde_value(definition)) {
        Ok(_) => Ok(()),
        Err(e) => Err(e.to_string()),
    }
}

/// Compiles a definition with `jsonschema` and checks a value against it
/// (`JSONSchema::validate`): the message of each error found, none for a
/// valid value; or, when the definition does not compile, the refusal's
/// message. The contract names the messages (`json_schema_errors`): with the
/// drafts this build compiles, `jsonschema` keeps a schema's validators in
/// order and looks its maps up by key only, so the messages depend on the
/// definition and the value alone.
#[verifier::external_body]
pub(crate) fn check_json_schema(definition: &JsonValue, value: &JsonValue) -> (res: Result<Vec<String>, String>)
    ensures
        match res {
            Ok(e) => json_schema_compiles(*definition) is Ok && views(e@) == json_schema_errors(*definition, *value),
            Err(m) => json_schema_compiles(*definition) == Err::<(), Seq<char>>(m@),
        },
{
    let compiled = match jsonschema::JSONSchema::compile(&serde_value(definition)) {
        Ok(c) => c,
        Err(e) => return Err(e.to_string()),
    };
    let instance = serde_value(value);
    let messages = match compiled.validate(&instance) {
        Ok(()) => Vec::new(),
        Err(errors) => errors.map(|e| e.to_string()).collect(),
    };
    Ok(messages)
}

} // verus!
