//! Building a full schema: the definitions that name another schema by its
//! id are replaced by that schema's definition.
use vstd::prelude::*;
use crate::encoding::{compile_json_schema, json_schema_compiles};
use crate::error::{RegistryError, RegistryResult};
use crate::ids::{parse_uuid_text, parsed_uuid};
use crate::json::{find_member, key_position, lemma_key_position, JsonValue};
use crate::seqs::reversed;

verus! {

/// The members of the `definitions` object of a schema, when the schema is
/// an object whose `definitions` member is an object.
pub open spec fn definition_entries(schema: JsonValue) -> Option<Seq<(String, JsonValue)>> {
    match schema {
        JsonValue::Object(m) => {
            let p = key_position(m@, "definitions"@);
            if 0 <= p < m@.len() {
                match m@[p].1 {
                    JsonValue::Object(d) => Some(d@),
                    _ => None,
                }
            } else {
                None
            }
        },
        _ => None,
    }
}

/// The definitions that refer to another schema: each member whose value is
/// a string that reads as a UUID, as its key and that id, in order.
pub open spec fn references(entries: Seq<(String, JsonValue)>) -> Seq<(Seq<char>, u128)>
    decreases entries.len(),
{
    if entries.len() == 0 {
        Seq::empty()
    } else {
        let rest = references(entries.drop_last());
        let e = entries.last();
        match e.1 {
            JsonValue::String(s) => match parsed_uuid(s@) {
                Ok(id) => rest.push((e.0@, id)),
                Err(_) => rest,
            },
            _ => rest,
        }
    }
}

/// A member of the definitions refers to another schema: its value is a
/// string that reads as a UUID.
pub open spec fn refers(e: (String, JsonValue)) -> bool {
    e.1 is String && parsed_uuid(e.1->String_0@) is Ok
}

/// The references among a schema's definitions are exactly its members
/// whose value is a string that reads as a UUID, every one of them, each as
/// its key and that UUID, in the order of the members.
pub proof fn references_are_the_uuid_members(entries: Seq<(String, JsonValue)>)
    ensures
        references(entries) == entries.filter(|e: (String, JsonValue)| refers(e)).map_values(
            |e: (String, JsonValue)| (e.0@, parsed_uuid(e.1->String_0@)->Ok_0),
        ),
    decreases entries.len(),
{
    let pred = |e: (String, JsonValue)| refers(e);
    let f = |e: (String, JsonValue)| (e.0@, parsed_uuid(e.1->String_0@)->Ok_0);
    reveal(Seq::filter);
    if entries.len() == 0 {
        assert(entries.filter(pred) =~= Seq::<(String, JsonValue)>::empty());
        assert(entries.filter(pred).map_values(f) =~= Seq::<(Seq<char>, u128)>::empty());
    } else {
        references_are_the_uuid_members(entries.drop_last());
        let rest = entries.drop_last().filter(pred);
        let e = entries.last();
        if pred(e) {
            assert(entries.filter(pred) == rest.push(e));
            assert(rest.push(e).map_values(f) =~= rest.map_values(f).push(f(e)));
        } else {
            assert(entries.filter(pred) == rest);
        }
    }
}

/// The pairs of a list of keys and ids, with each key taken by its text.
pub open spec fn key_ids(pairs: Seq<(String, u128)>) -> Seq<(Seq<char>, u128)> {
    pairs.map_values(|p: (String, u128)| (p.0@, p.1))
}

/// The schemas that a schema's definitions refer to, by the key of the
/// definition and the id of the schema; none when the schema has no
/// `definitions` object.
pub fn definitions_to_retrieve(schema: &JsonValue) -> (res: Vec<(String, u128)>)
    ensures
        key_ids(res@) == match definition_entries(*schema) {
            Some(d) => references(d),
            None => Seq::empty(),
        },
        key_ids(res@) == match definition_entries(*schema) {
            Some(d) => d.filter(|e: (String, JsonValue)| refers(e)).map_values(
                |e: (String, JsonValue)| (e.0@, parsed_uuid(e.1->String_0@)->Ok_0),
            ),
            None => Seq::empty(),
        },
{
    proof {
        if let Some(d) = definition_entries(*schema) {
            references_are_the_uuid_members(d);
        }
    }
    let mut res: Vec<(String, u128)> = Vec::new();
    if let JsonValue::Object(members) = schema {
        let key = String::from_str("definitions");
        proof {
            reveal_strlit("definitions");
        }
        match find_member(members, &key) {
            Some(p) => {
                if let JsonValue::Object(defs) = &members[p].1 {
                    let mut i: usize = 0;
                    while i < defs.len()
                        invariant
                            i <= defs.len(),
                            key_ids(res@) == references(defs@.take(i as int)),
                        decreases defs.len() - i,
                    {
                        proof {
                            assert(defs@.take(i as int + 1).drop_last() =~= defs@.take(i as int));
                        }
                        if let JsonValue::String(s) = &defs[i].1 {
                            match parse_uuid_text(s.as_str()) {
                                Ok(id) => {
                                    res.push((defs[i].0.clone(), id));
                                    proof {
                                        assert(key_ids(res@) =~= references(defs@.take(i as int + 1)));
                                    }
                                },
                                Err(_) => {},
                            }
                        }
                        i = i + 1;
                    }
                    proof {
                        assert(defs@.take(defs@.len() as int) =~= defs@);
                    }
                }
            },
            None => {},
        }
    }
    res
}

/// `entries` with the member named `key` given the value `v`; the member is
/// added at the end when there is none.
pub open spec fn set_member(entries: Seq<(String, JsonValue)>, key: String, v: JsonValue) -> Seq<(String, JsonValue)> {
    let p = key_position(entries, key@);
    if 0 <= p < entries.len() {
        entries.update(p, (entries[p].0, v))
    } else {
        entries.push((key, v))
    }
}

/// `entries` with each of `updates` set in turn.
pub open spec fn set_members(entries: Seq<(String, JsonValue)>, updates: Seq<(String, JsonValue)>) -> Seq<(String, JsonValue)>
    decreases updates.len(),
{
    if updates.len() == 0 {
        entries
    } else {
        set_member(set_members(entries, updates.drop_last()), updates.last().0, updates.last().1)
    }
}

fn set_each(entries: Vec<(String, JsonValue)>, updates: Vec<(String, JsonValue)>) -> (res: Vec<(String, JsonValue)>)
    ensures
        res@ == set_members(entries@, updates@),
{
    let ghost orig = updates@;
    let mut rest = reversed(updates);
    let mut entries = entries;
    let ghost start = entries@;
    while rest.len() > 0
        invariant
            rest@.len() <= orig.len(),
            forall|j: int| 0 <= j < rest@.len() ==> #[trigger] rest@[j] == orig[orig.len() - 1 - j],
            entries@ == set_members(start, orig.take(orig.len() - rest@.len())),
        decreases rest@.len(),
    {
        let ghost done = orig.len() - rest@.len();
        let (key, v) = rest.pop().unwrap();
        proof {
            assert(orig[done] == (key, v));
            assert(orig.take(done + 1).drop_last() =~= orig.take(done));
            lemma_key_position(entries@, key@);
        }
        match find_member(&entries, &key) {
            Some(i) => {
                let (k, _old) = entries.remove(i);
                entries.insert(i, (k, v));
            },
            None => {
                entries.push((key, v));
            },
        }
        proof {
            assert(entries@ =~= set_members(start, orig.take(done + 1)));
        }
    }
    proof {
        assert(orig.take(orig.len() as int) =~= orig);
    }
    entries
}

/// The schema once the fetched definitions are put in place: the
/// `definitions` object is updated member by member and the rest of the
/// schema is unchanged; a schema without a `definitions` object is
/// returned as it is.
pub open spec fn is_filled(before: JsonValue, after: JsonValue, fetched: Seq<(String, JsonValue)>) -> bool {
    match definition_entries(before) {
        None => after == before,
        Some(d) => {
            let m1 = before->Object_0@;
            let p = key_position(m1, "definitions"@);
            &&& after matches JsonValue::Object(m2)
            &&& m2@.len() == m1.len()
            &&& forall|j: int| 0 <= j < m1.len() && j != p ==> #[trigger] m2@[j] == m1[j]
            &&& m2@[p].0 == m1[p].0
            &&& m2@[p].1 matches JsonValue::Object(d2)
            &&& d2@ == set_members(d, fetched)
        },
    }
}

/// Puts each fetched definition in place of the reference it was fetched
/// for (`defs[key] = definition`), in order.
pub fn with_definitions(schema: JsonValue, fetched: Vec<(String, JsonValue)>) -> (res: JsonValue)
    ensures
        is_filled(schema, res, fetched@),
{
    match schema {
        JsonValue::Object(members) => {
            let mut members = members;
            let key = String::from_str("definitions");
            proof {
                reveal_strlit("definitions");
                lemma_key_position(members@, key@);
            }
            match find_member(&members, &key) {
                Some(p) => {
                    let is_object = matches!(members[p].1, JsonValue::Object(_));
                    if !is_object {
                        return JsonValue::Object(members);
                    }
                    let ghost m1 = members@;
                    let (k, v) = members.remove(p);
                    if let JsonValue::Object(defs) = v {
                        let filled = set_each(defs, fetched);
                        members.insert(p, (k, JsonValue::Object(filled)));
                        proof {
                            assert forall|j: int| 0 <= j < m1.len() && j != p implies #[trigger] members@[j] == m1[j] by {
                                if j < p {
                                } else {
                                }
                            }
                        }
                    }
                    JsonValue::Object(members)
                },
                None => JsonValue::Object(members),
            }
        },
        other => other,
    }
}

/// The outcome of building a full schema, given what compiling it as a JSON
/// schema gave: a refusal is an invalid JSON schema with the compiler's
/// message.
pub fn compiled_outcome(compiled: Result<(), String>) -> (res: RegistryResult<()>)
    ensures
        match compiled {
            Ok(()) => res is Ok,
            Err(m) => res == Err::<(), RegistryError>(RegistryError::InvalidJsonSchema(m)),
        },
{
    match compiled {
        Ok(()) => Ok(()),
        Err(m) => Err(RegistryError::InvalidJsonSchema(m)),
    }
}

/// Builds a full schema from the definitions fetched for its references
/// (`build_full_schema`): each is put in place of the reference it was
/// fetched for, then the schema is compiled as a JSON Schema. Gives the
/// filled schema, and nothing or, when it does not compile, an invalid JSON
/// schema with the compiler's message.
pub fn build_full_schema(schema: JsonValue, fetched: Vec<(String, JsonValue)>) -> (res: (JsonValue, RegistryResult<()>))
    ensures
        is_filled(schema, res.0, fetched@),
        match json_schema_compiles(res.0) {
            Ok(()) => res.1 is Ok,
            Err(m) => res.1 matches Err(RegistryError::InvalidJsonSchema(t)) && t@ == m,
        },
{
    let filled = with_definitions(schema, fetched);
    let outcome = compiled_outcome(compile_json_schema(&filled));
    (filled, outcome)
}

} // verus!
