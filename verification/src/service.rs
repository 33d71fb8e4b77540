//! What the registry's gRPC handlers decide: reading ids, schema types and
//! JSON out of requests, refusing what is malformed with the status the
//! caller gets, checking insert destinations, choosing which relations to
//! validate, and building replies from stored records.
use vstd::prelude::*;
use crate::error::{Code, RegistryError, Status, registry_error_code, registry_error_text};
use crate::encoding::{
    check_json_schema, json_bytes, json_schema_compiles, json_schema_errors, json_text, to_json_bytes, to_json_text,
};
use crate::text::views;
use crate::ids::{parse_uuid_text, parsed_uuid, uuid_text, uuid_to_string};
use crate::json::JsonValue;
use crate::rpc::schema_registry as rpc;
use crate::rpc::schema_registry_types::{SchemaType, schema_type_of_wire, schema_type_wire};
use crate::seqs::reversed;
use crate::types::schema::{FullSchema, NewSchema, Schema, SchemaUpdate};
use crate::types::view::{FullView, NewView, Relation, ViewUpdate};

verus! {

/// `s` has the code `code` and the message `msg`.
pub open spec fn status_is(s: Status, code: Code, msg: Seq<char>) -> bool {
    s.code == code && s.message@ == msg
}

/// `s` is the status an error is answered with.
pub open spec fn status_of(s: Status, e: RegistryError) -> bool {
    status_is(s, registry_error_code(e), registry_error_text(e))
}

fn status(code: Code, prefix: &str, rest: &str) -> (res: Status)
    ensures
        status_is(res, code, prefix@ + rest@),
{
    let mut message = String::from_str(prefix);
    message.append(rest);
    Status { code, message }
}

/// Reads an id; a text that is not a UUID is refused as an invalid argument
/// with `"Failed to parse UUID: "` and the parser's message.
pub fn parse_uuid(id: &str) -> (res: Result<u128, Status>)
    ensures
        match parsed_uuid(id@) {
            Ok(u) => res == Ok::<u128, Status>(u),
            Err(m) => res matches Err(s) && status_is(s, Code::InvalidArgument, "Failed to parse UUID: "@ + m),
        },
{
    match parse_uuid_text(id) {
        Ok(u) => Ok(u),
        Err(m) => Err(status(Code::InvalidArgument, "Failed to parse UUID: ", m.as_str())),
    }
}

/// The status for a request whose JSON does not parse, given the parser's
/// message.
pub fn invalid_json(parse_error: &str) -> (res: Status)
    ensures
        status_is(res, Code::InvalidArgument, "Invalid JSON provided: "@ + parse_error@),
{
    status(Code::InvalidArgument, "Invalid JSON provided: ", parse_error)
}

/// Reads the schema type of a request; an unknown number is refused as an
/// invalid argument with `"Invalid schema type"`.
pub fn schema_type_from_request(t: &rpc::SchemaType) -> (res: Result<SchemaType, Status>)
    ensures
        match schema_type_of_wire(t.schema_type) {
            Some(v) => res == Ok::<SchemaType, Status>(v),
            None => res matches Err(s) && status_is(s, Code::InvalidArgument, "Invalid schema type"@),
        },
{
    match SchemaType::try_from_wire(t.schema_type) {
        Ok(v) => Ok(v),
        Err(e) => Err(Status { code: Code::InvalidArgument, message: e }),
    }
}

/// The schema that an add request asks for, given what its definition text
/// parsed to (the document, or the parser's message): a definition that
/// does not parse is refused first, then an unknown schema type.
pub fn new_schema_from_request(request: rpc::NewSchema, definition: Result<JsonValue, String>) -> (res: Result<NewSchema, Status>)
    ensures
        match definition {
            Err(e) => res matches Err(s) && status_is(s, Code::InvalidArgument, "Invalid JSON provided: "@ + e@),
            Ok(d) => match schema_type_of_wire(request.schema_type.schema_type) {
                None => res matches Err(s) && status_is(s, Code::InvalidArgument, "Invalid schema type"@),
                Some(t) => res matches Ok(n) && n.name == request.name && n.insert_destination
                    == request.insert_destination && n.query_address == request.query_address
                    && n.schema_type == t && n.definition == d,
            },
        },
{
    let definition = match definition {
        Ok(d) => d,
        Err(e) => return Err(invalid_json(e.as_str())),
    };
    let schema_type = match schema_type_from_request(&request.schema_type) {
        Ok(t) => t,
        Err(s) => return Err(s),
    };
    Ok(NewSchema {
        name: request.name,
        definition,
        query_address: request.query_address,
        insert_destination: request.insert_destination,
        schema_type,
    })
}

/// Whether adding a schema asks the message queue if its insert
/// destination exists: only when one is named.
pub fn destination_needs_check(insert_destination: &str) -> (res: bool)
    ensures
        res == (insert_destination@.len() > 0),
{
    !insert_destination.is_empty()
}

/// The outcome of checking an insert destination: a destination the
/// message queue does not have is answered as not found.
pub fn destination_outcome(insert_destination: &String, exists: bool) -> (res: Result<(), Status>)
    ensures
        exists ==> res is Ok,
        !exists ==> (res matches Err(s) && status_of(s, RegistryError::NoInsertDestination(*insert_destination))),
{
    if exists {
        Ok(())
    } else {
        Err(RegistryError::NoInsertDestination(insert_destination.clone()).into_status())
    }
}

/// The reply that carries a new id.
pub fn id_reply(id: u128) -> (res: rpc::Id)
    ensures
        res.id@ == uuid_text(id),
{
    rpc::Id { id: uuid_to_string(id) }
}

/// The schema id and update that an update request asks for, given what
/// its definition text parsed to, when it has one (the document, or the
/// parser's debug message). The id is read first, then the schema type,
/// then the definition.
pub fn schema_update_from_request(
    request: rpc::SchemaUpdate,
    definition: Option<Result<JsonValue, String>>,
) -> (res: Result<(u128, SchemaUpdate), Status>)
    ensures
        match parsed_uuid(request.id@) {
            Err(m) => res matches Err(s) && status_is(s, Code::InvalidArgument, "Failed to parse UUID: "@ + m),
            Ok(id) => match request.schema_type {
                Some(t) if schema_type_of_wire(t.schema_type) is None =>
                    res matches Err(s) && status_is(s, Code::InvalidArgument, "Invalid schema type"@),
                _ => match definition {
                    Some(Err(e)) => res matches Err(s) && status_is(
                        s,
                        Code::InvalidArgument,
                        "Definition was not valid JSON: "@ + e@,
                    ),
                    _ => res matches Ok((i, u)) && i == id && u.name == request.name
                        && u.insert_destination == request.insert_destination && u.query_address
                        == request.query_address && u.schema_type == (match request.schema_type {
                        Some(t) => schema_type_of_wire(t.schema_type),
                        None => None,
                    }) && u.definition == (match definition {
                        Some(Ok(d)) => Some(d),
                        _ => None,
                    }),
                },
            },
        },
{
    let id = match parse_uuid(request.id.as_str()) {
        Ok(id) => id,
        Err(s) => return Err(s),
    };
    let schema_type = match &request.schema_type {
        Some(t) => match schema_type_from_request(t) {
            Ok(v) => Some(v),
            Err(s) => return Err(s),
        },
        None => None,
    };
    let definition = match definition {
        Some(Ok(d)) => Some(d),
        Some(Err(e)) => return Err(status(Code::InvalidArgument, "Definition was not valid JSON: ", e.as_str())),
        None => None,
    };
    Ok((
        id,
        SchemaUpdate {
            name: request.name,
            query_address: request.query_address,
            insert_destination: request.insert_destination,
            schema_type,
            definition,
        },
    ))
}

/// The ids of the relations a view follows, each followed by the ids of the
/// relations nested under it (the order in which the edge registry is asked
/// to validate them).
pub open spec fn relation_ids(relations: Seq<Relation>) -> Seq<u128>
    decreases relations,
{
    if relations.len() == 0 {
        Seq::empty()
    } else {
        seq![relations[0].global_id] + relation_ids(relations[0].relations@) + relation_ids(relations.drop_first())
    }
}

/// `id` is the global id of a relation of `rs`, or of a relation nested, at
/// any depth, under one of them.
pub open spec fn in_tree(rs: Seq<Relation>, id: u128) -> bool
    decreases rs,
{
    exists|i: int| #![trigger rs[i]] 0 <= i < rs.len() && (rs[i].global_id == id || in_tree(rs[i].relations@, id))
}

/// How many relations the tree holds, nested ones included.
pub open spec fn tree_size(rs: Seq<Relation>) -> nat
    decreases rs,
{
    if rs.len() == 0 {
        0
    } else {
        1 + tree_size(rs.last().relations@) + tree_size(rs.drop_last())
    }
}

proof fn lemma_contains_concat(a: Seq<u128>, b: Seq<u128>, x: u128)
    ensures
        (a + b).contains(x) <==> a.contains(x) || b.contains(x),
{
    if a.contains(x) {
        let i = choose|i: int| 0 <= i < a.len() && a[i] == x;
        assert((a + b)[i] == x);
    }
    if b.contains(x) {
        let i = choose|i: int| 0 <= i < b.len() && b[i] == x;
        assert((a + b)[a.len() + i] == x);
    }
    if (a + b).contains(x) {
        let i = choose|i: int| 0 <= i < (a + b).len() && (a + b)[i] == x;
        if i < a.len() {
            assert(a[i] == x);
        } else {
            assert(b[i - a.len()] == x);
        }
    }
}

proof fn lemma_tree_size_front(rs: Seq<Relation>)
    requires
        rs.len() > 0,
    ensures
        tree_size(rs) == 1 + tree_size(rs[0].relations@) + tree_size(rs.drop_first()),
    decreases rs.len(),
{
    if rs.len() > 1 {
        lemma_tree_size_front(rs.drop_last());
        assert(rs.drop_last().drop_first() =~= rs.drop_first().drop_last());
        assert(rs.drop_first().last() == rs.last());
        assert(rs.drop_last()[0] == rs[0]);
        assert(tree_size(rs.drop_first()) == 1 + tree_size(rs.drop_first().last().relations@) + tree_size(
            rs.drop_first().drop_last(),
        ));
    } else {
        assert(rs.drop_last().len() == 0);
        assert(rs.drop_first().len() == 0);
        assert(tree_size(rs.drop_last()) == 0);
        assert(tree_size(rs.drop_first()) == 0);
        assert(rs.last() == rs[0]);
    }
}

/// The relations validated are every relation of the tree, nested ones at
/// any depth and under any sibling included, each once, starting with the
/// first top-level relation: an id is in the list exactly when it is in the
/// tree, and the list has one entry per relation of the tree.
pub proof fn relation_ids_cover_the_tree(rs: Seq<Relation>, id: u128)
    ensures
        relation_ids(rs).contains(id) <==> in_tree(rs, id),
        relation_ids(rs).len() == tree_size(rs),
        rs.len() > 0 ==> relation_ids(rs)[0] == rs[0].global_id,
    decreases rs,
{
    if rs.len() > 0 {
        let r0 = rs[0];
        let rest = rs.drop_first();
        relation_ids_cover_the_tree(r0.relations@, id);
        relation_ids_cover_the_tree(rest, id);
        lemma_tree_size_front(rs);
        let head = seq![r0.global_id] + relation_ids(r0.relations@);
        lemma_contains_concat(seq![r0.global_id], relation_ids(r0.relations@), id);
        lemma_contains_concat(head, relation_ids(rest), id);
        assert(seq![r0.global_id].contains(id) <==> r0.global_id == id) by {
            if r0.global_id == id {
                assert(seq![r0.global_id][0] == id);
            }
        }
        if in_tree(rs, id) {
            let i = choose|i: int| #![trigger rs[i]] 0 <= i < rs.len() && (rs[i].global_id == id || in_tree(rs[i].relations@, id));
            if i > 0 {
                assert(rest[i - 1] == rs[i]);
                assert(in_tree(rest, id));
            }
        }
        if in_tree(rest, id) {
            let j = choose|j: int| #![trigger rest[j]] 0 <= j < rest.len() && (rest[j].global_id == id || in_tree(rest[j].relations@, id));
            assert(rs[j + 1] == rest[j]);
        }
        if r0.global_id == id || in_tree(r0.relations@, id) {
            assert(rs[0] == r0);
        }
    } else {
        assert(!in_tree(rs, id));
    }
}

/// The ids of the relations to validate with the edge registry, in order
/// (what `validate_relations` walks through).
pub fn relation_ids_to_validate(relations: &Vec<Relation>) -> (res: Vec<u128>)
    ensures
        res@ == relation_ids(relations@),
        forall|id: u128| res@.contains(id) <==> in_tree(relations@, id),
        res@.len() == tree_size(relations@),
    decreases relations@,
{
    proof {
        assert forall|id: u128| relation_ids(relations@).contains(id) <==> in_tree(relations@, id) by {
            relation_ids_cover_the_tree(relations@, id);
        }
        relation_ids_cover_the_tree(relations@, 0);
    }
    let mut res: Vec<u128> = Vec::new();
    let mut i: usize = 0;
    assert(relations@.skip(0) =~= relations@);
    while i < relations.len()
        invariant
            i <= relations.len(),
            relation_ids(relations@) == res@ + relation_ids(relations@.skip(i as int)),
        decreases relations.len() - i,
    {
        let ghost rest = relations@.skip(i as int);
        assert(rest[0] == relations@[i as int]);
        assert(rest.drop_first() =~= relations@.skip(i as int + 1));
        res.push(relations[i].global_id);
        let mut nested = relation_ids_to_validate(&relations[i].relations);
        res.append(&mut nested);
        i = i + 1;
    }
    assert(relations@.skip(relations.len() as int) =~= Seq::<Relation>::empty());
    assert(res@ + Seq::<u128>::empty() =~= res@);
    res
}

/// What the edge registry answered when asked to validate a relation: it
/// accepted it, it rejected it (with its message), or it could not be
/// reached (with the connection error's message).
pub enum RelationAnswer {
    Accepted,
    Rejected(String),
    Unreachable(String),
}

/// The first answer that is not an acceptance.
pub open spec fn first_refusal(answers: Seq<RelationAnswer>) -> Option<RelationAnswer>
    decreases answers.len(),
{
    if answers.len() == 0 {
        None
    } else if answers[0] is Accepted {
        first_refusal(answers.drop_first())
    } else {
        Some(answers[0])
    }
}

/// `s` answers the refusal `a`: a rejected relation is an invalid argument
/// with the edge registry's message; an unreachable edge registry is an
/// internal error with the connection error's message.
pub open spec fn refusal_status(s: Status, a: RelationAnswer) -> bool {
    match a {
        RelationAnswer::Rejected(m) => status_is(s, Code::InvalidArgument, m@),
        RelationAnswer::Unreachable(m) => status_is(s, Code::Internal, m@),
        RelationAnswer::Accepted => false,
    }
}

proof fn lemma_first_refusal(answers: Seq<RelationAnswer>, k: int)
    requires
        0 <= k <= answers.len(),
        forall|j: int| 0 <= j < k ==> #[trigger] answers[j] is Accepted,
    ensures
        first_refusal(answers) == first_refusal(answers.skip(k)),
    decreases k,
{
    if k > 0 {
        lemma_first_refusal(answers, k - 1);
        let rest = answers.skip(k - 1);
        assert(rest[0] == answers[k - 1]);
        assert(rest.drop_first() =~= answers.skip(k));
    } else {
        assert(answers.skip(0) =~= answers);
    }
}

/// The outcome of validating a view's relations, given the edge registry's
/// answers in the order they were asked: the first refusal decides.
pub fn relations_outcome(answers: &Vec<RelationAnswer>) -> (res: Result<(), Status>)
    ensures
        match first_refusal(answers@) {
            None => res is Ok,
            Some(a) => res matches Err(s) && refusal_status(s, a),
        },
{
    let mut i: usize = 0;
    while i < answers.len()
        invariant
            i <= answers.len(),
            forall|j: int| 0 <= j < i ==> #[trigger] answers@[j] is Accepted,
        decreases answers.len() - i,
    {
        match &answers[i] {
            RelationAnswer::Accepted => {},
            RelationAnswer::Rejected(m) => {
                proof {
                    lemma_first_refusal(answers@, i as int);
                    assert(answers@.skip(i as int)[0] == answers@[i as int]);
                }
                return Err(Status { code: Code::InvalidArgument, message: m.clone() });
            },
            RelationAnswer::Unreachable(m) => {
                proof {
                    lemma_first_refusal(answers@, i as int);
                    assert(answers@.skip(i as int)[0] == answers@[i as int]);
                }
                return Err(Status { code: Code::Internal, message: m.clone() });
            },
        }
        i = i + 1;
    }
    proof {
        lemma_first_refusal(answers@, answers@.len() as int);
    }
    Ok(())
}

/// The next step of validating relations with the edge registry.
pub enum RelationWalkStep {
    /// Ask the edge registry to validate the relation with this id.
    Ask(u128),
    /// The walk is over, with this outcome.
    Finished(Result<(), Status>),
}

/// The next step of validating relations (`validate_relations`), given the
/// ids to validate in order (`relation_ids_to_validate`) and the answers so
/// far, one for each id from the first: the walk ends at the first refusal,
/// which decides the outcome; otherwise it asks for the next id, and it ends
/// successfully when every id was accepted.
pub fn relation_walk(ids: &Vec<u128>, answers: &Vec<RelationAnswer>) -> (res: RelationWalkStep)
    ensures
        match first_refusal(answers@) {
            Some(a) => res matches RelationWalkStep::Finished(Err(s)) && refusal_status(s, a),
            None => if answers@.len() < ids@.len() {
                res == RelationWalkStep::Ask(ids@[answers@.len() as int])
            } else {
                res matches RelationWalkStep::Finished(Ok(()))
            },
        },
{
    match relations_outcome(answers) {
        Err(s) => RelationWalkStep::Finished(Err(s)),
        Ok(()) => {
            if answers.len() < ids.len() {
                RelationWalkStep::Ask(ids[answers.len()])
            } else {
                RelationWalkStep::Finished(Ok(()))
            }
        },
    }
}

/// Checking a value against a schema's definition (`validate_value`), given
/// the schema's definition and what the value's JSON text parsed to (the
/// document, or the parser's message). A value that does not parse is
/// refused first; a definition that does not compile as a JSON Schema is
/// refused as invalid; otherwise the reply carries the checker's messages,
/// none when the value is valid.
pub fn validate_value(definition: &JsonValue, value: Result<JsonValue, String>) -> (res: Result<rpc::Errors, Status>)
    ensures
        match value {
            Err(e) => res matches Err(s) && status_is(s, Code::InvalidArgument, "Invalid JSON provided: "@ + e@),
            Ok(v) => match json_schema_compiles(*definition) {
                Err(m) => res matches Err(s) && status_is(s, Code::InvalidArgument, "Invalid JSON schema: "@ + m),
                Ok(()) => res matches Ok(r) && views(r.errors@) == json_schema_errors(*definition, v),
            },
        },
{
    let json = match value {
        Ok(j) => j,
        Err(e) => return Err(invalid_json(e.as_str())),
    };
    let checked = check_json_schema(definition, &json);
    validate_value_reply(checked)
}

/// The first field whose definition text did not parse, by the parser's
/// message.
pub open spec fn first_field_error(fields: Seq<(String, Result<JsonValue, String>)>) -> Option<Seq<char>>
    decreases fields.len(),
{
    if fields.len() == 0 {
        None
    } else {
        match fields[0].1 {
            Err(e) => Some(e@),
            Ok(_) => first_field_error(fields.drop_first()),
        }
    }
}

/// The field definitions, when all parsed.
pub open spec fn field_documents(fields: Seq<(String, Result<JsonValue, String>)>) -> Seq<(String, JsonValue)>
    decreases fields.len(),
{
    if fields.len() == 0 {
        Seq::empty()
    } else {
        seq![(fields[0].0, fields[0].1->Ok_0)] + field_documents(fields.drop_first())
    }
}

/// Reading field definitions fails exactly when some definition did not
/// parse, and then with the message of the first that did not; when every
/// definition parsed it gives one entry per field, with the field's name and
/// document, in order.
pub proof fn field_reading_law(fields: Seq<(String, Result<JsonValue, String>)>)
    ensures
        first_field_error(fields) is None <==> forall|i: int| 0 <= i < fields.len() ==> #[trigger] fields[i].1 is Ok,
        first_field_error(fields) is Some ==> exists|i: int|
            #![trigger fields[i]]
            0 <= i < fields.len() && fields[i].1 is Err && fields[i].1->Err_0@ == first_field_error(fields)->0
                && forall|j: int| 0 <= j < i ==> #[trigger] fields[j].1 is Ok,
        (forall|i: int| 0 <= i < fields.len() ==> #[trigger] fields[i].1 is Ok) ==> {
            &&& field_documents(fields).len() == fields.len()
            &&& forall|i: int| 0 <= i < fields.len() ==> #[trigger] field_documents(fields)[i] == (fields[i].0, fields[i].1->Ok_0)
        },
    decreases fields.len(),
{
    if fields.len() > 0 {
        let rest = fields.drop_first();
        field_reading_law(rest);
        assert forall|i: int| 1 <= i < fields.len() implies #[trigger] fields[i] == rest[i - 1] by {}
        if fields[0].1 is Ok {
            if first_field_error(fields) is Some {
                let i = choose|i: int|
                    #![trigger rest[i]]
                    0 <= i < rest.len() && rest[i].1 is Err && rest[i].1->Err_0@ == first_field_error(rest)->0
                        && forall|j: int| 0 <= j < i ==> #[trigger] rest[j].1 is Ok;
                assert(fields[i + 1] == rest[i]);
                assert forall|j: int| 0 <= j < i + 1 implies #[trigger] fields[j].1 is Ok by {
                    if j > 0 {
                        assert(fields[j] == rest[j - 1]);
                    }
                }
            } else {
                assert forall|i: int| 0 <= i < fields.len() implies #[trigger] fields[i].1 is Ok by {
                    if i > 0 {
                        assert(fields[i] == rest[i - 1]);
                        assert(rest[i - 1].1 is Ok);
                    }
                }
            }
            if forall|i: int| 0 <= i < fields.len() ==> #[trigger] fields[i].1 is Ok {
                assert forall|i: int| 0 <= i < rest.len() implies #[trigger] rest[i].1 is Ok by {
                    assert(fields[i + 1] == rest[i]);
                }
                let d = field_documents(fields);
                assert forall|i: int| 0 <= i < fields.len() implies #[trigger] d[i] == (fields[i].0, fields[i].1->Ok_0) by {
                    if i > 0 {
                        assert(d[i] == field_documents(rest)[i - 1]);
                    }
                }
            }
        } else {
            assert(fields[0].1 is Err);
        }
    }
}

/// The status for view options or field definitions that do not parse.
pub open spec fn malformed_fields_status(s: Status, parse_error: Seq<char>) -> bool {
    status_is(s, Code::Internal, "JSON error processing view fields: "@ + parse_error)
}

fn malformed_fields(parse_error: String) -> (res: Status)
    ensures
        malformed_fields_status(res, parse_error@),
{
    RegistryError::MalformedViewFields(parse_error).into_status()
}

/// The field definitions of a view, given what each definition text parsed
/// to: all of them when all parsed, otherwise the first that did not is
/// refused.
pub fn collect_fields(fields: Vec<(String, Result<JsonValue, String>)>) -> (res: Result<Vec<(String, JsonValue)>, Status>)
    ensures
        match first_field_error(fields@) {
            Some(e) => res matches Err(s) && malformed_fields_status(s, e),
            None => res matches Ok(v) && v@ == field_documents(fields@),
        },
        res is Ok <==> forall|i: int| 0 <= i < fields@.len() ==> #[trigger] fields@[i].1 is Ok,
        res matches Ok(v) ==> v@.len() == fields@.len() && forall|i: int|
            0 <= i < fields@.len() ==> #[trigger] v@[i] == (fields@[i].0, fields@[i].1->Ok_0),
{
    proof {
        field_reading_law(fields@);
    }
    let ghost orig = fields@;
    let mut rest = reversed(fields);
    let mut out: Vec<(String, JsonValue)> = Vec::new();
    assert(orig.skip(0) =~= orig);
    while rest.len() > 0
        invariant
            rest@.len() <= orig.len(),
            forall|j: int| 0 <= j < rest@.len() ==> #[trigger] rest@[j] == orig[orig.len() - 1 - j],
            orig == fields@,
            first_field_error(orig) == first_field_error(orig.skip(orig.len() - rest@.len())),
            field_documents(orig) == out@ + field_documents(orig.skip(orig.len() - rest@.len())),
        decreases rest@.len(),
    {
        let ghost k = orig.len() - rest@.len();
        let ghost tail = orig.skip(k);
        let (name, parsed) = rest.pop().unwrap();
        assert(tail[0] == (name, parsed));
        assert(tail.drop_first() =~= orig.skip(k + 1));
        match parsed {
            Ok(d) => {
                out.push((name, d));
                assert(field_documents(tail) == seq![(name, d)] + field_documents(orig.skip(k + 1)));
            },
            Err(e) => {
                assert(tail.len() > 0);
                assert(first_field_error(tail) == Some(e@));
                let st = malformed_fields(e);
                return Err(st);
            },
        }
    }
    assert(orig.skip(orig.len() as int) =~= Seq::<(String, Result<JsonValue, String>)>::empty());
    assert(out@ + Seq::<(String, JsonValue)>::empty() =~= out@);
    Ok(out)
}

/// The view that an add request asks for (`add_view_to_schema`), given
/// what its materializer options and field definitions parsed to and what
/// the edge registry answered for its relations. Checked in order:
/// the options, the relations, the requested view id, the base schema id,
/// the field definitions.
pub fn new_view_from_request(
    request: rpc::NewView,
    options: Result<JsonValue, String>,
    relation_answers: &Vec<RelationAnswer>,
    fields: Vec<(String, Result<JsonValue, String>)>,
) -> (res: Result<NewView, Status>)
    ensures
        match options {
            Err(e) => res matches Err(s) && malformed_fields_status(s, e@),
            Ok(o) => match first_refusal(relation_answers@) {
                Some(a) => res matches Err(s) && refusal_status(s, a),
                None => match request.view_id {
                    Some(v) if parsed_uuid(v@) is Err => res matches Err(s) && status_is(
                        s,
                        Code::InvalidArgument,
                        "Failed to parse UUID: "@ + parsed_uuid(v@)->Err_0,
                    ),
                    _ => match parsed_uuid(request.base_schema_id@) {
                        Err(m) => res matches Err(s) && status_is(s, Code::InvalidArgument, "Failed to parse UUID: "@ + m),
                        Ok(base) => match first_field_error(fields@) {
                            Some(e) => res matches Err(s) && malformed_fields_status(s, e),
                            None => res matches Ok(n) && n.view_id == (match request.view_id {
                                Some(v) => Some(parsed_uuid(v@)->Ok_0),
                                None => None,
                            }) && n.base_schema_id == base && n.name == request.name && n.materializer_address
                                == request.materializer_address && n.materializer_options == o && n.fields@
                                == field_documents(fields@) && n.filters == request.filters && n.relations
                                == request.relations,
                        },
                    },
                },
            },
        },
{
    let materializer_options = match options {
        Ok(o) => o,
        Err(e) => return Err(malformed_fields(e)),
    };
    match relations_outcome(relation_answers) {
        Ok(_) => {},
        Err(s) => return Err(s),
    }
    let view_id = match &request.view_id {
        Some(v) => match parse_uuid(v.as_str()) {
            Ok(u) => Some(u),
            Err(s) => return Err(s),
        },
        None => None,
    };
    let base_schema_id = match parse_uuid(request.base_schema_id.as_str()) {
        Ok(u) => u,
        Err(s) => return Err(s),
    };
    let fields = match collect_fields(fields) {
        Ok(f) => f,
        Err(s) => return Err(s),
    };
    Ok(NewView {
        view_id,
        base_schema_id,
        name: request.name,
        materializer_address: request.materializer_address,
        materializer_options,
        fields,
        filters: request.filters,
        relations: request.relations,
    })
}

/// The view id and update that an update request asks for
/// (`update_view`), given what its field definitions and materializer
/// options parsed to and how validating its relations went. Checked in
/// order: the id, the field definitions (when they are to be replaced), the
/// relations (likewise), the materializer options (when not empty). The
/// filters are replaced when their flag is set.
pub fn view_update_from_request(
    request: rpc::ViewUpdate,
    fields: Vec<(String, Result<JsonValue, String>)>,
    relation_answers: &Vec<RelationAnswer>,
    options: Result<JsonValue, String>,
) -> (res: Result<(u128, ViewUpdate), Status>)
    ensures
        match parsed_uuid(request.id@) {
            Err(m) => res matches Err(s) && status_is(s, Code::InvalidArgument, "Failed to parse UUID: "@ + m),
            Ok(id) => if request.update_fields && first_field_error(fields@) is Some {
                res matches Err(s) && malformed_fields_status(s, first_field_error(fields@)->0)
            } else if request.update_relations && first_refusal(relation_answers@) is Some {
                res matches Err(s) && refusal_status(s, first_refusal(relation_answers@)->0)
            } else if request.materializer_options@.len() > 0 && options is Err {
                res matches Err(s) && malformed_fields_status(s, options->Err_0@)
            } else {
                res matches Ok((i, u)) && i == id && u.name == request.name && u.materializer_address
                    == request.materializer_address && u.materializer_options == (if request.materializer_options@.len() > 0 {
                    Some(options->Ok_0)
                } else {
                    None
                }) && (request.update_fields ==> (u.fields matches Some(f) && f@ == field_documents(fields@)))
                    && (!request.update_fields ==> u.fields is None) && u.relations == (if request.update_relations {
                    Some(request.relations)
                } else {
                    None
                }) && u.filters == (if request.update_filters {
                    Some(request.filters)
                } else {
                    None
                })
            },
        },
{
    let id = match parse_uuid(request.id.as_str()) {
        Ok(id) => id,
        Err(s) => return Err(s),
    };
    let new_fields = if request.update_fields {
        match collect_fields(fields) {
            Ok(f) => Some(f),
            Err(s) => return Err(s),
        }
    } else {
        None
    };
    let relations = if request.update_relations {
        match relations_outcome(relation_answers) {
            Ok(_) => Some(request.relations),
            Err(s) => return Err(s),
        }
    } else {
        None
    };
    let filters = if request.update_filters {
        Some(request.filters)
    } else {
        None
    };
    let materializer_options = if !request.materializer_options.as_str().is_empty() {
        match options {
            Ok(o) => Some(o),
            Err(e) => return Err(malformed_fields(e)),
        }
    } else {
        None
    };
    Ok((
        id,
        ViewUpdate {
            name: request.name,
            materializer_address: request.materializer_address,
            materializer_options,
            fields: new_fields,
            relations,
            filters,
        },
    ))
}

/// `r` is the reply for the stored schema `s`.
pub open spec fn is_schema_reply(r: rpc::Schema, s: Schema) -> bool {
    &&& r.id@ == uuid_text(s.id)
    &&& r.name == s.name
    &&& r.insert_destination == s.insert_destination
    &&& r.query_address == s.query_address
    &&& r.schema_type.schema_type == schema_type_wire(s.schema_type)
    &&& r.definition@ == json_bytes(s.definition)
}

/// The reply for a stored schema (`get_schema`, `get_base_schema_of_view`,
/// and each schema of `get_all_schemas` and of the schema updates stream).
pub fn schema_reply(s: Schema) -> (res: rpc::Schema)
    ensures
        is_schema_reply(res, s),
{
    let Schema { id, name, insert_destination, query_address, schema_type, definition } = s;
    rpc::Schema {
        id: uuid_to_string(id),
        name,
        insert_destination,
        query_address,
        schema_type: rpc::SchemaType { schema_type: schema_type.wire_value() },
        definition: to_json_bytes(&definition),
    }
}

/// The reply for all stored schemas, in order (`get_all_schemas`).
pub fn schemas_reply(schemas: Vec<Schema>) -> (res: rpc::Schemas)
    ensures
        res.schemas@.len() == schemas@.len(),
        forall|i: int| 0 <= i < schemas@.len() ==> is_schema_reply(#[trigger] res.schemas@[i], schemas@[i]),
{
    let ghost orig = schemas@;
    let mut rest = reversed(schemas);
    let mut out: Vec<rpc::Schema> = Vec::new();
    while rest.len() > 0
        invariant
            rest@.len() <= orig.len(),
            forall|j: int| 0 <= j < rest@.len() ==> #[trigger] rest@[j] == orig[orig.len() - 1 - j],
            out@.len() == orig.len() - rest@.len(),
            forall|i: int| 0 <= i < out@.len() ==> is_schema_reply(#[trigger] out@[i], orig[i]),
        decreases rest@.len(),
    {
        let ghost k = out@.len() as int;
        let s = rest.pop().unwrap();
        assert(s == orig[k]);
        out.push(schema_reply(s));
    }
    rpc::Schemas { schemas: out }
}

/// Field definitions as JSON text, each under its name, in order.
pub open spec fn encoded_fields(fields: Seq<(String, JsonValue)>) -> Seq<(Seq<char>, Seq<char>)> {
    fields.map_values(|f: (String, JsonValue)| (f.0@, json_text(f.1)))
}

/// The names and texts of the fields of a reply.
pub open spec fn field_texts(fields: Seq<(String, String)>) -> Seq<(Seq<char>, Seq<char>)> {
    fields.map_values(|f: (String, String)| (f.0@, f.1@))
}

fn encode_fields(fields: &Vec<(String, JsonValue)>) -> (res: Vec<(String, String)>)
    ensures
        field_texts(res@) == encoded_fields(fields@),
{
    let mut res: Vec<(String, String)> = Vec::new();
    let mut i: usize = 0;
    while i < fields.len()
        invariant
            i <= fields.len(),
            field_texts(res@) == encoded_fields(fields@.take(i as int)),
        decreases fields.len() - i,
    {
        let ghost prev = res@;
        let name = fields[i].0.clone();
        let text = to_json_text(&fields[i].1);
        res.push((name, text));
        proof {
            assert(res@ == prev.push((name, text)));
            assert(field_texts(res@) =~= field_texts(prev).push((name@, text@)));
            assert(fields@.take(i as int + 1) =~= fields@.take(i as int).push(fields@[i as int]));
            assert(encoded_fields(fields@.take(i as int + 1)) =~= encoded_fields(fields@.take(i as int)).push(
                (fields@[i as int].0@, json_text(fields@[i as int].1)),
            ));
        }
        i = i + 1;
    }
    proof {
        assert(fields@.take(fields.len() as int) =~= fields@);
    }
    res
}

/// `r` is the reply for the stored view `v` under the id text `id`.
pub open spec fn is_full_view_reply(r: rpc::FullView, v: FullView, id: Seq<char>) -> bool {
    &&& r.id@ == id
    &&& r.base_schema_id@ == uuid_text(v.base_schema)
    &&& r.name == v.name
    &&& r.materializer_address == v.materializer_address
    &&& r.materializer_options@ == json_text(v.materializer_options)
    &&& field_texts(r.fields@) == encoded_fields(v.fields@)
    &&& r.filters == v.filters
    &&& r.relations == v.relations
}

fn view_with_id(id: String, v: FullView) -> (res: rpc::FullView)
    ensures
        is_full_view_reply(res, v, id@),
{
    let FullView { id: _, base_schema, name, materializer_address, materializer_options, fields, relations, filters } = v;
    rpc::FullView {
        id,
        base_schema_id: uuid_to_string(base_schema),
        name,
        materializer_address,
        materializer_options: to_json_text(&materializer_options),
        fields: encode_fields(&fields),
        filters,
        relations,
    }
}

/// The reply for a view asked for by id (`get_view`): it carries the id as
/// the request gave it.
pub fn view_reply(request_id: String, v: FullView) -> (res: rpc::FullView)
    ensures
        is_full_view_reply(res, v, request_id@),
{
    view_with_id(request_id, v)
}

/// The reply for a stored view among others (each view of
/// `get_all_views_of_schema` and `get_all_views_by_relation`).
pub fn full_view_reply(v: FullView) -> (res: rpc::FullView)
    ensures
        is_full_view_reply(res, v, uuid_text(v.id)),
{
    let id = uuid_to_string(v.id);
    view_with_id(id, v)
}

/// The reply for stored views, in order.
pub fn views_reply(views: Vec<FullView>) -> (res: rpc::SchemaViews)
    ensures
        res.views@.len() == views@.len(),
        forall|i: int| 0 <= i < views@.len() ==> is_full_view_reply(#[trigger] res.views@[i], views@[i], uuid_text(views@[i].id)),
{
    let ghost orig = views@;
    let mut rest = reversed(views);
    let mut out: Vec<rpc::FullView> = Vec::new();
    while rest.len() > 0
        invariant
            rest@.len() <= orig.len(),
            forall|j: int| 0 <= j < rest@.len() ==> #[trigger] rest@[j] == orig[orig.len() - 1 - j],
            out@.len() == orig.len() - rest@.len(),
            forall|i: int| 0 <= i < out@.len() ==> is_full_view_reply(#[trigger] out@[i], orig[i], uuid_text(orig[i].id)),
        decreases rest@.len(),
    {
        let ghost k = out@.len() as int;
        let v = rest.pop().unwrap();
        assert(v == orig[k]);
        out.push(full_view_reply(v));
    }
    rpc::SchemaViews { views: out }
}

/// `r` is the reply for the view `v` of a schema, with its filter kept or
/// left out.
pub open spec fn is_view_reply(r: rpc::View, v: FullView, keep_filters: bool) -> bool {
    &&& r.id@ == uuid_text(v.id)
    &&& r.name == v.name
    &&& r.materializer_address == v.materializer_address
    &&& r.materializer_options@ == json_text(v.materializer_options)
    &&& field_texts(r.fields@) == encoded_fields(v.fields@)
    &&& r.filters == (if keep_filters { v.filters } else { None })
    &&& r.relations == v.relations
}

fn schema_view_reply(v: FullView, keep_filters: bool) -> (res: rpc::View)
    ensures
        is_view_reply(res, v, keep_filters),
{
    let FullView { id, base_schema: _, name, materializer_address, materializer_options, fields, relations, filters } = v;
    rpc::View {
        id: uuid_to_string(id),
        name,
        materializer_address,
        materializer_options: to_json_text(&materializer_options),
        fields: encode_fields(&fields),
        filters: if keep_filters { filters } else { None },
        relations,
    }
}

/// `r` is the reply for the schema `f` with its views, under the id text
/// `id`.
pub open spec fn is_full_schema_reply(r: rpc::FullSchema, f: FullSchema, id: Seq<char>, keep_filters: bool) -> bool {
    &&& r.id@ == id
    &&& r.name == f.name
    &&& r.insert_destination == f.insert_destination
    &&& r.query_address == f.query_address
    &&& r.schema_type.schema_type == schema_type_wire(f.schema_type)
    &&& r.definition@ == json_bytes(f.definition)
    &&& r.views@.len() == f.views@.len()
    &&& forall|i: int| 0 <= i < f.views@.len() ==> is_view_reply(#[trigger] r.views@[i], f.views@[i], keep_filters)
}

fn schema_with_views_reply(id: String, f: FullSchema, keep_filters: bool) -> (res: rpc::FullSchema)
    ensures
        is_full_schema_reply(res, f, id@, keep_filters),
{
    let FullSchema { id: _, name, insert_destination, query_address, schema_type, definition, views } = f;
    let ghost orig = views@;
    let mut rest = reversed(views);
    let mut out: Vec<rpc::View> = Vec::new();
    while rest.len() > 0
        invariant
            rest@.len() <= orig.len(),
            forall|j: int| 0 <= j < rest@.len() ==> #[trigger] rest@[j] == orig[orig.len() - 1 - j],
            out@.len() == orig.len() - rest@.len(),
            forall|i: int| 0 <= i < out@.len() ==> is_view_reply(#[trigger] out@[i], orig[i], keep_filters),
        decreases rest@.len(),
    {
        let ghost k = out@.len() as int;
        let v = rest.pop().unwrap();
        assert(v == orig[k]);
        out.push(schema_view_reply(v, keep_filters));
    }
    rpc::FullSchema {
        id,
        name,
        insert_destination,
        query_address,
        schema_type: rpc::SchemaType { schema_type: schema_type.wire_value() },
        definition: to_json_bytes(&definition),
        views: out,
    }
}

/// The reply for a schema with its views asked for by id
/// (`get_full_schema`): it carries the id as the request gave it, and its
/// views carry no filters.
pub fn full_schema_reply(request_id: String, f: FullSchema) -> (res: rpc::FullSchema)
    ensures
        is_full_schema_reply(res, f, request_id@, false),
{
    schema_with_views_reply(request_id, f, false)
}

/// The reply for all schemas with their views, in order
/// (`get_all_full_schemas`): each carries its own id, and its views their
/// filters.
pub fn full_schemas_reply(schemas: Vec<FullSchema>) -> (res: rpc::FullSchemas)
    ensures
        res.schemas@.len() == schemas@.len(),
        forall|i: int| 0 <= i < schemas@.len() ==> is_full_schema_reply(
            #[trigger] res.schemas@[i],
            schemas@[i],
            uuid_text(schemas@[i].id),
            true,
        ),
{
    let ghost orig = schemas@;
    let mut rest = reversed(schemas);
    let mut out: Vec<rpc::FullSchema> = Vec::new();
    while rest.len() > 0
        invariant
            rest@.len() <= orig.len(),
            forall|j: int| 0 <= j < rest@.len() ==> #[trigger] rest@[j] == orig[orig.len() - 1 - j],
            out@.len() == orig.len() - rest@.len(),
            forall|i: int| 0 <= i < out@.len() ==> is_full_schema_reply(#[trigger] out@[i], orig[i], uuid_text(orig[i].id), true),
        decreases rest@.len(),
    {
        let ghost k = out@.len() as int;
        let f = rest.pop().unwrap();
        assert(f == orig[k]);
        let id = uuid_to_string(f.id);
        out.push(schema_with_views_reply(id, f, true));
    }
    rpc::FullSchemas { schemas: out }
}

/// The reply to a request to check a value against a schema, given what
/// the JSON Schema checker made of the schema's definition and the value:
/// the checker's messages (none for a valid value), or, when the
/// definition is not a valid JSON Schema, the error the compiler gave,
/// which is refused as invalid.
pub fn validate_value_reply(checked: Result<Vec<String>, String>) -> (res: Result<rpc::Errors, Status>)
    ensures
        match checked {
            Ok(errors) => res matches Ok(r) && r.errors == errors,
            Err(m) => res matches Err(s) && status_of(s, RegistryError::InvalidJsonSchema(m)),
        },
{
    match checked {
        Ok(errors) => Ok(rpc::Errors { errors }),
        Err(m) => Err(RegistryError::InvalidJsonSchema(m).into_status()),
    }
}

} // verus!
