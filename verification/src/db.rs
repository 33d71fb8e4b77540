//! What the registry's database layer computes around its queries:
//! assembling a schema with its views, picking the views that follow a
//! relation, grouping all views under their schemas, applying updates,
//! exporting the database and planning the import of an export.
use vstd::prelude::*;
use crate::encoding::{check_json_schema, json_schema_compiles, json_schema_errors};
use crate::text::views;
use crate::error::{RegistryError, RegistryResult};
use crate::ids::{is_random_uuid, new_random_uuid};
use crate::json::JsonValue;
use crate::seqs::reversed;
use crate::types::{DbExport, ExportSchema};
use crate::types::schema::{FullSchema, Schema, SchemaUpdate};
use crate::types::view::{FullView, Relation, ViewUpdate};
use crate::types::view::View as ExportedView;

verus! {

/// `f` is the schema `s` together with the views `views`.
pub open spec fn is_full_schema(f: FullSchema, s: Schema, views: Seq<FullView>) -> bool {
    &&& f.id == s.id
    &&& f.name == s.name
    &&& f.insert_destination == s.insert_destination
    &&& f.query_address == s.query_address
    &&& f.schema_type == s.schema_type
    &&& f.definition == s.definition
    &&& f.views@ == views
}

/// A schema together with its views (what `get_full_schema` returns for the
/// schema and the views whose base schema it is).
pub fn full_schema(schema: Schema, views: Vec<FullView>) -> (res: FullSchema)
    ensures
        is_full_schema(res, schema, views@),
{
    let Schema { id, name, insert_destination, query_address, schema_type, definition } = schema;
    FullSchema { id, name, insert_destination, query_address, schema_type, definition, views }
}

/// Whether a view follows the relation `relation_id` directly (among its
/// top-level relations).
pub open spec fn follows_relation(v: FullView, relation_id: u128) -> bool {
    exists|i: int| 0 <= i < v.relations@.len() && #[trigger] v.relations@[i].global_id == relation_id
}

/// The views among `views` that follow the relation, in their order.
pub open spec fn views_on_relation(views: Seq<FullView>, relation_id: u128) -> Seq<FullView>
    decreases views.len(),
{
    if views.len() == 0 {
        Seq::empty()
    } else {
        let rest = views_on_relation(views.drop_last(), relation_id);
        if follows_relation(views.last(), relation_id) {
            rest.push(views.last())
        } else {
            rest
        }
    }
}

/// The views that follow the relation are exactly those of `views` with a
/// top-level relation, at any position, whose global id is `relation_id`,
/// kept in their order.
pub proof fn views_on_relation_are_its_followers(views: Seq<FullView>, relation_id: u128)
    ensures
        views_on_relation(views, relation_id) == views.filter(
            |v: FullView| exists|i: int| 0 <= i < v.relations@.len() && v.relations@[i].global_id == relation_id,
        ),
    decreases views.len(),
{
    let pred = |v: FullView| exists|i: int| 0 <= i < v.relations@.len() && v.relations@[i].global_id == relation_id;
    reveal(Seq::filter);
    if views.len() > 0 {
        views_on_relation_are_its_followers(views.drop_last(), relation_id);
        assert(pred(views.last()) == follows_relation(views.last(), relation_id));
        assert(views.filter(pred) == if pred(views.last()) {
            views.drop_last().filter(pred).push(views.last())
        } else {
            views.drop_last().filter(pred)
        });
    } else {
        assert(views.filter(pred) =~= Seq::<FullView>::empty());
    }
}

fn has_relation(relations: &Vec<Relation>, relation_id: u128) -> (res: bool)
    ensures
        res == exists|i: int| 0 <= i < relations@.len() && #[trigger] relations@[i].global_id == relation_id,
{
    let mut i: usize = 0;
    while i < relations.len()
        invariant
            i <= relations.len(),
            forall|j: int| 0 <= j < i ==> #[trigger] relations@[j].global_id != relation_id,
        decreases relations.len() - i,
    {
        if relations[i].global_id == relation_id {
            return true;
        }
        i = i + 1;
    }
    false
}

/// The views that follow the relation `relation_id`, in their order (what
/// `get_all_views_by_relation` keeps of all views).
pub fn views_by_relation(views: Vec<FullView>, relation_id: u128) -> (res: Vec<FullView>)
    ensures
        res@ == views_on_relation(views@, relation_id),
        res@ == views@.filter(
            |v: FullView| exists|i: int| 0 <= i < v.relations@.len() && v.relations@[i].global_id == relation_id,
        ),
{
    proof {
        views_on_relation_are_its_followers(views@, relation_id);
    }
    let ghost orig = views@;
    let mut rest = reversed(views);
    let mut res: Vec<FullView> = Vec::new();
    while rest.len() > 0
        invariant
            rest@.len() <= orig.len(),
            forall|j: int| 0 <= j < rest@.len() ==> #[trigger] rest@[j] == orig[orig.len() - 1 - j],
            res@ == views_on_relation(orig.take(orig.len() - rest@.len()), relation_id),
        decreases rest@.len(),
    {
        let ghost k = orig.len() - rest@.len();
        let v = rest.pop().unwrap();
        assert(v == orig[k]);
        assert(orig.take(k + 1).drop_last() =~= orig.take(k));
        let keep = has_relation(&v.relations, relation_id);
        if keep {
            res.push(v);
        }
    }
    assert(orig.take(orig.len() as int) =~= orig);
    res
}

/// The views among `views` whose base schema is `id`, in their order.
pub open spec fn views_of_schema(views: Seq<FullView>, id: u128) -> Seq<FullView>
    decreases views.len(),
{
    if views.len() == 0 {
        Seq::empty()
    } else {
        let rest = views_of_schema(views.drop_last(), id);
        if views.last().base_schema == id {
            rest.push(views.last())
        } else {
            rest
        }
    }
}

/// The views among `views` whose base schema is not `id`, in their order.
pub open spec fn views_not_of_schema(views: Seq<FullView>, id: u128) -> Seq<FullView>
    decreases views.len(),
{
    if views.len() == 0 {
        Seq::empty()
    } else {
        let rest = views_not_of_schema(views.drop_last(), id);
        if views.last().base_schema != id {
            rest.push(views.last())
        } else {
            rest
        }
    }
}

/// Splits views into those of the schema `id` and the others, each in
/// their order.
fn split_by_schema(views: Vec<FullView>, id: u128) -> (res: (Vec<FullView>, Vec<FullView>))
    ensures
        res.0@ == views_of_schema(views@, id),
        res.1@ == views_not_of_schema(views@, id),
{
    let ghost orig = views@;
    let mut rest = reversed(views);
    let mut mine: Vec<FullView> = Vec::new();
    let mut others: Vec<FullView> = Vec::new();
    while rest.len() > 0
        invariant
            rest@.len() <= orig.len(),
            forall|j: int| 0 <= j < rest@.len() ==> #[trigger] rest@[j] == orig[orig.len() - 1 - j],
            mine@ == views_of_schema(orig.take(orig.len() - rest@.len()), id),
            others@ == views_not_of_schema(orig.take(orig.len() - rest@.len()), id),
        decreases rest@.len(),
    {
        let ghost k = orig.len() - rest@.len();
        let v = rest.pop().unwrap();
        assert(v == orig[k]);
        assert(orig.take(k + 1).drop_last() =~= orig.take(k));
        if v.base_schema == id {
            mine.push(v);
        } else {
            others.push(v);
        }
    }
    assert(orig.take(orig.len() as int) =~= orig);
    (mine, others)
}

/// The views left after the schemas `schemas[..k]` have each taken theirs.
pub open spec fn views_left(schemas: Seq<Schema>, views: Seq<FullView>, k: int) -> Seq<FullView>
    decreases k,
{
    if k <= 0 {
        views
    } else {
        views_not_of_schema(views_left(schemas, views, k - 1), schemas[k - 1].id)
    }
}

/// `res` holds each schema of `schemas`, in order, with the views that are
/// its own: each view goes to the first schema whose id is its base schema,
/// views keep their order, and a view whose base schema is none of the
/// schemas is left out.
pub open spec fn is_grouping(res: Seq<FullSchema>, schemas: Seq<Schema>, views: Seq<FullView>) -> bool {
    &&& res.len() == schemas.len()
    &&& forall|k: int| 0 <= k < schemas.len() ==> is_full_schema(
        #[trigger] res[k],
        schemas[k],
        views_of_schema(views_left(schemas, views, k), schemas[k].id),
    )
}

/// Groups all views under their schemas (what `get_all_full_schemas` does
/// with all schemas and all views).
pub fn group_full_schemas(schemas: Vec<Schema>, views: Vec<FullView>) -> (res: Vec<FullSchema>)
    ensures
        is_grouping(res@, schemas@, views@),
{
    let ghost orig = schemas@;
    let ghost all_views = views@;
    let mut rest = reversed(schemas);
    let mut remaining = views;
    let mut res: Vec<FullSchema> = Vec::new();
    while rest.len() > 0
        invariant
            rest@.len() <= orig.len(),
            forall|j: int| 0 <= j < rest@.len() ==> #[trigger] rest@[j] == orig[orig.len() - 1 - j],
            res@.len() == orig.len() - rest@.len(),
            remaining@ == views_left(orig, all_views, res@.len() as int),
            forall|k: int| 0 <= k < res@.len() ==> is_full_schema(
                #[trigger] res@[k],
                orig[k],
                views_of_schema(views_left(orig, all_views, k), orig[k].id),
            ),
        decreases rest@.len(),
    {
        let ghost k = res@.len() as int;
        let schema = rest.pop().unwrap();
        assert(schema == orig[k]);
        let (mine, others) = split_by_schema(remaining, schema.id);
        let f = full_schema(schema, mine);
        res.push(f);
        remaining = others;
        assert(views_left(orig, all_views, k + 1) == views_not_of_schema(views_left(orig, all_views, k), orig[k].id));
    }
    res
}

/// The stored schema after `update`: each field the update gives replaces
/// the stored one, the others (and the id) stay.
pub fn updated_schema(old: Schema, update: SchemaUpdate) -> (res: Schema)
    ensures
        res.id == old.id,
        res.name == (match update.name { Some(n) => n, None => old.name }),
        res.insert_destination == (match update.insert_destination { Some(d) => d, None => old.insert_destination }),
        res.query_address == (match update.query_address { Some(a) => a, None => old.query_address }),
        res.schema_type == (match update.schema_type { Some(t) => t, None => old.schema_type }),
        res.definition == (match update.definition { Some(d) => d, None => old.definition }),
{
    let Schema { id, name, insert_destination, query_address, schema_type, definition } = old;
    Schema {
        id,
        name: match update.name { Some(n) => n, None => name },
        insert_destination: match update.insert_destination { Some(d) => d, None => insert_destination },
        query_address: match update.query_address { Some(a) => a, None => query_address },
        schema_type: match update.schema_type { Some(t) => t, None => schema_type },
        definition: match update.definition { Some(d) => d, None => definition },
    }
}

/// The stored view after `update`: the name, materializer address, field
/// definitions, filter and relations the update gives replace the stored
/// ones. The materializer options are not written by the update: they, the
/// id and the base schema stay.
pub fn updated_view(old: FullView, update: ViewUpdate) -> (res: FullView)
    ensures
        res.id == old.id,
        res.base_schema == old.base_schema,
        res.name == (match update.name { Some(n) => n, None => old.name }),
        res.materializer_address == (match update.materializer_address { Some(a) => a, None => old.materializer_address }),
        res.materializer_options == old.materializer_options,
        res.fields == (match update.fields { Some(f) => f, None => old.fields }),
        res.filters == (match update.filters { Some(f) => f, None => old.filters }),
        res.relations == (match update.relations { Some(r) => r, None => old.relations }),
{
    let FullView { id, base_schema, name, materializer_address, materializer_options, fields, relations, filters } = old;
    FullView {
        id,
        base_schema,
        name: match update.name { Some(n) => n, None => name },
        materializer_address: match update.materializer_address { Some(a) => a, None => materializer_address },
        materializer_options,
        fields: match update.fields { Some(f) => f, None => fields },
        relations: match update.relations { Some(r) => r, None => relations },
        filters: match update.filters { Some(f) => f, None => filters },
    }
}

/// The id a new view is stored under: the one it asks for, or else a fresh
/// random (version 4) one.
pub fn new_view_id(requested: Option<u128>) -> (res: u128)
    ensures
        requested is Some ==> res == requested->0,
        requested is None ==> is_random_uuid(res),
{
    match requested {
        Some(id) => id,
        None => new_random_uuid(),
    }
}

/// What checking a value against a schema's JSON Schema comes to, given the
/// messages of the checker: success when there are none, otherwise invalid
/// data with all of them.
pub fn validation_result(errors: Vec<String>) -> (res: RegistryResult<()>)
    ensures
        errors@.len() == 0 ==> res is Ok,
        errors@.len() > 0 ==> (res matches Err(RegistryError::InvalidData(e)) && e@ == errors@),
{
    if errors.len() == 0 {
        Ok(())
    } else {
        Err(RegistryError::InvalidData(errors))
    }
}

/// Checks a value against a schema's definition as a JSON Schema
/// (`validate_data_with_schema`): a definition that does not compile is an
/// invalid JSON schema with the compiler's message; otherwise the value is
/// valid when the checker finds no error, and invalid data with the
/// checker's messages when it finds some.
pub fn validate_data_with_schema(definition: &JsonValue, json: &JsonValue) -> (res: RegistryResult<()>)
    ensures
        match json_schema_compiles(*definition) {
            Err(m) => res matches Err(RegistryError::InvalidJsonSchema(t)) && t@ == m,
            Ok(()) => {
                &&& res is Ok <==> json_schema_errors(*definition, *json).len() == 0
                &&& res is Err ==> (res matches Err(RegistryError::InvalidData(e)) && views(e@) == json_schema_errors(*definition, *json))
            },
        },
{
    match check_json_schema(definition, json) {
        Ok(errors) => validation_result(errors),
        Err(m) => Err(RegistryError::InvalidJsonSchema(m)),
    }
}

/// `e` is `v` as it is exported under its schema.
pub open spec fn is_exported_view(e: ExportedView, v: FullView) -> bool {
    &&& e.id == v.id
    &&& e.name == v.name
    &&& e.materializer_address == v.materializer_address
    &&& e.materializer_options == v.materializer_options
    &&& e.fields == v.fields
    &&& e.relations == v.relations
    &&& e.filters == v.filters
}

/// `e` is `f` as it is exported: the same schema, and its views exported in
/// their order.
pub open spec fn is_exported_schema(e: ExportSchema, f: FullSchema) -> bool {
    &&& e.id == f.id
    &&& e.name == f.name
    &&& e.insert_destination == f.insert_destination
    &&& e.query_address == f.query_address
    &&& e.schema_type == f.schema_type
    &&& e.definition == f.definition
    &&& e.views@.len() == f.views@.len()
    &&& forall|i: int| 0 <= i < f.views@.len() ==> is_exported_view(#[trigger] e.views@[i], f.views@[i])
}

/// `e` is the export of the schemas `full`, in their order.
pub open spec fn is_export(e: DbExport, full: Seq<FullSchema>) -> bool {
    &&& e.schemas@.len() == full.len()
    &&& forall|i: int| 0 <= i < full.len() ==> is_exported_schema(#[trigger] e.schemas@[i], full[i])
}

/// A view as it is exported under its schema.
pub fn export_view(v: FullView) -> (res: ExportedView)
    ensures
        is_exported_view(res, v),
{
    let FullView { id, base_schema, name, materializer_address, materializer_options, fields, relations, filters } = v;
    ExportedView { id, name, materializer_address, materializer_options, fields, relations, filters }
}

/// A schema with its views as it is exported.
pub fn export_schema(f: FullSchema) -> (res: ExportSchema)
    ensures
        is_exported_schema(res, f),
{
    let FullSchema { id, name, insert_destination, query_address, schema_type, definition, views } = f;
    let ghost orig = views@;
    let mut rest = reversed(views);
    let mut exported: Vec<ExportedView> = Vec::new();
    while rest.len() > 0
        invariant
            rest@.len() <= orig.len(),
            forall|j: int| 0 <= j < rest@.len() ==> #[trigger] rest@[j] == orig[orig.len() - 1 - j],
            exported@.len() == orig.len() - rest@.len(),
            forall|i: int| 0 <= i < exported@.len() ==> is_exported_view(#[trigger] exported@[i], orig[i]),
        decreases rest@.len(),
    {
        let ghost k = exported@.len() as int;
        let v = rest.pop().unwrap();
        assert(v == orig[k]);
        exported.push(export_view(v));
    }
    ExportSchema { id, name, insert_destination, query_address, schema_type, definition, views: exported }
}

/// The export of all schemas with their views (what `export_all` makes of
/// `get_all_full_schemas`).
pub fn export_all(full: Vec<FullSchema>) -> (res: DbExport)
    ensures
        is_export(res, full@),
{
    let ghost orig = full@;
    let mut rest = reversed(full);
    let mut schemas: Vec<ExportSchema> = Vec::new();
    while rest.len() > 0
        invariant
            rest@.len() <= orig.len(),
            forall|j: int| 0 <= j < rest@.len() ==> #[trigger] rest@[j] == orig[orig.len() - 1 - j],
            schemas@.len() == orig.len() - rest@.len(),
            forall|i: int| 0 <= i < schemas@.len() ==> is_exported_schema(#[trigger] schemas@[i], orig[i]),
        decreases rest@.len(),
    {
        let ghost k = schemas@.len() as int;
        let f = rest.pop().unwrap();
        assert(f == orig[k]);
        schemas.push(export_schema(f));
    }
    DbExport { schemas }
}

/// A statement of an import: storing a schema, or storing a view.
pub enum ImportStatement {
    InsertSchema(Schema),
    InsertView(FullView),
}

/// The stored row of an exported schema.
pub open spec fn schema_row(e: ExportSchema) -> Schema {
    Schema {
        id: e.id,
        name: e.name,
        insert_destination: e.insert_destination,
        query_address: e.query_address,
        schema_type: e.schema_type,
        definition: e.definition,
    }
}

/// The stored row of a view exported under the schema `schema_id`.
pub open spec fn view_row(v: ExportedView, schema_id: u128) -> FullView {
    FullView {
        id: v.id,
        base_schema: schema_id,
        name: v.name,
        materializer_address: v.materializer_address,
        materializer_options: v.materializer_options,
        fields: v.fields,
        relations: v.relations,
        filters: v.filters,
    }
}

/// The statements that store an exported schema: the schema, then each of
/// its views, in order, under that schema.
pub open spec fn schema_statements(e: ExportSchema) -> Seq<ImportStatement> {
    seq![ImportStatement::InsertSchema(schema_row(e))]
        + e.views@.map_values(|v: ExportedView| ImportStatement::InsertView(view_row(v, e.id)))
}

/// The statements that store the exported schemas, in order.
pub open spec fn import_sequence(schemas: Seq<ExportSchema>) -> Seq<ImportStatement>
    decreases schemas.len(),
{
    if schemas.len() == 0 {
        Seq::empty()
    } else {
        import_sequence(schemas.drop_last()) + schema_statements(schemas.last())
    }
}

/// The statements that import an export (what `import_all` runs in one
/// transaction): nothing when the registry already holds schemas, otherwise
/// each schema followed by its views.
pub fn import_statements(registry_is_empty: bool, imported: DbExport) -> (res: Vec<ImportStatement>)
    ensures
        !registry_is_empty ==> res@.len() == 0,
        registry_is_empty ==> res@ == import_sequence(imported.schemas@),
{
    let mut res: Vec<ImportStatement> = Vec::new();
    if !registry_is_empty {
        return res;
    }
    let ghost orig = imported.schemas@;
    let mut rest = reversed(imported.schemas);
    while rest.len() > 0
        invariant
            rest@.len() <= orig.len(),
            forall|j: int| 0 <= j < rest@.len() ==> #[trigger] rest@[j] == orig[orig.len() - 1 - j],
            res@ == import_sequence(orig.take(orig.len() - rest@.len())),
        decreases rest@.len(),
    {
        let ghost k = orig.len() - rest@.len();
        let schema = rest.pop().unwrap();
        assert(schema == orig[k]);
        assert(orig.take(k + 1).drop_last() =~= orig.take(k));
        let ghost before = res@;
        let ghost whole = schema;
        let ExportSchema { id, name, insert_destination, query_address, schema_type, definition, views } = schema;
        res.push(ImportStatement::InsertSchema(Schema { id, name, insert_destination, query_address, schema_type, definition }));
        let ghost vs = views@;
        let ghost mapped = vs.map_values(|v: ExportedView| ImportStatement::InsertView(view_row(v, id)));
        let mut vrest = reversed(views);
        while vrest.len() > 0
            invariant
                vrest@.len() <= vs.len(),
                forall|j: int| 0 <= j < vrest@.len() ==> #[trigger] vrest@[j] == vs[vs.len() - 1 - j],
                res@ == before + seq![ImportStatement::InsertSchema(schema_row(whole))] + mapped.take(vs.len() - vrest@.len()),
                mapped == vs.map_values(|v: ExportedView| ImportStatement::InsertView(view_row(v, id))),
            decreases vrest@.len(),
        {
            let ghost j = vs.len() - vrest@.len();
            let v = vrest.pop().unwrap();
            assert(v == vs[j]);
            let ExportedView { id: view_id, name, materializer_address, materializer_options, fields, relations, filters } = v;
            res.push(ImportStatement::InsertView(FullView {
                id: view_id,
                base_schema: id,
                name,
                materializer_address,
                materializer_options,
                fields,
                relations,
                filters,
            }));
            assert(mapped.take(j + 1) =~= mapped.take(j).push(mapped[j]));
        }
        assert(mapped.take(vs.len() as int) =~= mapped);
        assert(res@ =~= before + schema_statements(whole));
    }
    assert(orig.take(orig.len() as int) =~= orig);
    res
}

/// The statements that put back the schemas `schemas[..k]`, each followed by
/// its own views as `is_grouping` gives them, rows unchanged.
pub open spec fn restoring_statements(schemas: Seq<Schema>, views: Seq<FullView>, k: int) -> Seq<ImportStatement>
    decreases k,
{
    if k <= 0 {
        Seq::empty()
    } else {
        restoring_statements(schemas, views, k - 1)
            + seq![ImportStatement::InsertSchema(schemas[k - 1])]
            + views_of_schema(views_left(schemas, views, k - 1), schemas[k - 1].id).map_values(
            |v: FullView| ImportStatement::InsertView(v),
        )
    }
}

proof fn lemma_views_of_schema_base(views: Seq<FullView>, id: u128)
    ensures
        forall|i: int| 0 <= i < views_of_schema(views, id).len() ==> (#[trigger] views_of_schema(views, id)[i]).base_schema == id,
    decreases views.len(),
{
    if views.len() > 0 {
        lemma_views_of_schema_base(views.drop_last(), id);
    }
}

/// Exporting the registry and importing the export into an empty registry
/// stores every schema again, unchanged and in the same order, each followed
/// by the views that are its own, unchanged (same id, same base schema, same
/// contents) and in their order.
pub proof fn export_import_round_trip(
    schemas: Seq<Schema>,
    views: Seq<FullView>,
    full: Seq<FullSchema>,
    exported: DbExport,
)
    requires
        is_grouping(full, schemas, views),
        is_export(exported, full),
    ensures
        import_sequence(exported.schemas@) == restoring_statements(schemas, views, schemas.len() as int),
{
    lemma_import_prefix(schemas, views, full, exported, schemas.len() as int);
    assert(exported.schemas@.take(schemas.len() as int) =~= exported.schemas@);
}

proof fn lemma_import_prefix(
    schemas: Seq<Schema>,
    views: Seq<FullView>,
    full: Seq<FullSchema>,
    exported: DbExport,
    k: int,
)
    requires
        is_grouping(full, schemas, views),
        is_export(exported, full),
        0 <= k <= schemas.len(),
    ensures
        import_sequence(exported.schemas@.take(k)) == restoring_statements(schemas, views, k),
    decreases k,
{
    if k > 0 {
        lemma_import_prefix(schemas, views, full, exported, k - 1);
        let all = exported.schemas@;
        assert(all.take(k).drop_last() =~= all.take(k - 1));
        let e = all[k - 1];
        let f = full[k - 1];
        let s = schemas[k - 1];
        let mine = views_of_schema(views_left(schemas, views, k - 1), s.id);
        assert(is_exported_schema(e, f));
        assert(is_full_schema(f, s, mine));
        assert(schema_row(e) == s);
        lemma_views_of_schema_base(views_left(schemas, views, k - 1), s.id);
        let a = e.views@.map_values(|v: ExportedView| ImportStatement::InsertView(view_row(v, e.id)));
        let b = mine.map_values(|v: FullView| ImportStatement::InsertView(v));
        assert forall|i: int| 0 <= i < a.len() implies a[i] == b[i] by {
            assert(is_exported_view(e.views@[i], f.views@[i]));
            assert(mine[i].base_schema == s.id);
            assert(view_row(e.views@[i], e.id) == mine[i]);
        }
        assert(a =~= b);
        assert(schema_statements(e) =~= seq![ImportStatement::InsertSchema(s)] + b);
        assert(import_sequence(all.take(k)) == import_sequence(all.take(k - 1)) + schema_statements(e));
        assert(restoring_statements(schemas, views, k) =~= restoring_statements(schemas, views, k - 1)
            + (seq![ImportStatement::InsertSchema(s)] + b));
    }
}

/// The schemas that the statements store, in order.
pub open spec fn stored_schemas(stmts: Seq<ImportStatement>) -> Seq<Schema>
    decreases stmts.len(),
{
    if stmts.len() == 0 {
        Seq::empty()
    } else {
        let rest = stored_schemas(stmts.drop_last());
        match stmts.last() {
            ImportStatement::InsertSchema(s) => rest.push(s),
            ImportStatement::InsertView(_) => rest,
        }
    }
}

/// The views that the statements store, in order.
pub open spec fn stored_views(stmts: Seq<ImportStatement>) -> Seq<FullView>
    decreases stmts.len(),
{
    if stmts.len() == 0 {
        Seq::empty()
    } else {
        let rest = stored_views(stmts.drop_last());
        match stmts.last() {
            ImportStatement::InsertSchema(_) => rest,
            ImportStatement::InsertView(v) => rest.push(v),
        }
    }
}

/// `a` is `b` again: the same schema, field for field, with the same views
/// in the same order.
pub open spec fn same_export_schema(a: ExportSchema, b: ExportSchema) -> bool {
    &&& a.id == b.id
    &&& a.name == b.name
    &&& a.insert_destination == b.insert_destination
    &&& a.query_address == b.query_address
    &&& a.schema_type == b.schema_type
    &&& a.definition == b.definition
    &&& a.views@ == b.views@
}

/// The stored rows of the views of an exported schema.
spec fn rows_of(e: ExportSchema) -> Seq<FullView> {
    e.views@.map_values(|v: ExportedView| view_row(v, e.id))
}

spec fn all_rows(xs: Seq<ExportSchema>) -> Seq<FullView>
    decreases xs.len(),
{
    if xs.len() == 0 {
        Seq::empty()
    } else {
        all_rows(xs.drop_last()) + rows_of(xs.last())
    }
}

proof fn lemma_stored_concat(a: Seq<ImportStatement>, b: Seq<ImportStatement>)
    ensures
        stored_schemas(a + b) == stored_schemas(a) + stored_schemas(b),
        stored_views(a + b) == stored_views(a) + stored_views(b),
    decreases b.len(),
{
    if b.len() == 0 {
        assert(a + b =~= a);
        assert(stored_schemas(a) + stored_schemas(b) =~= stored_schemas(a));
        assert(stored_views(a) + stored_views(b) =~= stored_views(a));
    } else {
        lemma_stored_concat(a, b.drop_last());
        assert((a + b).drop_last() =~= a + b.drop_last());
        assert((a + b).last() == b.last());
        assert(stored_schemas(a) + stored_schemas(b.drop_last()).push(b.last()->InsertSchema_0)
            =~= (stored_schemas(a) + stored_schemas(b.drop_last())).push(b.last()->InsertSchema_0));
        assert(stored_views(a) + stored_views(b.drop_last()).push(b.last()->InsertView_0)
            =~= (stored_views(a) + stored_views(b.drop_last())).push(b.last()->InsertView_0));
    }
}

proof fn lemma_stored_views_only(rows: Seq<FullView>)
    ensures
        stored_schemas(rows.map_values(|v: FullView| ImportStatement::InsertView(v))) == Seq::<Schema>::empty(),
        stored_views(rows.map_values(|v: FullView| ImportStatement::InsertView(v))) == rows,
    decreases rows.len(),
{
    let m = rows.map_values(|v: FullView| ImportStatement::InsertView(v));
    if rows.len() > 0 {
        lemma_stored_views_only(rows.drop_last());
        assert(m.drop_last() =~= rows.drop_last().map_values(|v: FullView| ImportStatement::InsertView(v)));
        assert(rows.drop_last().push(rows.last()) =~= rows);
    } else {
        assert(m.len() == 0);
    }
}

proof fn lemma_stored_import(xs: Seq<ExportSchema>)
    ensures
        stored_schemas(import_sequence(xs)) == xs.map_values(|e: ExportSchema| schema_row(e)),
        stored_views(import_sequence(xs)) == all_rows(xs),
    decreases xs.len(),
{
    if xs.len() == 0 {
        assert(xs.map_values(|e: ExportSchema| schema_row(e)) =~= Seq::<Schema>::empty());
    } else {
        let e = xs.last();
        lemma_stored_import(xs.drop_last());
        let head = seq![ImportStatement::InsertSchema(schema_row(e))];
        let tail = e.views@.map_values(|v: ExportedView| ImportStatement::InsertView(view_row(v, e.id)));
        let rows = rows_of(e);
        assert(tail =~= rows.map_values(|v: FullView| ImportStatement::InsertView(v)));
        lemma_stored_views_only(rows);
        lemma_stored_concat(head, tail);
        assert(head.drop_last() =~= Seq::<ImportStatement>::empty());
        assert(head.last() == ImportStatement::InsertSchema(schema_row(e)));
        assert(stored_schemas(head.drop_last()) == Seq::<Schema>::empty());
        assert(stored_views(head.drop_last()) == Seq::<FullView>::empty());
        assert(stored_schemas(head) =~= seq![schema_row(e)]);
        assert(stored_views(head) =~= Seq::<FullView>::empty());
        lemma_stored_concat(import_sequence(xs.drop_last()), schema_statements(e));
        assert(xs.map_values(|x: ExportSchema| schema_row(x)) =~= xs.drop_last().map_values(
            |x: ExportSchema| schema_row(x),
        ) + seq![schema_row(e)]);
        assert(stored_views(schema_statements(e)) =~= rows);
    }
}

proof fn lemma_of_schema_concat(a: Seq<FullView>, b: Seq<FullView>, id: u128)
    ensures
        views_of_schema(a + b, id) == views_of_schema(a, id) + views_of_schema(b, id),
        views_not_of_schema(a + b, id) == views_not_of_schema(a, id) + views_not_of_schema(b, id),
    decreases b.len(),
{
    if b.len() == 0 {
        assert(a + b =~= a);
        assert(views_of_schema(a, id) + views_of_schema(b, id) =~= views_of_schema(a, id));
        assert(views_not_of_schema(a, id) + views_not_of_schema(b, id) =~= views_not_of_schema(a, id));
    } else {
        lemma_of_schema_concat(a, b.drop_last(), id);
        assert((a + b).drop_last() =~= a + b.drop_last());
        assert((a + b).last() == b.last());
        assert(views_of_schema(a, id) + views_of_schema(b.drop_last(), id).push(b.last())
            =~= (views_of_schema(a, id) + views_of_schema(b.drop_last(), id)).push(b.last()));
        assert(views_not_of_schema(a, id) + views_not_of_schema(b.drop_last(), id).push(b.last())
            =~= (views_not_of_schema(a, id) + views_not_of_schema(b.drop_last(), id)).push(b.last()));
    }
}

proof fn lemma_rows_by_base(rows: Seq<FullView>, base: u128, id: u128)
    requires
        forall|j: int| 0 <= j < rows.len() ==> #[trigger] rows[j].base_schema == base,
    ensures
        base == id ==> views_of_schema(rows, id) == rows && views_not_of_schema(rows, id) == Seq::<FullView>::empty(),
        base != id ==> views_of_schema(rows, id) == Seq::<FullView>::empty() && views_not_of_schema(rows, id) == rows,
    decreases rows.len(),
{
    if rows.len() > 0 {
        lemma_rows_by_base(rows.drop_last(), base, id);
        assert(rows.drop_last().push(rows.last()) =~= rows);
        assert(rows.last() == rows[rows.len() - 1]);
    }
}

proof fn lemma_rows_of_base(e: ExportSchema)
    ensures
        forall|j: int| 0 <= j < rows_of(e).len() ==> #[trigger] rows_of(e)[j].base_schema == e.id,
{
}

proof fn lemma_other_schemas(ys: Seq<ExportSchema>, id: u128)
    requires
        forall|j: int| 0 <= j < ys.len() ==> #[trigger] ys[j].id != id,
    ensures
        views_of_schema(all_rows(ys), id) == Seq::<FullView>::empty(),
        views_not_of_schema(all_rows(ys), id) == all_rows(ys),
    decreases ys.len(),
{
    if ys.len() > 0 {
        let e = ys.last();
        assert(e == ys[ys.len() - 1]);
        lemma_other_schemas(ys.drop_last(), id);
        lemma_rows_of_base(e);
        lemma_rows_by_base(rows_of(e), e.id, id);
        lemma_of_schema_concat(all_rows(ys.drop_last()), rows_of(e), id);
        assert(Seq::<FullView>::empty() + Seq::<FullView>::empty() =~= Seq::<FullView>::empty());
    }
}

proof fn lemma_all_rows_front(xs: Seq<ExportSchema>)
    requires
        xs.len() > 0,
    ensures
        all_rows(xs) == rows_of(xs[0]) + all_rows(xs.drop_first()),
    decreases xs.len(),
{
    if xs.len() == 1 {
        assert(xs.drop_last() =~= Seq::<ExportSchema>::empty());
        assert(xs.drop_first() =~= Seq::<ExportSchema>::empty());
        assert(Seq::<FullView>::empty() + rows_of(xs[0]) =~= rows_of(xs[0]));
        assert(rows_of(xs[0]) + Seq::<FullView>::empty() =~= rows_of(xs[0]));
    } else {
        lemma_all_rows_front(xs.drop_last());
        assert(xs.drop_last().drop_first() =~= xs.drop_first().drop_last());
        assert(xs.drop_first().last() == xs.last());
        assert(xs.drop_last()[0] == xs[0]);
        assert(rows_of(xs[0]) + all_rows(xs.drop_last().drop_first()) + rows_of(xs.last())
            =~= rows_of(xs[0]) + (all_rows(xs.drop_first().drop_last()) + rows_of(xs.last())));
    }
}

proof fn lemma_views_left_import(xs: Seq<ExportSchema>, k: int)
    requires
        0 <= k <= xs.len(),
        forall|i: int, j: int| 0 <= i < j < xs.len() ==> xs[i].id != xs[j].id,
    ensures
        views_left(xs.map_values(|e: ExportSchema| schema_row(e)), all_rows(xs), k) == all_rows(xs.skip(k)),
    decreases k,
{
    let sch = xs.map_values(|e: ExportSchema| schema_row(e));
    if k == 0 {
        assert(xs.skip(0) =~= xs);
    } else {
        lemma_views_left_import(xs, k - 1);
        let here = xs.skip(k - 1);
        let id = xs[k - 1].id;
        assert(sch[k - 1].id == id);
        lemma_all_rows_front(here);
        assert(here[0] == xs[k - 1]);
        assert(here.drop_first() =~= xs.skip(k));
        lemma_rows_of_base(xs[k - 1]);
        lemma_rows_by_base(rows_of(xs[k - 1]), id, id);
        assert forall|j: int| 0 <= j < xs.skip(k).len() implies #[trigger] xs.skip(k)[j].id != id by {
            assert(xs.skip(k)[j] == xs[k + j]);
        }
        lemma_other_schemas(xs.skip(k), id);
        lemma_of_schema_concat(rows_of(xs[k - 1]), all_rows(xs.skip(k)), id);
        assert(Seq::<FullView>::empty() + all_rows(xs.skip(k)) =~= all_rows(xs.skip(k)));
    }
}

/// Importing an export into an empty registry and exporting right after
/// gives the import back: the same schemas, field for field, in the same
/// order, each with the same views in the same order. This holds where the
/// imported schemas have distinct ids, as the database requires of them.
pub proof fn import_export_round_trip(imported: DbExport, full: Seq<FullSchema>, exported: DbExport)
    requires
        forall|i: int, j: int|
            0 <= i < j < imported.schemas@.len() ==> imported.schemas@[i].id != imported.schemas@[j].id,
        is_grouping(
            full,
            stored_schemas(import_sequence(imported.schemas@)),
            stored_views(import_sequence(imported.schemas@)),
        ),
        is_export(exported, full),
    ensures
        exported.schemas@.len() == imported.schemas@.len(),
        forall|k: int| 0 <= k < imported.schemas@.len() ==> same_export_schema(
            #[trigger] exported.schemas@[k],
            imported.schemas@[k],
        ),
{
    let xs = imported.schemas@;
    let sch = xs.map_values(|e: ExportSchema| schema_row(e));
    lemma_stored_import(xs);
    assert forall|k: int| 0 <= k < xs.len() implies same_export_schema(#[trigger] exported.schemas@[k], xs[k]) by {
        let x = xs[k];
        let e = exported.schemas@[k];
        let f = full[k];
        lemma_views_left_import(xs, k);
        let here = xs.skip(k);
        lemma_all_rows_front(here);
        assert(here[0] == x);
        assert(here.drop_first() =~= xs.skip(k + 1));
        lemma_rows_of_base(x);
        lemma_rows_by_base(rows_of(x), x.id, x.id);
        assert forall|j: int| 0 <= j < xs.skip(k + 1).len() implies #[trigger] xs.skip(k + 1)[j].id != x.id by {
            assert(xs.skip(k + 1)[j] == xs[k + 1 + j]);
        }
        lemma_other_schemas(xs.skip(k + 1), x.id);
        lemma_of_schema_concat(rows_of(x), all_rows(xs.skip(k + 1)), x.id);
        assert(rows_of(x) + Seq::<FullView>::empty() =~= rows_of(x));
        assert(sch[k] == schema_row(x));
        assert(is_full_schema(f, sch[k], rows_of(x)));
        assert(is_exported_schema(e, f));
        assert forall|j: int| 0 <= j < x.views@.len() implies e.views@[j] == x.views@[j] by {
            assert(is_exported_view(e.views@[j], f.views@[j]));
            assert(f.views@[j] == view_row(x.views@[j], x.id));
        }
        assert(e.views@ =~= x.views@);
    }
}

} // verus!
