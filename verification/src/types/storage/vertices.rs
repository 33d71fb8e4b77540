//! Schemas, definitions and views as vertices of a property graph: each is
//! stored as a list of named JSON properties under a vertex type.
use vstd::prelude::*;
use crate::json::{find_member, key_position, member, JsonValue};
use crate::rpc::schema_registry_types::{SchemaType, schema_type_name};
use crate::text::str_eq;
use vstd::view::View as _;

verus! {

/// A schema as a vertex: its name, where its data is inserted and queried,
/// and its type.
pub struct Schema {
    pub name: String,
    pub insert_destination: String,
    pub query_address: String,
    pub schema_type: SchemaType,
}

/// A schema definition as a vertex.
pub struct Definition {
    pub definition: JsonValue,
}

/// A view as a vertex: its name and the JMESPath expression it applies.
pub struct View {
    pub name: String,
    pub jmespath: String,
}

/// The schema type that a JSON value holds, if it holds one.
pub open spec fn schema_type_of_json(v: JsonValue) -> Option<SchemaType> {
    match v {
        JsonValue::String(s) => if s@ == "DOCUMENTSTORAGE"@ {
            Some(SchemaType::DocumentStorage)
        } else if s@ == "TIMESERIES"@ {
            Some(SchemaType::Timeseries)
        } else {
            None
        },
        _ => None,
    }
}

/// The text that a property holds, if the property is there and is a JSON
/// string.
pub open spec fn text_property(props: Seq<(String, JsonValue)>, name: Seq<char>) -> Option<Seq<char>> {
    match member(props, name) {
        Some(JsonValue::String(s)) => Some(s@),
        _ => None,
    }
}

/// The properties under which a view is stored: its name, then its
/// expression.
pub open spec fn view_properties(props: Seq<(String, JsonValue)>, v: View) -> bool {
    &&& props.len() == 2
    &&& props[0].0@ == "VIEW_NAME"@
    &&& props[0].1 == JsonValue::String(v.name)
    &&& props[1].0@ == "JMESPATH"@
    &&& props[1].1 == JsonValue::String(v.jmespath)
}

/// The property under which a definition is stored.
pub open spec fn definition_properties(props: Seq<(String, JsonValue)>, d: Definition) -> bool {
    &&& props.len() == 1
    &&& props[0].0@ == "DEFINITION"@
    &&& props[0].1 == d.definition
}

/// Reading back the properties stored for a view finds its name and its
/// expression, and reading back those of a definition finds the definition.
pub proof fn vertex_properties_read_back(vp: Seq<(String, JsonValue)>, v: View, dp: Seq<(String, JsonValue)>, d: Definition)
    requires
        view_properties(vp, v),
        definition_properties(dp, d),
    ensures
        text_property(vp, "VIEW_NAME"@) == Some(v.name@),
        text_property(vp, "JMESPATH"@) == Some(v.jmespath@),
        member(dp, "DEFINITION"@) == Some(d.definition),
{
    reveal_strlit("VIEW_NAME");
    reveal_strlit("JMESPATH");
    assert("VIEW_NAME"@[0] != "JMESPATH"@[0]);
    assert(vp.drop_first()[0] == vp[1]);
    assert(key_position(vp.drop_first(), "JMESPATH"@) == 0);
}

fn property_index(props: &Vec<(String, JsonValue)>, name: &str) -> (res: Option<usize>)
    ensures
        match res {
            Some(i) => i < props@.len() && member(props@, name@) == Some(props@[i as int].1),
            None => member(props@, name@) is None,
        },
{
    let key = String::from_str(name);
    find_member(props, &key)
}

fn text_of(props: &Vec<(String, JsonValue)>, name: &str) -> (res: Option<String>)
    ensures
        match res {
            Some(s) => text_property(props@, name@) == Some(s@),
            None => text_property(props@, name@) is None,
        },
{
    match property_index(props, name) {
        Some(i) => match &props[i].1 {
            JsonValue::String(s) => Some(s.clone()),
            _ => None,
        },
        None => None,
    }
}

impl Schema {
    /// The name of the vertex type of schemas.
    pub fn db_type() -> (res: String)
        ensures
            res@ == "SCHEMA"@,
    {
        String::from_str("SCHEMA")
    }

    /// The schema as the properties of its vertex. The type is stored by its
    /// variant name.
    pub fn into_properties(self) -> (res: Vec<(String, JsonValue)>)
        ensures
            res@.len() == 4,
            res@[0].0@ == "SCHEMA_NAME"@ && res@[0].1 == JsonValue::String(self.name),
            res@[1].0@ == "SCHEMA_INSERT_DESTINATION"@ && res@[1].1 == JsonValue::String(self.insert_destination),
            res@[2].0@ == "SCHEMA_QUERY_ADDRESS"@ && res@[2].1 == JsonValue::String(self.query_address),
            res@[3].0@ == "SCHEMA_TYPE"@,
            res@[3].1 matches JsonValue::String(t) && t@ == schema_type_name(self.schema_type),
    {
        let t = self.schema_type.name();
        let mut res: Vec<(String, JsonValue)> = Vec::new();
        res.push((String::from_str("SCHEMA_NAME"), JsonValue::String(self.name)));
        res.push((String::from_str("SCHEMA_INSERT_DESTINATION"), JsonValue::String(self.insert_destination)));
        res.push((String::from_str("SCHEMA_QUERY_ADDRESS"), JsonValue::String(self.query_address)));
        res.push((String::from_str("SCHEMA_TYPE"), JsonValue::String(t)));
        res
    }

    /// Reads a schema back from the properties of its vertex: each property
    /// must be there and hold a string, the type in its upper-case JSON form.
    pub fn from_properties(id: u128, props: &Vec<(String, JsonValue)>) -> (res: Option<(u128, Schema)>)
        ensures
            match res {
                Some((i, s)) => {
                    &&& i == id
                    &&& text_property(props@, "SCHEMA_NAME"@) == Some(s.name@)
                    &&& text_property(props@, "SCHEMA_INSERT_DESTINATION"@) == Some(s.insert_destination@)
                    &&& text_property(props@, "SCHEMA_QUERY_ADDRESS"@) == Some(s.query_address@)
                    &&& member(props@, "SCHEMA_TYPE"@) matches Some(v) && schema_type_of_json(v) == Some(s.schema_type)
                },
                None => {
                    ||| text_property(props@, "SCHEMA_NAME"@) is None
                    ||| text_property(props@, "SCHEMA_INSERT_DESTINATION"@) is None
                    ||| text_property(props@, "SCHEMA_QUERY_ADDRESS"@) is None
                    ||| !(member(props@, "SCHEMA_TYPE"@) matches Some(v) && schema_type_of_json(v) is Some)
                },
            },
    {
        let name = match text_of(props, "SCHEMA_NAME") {
            Some(n) => n,
            None => return None,
        };
        let insert_destination = match text_of(props, "SCHEMA_INSERT_DESTINATION") {
            Some(d) => d,
            None => return None,
        };
        let query_address = match text_of(props, "SCHEMA_QUERY_ADDRESS") {
            Some(q) => q,
            None => return None,
        };
        let t = match text_of(props, "SCHEMA_TYPE") {
            Some(t) => t,
            None => return None,
        };
        proof {
            reveal_strlit("DOCUMENTSTORAGE");
            reveal_strlit("TIMESERIES");
        }
        let schema_type = if str_eq(t.as_str(), "DOCUMENTSTORAGE") {
            SchemaType::DocumentStorage
        } else if str_eq(t.as_str(), "TIMESERIES") {
            SchemaType::Timeseries
        } else {
            return None;
        };
        Some((id, Schema { name, insert_destination, query_address, schema_type }))
    }
}

impl Definition {
    /// The name of the vertex type of definitions.
    pub fn db_type() -> (res: String)
        ensures
            res@ == "DEFINITION"@,
    {
        String::from_str("DEFINITION")
    }

    /// The definition as the single property of its vertex.
    pub fn into_properties(self) -> (res: Vec<(String, JsonValue)>)
        ensures
            definition_properties(res@, self),
    {
        let mut res: Vec<(String, JsonValue)> = Vec::new();
        res.push((String::from_str("DEFINITION"), self.definition));
        res
    }

    /// Reads a definition back from the properties of its vertex.
    pub fn from_properties(id: u128, props: Vec<(String, JsonValue)>) -> (res: Option<(u128, Definition)>)
        ensures
            match res {
                Some((i, d)) => i == id && member(props@, "DEFINITION"@) == Some(d.definition),
                None => member(props@, "DEFINITION"@) is None,
            },
    {
        let mut props = props;
        match property_index(&props, "DEFINITION") {
            Some(i) => {
                let (_, definition) = props.remove(i);
                Some((id, Definition { definition }))
            },
            None => None,
        }
    }
}

impl View {
    /// The name of the vertex type of views.
    pub fn db_type() -> (res: String)
        ensures
            res@ == "VIEW"@,
    {
        String::from_str("VIEW")
    }

    /// The view as the properties of its vertex.
    pub fn into_properties(self) -> (res: Vec<(String, JsonValue)>)
        ensures
            view_properties(res@, self),
    {
        let mut res: Vec<(String, JsonValue)> = Vec::new();
        res.push((String::from_str("VIEW_NAME"), JsonValue::String(self.name)));
        res.push((String::from_str("JMESPATH"), JsonValue::String(self.jmespath)));
        res
    }

    /// Reads a view back from the properties of its vertex: both must be
    /// there and hold strings.
    pub fn from_properties(id: u128, props: &Vec<(String, JsonValue)>) -> (res: Option<(u128, View)>)
        ensures
            match res {
                Some((i, v)) => i == id && text_property(props@, "VIEW_NAME"@) == Some(v.name@)
                    && text_property(props@, "JMESPATH"@) == Some(v.jmespath@),
                None => text_property(props@, "VIEW_NAME"@) is None || text_property(props@, "JMESPATH"@) is None,
            },
    {
        let name = match text_of(props, "VIEW_NAME") {
            Some(n) => n,
            None => return None,
        };
        let jmespath = match text_of(props, "JMESPATH") {
            Some(e) => e,
            None => return None,
        };
        Some((id, View { name, jmespath }))
    }
}

} // verus!
