//! The enumerations that the schema registry's messages carry: the type of a
//! schema and the scalar types of its fields. Each has a wire number (its
//! protobuf enumeration value), a name (its `Display` text and the text its
//! `FromStr` accepts), a serde name (upper case) and a SQL name (lower case).
use vstd::prelude::*;
use crate::text::str_eq;

verus! {

/// The storage kind of a schema.
#[derive(Clone, Copy, Debug, PartialEq, Eq, Structural)]
pub enum SchemaType {
    DocumentStorage,
    Timeseries,
}

/// The wire number of a schema type.
pub open spec fn schema_type_wire(t: SchemaType) -> i32 {
    match t {
        SchemaType::DocumentStorage => 0,
        SchemaType::Timeseries => 1,
    }
}

/// The name of a schema type.
pub open spec fn schema_type_name(t: SchemaType) -> Seq<char> {
    match t {
        SchemaType::DocumentStorage => "DocumentStorage"@,
        SchemaType::Timeseries => "Timeseries"@,
    }
}

/// The schema type that has wire number `n`.
pub open spec fn schema_type_of_wire(n: i32) -> Option<SchemaType> {
    if n == 0 {
        Some(SchemaType::DocumentStorage)
    } else if n == 1 {
        Some(SchemaType::Timeseries)
    } else {
        None
    }
}

/// The schema type whose name is `s`.
pub open spec fn schema_type_of_name(s: Seq<char>) -> Option<SchemaType> {
    if s == "DocumentStorage"@ {
        Some(SchemaType::DocumentStorage)
    } else if s == "Timeseries"@ {
        Some(SchemaType::Timeseries)
    } else {
        None
    }
}

impl SchemaType {
    /// The protobuf enumeration value (`From<SchemaType> for i32`).
    pub fn wire_value(self) -> (res: i32)
        ensures
            res == schema_type_wire(self),
    {
        match self {
            SchemaType::DocumentStorage => 0,
            SchemaType::Timeseries => 1,
        }
    }

    /// Reads a schema type from its protobuf enumeration value
    /// (`TryFrom<rpc SchemaType>`); any other number is refused with
    /// `"Invalid schema type"`.
    pub fn try_from_wire(n: i32) -> (res: Result<SchemaType, String>)
        ensures
            match res {
                Ok(t) => schema_type_of_wire(n) == Some(t),
                Err(e) => schema_type_of_wire(n) is None && e@ == "Invalid schema type"@,
            },
    {
        if n == 0 {
            Ok(SchemaType::DocumentStorage)
        } else if n == 1 {
            Ok(SchemaType::Timeseries)
        } else {
            Err(String::from_str("Invalid schema type"))
        }
    }

    /// The variant name (`Display`).
    pub fn name(self) -> (res: String)
        ensures
            res@ == schema_type_name(self),
    {
        match self {
            SchemaType::DocumentStorage => String::from_str("DocumentStorage"),
            SchemaType::Timeseries => String::from_str("Timeseries"),
        }
    }

    /// Reads a schema type from its variant name (`FromStr`); any other text
    /// is refused with `"Invalid schema type: "` followed by the text.
    pub fn from_name(s: &str) -> (res: Result<SchemaType, String>)
        ensures
            match res {
                Ok(t) => schema_type_of_name(s@) == Some(t),
                Err(e) => schema_type_of_name(s@) is None && e@ == "Invalid schema type: "@ + s@,
            },
    {
        if str_eq(s, "DocumentStorage") {
            Ok(SchemaType::DocumentStorage)
        } else if str_eq(s, "Timeseries") {
            Ok(SchemaType::Timeseries)
        } else {
            let mut e = String::from_str("Invalid schema type: ");
            e.append(s);
            Err(e)
        }
    }
}

/// Converting a schema type to its wire number and back gives it back, and
/// so does printing its name and reading it again.
pub proof fn schema_type_round_trips(t: SchemaType)
    ensures
        schema_type_of_wire(schema_type_wire(t)) == Some(t),
        schema_type_of_name(schema_type_name(t)) == Some(t),
{
    reveal_strlit("DocumentStorage");
    reveal_strlit("Timeseries");
    assert("DocumentStorage"@[0] != "Timeseries"@[0]);
}

/// The type of a scalar field of a schema.
#[derive(Clone, Copy, Debug, PartialEq, Eq, Structural)]
pub enum ScalarType {
    Bool,
    String,
    Integer,
    Decimal,
    Any,
}

/// The wire number of a scalar type.
pub open spec fn scalar_type_wire(t: ScalarType) -> i32 {
    match t {
        ScalarType::Bool => 0,
        ScalarType::String => 1,
        ScalarType::Integer => 2,
        ScalarType::Decimal => 3,
        ScalarType::Any => 4,
    }
}

/// The name of a scalar type.
pub open spec fn scalar_type_name(t: ScalarType) -> Seq<char> {
    match t {
        ScalarType::Bool => "Bool"@,
        ScalarType::String => "String"@,
        ScalarType::Integer => "Integer"@,
        ScalarType::Decimal => "Decimal"@,
        ScalarType::Any => "Any"@,
    }
}

/// The scalar type that has wire number `n`.
pub open spec fn scalar_type_of_wire(n: i32) -> Option<ScalarType> {
    if n == 0 {
        Some(ScalarType::Bool)
    } else if n == 1 {
        Some(ScalarType::String)
    } else if n == 2 {
        Some(ScalarType::Integer)
    } else if n == 3 {
        Some(ScalarType::Decimal)
    } else if n == 4 {
        Some(ScalarType::Any)
    } else {
        None
    }
}

/// The scalar type whose name is `s`.
pub open spec fn scalar_type_of_name(s: Seq<char>) -> Option<ScalarType> {
    if s == "Bool"@ {
        Some(ScalarType::Bool)
    } else if s == "String"@ {
        Some(ScalarType::String)
    } else if s == "Integer"@ {
        Some(ScalarType::Integer)
    } else if s == "Decimal"@ {
        Some(ScalarType::Decimal)
    } else if s == "Any"@ {
        Some(ScalarType::Any)
    } else {
        None
    }
}

impl ScalarType {
    /// The protobuf enumeration value (`From<ScalarType> for i32`).
    pub fn wire_value(self) -> (res: i32)
        ensures
            res == scalar_type_wire(self),
    {
        match self {
            ScalarType::Bool => 0,
            ScalarType::String => 1,
            ScalarType::Integer => 2,
            ScalarType::Decimal => 3,
            ScalarType::Any => 4,
        }
    }

    /// Reads a scalar type from its protobuf enumeration value (`TryFrom`); any
    /// other number is refused with `"Invalid scalar type"`.
    pub fn try_from_wire(n: i32) -> (res: Result<ScalarType, String>)
        ensures
            match res {
                Ok(t) => scalar_type_of_wire(n) == Some(t),
                Err(e) => scalar_type_of_wire(n) is None && e@ == "Invalid scalar type"@,
            },
    {
        if n == 0 {
            Ok(ScalarType::Bool)
        } else if n == 1 {
            Ok(ScalarType::String)
        } else if n == 2 {
            Ok(ScalarType::Integer)
        } else if n == 3 {
            Ok(ScalarType::Decimal)
        } else if n == 4 {
            Ok(ScalarType::Any)
        } else {
            Err(String::from_str("Invalid scalar type"))
        }
    }

    /// The variant name (`Display`).
    pub fn name(self) -> (res: String)
        ensures
            res@ == scalar_type_name(self),
    {
        match self {
            ScalarType::Bool => String::from_str("Bool"),
            ScalarType::String => String::from_str("String"),
            ScalarType::Integer => String::from_str("Integer"),
            ScalarType::Decimal => String::from_str("Decimal"),
            ScalarType::Any => String::from_str("Any"),
        }
    }

    /// Reads a scalar type from its variant name (`FromStr`); any other text is
    /// refused with `"Invalid scalar type: "` followed by the text.
    pub fn from_name(s: &str) -> (res: Result<ScalarType, String>)
        ensures
            match res {
                Ok(t) => scalar_type_of_name(s@) == Some(t),
                Err(e) => scalar_type_of_name(s@) is None && e@ == "Invalid scalar type: "@ + s@,
            },
    {
        if str_eq(s, "Bool") {
            Ok(ScalarType::Bool)
        } else if str_eq(s, "String") {
            Ok(ScalarType::String)
        } else if str_eq(s, "Integer") {
            Ok(ScalarType::Integer)
        } else if str_eq(s, "Decimal") {
            Ok(ScalarType::Decimal)
        } else if str_eq(s, "Any") {
            Ok(ScalarType::Any)
        } else {
            let mut e = String::from_str("Invalid scalar type: ");
            e.append(s);
            Err(e)
        }
    }
}

/// Converting a scalar type to its wire number and back gives it back, and so
/// does printing its name and reading it again.
pub proof fn scalar_type_round_trips(t: ScalarType)
    ensures
        scalar_type_of_wire(scalar_type_wire(t)) == Some(t),
        scalar_type_of_name(scalar_type_name(t)) == Some(t),
{
    reveal_strlit("Bool");
    reveal_strlit("String");
    reveal_strlit("Integer");
    reveal_strlit("Decimal");
    reveal_strlit("Any");
    assert("String"@ != "Bool"@) by {
        assert("String"@.len() != "Bool"@.len() || "String"@[0] != "Bool"@[0]);
    }
    assert("Integer"@ != "Bool"@) by {
        assert("Integer"@.len() != "Bool"@.len() || "Integer"@[0] != "Bool"@[0]);
    }
    assert("Integer"@ != "String"@) by {
        assert("Integer"@.len() != "String"@.len() || "Integer"@[0] != "String"@[0]);
    }
    assert("Decimal"@ != "Bool"@) by {
        assert("Decimal"@.len() != "Bool"@.len() || "Decimal"@[0] != "Bool"@[0]);
    }
    assert("Decimal"@ != "String"@) by {
        assert("Decimal"@.len() != "String"@.len() || "Decimal"@[0] != "String"@[0]);
    }
    assert("Decimal"@ != "Integer"@) by {
        assert("Decimal"@.len() != "Integer"@.len() || "Decimal"@[0] != "Integer"@[0]);
    }
    assert("Any"@ != "Bool"@) by {
        assert("Any"@.len() != "Bool"@.len() || "Any"@[0] != "Bool"@[0]);
    }
    assert("Any"@ != "String"@) by {
        assert("Any"@.len() != "String"@.len() || "Any"@[0] != "String"@[0]);
    }
    assert("Any"@ != "Integer"@) by {
        assert("Any"@.len() != "Integer"@.len() || "Any"@[0] != "Integer"@[0]);
    }
    assert("Any"@ != "Decimal"@) by {
        assert("Any"@.len() != "Decimal"@.len() || "Any"@[0] != "Decimal"@[0]);
    }
}

} // verus!
