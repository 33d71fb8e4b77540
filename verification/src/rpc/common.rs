//! Messages shared by the services: rows of a materialized view, the
//! objects a row is made of, relations between schemas, and the
//! enumerations of relation direction and logic operator as the wire
//! carries them.
use vstd::prelude::*;

verus! {

/// A row of a materialized view: the objects it was built from and its
/// field values (field name, value).
pub struct RowDefinition {
    pub objects: Vec<Object>,
    pub fields: Vec<(String, String)>,
}

/// An object, by its id and the id of its schema.
pub struct Object {
    pub object_id: String,
    pub schema_id: String,
}

/// A relation that a view follows: the relation's global id, its local id
/// within the view, the direction to search in, and the relations nested
/// under it.
pub struct Relation {
    pub global_id: String,
    pub local_id: u32,
    pub search_for: SearchFor,
    pub relations: Vec<Relation>,
}

/// A logic operator as the wire carries it: its enumeration value.
pub struct LogicOperator {
    pub operator: i32,
}

/// The logic operators of the wire (`logic_operator::Operator`).
#[derive(Clone, Copy, Debug, PartialEq, Eq, Structural)]
pub enum Operator {
    And,
    Or,
}

/// A relation direction as the wire carries it: its enumeration value.
pub struct SearchFor {
    pub search_for: i32,
}

/// The relation directions of the wire (`search_for::Direction`).
#[derive(Clone, Copy, Debug, PartialEq, Eq, Structural)]
pub enum Direction {
    Parents,
    Children,
}

impl Operator {
    /// The enumeration value: `And` is 0, `Or` is 1.
    pub fn wire_value(self) -> (res: i32)
        ensures
            res == (match self {
                Operator::And => 0i32,
                Operator::Or => 1i32,
            }),
    {
        match self {
            Operator::And => 0,
            Operator::Or => 1,
        }
    }
}

impl Direction {
    /// The enumeration value: `Parents` is 0, `Children` is 1.
    pub fn wire_value(self) -> (res: i32)
        ensures
            res == (match self {
                Direction::Parents => 0i32,
                Direction::Children => 1i32,
            }),
    {
        match self {
            Direction::Parents => 0,
            Direction::Children => 1,
        }
    }
}

} // verus!
