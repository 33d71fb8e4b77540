//! The side of a simple filter of the edge registry, with its conversions
//! to and from the wire number and its variant name.
use vstd::prelude::*;
use crate::text::str_eq;

verus! {

/// The side of an edge that a simple filter matches object ids on.
#[derive(Clone, Copy, Debug, PartialEq, Eq, Structural)]
pub enum SimpleFilterSide {
    InParentObjIds,
    InChildObjIds,
}

/// The wire number of a simple filter side.
pub open spec fn simple_filter_side_wire(t: SimpleFilterSide) -> i32 {
    match t {
        SimpleFilterSide::InParentObjIds => 0,
        SimpleFilterSide::InChildObjIds => 1,
    }
}

/// The name of a simple filter side.
pub open spec fn simple_filter_side_name(t: SimpleFilterSide) -> Seq<char> {
    match t {
        SimpleFilterSide::InParentObjIds => "InParentObjIds"@,
        SimpleFilterSide::InChildObjIds => "InChildObjIds"@,
    }
}

/// The simple filter side that has wire number `n`.
pub open spec fn simple_filter_side_of_wire(n: i32) -> Option<SimpleFilterSide> {
    if n == 0 {
        Some(SimpleFilterSide::InParentObjIds)
    } else if n == 1 {
        Some(SimpleFilterSide::InChildObjIds)
    } else {
        None
    }
}

/// The simple filter side whose name is `s`.
pub open spec fn simple_filter_side_of_name(s: Seq<char>) -> Option<SimpleFilterSide> {
    if s == "InParentObjIds"@ {
        Some(SimpleFilterSide::InParentObjIds)
    } else if s == "InChildObjIds"@ {
        Some(SimpleFilterSide::InChildObjIds)
    } else {
        None
    }
}

impl SimpleFilterSide {
    /// The protobuf enumeration value (`From<SimpleFilterSide> for i32`).
    pub fn wire_value(self) -> (res: i32)
        ensures
            res == simple_filter_side_wire(self),
    {
        match self {
            SimpleFilterSide::InParentObjIds => 0,
            SimpleFilterSide::InChildObjIds => 1,
        }
    }

    /// Reads a simple filter side from its protobuf enumeration value (`TryFrom`); any
    /// other number is refused with `"Invalid simple filter side"`.
    pub fn try_from_wire(n: i32) -> (res: Result<SimpleFilterSide, String>)
        ensures
            match res {
                Ok(t) => simple_filter_side_of_wire(n) == Some(t),
                Err(e) => simple_filter_side_of_wire(n) is None && e@ == "Invalid simple filter side"@,
            },
    {
        if n == 0 {
            Ok(SimpleFilterSide::InParentObjIds)
        } else if n == 1 {
            Ok(SimpleFilterSide::InChildObjIds)
        } else {
            Err(String::from_str("Invalid simple filter side"))
        }
    }

    /// The variant name (`Display`).
    pub fn name(self) -> (res: String)
        ensures
            res@ == simple_filter_side_name(self),
    {
        match self {
            SimpleFilterSide::InParentObjIds => String::from_str("InParentObjIds"),
            SimpleFilterSide::InChildObjIds => String::from_str("InChildObjIds"),
        }
    }

    /// Reads a simple filter side from its variant name (`FromStr`); any other text is
    /// refused with `"Invalid simple filter side: "` followed by the text.
    pub fn from_name(s: &str) -> (res: Result<SimpleFilterSide, String>)
        ensures
            match res {
                Ok(t) => simple_filter_side_of_name(s@) == Some(t),
                Err(e) => simple_filter_side_of_name(s@) is None && e@ == "Invalid simple filter side: "@ + s@,
            },
    {
        if str_eq(s, "InParentObjIds") {
            Ok(SimpleFilterSide::InParentObjIds)
        } else if str_eq(s, "InChildObjIds") {
            Ok(SimpleFilterSide::InChildObjIds)
        } else {
            let mut e = String::from_str("Invalid simple filter side: ");
            e.append(s);
            Err(e)
        }
    }
}

/// Converting a simple filter side to its wire number and back gives it back, and so
/// does printing its name and reading it again.
pub proof fn simple_filter_side_round_trips(t: SimpleFilterSide)
    ensures
        simple_filter_side_of_wire(simple_filter_side_wire(t)) == Some(t),
        simple_filter_side_of_name(simple_filter_side_name(t)) == Some(t),
{
    reveal_strlit("InParentObjIds");
    reveal_strlit("InChildObjIds");
    assert("InChildObjIds"@ != "InParentObjIds"@) by {
        assert("InChildObjIds"@.len() != "InParentObjIds"@.len() || "InChildObjIds"@[0] != "InParentObjIds"@[0]);
    }
}

} // verus!
