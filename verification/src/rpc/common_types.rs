//! The relation direction and the logic operator as the services use them,
//! with their conversions to and from the wire: the wire number, the
//! wire's own enumeration, the message that carries the number, and the
//! variant name.
use vstd::prelude::*;
use crate::rpc::common;
use crate::rpc::common::{Direction, Operator};
use crate::text::str_eq;

verus! {

/// The direction to search a relation in.
#[derive(Clone, Copy, Debug, PartialEq, Eq, Structural)]
pub enum SearchFor {
    Parents,
    Children,
}

/// The wire number of a relation direction.
pub open spec fn search_for_wire(t: SearchFor) -> i32 {
    match t {
        SearchFor::Parents => 0,
        SearchFor::Children => 1,
    }
}

/// The name of a relation direction.
pub open spec fn search_for_name(t: SearchFor) -> Seq<char> {
    match t {
        SearchFor::Parents => "Parents"@,
        SearchFor::Children => "Children"@,
    }
}

/// The relation direction that has wire number `n`.
pub open spec fn search_for_of_wire(n: i32) -> Option<SearchFor> {
    if n == 0 {
        Some(SearchFor::Parents)
    } else if n == 1 {
        Some(SearchFor::Children)
    } else {
        None
    }
}

/// The relation direction whose name is `s`.
pub open spec fn search_for_of_name(s: Seq<char>) -> Option<SearchFor> {
    if s == "Parents"@ {
        Some(SearchFor::Parents)
    } else if s == "Children"@ {
        Some(SearchFor::Children)
    } else {
        None
    }
}

impl SearchFor {
    /// The protobuf enumeration value (`From<SearchFor> for i32`).
    pub fn wire_value(self) -> (res: i32)
        ensures
            res == search_for_wire(self),
    {
        match self {
            SearchFor::Parents => 0,
            SearchFor::Children => 1,
        }
    }

    /// Reads a relation direction from its protobuf enumeration value (`TryFrom`); any
    /// other number is refused with `"Invalid relation direction"`.
    pub fn try_from_wire(n: i32) -> (res: Result<SearchFor, String>)
        ensures
            match res {
                Ok(t) => search_for_of_wire(n) == Some(t),
                Err(e) => search_for_of_wire(n) is None && e@ == "Invalid relation direction"@,
            },
    {
        if n == 0 {
            Ok(SearchFor::Parents)
        } else if n == 1 {
            Ok(SearchFor::Children)
        } else {
            Err(String::from_str("Invalid relation direction"))
        }
    }

    /// The variant name (`Display`).
    pub fn name(self) -> (res: String)
        ensures
            res@ == search_for_name(self),
    {
        match self {
            SearchFor::Parents => String::from_str("Parents"),
            SearchFor::Children => String::from_str("Children"),
        }
    }

    /// Reads a relation direction from its variant name (`FromStr`); any other text is
    /// refused with `"Invalid relation direction: "` followed by the text.
    pub fn from_name(s: &str) -> (res: Result<SearchFor, String>)
        ensures
            match res {
                Ok(t) => search_for_of_name(s@) == Some(t),
                Err(e) => search_for_of_name(s@) is None && e@ == "Invalid relation direction: "@ + s@,
            },
    {
        if str_eq(s, "Parents") {
            Ok(SearchFor::Parents)
        } else if str_eq(s, "Children") {
            Ok(SearchFor::Children)
        } else {
            let mut e = String::from_str("Invalid relation direction: ");
            e.append(s);
            Err(e)
        }
    }
}

/// Converting a relation direction to its wire number and back gives it back, and so
/// does printing its name and reading it again.
pub proof fn search_for_round_trips(t: SearchFor)
    ensures
        search_for_of_wire(search_for_wire(t)) == Some(t),
        search_for_of_name(search_for_name(t)) == Some(t),
{
    reveal_strlit("Parents");
    reveal_strlit("Children");
    assert("Children"@ != "Parents"@) by {
        assert("Children"@.len() != "Parents"@.len() || "Children"@[0] != "Parents"@[0]);
    }
}

/// A logic operator that combines filters.
#[derive(Clone, Copy, Debug, PartialEq, Eq, Structural)]
pub enum LogicOperator {
    And,
    Or,
}

/// The wire number of a logic operator.
pub open spec fn logic_operator_wire(t: LogicOperator) -> i32 {
    match t {
        LogicOperator::And => 0,
        LogicOperator::Or => 1,
    }
}

/// The name of a logic operator.
pub open spec fn logic_operator_name(t: LogicOperator) -> Seq<char> {
    match t {
        LogicOperator::And => "And"@,
        LogicOperator::Or => "Or"@,
    }
}

/// The logic operator that has wire number `n`.
pub open spec fn logic_operator_of_wire(n: i32) -> Option<LogicOperator> {
    if n == 0 {
        Some(LogicOperator::And)
    } else if n == 1 {
        Some(LogicOperator::Or)
    } else {
        None
    }
}

/// The logic operator whose name is `s`.
pub open spec fn logic_operator_of_name(s: Seq<char>) -> Option<LogicOperator> {
    if s == "And"@ {
        Some(LogicOperator::And)
    } else if s == "Or"@ {
        Some(LogicOperator::Or)
    } else {
        None
    }
}

impl LogicOperator {
    /// The protobuf enumeration value (`From<LogicOperator> for i32`).
    pub fn wire_value(self) -> (res: i32)
        ensures
            res == logic_operator_wire(self),
    {
        match self {
            LogicOperator::And => 0,
            LogicOperator::Or => 1,
        }
    }

    /// Reads a logic operator from its protobuf enumeration value (`TryFrom`); any
    /// other number is refused with `"Invalid logic operator"`.
    pub fn try_from_wire(n: i32) -> (res: Result<LogicOperator, String>)
        ensures
            match res {
                Ok(t) => logic_operator_of_wire(n) == Some(t),
                Err(e) => logic_operator_of_wire(n) is None && e@ == "Invalid logic operator"@,
            },
    {
        if n == 0 {
            Ok(LogicOperator::And)
        } else if n == 1 {
            Ok(LogicOperator::Or)
        } else {
            Err(String::from_str("Invalid logic operator"))
        }
    }

    /// The variant name (`Display`).
    pub fn name(self) -> (res: String)
        ensures
            res@ == logic_operator_name(self),
    {
        match self {
            LogicOperator::And => String::from_str("And"),
            LogicOperator::Or => String::from_str("Or"),
        }
    }

    /// Reads a logic operator from its variant name (`FromStr`); any other text is
    /// refused with `"Invalid logic operator: "` followed by the text.
    pub fn from_name(s: &str) -> (res: Result<LogicOperator, String>)
        ensures
            match res {
                Ok(t) => logic_operator_of_name(s@) == Some(t),
                Err(e) => logic_operator_of_name(s@) is None && e@ == "Invalid logic operator: "@ + s@,
            },
    {
        if str_eq(s, "And") {
            Ok(LogicOperator::And)
        } else if str_eq(s, "Or") {
            Ok(LogicOperator::Or)
        } else {
            let mut e = String::from_str("Invalid logic operator: ");
            e.append(s);
            Err(e)
        }
    }
}

/// Converting a logic operator to its wire number and back gives it back, and so
/// does printing its name and reading it again.
pub proof fn logic_operator_round_trips(t: LogicOperator)
    ensures
        logic_operator_of_wire(logic_operator_wire(t)) == Some(t),
        logic_operator_of_name(logic_operator_name(t)) == Some(t),
{
    reveal_strlit("And");
    reveal_strlit("Or");
    assert("Or"@ != "And"@) by {
        assert("Or"@.len() != "And"@.len() || "Or"@[0] != "And"@[0]);
    }
}

impl SearchFor {
    /// The direction of the wire's enumeration (`From<Direction>`).
    pub fn from_direction(d: Direction) -> (res: SearchFor)
        ensures
            res == (match d {
                Direction::Parents => SearchFor::Parents,
                Direction::Children => SearchFor::Children,
            }),
    {
        match d {
            Direction::Parents => SearchFor::Parents,
            Direction::Children => SearchFor::Children,
        }
    }

    /// The message that carries this direction (`From<SearchFor>` for the
    /// message).
    pub fn to_message(self) -> (res: common::SearchFor)
        ensures
            res.search_for == search_for_wire(self),
    {
        common::SearchFor { search_for: self.wire_value() }
    }

    /// Reads the direction a message carries (`TryFrom` the message).
    pub fn try_from_message(m: &common::SearchFor) -> (res: Result<SearchFor, String>)
        ensures
            match res {
                Ok(t) => search_for_of_wire(m.search_for) == Some(t),
                Err(e) => search_for_of_wire(m.search_for) is None && e@ == "Invalid relation direction"@,
            },
    {
        SearchFor::try_from_wire(m.search_for)
    }
}

impl LogicOperator {
    /// The operator of the wire's enumeration (`From<Operator>`).
    pub fn from_operator(o: Operator) -> (res: LogicOperator)
        ensures
            res == (match o {
                Operator::And => LogicOperator::And,
                Operator::Or => LogicOperator::Or,
            }),
    {
        match o {
            Operator::And => LogicOperator::And,
            Operator::Or => LogicOperator::Or,
        }
    }

    /// The message that carries this operator.
    pub fn to_message(self) -> (res: common::LogicOperator)
        ensures
            res.operator == logic_operator_wire(self),
    {
        common::LogicOperator { operator: self.wire_value() }
    }

    /// Reads the operator a message carries.
    pub fn try_from_message(m: &common::LogicOperator) -> (res: Result<LogicOperator, String>)
        ensures
            match res {
                Ok(t) => logic_operator_of_wire(m.operator) == Some(t),
                Err(e) => logic_operator_of_wire(m.operator) is None && e@ == "Invalid logic operator"@,
            },
    {
        LogicOperator::try_from_wire(m.operator)
    }
}

} // verus!
