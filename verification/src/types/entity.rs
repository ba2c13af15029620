//! Knowledge-graph edge direction.

use vstd::prelude::*;
use crate::text::{str_eq, to_lowercase, unicode_lowercase};

verus! {

/// Which edges of a node to follow.
#[derive(Clone, Copy, Debug, PartialEq, Eq, Structural)]
pub enum Direction {
    Outgoing,
    Incoming,
    Both,
}

impl Default for Direction {
    fn default() -> (r: Self)
        ensures
            r == Direction::Outgoing,
    {
        Direction::Outgoing
    }
}

/// The direction a name denotes after lower-casing; unknown names give `Outgoing`.
pub open spec fn direction_named(lower: Seq<char>) -> Direction {
    if lower == "incoming"@ || lower == "in"@ {
        Direction::Incoming
    } else if lower == "both"@ {
        Direction::Both
    } else {
        Direction::Outgoing
    }
}

impl Direction {
    /// Reads a direction case-insensitively (`out`/`outgoing`, `in`/`incoming`,
    /// `both`); any other text reads as `Outgoing`.
    pub fn parse_name(s: &str) -> (r: Direction)
        ensures
            r == direction_named(unicode_lowercase(s@)),
    {
        let lower = to_lowercase(s);
        let l = lower.as_str();
        if str_eq(l, "incoming") || str_eq(l, "in") {
            Direction::Incoming
        } else if str_eq(l, "both") {
            Direction::Both
        } else {
            Direction::Outgoing
        }
    }

    /// The stored (lower-case) name.
    pub fn as_str(&self) -> (r: &'static str)
        ensures
            r@ == match self {
                Direction::Outgoing => "outgoing"@,
                Direction::Incoming => "incoming"@,
                Direction::Both => "both"@,
            },
    {
        match self {
            Direction::Outgoing => "outgoing",
            Direction::Incoming => "incoming",
            Direction::Both => "both",
        }
    }
}

impl std::str::FromStr for Direction {
    type Err = ();

    fn from_str(s: &str) -> (r: Result<Self, Self::Err>)
        ensures
            r == Ok::<Direction, ()>(direction_named(unicode_lowercase(s@))),
    {
        Ok(Direction::parse_name(s))
    }
}

} // verus!
