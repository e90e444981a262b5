//! Common query parameter values.

use vstd::prelude::*;

verus! {

/// Sort direction for list queries.
#[derive(Clone, Copy, Debug, PartialEq, Eq, Structural)]
pub enum Direction {
    Ascending,
    Descending,
}

impl Direction {
    /// The value this direction serializes to in a query string.
    pub open spec fn spec_query_value(self) -> Seq<char> {
        match self {
            Direction::Ascending => "asc"@,
            Direction::Descending => "desc"@,
        }
    }

    /// The value this direction serializes to in a query string.
    pub fn query_value(&self) -> (s: &'static str)
        ensures
            s@ == self.spec_query_value(),
    {
        match self {
            Direction::Ascending => "asc",
            Direction::Descending => "desc",
        }
    }
}

} // verus!
