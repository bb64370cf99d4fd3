pub mod collection;
pub mod nft;

use crate::handlers::requests;
use vstd::prelude::*;

verus! {

/// Direction of an ordering as the queries write it.
#[derive(Clone, Copy, Debug, PartialEq, Eq, Structural)]
pub enum OrderDirection {
    Asc,
    Desc,
}

impl OrderDirection {
    /// The keyword of the direction in SQL.
    pub open spec fn name_of(self) -> Seq<char> {
        match self {
            OrderDirection::Asc => "asc"@,
            OrderDirection::Desc => "desc"@,
        }
    }

    /// The keyword of the direction in SQL.
    pub fn name(&self) -> (res: &'static str)
        ensures
            res@ == self.name_of(),
    {
        match self {
            OrderDirection::Asc => "asc",
            OrderDirection::Desc => "desc",
        }
    }

    /// The direction that a request asks for.
    pub open spec fn of_request(d: requests::OrderDirection) -> OrderDirection {
        match d {
            requests::OrderDirection::Asc => OrderDirection::Asc,
            requests::OrderDirection::Desc => OrderDirection::Desc,
        }
    }
}

impl From<requests::OrderDirection> for OrderDirection {
    fn from(value: requests::OrderDirection) -> (res: OrderDirection) {
        match value {
            requests::OrderDirection::Asc => OrderDirection::Asc,
            requests::OrderDirection::Desc => OrderDirection::Desc,
        }
    }
}

impl vstd::std_specs::convert::FromSpecImpl<requests::OrderDirection> for OrderDirection {
    open spec fn obeys_from_spec() -> bool {
        true
    }

    open spec fn from_spec(v: requests::OrderDirection) -> OrderDirection {
        OrderDirection::of_request(v)
    }
}

/// The direction given to a query is the one requested: it reads in SQL as the request names
/// it (ascending stays `asc`, descending stays `desc`), and two different requests never give
/// the same direction.
pub proof fn lemma_direction_as_requested(d: requests::OrderDirection, e: requests::OrderDirection)
    ensures
        OrderDirection::of_request(d).name_of() == d.name_of(),
        d != e ==> OrderDirection::of_request(d) != OrderDirection::of_request(e),
        d == requests::OrderDirection::Asc ==> OrderDirection::of_request(d).name_of() == "asc"@,
        d == requests::OrderDirection::Desc ==> OrderDirection::of_request(d).name_of() == "desc"@,
{
    reveal_strlit("asc");
    reveal_strlit("desc");
}

/// An ordering as the queries take it: a field and a direction.
pub struct ListOrdering<T> {
    pub direction: OrderDirection,
    pub field: T,
}

} // verus!
