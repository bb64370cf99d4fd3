pub mod collections;
pub mod metadata;

use vstd::prelude::*;

verus! {

/// Direction of a requested ordering.
#[derive(Clone, Copy, Debug, PartialEq, Eq, Structural)]
pub enum OrderDirection {
    Asc,
    Desc,
}

impl OrderDirection {
    /// The name of the direction as SQL writes it.
    pub open spec fn name_of(self) -> Seq<char> {
        match self {
            OrderDirection::Asc => "asc"@,
            OrderDirection::Desc => "desc"@,
        }
    }

    /// The name of the direction as SQL writes it.
    pub fn name(&self) -> (res: &'static str)
        ensures
            res@ == self.name_of(),
    {
        match self {
            OrderDirection::Asc => "asc",
            OrderDirection::Desc => "desc",
        }
    }
}

/// A requested ordering: a field and a direction.
pub struct ListOrdering<T> {
    pub direction: OrderDirection,
    pub field: T,
}

/// The ordering of collection listings that a request may ask for.
pub type CollectionListOrder = ListOrdering<collections::CollectionOrderingFields>;

/// An optional interval.
pub struct FromTo<T> {
    pub from: Option<T>,
    pub to: Option<T>,
}

/// An interval of instants, in seconds since the Unix epoch.
pub type Period = FromTo<i64>;

} // verus!
