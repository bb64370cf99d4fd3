use crate::db::query_params::{ListOrdering, OrderDirection};
use crate::db::Address;
use crate::handlers::requests;
use crate::handlers::requests::collections::CollectionOrderingFields as RequestedField;
use vstd::prelude::*;

verus! {

/// The columns that collection listings may be ordered by.
#[derive(Clone, Copy, Debug, PartialEq, Eq, Structural)]
pub enum CollectionOrderingFields {
    OwnersCount,
    FirstMint,
    FloorPriceUsd,
}

impl CollectionOrderingFields {
    /// The column name.
    pub open spec fn name_of(self) -> Seq<char> {
        match self {
            CollectionOrderingFields::OwnersCount => "owners_count"@,
            CollectionOrderingFields::FirstMint => "first_mint"@,
            CollectionOrderingFields::FloorPriceUsd => "floor_price_usd"@,
        }
    }

    /// The column name.
    pub fn name(&self) -> (res: &'static str)
        ensures
            res@ == self.name_of(),
    {
        match self {
            CollectionOrderingFields::OwnersCount => "owners_count",
            CollectionOrderingFields::FirstMint => "first_mint",
            CollectionOrderingFields::FloorPriceUsd => "floor_price_usd",
        }
    }

    /// The column for a requested field: ordering by price means by USD floor price.
    pub open spec fn of_request(f: RequestedField) -> CollectionOrderingFields {
        match f {
            RequestedField::OwnersCount => CollectionOrderingFields::OwnersCount,
            RequestedField::FirstMint => CollectionOrderingFields::FirstMint,
            RequestedField::Price => CollectionOrderingFields::FloorPriceUsd,
        }
    }
}

impl From<RequestedField> for CollectionOrderingFields {
    fn from(value: RequestedField) -> (res: CollectionOrderingFields) {
        match value {
            RequestedField::OwnersCount => CollectionOrderingFields::OwnersCount,
            RequestedField::FirstMint => CollectionOrderingFields::FirstMint,
            RequestedField::Price => CollectionOrderingFields::FloorPriceUsd,
        }
    }
}

impl vstd::std_specs::convert::FromSpecImpl<RequestedField> for CollectionOrderingFields {
    open spec fn obeys_from_spec() -> bool {
        true
    }

    open spec fn from_spec(v: RequestedField) -> CollectionOrderingFields {
        CollectionOrderingFields::of_request(v)
    }
}

impl ListOrdering<CollectionOrderingFields> {
    /// The ordering for a requested collection ordering.
    pub fn from_request(value: requests::ListOrdering<RequestedField>) -> (res: ListOrdering<CollectionOrderingFields>)
        ensures
            res.direction == OrderDirection::of_request(value.direction),
            res.field == CollectionOrderingFields::of_request(value.field),
    {
        ListOrdering { direction: OrderDirection::from(value.direction), field: CollectionOrderingFields::from(value.field) }
    }
}

/// A requested collection ordering is kept: the field orders by the column of the same
/// meaning (the price by the floor price in USD), different fields by different columns, and
/// the direction reads in SQL as the request names it.
pub proof fn lemma_collection_ordering_as_requested(f: RequestedField, g: RequestedField, d: requests::OrderDirection)
    ensures
        f == RequestedField::OwnersCount ==> CollectionOrderingFields::of_request(f).name_of() == "owners_count"@,
        f == RequestedField::FirstMint ==> CollectionOrderingFields::of_request(f).name_of() == "first_mint"@,
        f == RequestedField::Price ==> CollectionOrderingFields::of_request(f).name_of() == "floor_price_usd"@,
        f != g ==> CollectionOrderingFields::of_request(f).name_of() != CollectionOrderingFields::of_request(g).name_of(),
        OrderDirection::of_request(d).name_of() == d.name_of(),
{
    reveal_strlit("owners_count");
    reveal_strlit("first_mint");
    reveal_strlit("floor_price_usd");
    assert("owners_count"@.len() == 12 && "first_mint"@.len() == 10 && "floor_price_usd"@.len() == 15);
    match f {
        RequestedField::OwnersCount => {},
        RequestedField::FirstMint => {},
        RequestedField::Price => {},
    }
    match g {
        RequestedField::OwnersCount => {},
        RequestedField::FirstMint => {},
        RequestedField::Price => {},
    }
}

/// The filters, page and ordering of a collection listing.
pub struct CollectionsListParams {
    pub name: Option<String>,
    pub owners: Vec<String>,
    pub verified: Option<bool>,
    pub collections: Vec<Address>,
    pub limit: usize,
    pub offset: usize,
    pub order: Option<ListOrdering<CollectionOrderingFields>>,
    pub nft_type: Option<Vec<String>>,
}

} // verus!
