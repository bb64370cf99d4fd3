use crate::handlers::requests::CollectionListOrder;
use vstd::prelude::*;

verus! {

/// The fields that a collection listing may be ordered by.
#[derive(Clone, Copy, Debug, PartialEq, Eq, Structural)]
pub enum CollectionOrderingFields {
    OwnersCount,
    FirstMint,
    Price,
}

/// A request for a listing of collections.
pub struct ListCollectionsParams {
    pub name: Option<String>,
    pub owners: Option<Vec<String>>,
    pub verified: Option<bool>,
    pub collections: Option<Vec<String>>,
    pub limit: Option<usize>,
    pub offset: Option<usize>,
    pub order: Option<CollectionListOrder>,
    pub nft_types: Option<Vec<String>>,
}

} // verus!
