//! The shapes of some answers as the API documentation names them.
use crate::model::{CollectionDetails, CollectionSimple, VecWithTotal};
use vstd::prelude::*;

verus! {

/// A blockchain address as the documentation shows it.
pub struct Address(pub String);

/// A page of collections with their statistics, and the total.
pub struct VecCollectionsWithTotal {
    pub count: i64,
    pub items: Vec<CollectionDetails>,
}

/// A page of the short listing of collections, and the total.
pub struct VecCollectionSimpleWithTotal {
    pub count: i64,
    pub items: Vec<CollectionSimple>,
}

impl VecCollectionsWithTotal {
    /// The documented shape of a page of collections.
    pub fn from_page(page: VecWithTotal<CollectionDetails>) -> (res: VecCollectionsWithTotal)
        ensures
            res.count == page.count,
            res.items@ == page.items@,
    {
        VecCollectionsWithTotal { count: page.count, items: page.items }
    }
}

impl VecCollectionSimpleWithTotal {
    /// The documented shape of a page of the short listing.
    pub fn from_page(page: VecWithTotal<CollectionSimple>) -> (res: VecCollectionSimpleWithTotal)
        ensures
            res.count == page.count,
            res.items@ == page.items@,
    {
        VecCollectionSimpleWithTotal { count: page.count, items: page.items }
    }
}

} // verus!
