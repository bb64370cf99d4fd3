//! Requests about collections, and what the service makes of them.
use crate::db::decimal::{bigdecimal_from_integer, Decimal};
use crate::db::query_params::collection::{CollectionOrderingFields, CollectionsListParams};
use crate::db::query_params::ListOrdering;
use crate::db::types::{NftCollection, NftCollectionDetails, NftCollectionSimple};
use crate::db::{copy_text, copy_texts, Address};
use crate::handlers::events::or_none;
use crate::handlers::requests::collections::ListCollectionsParams;
use crate::handlers::requests;
use crate::handlers::requests::Period;
use crate::instants::{chrono_instant_in_range, optional_instant};
use crate::model::{Collection, CollectionDetails, CollectionSimple, VecWithTotal};
use crate::token::TokenDict;
use crate::keyed::{index_by_key, keyed_map, unique_keys};
use vstd::prelude::*;

verus! {

/// A request for one collection.
pub struct CollectionParam {
    pub collection: Address,
}

/// A request for the short listing of collections.
pub struct ListCollectionsSimpleParams {
    pub name: Option<String>,
    pub verified: Option<bool>,
    pub limit: Option<usize>,
    pub offset: Option<usize>,
}

/// A request for the collections of an owner.
pub struct OwnerParam {
    pub owner: Address,
    pub limit: Option<usize>,
    pub offset: Option<usize>,
}

/// A request for the valuation of collections, with the mint price of some of them and the
/// period to look at.
pub struct ListCollectionsEvaluationParams {
    pub addresses: Vec<String>,
    pub mint_prices: Option<Vec<(String, Option<Decimal>)>>,
    pub period: Option<Period>,
}

/// The filters of a collection listing: verified collections only where not said otherwise,
/// the first 100 where no page is given, no other filter where none is given.
pub fn collections_list_params(params: &ListCollectionsParams) -> (res: CollectionsListParams)
    ensures
        res.name == params.name,
        res.owners@ == or_none(params.owners),
        res.verified == Some(params.verified != Some(false)),
        res.collections@ == or_none(params.collections),
        res.limit == (match params.limit {
            Some(l) => l,
            None => 100,
        }),
        res.offset == (match params.offset {
            Some(o) => o,
            None => 0,
        }),
        match params.order {
            Some(o) => res.order matches Some(r) && r.field == CollectionOrderingFields::of_request(o.field)
                && r.direction == crate::db::query_params::OrderDirection::of_request(o.direction),
            None => res.order is None,
        },
        match params.nft_types {
            Some(t) => res.nft_type matches Some(r) && r@ == t@,
            None => res.nft_type is None,
        },
{
    CollectionsListParams {
        name: copy_text(&params.name),
        owners: match &params.owners {
            Some(o) => copy_texts(o),
            None => Vec::new(),
        },
        verified: Some(match params.verified {
            Some(v) => v,
            None => true,
        }),
        collections: match &params.collections {
            Some(c) => copy_texts(c),
            None => Vec::new(),
        },
        limit: match params.limit {
            Some(l) => l,
            None => 100,
        },
        offset: match params.offset {
            Some(o) => o,
            None => 0,
        },
        order: match &params.order {
            Some(o) => Some(ListOrdering::from_request(requests::ListOrdering { direction: o.direction, field: o.field })),
            None => None,
        },
        nft_type: match &params.nft_types {
            Some(t) => Some(copy_texts(t)),
            None => None,
        },
    }
}

/// A page of collections with their statistics: the total the first row reports (0 for
/// none), and every row as the API shows it.
pub fn collections_page(list: &Vec<NftCollectionDetails>, tokens: &TokenDict) -> (res: VecWithTotal<CollectionDetails>)
    ensures
        res.count == (if list@.len() == 0 { 0 } else { list@[0].cnt }),
        res.items@.len() == list@.len(),
        forall|i: int| 0 <= i < list@.len() ==> (#[trigger] res.items@[i]).shows(list@[i]),
{
    let mut items: Vec<CollectionDetails> = Vec::new();
    for i in 0..list.len()
        invariant
            items@.len() == i,
            forall|j: int| 0 <= j < i ==> (#[trigger] items@[j]).shows(list@[j]),
    {
        items.push(CollectionDetails::from_db(&list[i], tokens));
    }
    let count = if list.len() == 0 { 0 } else { list[0].cnt };
    VecWithTotal { count, items }
}

/// A page of the short listing: the total the first row reports (0 for none), and every row
/// as the listing shows it.
pub fn collections_simple_page(list: &Vec<NftCollectionSimple>) -> (res: VecWithTotal<CollectionSimple>)
    ensures
        res.count == (if list@.len() == 0 { 0 } else { list@[0].cnt }),
        res.items@.len() == list@.len(),
        forall|i: int| 0 <= i < list@.len() ==> (#[trigger] res.items@[i]).shows(list@[i]),
{
    let mut items: Vec<CollectionSimple> = Vec::new();
    for i in 0..list.len()
        invariant
            items@.len() == i,
            forall|j: int| 0 <= j < i ==> (#[trigger] items@[j]).shows(list@[j]),
    {
        items.push(CollectionSimple::from_db(&list[i]));
    }
    let count = if list.len() == 0 { 0 } else { list[0].cnt };
    VecWithTotal { count, items }
}

/// A page of the collections of an owner: the total the first row reports (0 for none), and
/// every row as the API shows it.
pub fn owner_collections_page(list: &Vec<NftCollection>, tokens: &TokenDict) -> (res: VecWithTotal<Collection>)
    ensures
        res.count == (if list@.len() == 0 { 0 } else { list@[0].cnt }),
        res.items@.len() == list@.len(),
        forall|i: int| 0 <= i < list@.len() ==> (#[trigger] res.items@[i]).shows(list@[i]),
{
    let mut items: Vec<Collection> = Vec::new();
    for i in 0..list.len()
        invariant
            items@.len() == i,
            forall|j: int| 0 <= j < i ==> (#[trigger] items@[j]).shows(list@[j]),
    {
        items.push(Collection::from_db(&list[i], tokens));
    }
    let count = if list.len() == 0 { 0 } else { list[0].cnt };
    VecWithTotal { count, items }
}

/// The query for the short listing: verified collections only where not said otherwise, the
/// first 100 where no page is given.
pub struct SimpleListing {
    pub name: Option<String>,
    pub verified: Option<bool>,
    pub limit: usize,
    pub offset: usize,
}

/// The query for the short listing.
pub fn simple_listing(params: &ListCollectionsSimpleParams) -> (res: SimpleListing)
    ensures
        res.name == params.name,
        res.verified == Some(params.verified != Some(false)),
        res.limit == (match params.limit {
            Some(l) => l,
            None => 100,
        }),
        res.offset == (match params.offset {
            Some(o) => o,
            None => 0,
        }),
{
    SimpleListing {
        name: copy_text(&params.name),
        verified: Some(match params.verified {
            Some(v) => v,
            None => true,
        }),
        limit: match params.limit {
            Some(l) => l,
            None => 100,
        },
        offset: match params.offset {
            Some(o) => o,
            None => 0,
        },
    }
}

/// The query for a valuation: the collections, each mint price given (zero where a price is
/// given as none), and the period's ends where given and within the calendar.
pub struct EvaluationRequest {
    pub addresses: Vec<String>,
    pub mint_prices: Vec<(String, Decimal)>,
    pub from: Option<i64>,
    pub to: Option<i64>,
}

/// A mint price, zero where none is given.
pub open spec fn price_or_zero(p: Option<Decimal>) -> (Seq<u8>, i64) {
    match p {
        Some(d) => d.parts(),
        None => bigdecimal_from_integer(0),
    }
}

/// The query for a valuation.
pub fn evaluation_request(params: &ListCollectionsEvaluationParams) -> (res: EvaluationRequest)
    ensures
        res.addresses@ == params.addresses@,
        res.mint_prices@.len() == (match params.mint_prices {
            Some(m) => m@.len(),
            None => 0,
        }),
        params.mint_prices matches Some(m) ==> forall|i: int| 0 <= i < m@.len() ==> {
            &&& (#[trigger] res.mint_prices@[i]).0 == m@[i].0
            &&& res.mint_prices@[i].1.parts() == price_or_zero(m@[i].1)
        },
        res.from == (match params.period {
            Some(p) => match p.from {
                Some(t) => if chrono_instant_in_range(t) { Some(t) } else { None::<i64> },
                None => None::<i64>,
            },
            None => None::<i64>,
        }),
        res.to == (match params.period {
            Some(p) => match p.to {
                Some(t) => if chrono_instant_in_range(t) { Some(t) } else { None::<i64> },
                None => None::<i64>,
            },
            None => None::<i64>,
        }),
{
    let mut mint_prices: Vec<(String, Decimal)> = Vec::new();
    match &params.mint_prices {
        Some(m) => {
            for i in 0..m.len()
                invariant
                    mint_prices@.len() == i,
                    forall|j: int| 0 <= j < i ==> {
                        &&& (#[trigger] mint_prices@[j]).0 == m@[j].0
                        &&& mint_prices@[j].1.parts() == price_or_zero(m@[j].1)
                    },
            {
                let price = match &m[i].1 {
                    Some(d) => d.copy(),
                    None => Decimal::zero(),
                };
                mint_prices.push((m[i].0.clone(), price));
            }
        },
        None => {},
    }
    let (from, to) = match &params.period {
        Some(p) => (optional_instant(p.from), optional_instant(p.to)),
        None => (None, None),
    };
    EvaluationRequest { addresses: copy_texts(&params.addresses), mint_prices, from, to }
}


/// The collections by address, each address once with the last collection that has it.
pub fn collections_by_address(items: Vec<Collection>) -> (res: Vec<(String, Collection)>)
    ensures
        unique_keys(res@),
        keyed_map(res@) == keyed_map(items@.map_values(|x: Collection| (x.contract.address, x))),
{
    let ghost all = items@;
    let mut pairs: Vec<(String, Collection)> = Vec::new();
    for item in it: items
        invariant
            it.seq() == all,
            pairs@ == all.take(it.index() as int).map_values(|x: Collection| (x.contract.address, x)),
    {
        let ghost idx = it.index() as int;
        let key = item.contract.address.clone();
        pairs.push((key, item));
        proof {
            assert(pairs@ =~= all.take(idx + 1).map_values(|x: Collection| (x.contract.address, x)));
        }
    }
    proof {
        assert(all.take(all.len() as int) =~= all);
    }
    index_by_key(pairs)
}

} // verus!
