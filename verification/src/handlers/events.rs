//! Requests for the activity feed and for the search, and what the service makes of them.
use crate::db::types::SearchResult as SearchRow;
use crate::db::{copy_text, copy_texts};
use crate::model::SearchResult;
use crate::paging::{fetch_limit, fetch_limit_of};
use vstd::prelude::*;

verus! {

/// A request for events: of an owner, of collections, of one NFT, of some kinds (by the names
/// of the kinds), a page of them, with or without their total.
pub struct EventsQuery {
    pub owner: Option<String>,
    pub collections: Option<Vec<String>>,
    pub nft: Option<String>,
    pub event_type: Option<Vec<String>>,
    pub limit: Option<usize>,
    pub offset: Option<usize>,
    pub with_count: Option<bool>,
    pub verified: Option<bool>,
}

/// The hits of a search and how many there are.
pub struct SearchRes {
    pub items: Vec<SearchResult>,
    pub count: usize,
}

/// The query for a page of events.
pub struct EventsSearch {
    pub nft: Option<String>,
    pub collections: Vec<String>,
    pub owner: Option<String>,
    pub event_types: Vec<String>,
    pub offset: usize,
    pub limit: usize,
    pub with_count: bool,
    pub verified: Option<bool>,
}

/// A list of texts, the empty one where none is given.
pub open spec fn or_none(v: Option<Vec<String>>) -> Seq<String> {
    match v {
        Some(v) => v@,
        None => Seq::empty(),
    }
}

/// The page size asked for, 100 where none is.
pub open spec fn limit_or_default(limit: Option<usize>) -> usize {
    match limit {
        Some(l) => l,
        None => 100,
    }
}

/// The query for a page of events: no filter where none is given, the first 100 events
/// where no page is given, no total where none is asked for, and one row more than the page
/// where the total is not counted. Events of one NFT are looked for among all NFTs, verified
/// or not. A request for `usize::MAX` events without a total is left out: one more cannot be
/// asked for.
pub fn events_search(query: &EventsQuery) -> (res: EventsSearch)
    requires
        fetch_limit_of(limit_or_default(query.limit), query.with_count == Some(true)) <= usize::MAX,
    ensures
        res.nft == query.nft,
        res.collections@ == or_none(query.collections),
        res.owner == query.owner,
        res.event_types@ == or_none(query.event_type),
        res.offset == (match query.offset {
            Some(o) => o,
            None => 0,
        }),
        res.with_count == (query.with_count == Some(true)),
        res.limit == fetch_limit_of(limit_or_default(query.limit), res.with_count),
        res.verified == (if query.nft is Some { Some(false) } else { query.verified }),
{
    let with_count = match query.with_count {
        Some(w) => w,
        None => false,
    };
    let limit = match query.limit {
        Some(l) => l,
        None => 100,
    };
    let verified = match &query.nft {
        Some(_) => Some(false),
        None => query.verified,
    };
    EventsSearch {
        nft: copy_text(&query.nft),
        collections: match &query.collections {
            Some(c) => copy_texts(c),
            None => Vec::new(),
        },
        owner: copy_text(&query.owner),
        event_types: match &query.event_type {
            Some(t) => copy_texts(t),
            None => Vec::new(),
        },
        offset: match query.offset {
            Some(o) => o,
            None => 0,
        },
        limit: fetch_limit(limit, with_count),
        with_count,
        verified,
    }
}

/// Whether a search row names a kind of contract.
pub open spec fn row_is_known(row: SearchRow) -> bool {
    exists|c: crate::db::enums::EventCategory| #[trigger] c.name_of() == row.object_type@
}

/// The answer to a search: every row as a hit, and their number. A row whose object type
/// names no kind of contract cannot be read, and then there is no answer.
pub fn search_response(rows: &Vec<SearchRow>) -> (res: Option<SearchRes>)
    ensures
        match res {
            Some(r) => {
                &&& (forall|i: int| 0 <= i < rows@.len() ==> row_is_known(#[trigger] rows@[i]))
                &&& r.count == rows@.len()
                &&& r.items@.len() == rows@.len()
                &&& forall|i: int| 0 <= i < rows@.len() ==> {
                    &&& (#[trigger] r.items@[i]).address == rows@[i].address
                    &&& r.items@[i].image == rows@[i].image
                    &&& r.items@[i].contract_type.name_of() == rows@[i].object_type@
                }
            },
            None => exists|i: int| 0 <= i < rows@.len() && !row_is_known(#[trigger] rows@[i]),
        },
{
    let mut items: Vec<SearchResult> = Vec::new();
    for i in 0..rows.len()
        invariant
            items@.len() == i,
            forall|j: int| 0 <= j < i ==> row_is_known(#[trigger] rows@[j]),
            forall|j: int| 0 <= j < i ==> {
                &&& (#[trigger] items@[j]).address == rows@[j].address
                &&& items@[j].image == rows@[j].image
                &&& items@[j].contract_type.name_of() == rows@[j].object_type@
            },
    {
        match SearchResult::from_db(&rows[i]) {
            Some(hit) => items.push(hit),
            None => {
                proof {
                    assert(!row_is_known(rows@[i as int]));
                }
                return None;
            },
        }
    }
    let count = items.len();
    Some(SearchRes { items, count })
}

} // verus!
