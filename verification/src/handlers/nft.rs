//! Requests about NFTs and what the service makes of them before it queries.
use crate::db::decimal::{self, bigdecimal_parse, Decimal};
use crate::db::enums::DirectBuyState;
use crate::db::query_params::nft::NftSearchParams;
use crate::db::queries::{
    filled_template, filter_binds, filter_text, nft_order_text, nft_price_range_sql, nft_search_sql,
    nft_search_verified_sql, verified_order_text, PriceRangeError, RANGE_FILTERS_FROM, SEARCH_FILTERS_FROM,
    UNVERIFIED_RANGE_HEAD, UNVERIFIED_RANGE_TAIL, VERIFIED_RANGE_HEAD, VERIFIED_RANGE_TAIL,
};
use crate::db::types::NftDetails;
use crate::handlers::owner::{page_limit, page_offset, states_or_none};
use crate::instants::{checked_instant, chrono_instant_in_range};
use crate::db::{copy_text, copy_texts, Address};
use crate::model::{or_empty, DirectBuy, DirectSell, NFT};
use crate::paging::{fetch_limit, fetch_limit_of};
use crate::token::TokenDict;
use crate::handlers::requests::OrderDirection;
use crate::keyed::{index_by_key, keyed_map, unique_keys};
use vstd::prelude::*;

verus! {

/// A request for one NFT, or for the purchase offers on it.
pub struct NFTParam {
    pub nft: Address,
    pub status: Option<Vec<DirectBuyState>>,
    pub limit: Option<usize>,
    pub offset: Option<usize>,
}

/// A request for the most traded NFTs since an instant.
pub struct NFTTopListQuery {
    pub from: i64,
    pub limit: i64,
    pub offset: i64,
}

/// A filter on one trait: the NFT must have the trait with one of the values.
pub struct AttributeFilter {
    pub trait_type: String,
    pub trait_values: Vec<String>,
}

impl AttributeFilter {
    /// A copy of the filter.
    pub fn copy(&self) -> (res: AttributeFilter)
        ensures
            res.trait_type == self.trait_type,
            res.trait_values@ == self.trait_values@,
    {
        AttributeFilter { trait_type: self.trait_type.clone(), trait_values: copy_texts(&self.trait_values) }
    }
}

/// A copy of a list of trait filters.
pub fn copy_filters(v: &Vec<AttributeFilter>) -> (res: Vec<AttributeFilter>)
    ensures
        res@.len() == v@.len(),
        forall|i: int| 0 <= i < v@.len() ==> #[trigger] res@[i].trait_type == v@[i].trait_type
            && res@[i].trait_values@ == v@[i].trait_values@,
{
    let mut res: Vec<AttributeFilter> = Vec::new();
    let mut i: usize = 0;
    while i < v.len()
        invariant
            i <= v@.len(),
            res@.len() == i,
            forall|j: int| 0 <= j < i ==> #[trigger] res@[j].trait_type == v@[j].trait_type
                && res@[j].trait_values@ == v@[j].trait_values@,
        decreases v@.len() - i,
    {
        res.push(v[i].copy());
        i = i + 1;
    }
    res
}

/// A request for a listing of NFTs.
pub struct NFTListQuery {
    pub owners: Option<Vec<String>>,
    pub collections: Option<Vec<String>>,
    pub price_from: Option<String>,
    pub price_to: Option<String>,
    pub price_token: Option<String>,
    pub forsale: Option<bool>,
    pub auction: Option<bool>,
    pub verified: Option<bool>,
    pub limit: Option<usize>,
    pub offset: Option<usize>,
    pub attributes: Option<Vec<AttributeFilter>>,
    pub order: Option<NFTListOrder>,
    pub with_count: Option<bool>,
    pub nft_type: Option<String>,
}

/// A request for random NFTs on sale below a price.
pub struct NFTListRandomBuyQuery {
    pub max_price: i64,
    pub limit: i32,
}

/// A request for the number of NFTs on sale below a price.
pub struct NFTSellCountQuery {
    pub max_price: i64,
}

/// The number of NFTs on sale below a price, at an instant.
pub struct NFTSellCountResponse {
    pub count: i64,
    pub timestamp: i64,
}

/// A request for the media types of NFTs.
pub struct NFTType {
    pub verified: Option<bool>,
}

/// The fields that NFT listings may be ordered by.
#[derive(Clone, Copy, Debug, PartialEq, Eq, Structural)]
pub enum NFTListOrderField {
    FloorPriceUsd,
    DealPriceUsd,
    Name,
}

impl NFTListOrderField {
    /// The column name of the field.
    pub open spec fn name_of(self) -> Seq<char> {
        match self {
            NFTListOrderField::FloorPriceUsd => "floor_price_usd"@,
            NFTListOrderField::DealPriceUsd => "deal_price_usd"@,
            NFTListOrderField::Name => "name"@,
        }
    }

    /// The column name of the field.
    pub fn name(&self) -> (res: &'static str)
        ensures
            res@ == self.name_of(),
    {
        match self {
            NFTListOrderField::FloorPriceUsd => "floor_price_usd",
            NFTListOrderField::DealPriceUsd => "deal_price_usd",
            NFTListOrderField::Name => "name",
        }
    }
}

/// A requested ordering of NFT listings.
#[derive(Clone, Copy, Debug, PartialEq, Eq, Structural)]
pub struct NFTListOrder {
    pub field: NFTListOrderField,
    pub direction: OrderDirection,
}

/// The step of a price history.
#[derive(Clone, Copy, Debug, PartialEq, Eq, Structural)]
pub enum PriceHistoryScale {
    Hours,
    Days,
}

impl PriceHistoryScale {
    /// The name of the step as SQL writes it.
    pub open spec fn name_of(self) -> Seq<char> {
        match self {
            PriceHistoryScale::Days => "day"@,
            PriceHistoryScale::Hours => "hour"@,
        }
    }

    /// The name of the step as SQL writes it.
    pub fn name(&self) -> (res: &'static str)
        ensures
            res@ == self.name_of(),
    {
        match self {
            PriceHistoryScale::Days => "day",
            PriceHistoryScale::Hours => "hour",
        }
    }
}

impl Default for PriceHistoryScale {
    fn default() -> (res: PriceHistoryScale)
        ensures
            res == PriceHistoryScale::Days,
    {
        PriceHistoryScale::Days
    }
}

/// A request for the price history of an NFT between two instants.
pub struct NftPriceHistoryQuery {
    pub nft: Address,
    pub scale: Option<PriceHistoryScale>,
    pub from: i64,
    pub to: i64,
}

/// A request for the range of floor prices of NFTs.
pub struct NftPriceRangeParams {
    pub owners: Vec<Address>,
    pub collections: Vec<Address>,
    pub verified: Option<bool>,
    pub attributes: Vec<AttributeFilter>,
}

/// Why a listing request cannot be turned into a search.
pub enum NftListError {
    /// A price bound is not a number.
    BadPrice,
}

/// An optional price bound read as a number.
pub open spec fn price_bound(text: Option<String>) -> Option<Option<(Seq<u8>, i64)>> {
    match text {
        None => Some(None),
        Some(t) => match bigdecimal_parse(t@) {
            Some(p) => Some(Some(p)),
            None => None,
        },
    }
}

/// The parts of an optional number.
pub open spec fn opt_parts(d: Option<Decimal>) -> Option<(Seq<u8>, i64)> {
    match d {
        Some(d) => Some(d.parts()),
        None => None,
    }
}

/// Reads an optional price bound.
fn read_price(text: &Option<String>) -> (res: Result<Option<Decimal>, NftListError>)
    ensures
        match price_bound(*text) {
            Some(b) => res matches Ok(d) && opt_parts(d) == b,
            None => res is Err,
        },
{
    match text {
        None => Ok(None),
        Some(t) => match decimal::parse(t.as_str()) {
            Some(d) => Ok(Some(d)),
            None => Err(NftListError::BadPrice),
        },
    }
}

/// An optional text as a list of one text.
pub open spec fn one_of(t: Option<String>) -> Option<Seq<String>> {
    match t {
        Some(t) => Some(seq![t]),
        None => None,
    }
}

fn one_text(t: &Option<String>) -> (res: Option<Vec<String>>)
    ensures
        match res {
            Some(v) => one_of(*t) == Some(v@),
            None => t is None,
        },
{
    match t {
        Some(t) => {
            let mut v: Vec<String> = Vec::new();
            v.push(t.clone());
            proof {
                assert(v@ =~= seq![*t]);
            }
            Some(v)
        },
        None => None,
    }
}

/// A list of texts, or the empty list where none is given.
pub open spec fn texts_or_empty(v: Option<Vec<String>>) -> Seq<String> {
    match v {
        Some(v) => v@,
        None => Seq::empty(),
    }
}

fn copy_or_empty(v: &Option<Vec<String>>) -> (res: Vec<String>)
    ensures
        res@ == texts_or_empty(*v),
{
    match v {
        Some(v) => copy_texts(v),
        None => Vec::new(),
    }
}

/// The search that a listing request asks for: owners and collections default to none
/// (no filter), sale and auction filters to off, `verified` to on, the page to the first
/// 100, the total count to off; the price bounds must read as numbers (else `BadPrice`).
/// The database is asked for one more NFT than the page holds when the total is not
/// counted. A request that asks for `usize::MAX` NFTs without a count is left out: the
/// service cannot ask for one more.
pub fn nft_list_search_params(params: &NFTListQuery) -> (res: Result<NftSearchParams, NftListError>)
    requires
        fetch_limit_of(match params.limit { Some(l) => l, None => 100 }, params.with_count == Some(true)) <= usize::MAX,
    ensures
        (price_bound(params.price_from) is None || price_bound(params.price_to) is None) <==> res is Err,
        res matches Ok(s) ==> {
            &&& s.owners@ == texts_or_empty(params.owners)
            &&& s.collections@ == texts_or_empty(params.collections)
            &&& s.forsale == (params.forsale == Some(true))
            &&& s.auction == (params.auction == Some(true))
            &&& Some(opt_parts(s.price_from)) == price_bound(params.price_from)
            &&& Some(opt_parts(s.price_to)) == price_bound(params.price_to)
            &&& s.verified == (params.verified != Some(false))
            &&& s.with_count == (params.with_count == Some(true))
            &&& s.limit == fetch_limit_of(match params.limit { Some(l) => l, None => 100 }, s.with_count)
            &&& s.offset == (match params.offset { Some(o) => o, None => 0 })
            &&& s.attributes@.len() == (match params.attributes { Some(a) => a@.len(), None => 0 })
            &&& (params.attributes matches Some(a) ==> forall|i: int| 0 <= i < a@.len() ==>
                    #[trigger] s.attributes@[i].trait_type == a@[i].trait_type
                    && s.attributes@[i].trait_values@ == a@[i].trait_values@)
            &&& s.order == params.order
            &&& (match s.price_token { Some(v) => one_of(params.price_token) == Some(v@), None => params.price_token is None })
            &&& (match s.nft_type { Some(v) => one_of(params.nft_type) == Some(v@), None => params.nft_type is None })
        },
{
    let with_count = match params.with_count {
        Some(w) => w,
        None => false,
    };
    let limit: usize = match params.limit {
        Some(l) => l,
        None => 100,
    };
    let final_limit = fetch_limit(limit, with_count);
    let price_from = read_price(&params.price_from);
    let price_from = match price_from {
        Ok(p) => p,
        Err(e) => return Err(e),
    };
    let price_to = match read_price(&params.price_to) {
        Ok(p) => p,
        Err(e) => return Err(e),
    };
    let attributes = match &params.attributes {
        Some(a) => copy_filters(a),
        None => Vec::new(),
    };
    Ok(NftSearchParams {
        owners: copy_or_empty(&params.owners),
        collections: copy_or_empty(&params.collections),
        forsale: match params.forsale {
            Some(f) => f,
            None => false,
        },
        auction: match params.auction {
            Some(a) => a,
            None => false,
        },
        price_from,
        price_to,
        price_token: one_text(&params.price_token),
        verified: match params.verified {
            Some(v) => v,
            None => true,
        },
        limit: final_limit,
        offset: match params.offset {
            Some(o) => o,
            None => 0,
        },
        attributes,
        order: params.order,
        with_count,
        nft_type: one_text(&params.nft_type),
    })
}

/// The number of random NFTs that a request gets: at most 30.
pub fn random_buy_limit(params: &NFTListRandomBuyQuery) -> (res: i32)
    ensures
        res == if params.limit > 30 { 30 } else { params.limit },
{
    if params.limit > 30 { 30 } else { params.limit }
}


/// The texts present in a list of optional texts, in order.
pub open spec fn present_texts(s: Seq<Option<String>>) -> Seq<String>
    decreases s.len(),
{
    if s.len() == 0 {
        Seq::empty()
    } else {
        match s.last() {
            Some(t) => present_texts(s.drop_last()).push(t),
            None => present_texts(s.drop_last()),
        }
    }
}

/// The texts present in a list of optional texts.
fn collect_present(s: &Vec<Option<String>>) -> (res: Vec<String>)
    ensures
        res@ == present_texts(s@),
{
    let mut res: Vec<String> = Vec::new();
    for i in 0..s.len()
        invariant
            res@ == present_texts(s@.take(i as int)),
    {
        proof {
            assert(s@.take(i as int + 1).drop_last() =~= s@.take(i as int));
        }
        match &s[i] {
            Some(t) => res.push(t.clone()),
            None => {},
        }
    }
    proof {
        assert(s@.take(s@.len() as int) =~= s@);
    }
    res
}

/// The NFTs of a search as the API lists them, with the addresses of the collections,
/// auctions, sale offers and best purchase offers that they refer to.
pub struct NftsListing {
    pub count: i64,
    pub items: Vec<NFT>,
    pub collection_ids: Vec<String>,
    pub auction_ids: Vec<String>,
    pub direct_sell_ids: Vec<String>,
    pub direct_buy_ids: Vec<String>,
}

/// The total that a search reports in its first row, or 0 where it found nothing.
pub open spec fn first_total(list: Seq<NftDetails>) -> i64 {
    if list.len() == 0 { 0 } else { list[0].total_count }
}

/// The listing of the NFTs that a search found: the total of the first row (0 for none), each
/// row as the API shows it, the collection of each NFT in order, and the auctions, sale offers
/// and best purchase offers of those that have one, in order. Rows without an address are
/// ruled out by the caller.
pub fn nfts_listing(list: &Vec<NftDetails>, tokens: &TokenDict) -> (res: NftsListing)
    requires
        forall|i: int| 0 <= i < list@.len() ==> (#[trigger] list@[i]).address is Some,
    ensures
        res.count == first_total(list@),
        res.items@.len() == list@.len(),
        forall|i: int| 0 <= i < list@.len() ==> (#[trigger] res.items@[i]).shows(list@[i]),
        res.collection_ids@.len() == list@.len(),
        forall|i: int| 0 <= i < list@.len() ==> (#[trigger] res.collection_ids@[i])@ == or_empty(list@[i].collection),
        res.auction_ids@ == present_texts(list@.map_values(|d: NftDetails| d.auction)),
        res.direct_sell_ids@ == present_texts(list@.map_values(|d: NftDetails| d.forsale)),
        res.direct_buy_ids@ == present_texts(list@.map_values(|d: NftDetails| d.best_offer)),
{
    let count = if list.len() == 0 { 0 } else { list[0].total_count };
    let mut items: Vec<NFT> = Vec::new();
    let mut collection_ids: Vec<String> = Vec::new();
    let mut auctions: Vec<Option<String>> = Vec::new();
    let mut sales: Vec<Option<String>> = Vec::new();
    let mut offers: Vec<Option<String>> = Vec::new();
    for i in 0..list.len()
        invariant
            forall|j: int| 0 <= j < list@.len() ==> (#[trigger] list@[j]).address is Some,
            items@.len() == i,
            collection_ids@.len() == i,
            forall|j: int| 0 <= j < i ==> (#[trigger] items@[j]).shows(list@[j]),
            forall|j: int| 0 <= j < i ==> (#[trigger] collection_ids@[j])@ == or_empty(list@[j].collection),
            auctions@ == list@.take(i as int).map_values(|d: NftDetails| d.auction),
            sales@ == list@.take(i as int).map_values(|d: NftDetails| d.forsale),
            offers@ == list@.take(i as int).map_values(|d: NftDetails| d.best_offer),
    {
        let row = &list[i];
        let nft = NFT::from_db(row, tokens);
        collection_ids.push(nft.collection.clone());
        items.push(nft);
        auctions.push(copy_text(&row.auction));
        sales.push(copy_text(&row.forsale));
        offers.push(copy_text(&row.best_offer));
        proof {
            assert(auctions@ =~= list@.take(i as int + 1).map_values(|d: NftDetails| d.auction));
            assert(sales@ =~= list@.take(i as int + 1).map_values(|d: NftDetails| d.forsale));
            assert(offers@ =~= list@.take(i as int + 1).map_values(|d: NftDetails| d.best_offer));
        }
    }
    proof {
        assert(list@.take(list@.len() as int) =~= list@);
    }
    NftsListing {
        count,
        items,
        collection_ids,
        auction_ids: collect_present(&auctions),
        direct_sell_ids: collect_present(&sales),
        direct_buy_ids: collect_present(&offers),
    }
}

/// What the page of one NFT is made of: its collection (none where the row has none), its
/// auction and its sale offer where it has them, and the query for its active purchase
/// offers (the first 100), by its address (empty where the row has none).
pub struct NftPagePlan {
    pub collection_ids: Vec<String>,
    pub auction: Option<Address>,
    pub direct_sell: Option<Address>,
    pub nft_address: Address,
    pub direct_buy_states: Vec<DirectBuyState>,
    pub direct_buy_limit: usize,
    pub direct_buy_offset: usize,
}

/// What the page of one NFT is made of.
pub fn nft_page_plan(nft: &NftDetails) -> (res: NftPagePlan)
    ensures
        res.collection_ids@ == (match nft.collection {
            Some(c) => seq![c],
            None => Seq::empty(),
        }),
        res.auction == nft.auction,
        res.direct_sell == nft.forsale,
        res.nft_address@ == or_empty(nft.address),
        res.direct_buy_states@ == seq![DirectBuyState::Active],
        res.direct_buy_limit == 100,
        res.direct_buy_offset == 0,
{
    let mut collection_ids: Vec<String> = Vec::new();
    match &nft.collection {
        Some(c) => collection_ids.push(c.clone()),
        None => {},
    }
    let mut direct_buy_states: Vec<DirectBuyState> = Vec::new();
    direct_buy_states.push(DirectBuyState::Active);
    proof {
        assert(direct_buy_states@ =~= seq![DirectBuyState::Active]);
        assert(collection_ids@ =~= (match nft.collection {
            Some(c) => seq![c],
            None => Seq::empty(),
        }));
    }
    NftPagePlan {
        collection_ids,
        auction: copy_text(&nft.auction),
        direct_sell: copy_text(&nft.forsale),
        nft_address: match &nft.address {
            Some(a) => a.clone(),
            None => String::new(),
        },
        direct_buy_states,
        direct_buy_limit: 100,
        direct_buy_offset: 0,
    }
}


/// The text of an NFT listing and the values of its trait filters: the verified search where
/// the listing asks for verified NFTs, else the full one, each from its template.
pub fn nft_list_sql(params: &NftSearchParams, full_template: &str, verified_template: &str) -> (res: (String, Vec<(String, String)>))
    ensures
        res.0@ == (if params.verified {
            filled_template(verified_template@, verified_order_text(params.order),
                filter_text("nve"@, SEARCH_FILTERS_FROM as nat, params.attributes@.len()))
        } else {
            filled_template(full_template@, nft_order_text(params.order),
                filter_text("n"@, SEARCH_FILTERS_FROM as nat, params.attributes@.len()))
        }),
        filter_binds(res.1@, params.attributes@),
{
    if params.verified {
        nft_search_verified_sql(verified_template, params)
    } else {
        nft_search_sql(full_template, params)
    }
}

/// The query for the purchase offers on an NFT: no state filter where none is given, the
/// first 100 where no page is given.
pub struct DirectBuyListing {
    pub nft: Address,
    pub states: Vec<DirectBuyState>,
    pub limit: usize,
    pub offset: usize,
}

/// The query for the purchase offers on an NFT.
pub fn nft_direct_buy_listing(params: &NFTParam) -> (res: DirectBuyListing)
    ensures
        res.nft == params.nft,
        res.states@ == states_or_none(params.status),
        res.limit == page_limit(params.limit),
        res.offset == page_offset(params.offset),
{
    let mut states: Vec<DirectBuyState> = Vec::new();
    match &params.status {
        Some(v) => {
            for i in 0..v.len()
                invariant
                    states@ == v@.take(i as int),
            {
                states.push(v[i]);
                proof {
                    assert(v@.take(i as int + 1) =~= v@.take(i as int).push(v@[i as int]));
                }
            }
            proof {
                assert(v@.take(v@.len() as int) =~= v@);
            }
        },
        None => {},
    }
    DirectBuyListing {
        nft: params.nft.clone(),
        states,
        limit: match params.limit {
            Some(l) => l,
            None => 100,
        },
        offset: match params.offset {
            Some(o) => o,
            None => 0,
        },
    }
}

/// The instants of a price history request, where `chrono` represents both.
pub fn price_history_range(query: &NftPriceHistoryQuery) -> (res: Option<(i64, i64)>)
    ensures
        res == (if chrono_instant_in_range(query.from) && chrono_instant_in_range(query.to) {
            Some((query.from, query.to))
        } else {
            None::<(i64, i64)>
        }),
{
    match (checked_instant(query.from), checked_instant(query.to)) {
        (Some(from), Some(to)) => Some((from, to)),
        _ => None,
    }
}

/// The start of a top list request, where `chrono` represents it.
pub fn top_list_from(query: &NFTTopListQuery) -> (res: Option<i64>)
    ensures
        res == (if chrono_instant_in_range(query.from) { Some(query.from) } else { None::<i64> }),
{
    checked_instant(query.from)
}

/// Whether a request for media types asks for verified collections: yes unless it says not.
pub fn types_verified(params: &NFTType) -> (res: bool)
    ensures
        res == (params.verified != Some(false)),
{
    match params.verified {
        Some(v) => v,
        None => true,
    }
}

/// The answer to a sale count request at `now`: the count found, 0 where none is.
pub fn sell_count_response(count: Option<i64>, now: i64) -> (res: NFTSellCountResponse)
    ensures
        res.count == (match count {
            Some(c) => c,
            None => 0,
        }),
        res.timestamp == now,
{
    NFTSellCountResponse {
        count: match count {
            Some(c) => c,
            None => 0,
        },
        timestamp: now,
    }
}

/// The price range query for a request: among verified NFTs unless it says not; filtering by
/// owners among the verified ones is refused.
pub fn price_range_query(params: &NftPriceRangeParams) -> (res: Result<(String, Vec<(String, String)>), PriceRangeError>)
    ensures
        res is Err <==> params.verified != Some(false) && params.owners@.len() > 0,
        res matches Ok(r) ==> {
            let filters = filter_text("n"@, RANGE_FILTERS_FROM as nat, params.attributes@.len());
            &&& r.0@ == if params.verified != Some(false) {
                VERIFIED_RANGE_HEAD@ + filters + VERIFIED_RANGE_TAIL@
            } else {
                UNVERIFIED_RANGE_HEAD@ + filters + UNVERIFIED_RANGE_TAIL@
            }
            &&& filter_binds(r.1@, params.attributes@)
        },
{
    let verified = match params.verified {
        Some(v) => v,
        None => true,
    };
    nft_price_range_sql(params.attributes.as_slice(), params.owners.as_slice(), verified)
}


/// The NFTs by address, each address once with the last NFT that has it.
pub fn nfts_by_address(items: Vec<NFT>) -> (res: Vec<(String, NFT)>)
    ensures
        unique_keys(res@),
        keyed_map(res@) == keyed_map(items@.map_values(|x: NFT| (x.contract.address, x))),
{
    let ghost all = items@;
    let mut pairs: Vec<(String, NFT)> = Vec::new();
    for item in it: items
        invariant
            it.seq() == all,
            pairs@ == all.take(it.index() as int).map_values(|x: NFT| (x.contract.address, x)),
    {
        let ghost idx = it.index() as int;
        let key = item.contract.address.clone();
        pairs.push((key, item));
        proof {
            assert(pairs@ =~= all.take(idx + 1).map_values(|x: NFT| (x.contract.address, x)));
        }
    }
    proof {
        assert(all.take(all.len() as int) =~= all);
    }
    index_by_key(pairs)
}


/// The sale offers by address, each address once with the last offer that has it.
pub fn direct_sells_by_address(items: Vec<DirectSell>) -> (res: Vec<(String, DirectSell)>)
    ensures
        unique_keys(res@),
        keyed_map(res@) == keyed_map(items@.map_values(|x: DirectSell| (x.address, x))),
{
    let ghost all = items@;
    let mut pairs: Vec<(String, DirectSell)> = Vec::new();
    for item in it: items
        invariant
            it.seq() == all,
            pairs@ == all.take(it.index() as int).map_values(|x: DirectSell| (x.address, x)),
    {
        let ghost idx = it.index() as int;
        let key = item.address.clone();
        pairs.push((key, item));
        proof {
            assert(pairs@ =~= all.take(idx + 1).map_values(|x: DirectSell| (x.address, x)));
        }
    }
    proof {
        assert(all.take(all.len() as int) =~= all);
    }
    index_by_key(pairs)
}


/// The purchase offers by address, each address once with the last offer that has it.
pub fn direct_buys_by_address(items: Vec<DirectBuy>) -> (res: Vec<(String, DirectBuy)>)
    ensures
        unique_keys(res@),
        keyed_map(res@) == keyed_map(items@.map_values(|x: DirectBuy| (x.address, x))),
{
    let ghost all = items@;
    let mut pairs: Vec<(String, DirectBuy)> = Vec::new();
    for item in it: items
        invariant
            it.seq() == all,
            pairs@ == all.take(it.index() as int).map_values(|x: DirectBuy| (x.address, x)),
    {
        let ghost idx = it.index() as int;
        let key = item.address.clone();
        pairs.push((key, item));
        proof {
            assert(pairs@ =~= all.take(idx + 1).map_values(|x: DirectBuy| (x.address, x)));
        }
    }
    proof {
        assert(all.take(all.len() as int) =~= all);
    }
    index_by_key(pairs)
}


/// The collection of each indexed NFT, in the order of the index.
pub fn collections_of_nfts(index: &Vec<(String, NFT)>) -> (res: Vec<String>)
    ensures
        res@.len() == index@.len(),
        forall|i: int| 0 <= i < index@.len() ==> #[trigger] res@[i] == index@[i].1.collection,
{
    let mut res: Vec<String> = Vec::new();
    for i in 0..index.len()
        invariant
            res@.len() == i,
            forall|j: int| 0 <= j < i ==> #[trigger] res@[j] == index@[j].1.collection,
    {
        res.push(index[i].1.collection.clone());
    }
    res
}

} // verus!
