//! Requests about what an owner offers, bids and pays, and what the service makes of them.
use crate::db::enums::{DirectBuyState, DirectSellState};
use crate::db::types::{NftAuctionBidExt, NftDirectBuy, NftDirectSell};
use crate::db::{copy_texts, Address};
use crate::handlers::events::or_none;
use crate::model::{or_empty, AuctionBid, DirectBuy, DirectSell, VecWithTotal};
use crate::token::TokenDict;
use vstd::prelude::*;

verus! {

/// A request for the bids an owner placed.
pub struct OwnerBidsOutQuery {
    pub owner: Address,
    pub collections: Option<Vec<Address>>,
    pub lastbid: Option<bool>,
    pub limit: Option<usize>,
    pub offset: Option<usize>,
}

/// A request for the bids placed on an owner's auctions.
pub struct OwnerBidsInQuery {
    pub owner: Address,
    pub collections: Option<Vec<Address>>,
    pub active: Option<bool>,
    pub limit: Option<usize>,
    pub offset: Option<usize>,
}

/// A request for the marketplace fee of an owner under a root contract (named by its code).
pub struct OwnerFeeQuery {
    pub owner: Address,
    pub root_code: String,
}

/// A request for an owner's sale offers.
pub struct OwnerDirectSellQuery {
    pub owner: Address,
    pub collections: Option<Vec<Address>>,
    pub status: Option<Vec<DirectSellState>>,
    pub limit: Option<usize>,
    pub offset: Option<usize>,
}

/// A request for an owner's purchase offers, made or received.
pub struct OwnerDirectBuyQuery {
    pub owner: Address,
    pub collections: Option<Vec<Address>>,
    pub status: Option<Vec<DirectBuyState>>,
    pub limit: Option<usize>,
    pub offset: Option<usize>,
}

/// The query for a page of an owner's offers or bids: no collection filter and no state
/// filter where none is given, the first 100 where no page is given; `flag` is the bid filter
/// (last bid only, or active only) where there is one.
pub struct OwnerListing<S> {
    pub owner: Address,
    pub collections: Vec<Address>,
    pub states: Vec<S>,
    pub flag: Option<bool>,
    pub limit: usize,
    pub offset: usize,
}

/// A page size, 100 where none is given.
pub open spec fn page_limit(limit: Option<usize>) -> usize {
    match limit {
        Some(l) => l,
        None => 100,
    }
}

/// A page start, the first row where none is given.
pub open spec fn page_offset(offset: Option<usize>) -> usize {
    match offset {
        Some(o) => o,
        None => 0,
    }
}

/// The listed states of a filter, none where none is given.
pub open spec fn states_or_none<S>(states: Option<Vec<S>>) -> Seq<S> {
    match states {
        Some(v) => v@,
        None => Seq::empty(),
    }
}

fn limit_of(limit: Option<usize>) -> (res: usize)
    ensures
        res == page_limit(limit),
{
    match limit {
        Some(l) => l,
        None => 100,
    }
}

fn offset_of(offset: Option<usize>) -> (res: usize)
    ensures
        res == page_offset(offset),
{
    match offset {
        Some(o) => o,
        None => 0,
    }
}

fn texts_of(v: &Option<Vec<Address>>) -> (res: Vec<Address>)
    ensures
        res@ == or_none(*v),
{
    match v {
        Some(v) => copy_texts(v),
        None => Vec::new(),
    }
}

fn copy_states<S: Copy>(v: &Option<Vec<S>>) -> (res: Vec<S>)
    ensures
        res@ == states_or_none(*v),
{
    let mut res: Vec<S> = Vec::new();
    match v {
        Some(v) => {
            for i in 0..v.len()
                invariant
                    res@ == v@.take(i as int),
            {
                res.push(v[i]);
                proof {
                    assert(v@.take(i as int + 1) =~= v@.take(i as int).push(v@[i as int]));
                }
            }
            proof {
                assert(v@.take(v@.len() as int) =~= v@);
            }
        },
        None => {},
    }
    res
}

/// The query for the bids an owner placed.
pub fn owner_bids_out_listing(query: &OwnerBidsOutQuery) -> (res: OwnerListing<DirectBuyState>)
    ensures
        res.owner == query.owner,
        res.collections@ == or_none(query.collections),
        res.states@ == Seq::<DirectBuyState>::empty(),
        res.flag == query.lastbid,
        res.limit == page_limit(query.limit),
        res.offset == page_offset(query.offset),
{
    OwnerListing {
        owner: query.owner.clone(),
        collections: texts_of(&query.collections),
        states: Vec::new(),
        flag: query.lastbid,
        limit: limit_of(query.limit),
        offset: offset_of(query.offset),
    }
}

/// The query for the bids placed on an owner's auctions.
pub fn owner_bids_in_listing(query: &OwnerBidsInQuery) -> (res: OwnerListing<DirectBuyState>)
    ensures
        res.owner == query.owner,
        res.collections@ == or_none(query.collections),
        res.states@ == Seq::<DirectBuyState>::empty(),
        res.flag == query.active,
        res.limit == page_limit(query.limit),
        res.offset == page_offset(query.offset),
{
    OwnerListing {
        owner: query.owner.clone(),
        collections: texts_of(&query.collections),
        states: Vec::new(),
        flag: query.active,
        limit: limit_of(query.limit),
        offset: offset_of(query.offset),
    }
}

/// The query for an owner's sale offers.
pub fn owner_direct_sell_listing(query: &OwnerDirectSellQuery) -> (res: OwnerListing<DirectSellState>)
    ensures
        res.owner == query.owner,
        res.collections@ == or_none(query.collections),
        res.states@ == states_or_none(query.status),
        res.flag is None,
        res.limit == page_limit(query.limit),
        res.offset == page_offset(query.offset),
{
    OwnerListing {
        owner: query.owner.clone(),
        collections: texts_of(&query.collections),
        states: copy_states(&query.status),
        flag: None,
        limit: limit_of(query.limit),
        offset: offset_of(query.offset),
    }
}

/// The query for an owner's purchase offers, made or received.
pub fn owner_direct_buy_listing(query: &OwnerDirectBuyQuery) -> (res: OwnerListing<DirectBuyState>)
    ensures
        res.owner == query.owner,
        res.collections@ == or_none(query.collections),
        res.states@ == states_or_none(query.status),
        res.flag is None,
        res.limit == page_limit(query.limit),
        res.offset == page_offset(query.offset),
{
    OwnerListing {
        owner: query.owner.clone(),
        collections: texts_of(&query.collections),
        states: copy_states(&query.status),
        flag: None,
        limit: limit_of(query.limit),
        offset: offset_of(query.offset),
    }
}

/// A page of an owner's bids read with their auctions: the total the first row reports (0 for
/// none), every bid as the API shows it, and the auction of each, in order.
pub fn owner_bids_page(list: &Vec<NftAuctionBidExt>, tokens: &TokenDict) -> (res: (VecWithTotal<AuctionBid>, Vec<Address>))
    requires
        forall|i: int| 0 <= i < list@.len() ==> (#[trigger] list@[i]).price.roundable(),
    ensures
        res.0.count == (if list@.len() == 0 { 0 } else { list@[0].cnt }),
        res.0.items@.len() == list@.len(),
        forall|i: int| 0 <= i < list@.len() ==> {
            &&& (#[trigger] res.0.items@[i]).from == list@[i].buyer
            &&& res.0.items@[i].auction == list@[i].auction
            &&& res.0.items@[i].nft@ == or_empty(list@[i].nft)
            &&& res.0.items@[i].price@ == list@[i].price.rounded_text()
            &&& res.0.items@[i].created_at == list@[i].created_at
            &&& res.0.items@[i].active == (list@[i].active == Some(true))
        },
        res.1@.len() == list@.len(),
        forall|i: int| 0 <= i < list@.len() ==> #[trigger] res.1@[i] == list@[i].auction,
{
    let mut items: Vec<AuctionBid> = Vec::new();
    let mut auction_ids: Vec<Address> = Vec::new();
    for i in 0..list.len()
        invariant
            forall|j: int| 0 <= j < list@.len() ==> (#[trigger] list@[j]).price.roundable(),
            items@.len() == i,
            auction_ids@.len() == i,
            forall|j: int| 0 <= j < i ==> {
                &&& (#[trigger] items@[j]).from == list@[j].buyer
                &&& items@[j].auction == list@[j].auction
                &&& items@[j].nft@ == or_empty(list@[j].nft)
                &&& items@[j].price@ == list@[j].price.rounded_text()
                &&& items@[j].created_at == list@[j].created_at
                &&& items@[j].active == (list@[j].active == Some(true))
            },
            forall|j: int| 0 <= j < i ==> #[trigger] auction_ids@[j] == list@[j].auction,
    {
        let bid = AuctionBid::from_extended(&list[i], tokens);
        auction_ids.push(bid.auction.clone());
        items.push(bid);
    }
    let count = if list.len() == 0 { 0 } else { list[0].cnt };
    (VecWithTotal { count, items }, auction_ids)
}

/// A page of sale offers: the total the first row reports (0 for none), every offer as the
/// API shows it, and the NFT of each, in order.
pub fn direct_sell_page(list: &Vec<NftDirectSell>, tokens: &TokenDict) -> (res: (VecWithTotal<DirectSell>, Vec<Address>))
    requires
        forall|i: int| 0 <= i < list@.len() ==> (#[trigger] list@[i]).price.roundable(),
    ensures
        res.0.count == (if list@.len() == 0 { 0 } else { list@[0].cnt }),
        res.0.items@.len() == list@.len(),
        forall|i: int| 0 <= i < list@.len() ==> (#[trigger] res.0.items@[i]).shows(list@[i]),
        res.1@.len() == list@.len(),
        forall|i: int| 0 <= i < list@.len() ==> #[trigger] res.1@[i] == list@[i].nft,
{
    let mut items: Vec<DirectSell> = Vec::new();
    let mut nft_ids: Vec<Address> = Vec::new();
    for i in 0..list.len()
        invariant
            forall|j: int| 0 <= j < list@.len() ==> (#[trigger] list@[j]).price.roundable(),
            items@.len() == i,
            nft_ids@.len() == i,
            forall|j: int| 0 <= j < i ==> (#[trigger] items@[j]).shows(list@[j]),
            forall|j: int| 0 <= j < i ==> #[trigger] nft_ids@[j] == list@[j].nft,
    {
        let offer = DirectSell::from_db(&list[i], tokens);
        nft_ids.push(offer.nft.clone());
        items.push(offer);
    }
    let count = if list.len() == 0 { 0 } else { list[0].cnt };
    (VecWithTotal { count, items }, nft_ids)
}

/// A page of purchase offers: the total the first row reports (0 for none), every offer as
/// the API shows it, and the NFT of each, in order.
pub fn direct_buy_page(list: &Vec<NftDirectBuy>, tokens: &TokenDict) -> (res: (VecWithTotal<DirectBuy>, Vec<Address>))
    requires
        forall|i: int| 0 <= i < list@.len() ==> (#[trigger] list@[i]).price.roundable(),
    ensures
        res.0.count == (if list@.len() == 0 { 0 } else { list@[0].cnt }),
        res.0.items@.len() == list@.len(),
        forall|i: int| 0 <= i < list@.len() ==> (#[trigger] res.0.items@[i]).shows(list@[i]),
        res.1@.len() == list@.len(),
        forall|i: int| 0 <= i < list@.len() ==> #[trigger] res.1@[i] == list@[i].nft,
{
    let mut items: Vec<DirectBuy> = Vec::new();
    let mut nft_ids: Vec<Address> = Vec::new();
    for i in 0..list.len()
        invariant
            forall|j: int| 0 <= j < list@.len() ==> (#[trigger] list@[j]).price.roundable(),
            items@.len() == i,
            nft_ids@.len() == i,
            forall|j: int| 0 <= j < i ==> (#[trigger] items@[j]).shows(list@[j]),
            forall|j: int| 0 <= j < i ==> #[trigger] nft_ids@[j] == list@[j].nft,
    {
        let offer = DirectBuy::from_db(&list[i], tokens);
        nft_ids.push(offer.nft.clone());
        items.push(offer);
    }
    let count = if list.len() == 0 { 0 } else { list[0].cnt };
    (VecWithTotal { count, items }, nft_ids)
}

} // verus!
