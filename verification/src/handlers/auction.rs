//! Requests about auctions.
use crate::db::types::{NftAuction, NftAuctionBid};
use crate::db::{copy_texts, Address};
use crate::handlers::events::or_none;
use crate::model::{auction_amounts_roundable, or_empty, Auction, AuctionBid, VecWithTotal};
use crate::token::TokenDict;
use crate::keyed::{index_by_key, keyed_map, unique_keys};
use vstd::prelude::*;

verus! {

/// A request for a listing of auctions.
pub struct AuctionsQuery {
    pub owners: Option<Vec<Address>>,
    pub collections: Option<Vec<Address>>,
    pub tokens: Option<Vec<Address>>,
    pub sort: Option<AuctionsSortOrder>,
    pub limit: Option<usize>,
    pub offset: Option<usize>,
}

/// A request for one auction, or for the bids on it.
pub struct AuctionBidsQuery {
    pub auction: Address,
    pub limit: Option<usize>,
    pub offset: Option<usize>,
}

/// The orders that auction listings may be sorted in.
#[derive(Clone, Copy, Debug, PartialEq, Eq, Structural)]
pub enum AuctionsSortOrder {
    StartDate,
    BidsCount,
    Average,
    AverageInHour,
    AverageInDay,
}


/// The query for a listing of auctions: no filter where none is given, ordered by start date
/// where no order is given, the first 100 where no page is given.
pub struct AuctionsListing {
    pub owners: Vec<Address>,
    pub collections: Vec<Address>,
    pub tokens: Vec<Address>,
    pub sort: AuctionsSortOrder,
    pub limit: usize,
    pub offset: usize,
}

/// The query for a listing of auctions.
pub fn auctions_listing(params: &AuctionsQuery) -> (res: AuctionsListing)
    ensures
        res.owners@ == or_none(params.owners),
        res.collections@ == or_none(params.collections),
        res.tokens@ == or_none(params.tokens),
        res.sort == (match params.sort {
            Some(s) => s,
            None => AuctionsSortOrder::StartDate,
        }),
        res.limit == (match params.limit {
            Some(l) => l,
            None => 100,
        }),
        res.offset == (match params.offset {
            Some(o) => o,
            None => 0,
        }),
{
    AuctionsListing {
        owners: match &params.owners {
            Some(v) => copy_texts(v),
            None => Vec::new(),
        },
        collections: match &params.collections {
            Some(v) => copy_texts(v),
            None => Vec::new(),
        },
        tokens: match &params.tokens {
            Some(v) => copy_texts(v),
            None => Vec::new(),
        },
        sort: match params.sort {
            Some(s) => s,
            None => AuctionsSortOrder::StartDate,
        },
        limit: match params.limit {
            Some(l) => l,
            None => 100,
        },
        offset: match params.offset {
            Some(o) => o,
            None => 0,
        },
    }
}

/// A page of auctions: the total the first row reports (0 for none), every row as the API
/// shows it, and the NFT of each, in order.
pub fn auctions_page(list: &Vec<NftAuction>, tokens: &TokenDict) -> (res: (VecWithTotal<Auction>, Vec<Address>))
    requires
        forall|i: int| 0 <= i < list@.len() ==> auction_amounts_roundable((#[trigger] list@[i])),
    ensures
        res.0.count == (if list@.len() == 0 { 0 } else { list@[0].cnt }),
        res.0.items@.len() == list@.len(),
        forall|i: int| 0 <= i < list@.len() ==> (#[trigger] res.0.items@[i]).shows(list@[i]),
        res.1@.len() == list@.len(),
        forall|i: int| 0 <= i < list@.len() ==> (#[trigger] res.1@[i])@ == or_empty(list@[i].nft),
{
    let mut items: Vec<Auction> = Vec::new();
    let mut nft_ids: Vec<Address> = Vec::new();
    for i in 0..list.len()
        invariant
            forall|j: int| 0 <= j < list@.len() ==> auction_amounts_roundable((#[trigger] list@[j])),
            items@.len() == i,
            nft_ids@.len() == i,
            forall|j: int| 0 <= j < i ==> (#[trigger] items@[j]).shows(list@[j]),
            forall|j: int| 0 <= j < i ==> (#[trigger] nft_ids@[j])@ == or_empty(list@[j].nft),
    {
        let auction = Auction::from_db(&list[i], tokens);
        nft_ids.push(auction.nft.clone());
        items.push(auction);
    }
    let count = if list.len() == 0 { 0 } else { list[0].cnt };
    (VecWithTotal { count, items }, nft_ids)
}

/// A page of the bids of an auction: the total the first row reports (0 for none), every bid
/// as the API shows it, and the auction of each, in order.
pub fn auction_bids_page(bids: &Vec<NftAuctionBid>, auction: &NftAuction, tokens: &TokenDict) -> (res: (VecWithTotal<AuctionBid>, Vec<Address>))
    requires
        forall|i: int| 0 <= i < bids@.len() ==> (#[trigger] bids@[i]).price.roundable(),
    ensures
        res.0.count == (if bids@.len() == 0 { 0 } else { bids@[0].cnt }),
        res.0.items@.len() == bids@.len(),
        forall|i: int| 0 <= i < bids@.len() ==> {
            &&& (#[trigger] res.0.items@[i]).from == bids@[i].buyer
            &&& res.0.items@[i].auction == bids@[i].auction
            &&& res.0.items@[i].nft@ == or_empty(auction.nft)
            &&& res.0.items@[i].price@ == bids@[i].price.rounded_text()
            &&& res.0.items@[i].created_at == bids@[i].created_at
            &&& res.0.items@[i].active == bids@[i].active
        },
        res.1@.len() == bids@.len(),
        forall|i: int| 0 <= i < bids@.len() ==> #[trigger] res.1@[i] == bids@[i].auction,
{
    let mut items: Vec<AuctionBid> = Vec::new();
    let mut auction_ids: Vec<Address> = Vec::new();
    for i in 0..bids.len()
        invariant
            forall|j: int| 0 <= j < bids@.len() ==> (#[trigger] bids@[j]).price.roundable(),
            items@.len() == i,
            auction_ids@.len() == i,
            forall|j: int| 0 <= j < i ==> {
                &&& (#[trigger] items@[j]).from == bids@[j].buyer
                &&& items@[j].auction == bids@[j].auction
                &&& items@[j].nft@ == or_empty(auction.nft)
                &&& items@[j].price@ == bids@[j].price.rounded_text()
                &&& items@[j].created_at == bids@[j].created_at
                &&& items@[j].active == bids@[j].active
            },
            forall|j: int| 0 <= j < i ==> #[trigger] auction_ids@[j] == bids@[j].auction,
    {
        let bid = AuctionBid::from_db(&bids[i], auction, tokens);
        auction_ids.push(bid.auction.clone());
        items.push(bid);
    }
    let count = if bids.len() == 0 { 0 } else { bids[0].cnt };
    (VecWithTotal { count, items }, auction_ids)
}


/// The auctions by address, each address once with the last auction that has it.
pub fn auctions_by_address(items: Vec<Auction>) -> (res: Vec<(String, Auction)>)
    ensures
        unique_keys(res@),
        keyed_map(res@) == keyed_map(items@.map_values(|x: Auction| (x.address, x))),
{
    let ghost all = items@;
    let mut pairs: Vec<(String, Auction)> = Vec::new();
    for item in it: items
        invariant
            it.seq() == all,
            pairs@ == all.take(it.index() as int).map_values(|x: Auction| (x.address, x)),
    {
        let ghost idx = it.index() as int;
        let key = item.address.clone();
        pairs.push((key, item));
        proof {
            assert(pairs@ =~= all.take(idx + 1).map_values(|x: Auction| (x.address, x)));
        }
    }
    proof {
        assert(all.take(all.len() as int) =~= all);
    }
    index_by_key(pairs)
}


/// The NFT of each indexed auction, in the order of the index.
pub fn nfts_of_auctions(index: &Vec<(String, Auction)>) -> (res: Vec<String>)
    ensures
        res@.len() == index@.len(),
        forall|i: int| 0 <= i < index@.len() ==> #[trigger] res@[i] == index@[i].1.nft,
{
    let mut res: Vec<String> = Vec::new();
    for i in 0..index.len()
        invariant
            res@.len() == i,
            forall|j: int| 0 <= j < i ==> #[trigger] res@[j] == index@[j].1.nft,
    {
        res.push(index[i].1.nft.clone());
    }
    res
}

} // verus!
