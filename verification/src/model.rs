//! The shapes in which the API answers, and how database rows become them.
use crate::db::decimal::Decimal;
use crate::db::enums::{AuctionStatus, DirectBuyState, DirectSellState, EventCategory};
use crate::db::types::{
    meta_parsed_of, MetaDocument, NftAuction, NftAuctionBid, NftAuctionBidExt, NftCollection,
    NftCollectionDetails, NftCollectionSimple, NftDetails, NftDirectBuy, NftDirectSell, NftPrice,
    SearchResult as SearchRow, TraitDef,
};
use crate::db::{copy_text, Address};
use crate::keyed::{keyed_map, put_keyed, unique_keys};
use crate::token::TokenDict;
use vstd::prelude::*;

verus! {

/// A page of items with the total number of items that the query matches.
pub struct VecWithTotal<T> {
    pub count: i64,
    pub items: Vec<T>,
}

/// What every contract shows.
pub struct Contract {
    pub address: Address,
    pub name: Option<String>,
    pub description: Option<String>,
    pub owner: Option<Address>,
    pub verified: Option<bool>,
}

/// A price in a token, with its USD equivalent where known.
pub struct Price {
    pub token: Address,
    pub price: String,
    pub usd_price: Option<String>,
}

/// A point of the USD price history of an NFT.
pub struct NFTPrice {
    pub usd_price: String,
    pub ts: i64,
}

/// An NFT; `attributes` is JSON text.
pub struct NFT {
    pub contract: Contract,
    pub collection: Address,
    pub image: Option<String>,
    pub mimetype: Option<String>,
    pub typ: Option<String>,
    pub attributes: Option<String>,
    pub current_price: Option<Price>,
    pub last_price: Option<Price>,
    pub auction: Option<Address>,
    pub forsale: Option<Address>,
    pub best_offer: Option<Address>,
    pub manager: Option<Address>,
}

/// A collection.
pub struct Collection {
    pub contract: Contract,
    pub verified: Option<bool>,
    pub created_at: usize,
    pub wallpaper: Option<String>,
    pub logo: Option<String>,
    pub owners_count: usize,
    pub nft_count: usize,
    pub lowest_price: Option<String>,
    pub total_price: Option<String>,
}

/// A collection with its market statistics.
pub struct CollectionDetails {
    pub collection: Collection,
    pub floor_price_usd: Option<String>,
    pub total_volume_usd: Option<String>,
}

/// A collection in the short listing.
pub struct CollectionSimple {
    pub address: Address,
    pub name: Option<String>,
    pub description: Option<String>,
    pub verified: bool,
    pub logo: Option<String>,
    pub nft_count: i64,
}

/// An auction.
pub struct Auction {
    pub address: Address,
    pub nft: Address,
    pub status: AuctionStatus,
    pub bid_token: Address,
    pub wallet_for_bids: Option<Address>,
    pub start_bid: Option<String>,
    pub start_usd_bid: Option<String>,
    pub min_bid: Option<String>,
    pub min_usd_bid: Option<String>,
    pub max_bid: Option<String>,
    pub max_usd_bid: Option<String>,
    pub start_time: Option<i64>,
    pub finish_time: Option<i64>,
    pub last_bid_from: Option<Address>,
    pub last_bid_ts: Option<i64>,
    pub last_bid_value: Option<String>,
    pub last_bid_usd_value: Option<String>,
}

/// A bid in an auction.
pub struct AuctionBid {
    pub from: Address,
    pub auction: Address,
    pub nft: Address,
    pub price: String,
    pub usd_price: Option<String>,
    pub active: bool,
    pub created_at: i64,
}

/// A fixed-price sale offer.
pub struct DirectSell {
    pub address: Address,
    pub nft: Address,
    pub seller: Option<Address>,
    pub price: Price,
    pub status: DirectSellState,
    pub created: i64,
    pub finished: Option<i64>,
    pub expired: Option<i64>,
}

/// An offer to buy an NFT.
pub struct DirectBuy {
    pub address: Address,
    pub nft: Address,
    pub buyer: Option<Address>,
    pub price: Price,
    pub status: DirectBuyState,
    pub created: i64,
    pub finished: Option<i64>,
    pub expired: Option<i64>,
}

/// One hit of the search.
pub struct SearchResult {
    pub address: Address,
    pub image: Option<String>,
    pub contract_type: EventCategory,
}

/// What a wallet signs to log in.
pub struct LoginData {
    pub public_key: String,
    pub address: String,
    pub wallet_type: String,
    pub timestamp: u64,
    pub signature: String,
    pub with_signature_id: Option<i32>,
}

/// The claims of an access token: its subject (the wallet address) and its expiry, in seconds
/// since the epoch.
pub struct JwtClaims {
    pub sub: String,
    pub exp: u64,
}

// ---------------------------------------------------------------------------------------
// How optional values read in contracts.

/// The text of an optional text.
pub open spec fn opt_view(o: Option<String>) -> Option<Seq<char>> {
    match o {
        Some(s) => Some(s@),
        None => None,
    }
}

/// An optional text, or the empty text where there is none (`unwrap_or_default`).
pub open spec fn or_empty(o: Option<String>) -> Seq<char> {
    match o {
        Some(s) => s@,
        None => Seq::empty(),
    }
}

/// The text of an optional number.
pub open spec fn opt_decimal_text(o: Option<Decimal>) -> Option<Seq<char>> {
    match o {
        Some(d) => Some(d.text()),
        None => None,
    }
}

/// Whether an optional number, where there is one, can be rounded to an integer.
pub open spec fn opt_roundable(o: Option<Decimal>) -> bool {
    o matches Some(d) ==> d.roundable()
}

/// The text of an optional number rounded to an integer.
pub open spec fn opt_decimal_rounded(o: Option<Decimal>) -> Option<Seq<char>> {
    match o {
        Some(d) => Some(d.rounded_text()),
        None => None,
    }
}

/// An optional text, or the empty text where there is none.
pub fn text_or_empty(o: &Option<String>) -> (res: String)
    ensures
        res@ == or_empty(*o),
{
    match o {
        Some(s) => s.clone(),
        None => String::new(),
    }
}

/// The text of an optional number.
pub fn decimal_text(o: &Option<Decimal>) -> (res: Option<String>)
    ensures
        opt_view(res) == opt_decimal_text(*o),
{
    match o {
        Some(d) => Some(d.to_text()),
        None => None,
    }
}

/// The text of an optional number rounded to an integer, as token amounts are printed.
pub fn decimal_amount(tokens: &TokenDict, token: &str, o: &Option<Decimal>) -> (res: Option<String>)
    requires
        opt_roundable(*o),
    ensures
        opt_view(res) == opt_decimal_rounded(*o),
{
    match o {
        Some(d) => Some(tokens.format_value(token, d)),
        None => None,
    }
}

// ---------------------------------------------------------------------------------------
// Conversions from database rows.

impl NFT {
    /// Whether this is the NFT as the API shows the row: the row's fields, its metadata as
    /// parsed, and no prices.
    pub open spec fn shows(self, nft: NftDetails) -> bool {
        &&& nft.address is Some
        &&& self.contract.address == nft.address.unwrap()
        &&& self.contract.name == nft.name
        &&& self.contract.description == nft.description
        &&& self.contract.owner == nft.owner
        &&& self.contract.verified is None
        &&& self.collection@ == or_empty(nft.collection)
        &&& self.manager == nft.manager
        &&& self.image == meta_parsed_of(nft.meta).image
        &&& self.mimetype == meta_parsed_of(nft.meta).mimetype
        &&& self.typ == meta_parsed_of(nft.meta).typ
        &&& self.attributes == meta_parsed_of(nft.meta).attributes
        &&& self.auction == nft.auction
        &&& self.forsale == nft.forsale
        &&& self.best_offer == nft.best_offer
        &&& self.current_price is None
        &&& self.last_price is None
    }

    /// The NFT as the API shows it; a row without an address is not shown (the caller
    /// rules it out). Prices are not filled in here.
    pub fn from_db(nft: &NftDetails, _tokens: &TokenDict) -> (res: NFT)
        requires
            nft.address is Some,
        ensures
            res.shows(*nft),
    {
        let parsed = nft.parse_meta();
        let address = match &nft.address {
            Some(a) => a.clone(),
            None => String::new(),
        };
        NFT {
            contract: Contract {
                address,
                name: copy_text(&nft.name),
                description: copy_text(&nft.description),
                owner: copy_text(&nft.owner),
                verified: None,
            },
            collection: text_or_empty(&nft.collection),
            manager: copy_text(&nft.manager),
            image: parsed.image,
            mimetype: parsed.mimetype,
            typ: parsed.typ,
            attributes: parsed.attributes,
            auction: copy_text(&nft.auction),
            forsale: copy_text(&nft.forsale),
            best_offer: copy_text(&nft.best_offer),
            current_price: None,
            last_price: None,
        }
    }
}

impl Collection {
    /// Whether this is how the API shows the row.
    pub open spec fn shows(self, db: NftCollection) -> bool {
        &&& self.contract.address == db.address
        &&& self.contract.name matches Some(n) && n@ == or_empty(db.name)
        &&& self.contract.description matches Some(d) && d@ == or_empty(db.description)
        &&& self.contract.owner == Some(db.owner)
        &&& self.contract.verified == Some(db.verified)
        &&& self.verified == Some(db.verified)
        &&& self.created_at == db.created as usize
        &&& self.logo == db.logo
        &&& self.wallpaper == db.wallpaper
        &&& self.owners_count == (match db.owners_count { Some(c) => c, None => 0i32 }) as usize
        &&& self.nft_count == db.nft_count as usize
        &&& opt_view(self.total_price) == opt_decimal_text(db.total_price)
        &&& self.lowest_price is None
    }

    /// The collection as the API shows it. Name and description are always given (empty
    /// where missing); counts are shown as machine words (`as usize`).
    pub fn from_db(db: &NftCollection, _tokens: &TokenDict) -> (res: Collection)
        ensures
            res.shows(*db),
    {
        let owners_count: i32 = match db.owners_count {
            Some(c) => c,
            None => 0,
        };
        Collection {
            contract: Contract {
                address: db.address.clone(),
                name: Some(text_or_empty(&db.name)),
                description: Some(text_or_empty(&db.description)),
                owner: Some(db.owner.clone()),
                verified: Some(db.verified),
            },
            verified: Some(db.verified),
            created_at: db.created as usize,
            logo: copy_text(&db.logo),
            wallpaper: copy_text(&db.wallpaper),
            owners_count: owners_count as usize,
            nft_count: db.nft_count as usize,
            total_price: decimal_text(&db.total_price),
            lowest_price: None,
        }
    }
}

impl CollectionDetails {
    /// Whether this is how the API shows the row.
    pub open spec fn shows(self, db: NftCollectionDetails) -> bool {
        &&& self.collection.contract.address@ == or_empty(db.address)
        &&& self.collection.contract.name matches Some(n) && n@ == or_empty(db.name)
        &&& self.collection.contract.description matches Some(d) && d@ == or_empty(db.description)
        &&& self.collection.contract.owner matches Some(o) && o@ == or_empty(db.owner)
        &&& self.collection.contract.verified == db.verified
        &&& self.collection.verified == db.verified
        &&& self.collection.created_at == (match db.created { Some(t) => t, None => 0i64 }) as usize
        &&& self.collection.logo == db.logo
        &&& self.collection.wallpaper == db.wallpaper
        &&& self.collection.owners_count == (match db.owners_count { Some(c) => c, None => 0i64 }) as usize
        &&& self.collection.nft_count == (match db.nft_count { Some(c) => c, None => 0i64 }) as usize
        &&& opt_view(self.collection.total_price) == opt_decimal_text(db.total_price)
        &&& self.collection.lowest_price is None
        &&& opt_view(self.floor_price_usd) == opt_decimal_text(db.floor_price_usd)
        &&& opt_view(self.total_volume_usd) == opt_decimal_text(db.total_volume_usd)
    }

    /// The collection with its statistics as the API shows it; missing address and owner
    /// show as empty texts, a missing creation instant as the epoch.
    pub fn from_db(db: &NftCollectionDetails, _tokens: &TokenDict) -> (res: CollectionDetails)
        ensures
            res.shows(*db),
    {
        let created: i64 = match db.created {
            Some(t) => t,
            None => 0,
        };
        let owners_count: i64 = match db.owners_count {
            Some(c) => c,
            None => 0,
        };
        let nft_count: i64 = match db.nft_count {
            Some(c) => c,
            None => 0,
        };
        CollectionDetails {
            collection: Collection {
                contract: Contract {
                    address: text_or_empty(&db.address),
                    name: Some(text_or_empty(&db.name)),
                    description: Some(text_or_empty(&db.description)),
                    owner: Some(text_or_empty(&db.owner)),
                    verified: db.verified,
                },
                verified: db.verified,
                created_at: created as usize,
                logo: copy_text(&db.logo),
                wallpaper: copy_text(&db.wallpaper),
                owners_count: owners_count as usize,
                nft_count: nft_count as usize,
                total_price: decimal_text(&db.total_price),
                lowest_price: None,
            },
            floor_price_usd: decimal_text(&db.floor_price_usd),
            total_volume_usd: decimal_text(&db.total_volume_usd),
        }
    }
}

impl CollectionSimple {
    /// Whether this is how the API shows the row.
    pub open spec fn shows(self, db: NftCollectionSimple) -> bool {
        &&& self.address == db.address
        &&& self.name == db.name
        &&& self.description == db.description
        &&& self.verified == db.verified
        &&& self.logo == db.logo
        &&& self.nft_count == db.nft_count
    }

    /// The collection as the short listing shows it.
    pub fn from_db(db: &NftCollectionSimple) -> (res: CollectionSimple)
        ensures
            res.shows(*db),
    {
        CollectionSimple {
            address: db.address.clone(),
            name: copy_text(&db.name),
            description: copy_text(&db.description),
            verified: db.verified,
            logo: copy_text(&db.logo),
            nft_count: db.nft_count,
        }
    }
}

/// Whether the amounts of an auction in its bid token, which are rounded for showing, can
/// be rounded.
pub open spec fn auction_amounts_roundable(db: NftAuction) -> bool {
    &&& opt_roundable(db.start_price)
    &&& opt_roundable(db.max_bid)
    &&& opt_roundable(db.min_bid)
}

impl Auction {
    /// Whether this is how the API shows the row.
    pub open spec fn shows(self, db: NftAuction) -> bool {
        &&& self.address@ == or_empty(db.address)
        &&& self.nft@ == or_empty(db.nft)
        &&& self.status == (match db.status { Some(s) => s, None => AuctionStatus::Active })
        &&& self.bid_token@ == or_empty(db.price_token)
        &&& self.wallet_for_bids == db.wallet_for_bids
        &&& opt_view(self.start_bid) == opt_decimal_rounded(db.start_price)
        &&& opt_view(self.start_usd_bid) == opt_decimal_text(db.start_usd_price)
        &&& opt_view(self.max_bid) == opt_decimal_rounded(db.max_bid)
        &&& opt_view(self.min_bid) == opt_decimal_rounded(db.min_bid)
        &&& opt_view(self.max_usd_bid) == opt_decimal_text(db.max_usd_bid)
        &&& opt_view(self.min_usd_bid) == opt_decimal_text(db.min_usd_bid)
        &&& self.start_time == db.created_at
        &&& self.finish_time == db.finished_at
        &&& self.last_bid_from == db.last_bid_from
        &&& self.last_bid_ts == db.last_bid_ts
        &&& opt_view(self.last_bid_value) == opt_decimal_text(db.last_bid_value)
        &&& opt_view(self.last_bid_usd_value) == opt_decimal_text(db.last_bid_usd_value)
    }

    /// The auction as the API shows it: amounts in the bid token are rounded to integers,
    /// USD amounts are printed as they stand; missing address, NFT and token show as empty
    /// texts and a missing status as active.
    pub fn from_db(db: &NftAuction, tokens: &TokenDict) -> (res: Auction)
        requires
            auction_amounts_roundable(*db),
        ensures
            res.shows(*db),
    {
        let token = text_or_empty(&db.price_token);
        let status = match db.status {
            Some(s) => s,
            None => AuctionStatus::default(),
        };
        Auction {
            address: text_or_empty(&db.address),
            status,
            nft: text_or_empty(&db.nft),
            wallet_for_bids: copy_text(&db.wallet_for_bids),
            start_bid: decimal_amount(tokens, token.as_str(), &db.start_price),
            start_usd_bid: decimal_text(&db.start_usd_price),
            max_bid: decimal_amount(tokens, token.as_str(), &db.max_bid),
            min_bid: decimal_amount(tokens, token.as_str(), &db.min_bid),
            max_usd_bid: decimal_text(&db.max_usd_bid),
            min_usd_bid: decimal_text(&db.min_usd_bid),
            start_time: db.created_at,
            finish_time: db.finished_at,
            last_bid_from: copy_text(&db.last_bid_from),
            last_bid_ts: db.last_bid_ts,
            last_bid_value: decimal_text(&db.last_bid_value),
            last_bid_usd_value: decimal_text(&db.last_bid_usd_value),
            bid_token: token,
        }
    }
}

impl AuctionBid {
    /// A bid of the given auction as the API shows it; its amount is rounded to an integer.
    pub fn from_db(bid: &NftAuctionBid, auction: &NftAuction, tokens: &TokenDict) -> (res: AuctionBid)
        requires
            bid.price.roundable(),
        ensures
            res.from == bid.buyer,
            res.nft@ == or_empty(auction.nft),
            res.auction == bid.auction,
            res.price@ == bid.price.rounded_text(),
            opt_view(res.usd_price) == opt_decimal_text(bid.usd_price),
            res.created_at == bid.created_at,
            res.active == bid.active,
    {
        let token = text_or_empty(&auction.price_token);
        AuctionBid {
            from: bid.buyer.clone(),
            nft: text_or_empty(&auction.nft),
            auction: bid.auction.clone(),
            price: tokens.format_value(token.as_str(), &bid.price),
            usd_price: decimal_text(&bid.usd_price),
            created_at: bid.created_at,
            active: bid.active,
        }
    }

    /// A bid read with its auction's details beside it; a bid of unknown state shows as
    /// inactive.
    pub fn from_extended(bid: &NftAuctionBidExt, tokens: &TokenDict) -> (res: AuctionBid)
        requires
            bid.price.roundable(),
        ensures
            res.from == bid.buyer,
            res.nft@ == or_empty(bid.nft),
            res.auction == bid.auction,
            res.price@ == bid.price.rounded_text(),
            opt_view(res.usd_price) == opt_decimal_text(bid.usd_price),
            res.created_at == bid.created_at,
            res.active == (bid.active == Some(true)),
    {
        let token = text_or_empty(&bid.price_token);
        AuctionBid {
            from: bid.buyer.clone(),
            nft: text_or_empty(&bid.nft),
            auction: bid.auction.clone(),
            price: tokens.format_value(token.as_str(), &bid.price),
            usd_price: decimal_text(&bid.usd_price),
            created_at: bid.created_at,
            active: match bid.active {
                Some(a) => a,
                None => false,
            },
        }
    }
}

impl DirectSell {
    /// Whether this is how the API shows the row.
    pub open spec fn shows(self, val: NftDirectSell) -> bool {
        &&& self.address == val.address
        &&& self.nft == val.nft
        &&& self.status == val.state
        &&& self.seller == val.seller
        &&& self.price.token == val.price_token
        &&& self.price.price@ == val.price.rounded_text()
        &&& opt_view(self.price.usd_price) == opt_decimal_text(val.usd_price)
        &&& self.created == val.created
        &&& self.finished == val.finished_at
        &&& self.expired == val.expired_at
    }

    /// The sale offer as the API shows it; its price is rounded to an integer.
    pub fn from_db(val: &NftDirectSell, tokens: &TokenDict) -> (res: DirectSell)
        requires
            val.price.roundable(),
        ensures
            res.shows(*val),
    {
        DirectSell {
            address: val.address.clone(),
            nft: val.nft.clone(),
            status: val.state,
            seller: copy_text(&val.seller),
            price: Price {
                token: val.price_token.clone(),
                price: tokens.format_value(val.price_token.as_str(), &val.price),
                usd_price: decimal_text(&val.usd_price),
            },
            created: val.created,
            finished: val.finished_at,
            expired: val.expired_at,
        }
    }
}

impl DirectBuy {
    /// Whether this is how the API shows the row.
    pub open spec fn shows(self, val: NftDirectBuy) -> bool {
        &&& self.address == val.address
        &&& self.nft == val.nft
        &&& self.buyer == val.buyer
        &&& self.status == val.state
        &&& self.price.token == val.price_token
        &&& self.price.price@ == val.price.rounded_text()
        &&& opt_view(self.price.usd_price) == opt_decimal_text(val.usd_price)
        &&& self.created == val.created
        &&& self.finished == val.finished_at
        &&& self.expired == val.expired_at
    }

    /// The purchase offer as the API shows it; its price is rounded to an integer.
    pub fn from_db(val: &NftDirectBuy, tokens: &TokenDict) -> (res: DirectBuy)
        requires
            val.price.roundable(),
        ensures
            res.shows(*val),
    {
        DirectBuy {
            address: val.address.clone(),
            nft: val.nft.clone(),
            buyer: copy_text(&val.buyer),
            status: val.state,
            price: Price {
                token: val.price_token.clone(),
                price: tokens.format_value(val.price_token.as_str(), &val.price),
                usd_price: decimal_text(&val.usd_price),
            },
            created: val.created,
            finished: val.finished_at,
            expired: val.expired_at,
        }
    }
}

impl NFTPrice {
    /// A point of the price history; the USD price is rounded to an integer.
    pub fn from_db(val: &NftPrice) -> (res: NFTPrice)
        requires
            val.usd_price.roundable(),
        ensures
            res.usd_price@ == val.usd_price.rounded_text(),
            res.ts == val.ts,
    {
        NFTPrice { usd_price: val.usd_price.to_rounded_text(), ts: val.ts }
    }
}

/// An NFT as shown carries each of its row's fields under the same name: above all, its owner
/// is the row's owner and its manager the row's manager, even where the two differ (a listed
/// NFT is managed by its sale); its metadata is the row's as parsed, and it has no prices.
pub proof fn lemma_nft_shows_its_row(n: NFT, row: NftDetails)
    requires
        n.shows(row),
    ensures
        n.contract.owner == row.owner,
        n.manager == row.manager,
        row.owner != row.manager ==> n.contract.owner != n.manager,
        row.address matches Some(a) && n.contract.address == a,
        n.contract.address == row.address.unwrap(),
        n.contract.name == row.name,
        n.contract.description == row.description,
        n.contract.verified is None,
        n.collection@ == or_empty(row.collection),
        n.image == meta_parsed_of(row.meta).image,
        n.mimetype == meta_parsed_of(row.meta).mimetype,
        n.typ == meta_parsed_of(row.meta).typ,
        n.attributes == meta_parsed_of(row.meta).attributes,
        n.auction == row.auction,
        n.forsale == row.forsale,
        n.best_offer == row.best_offer,
        n.current_price is None,
        n.last_price is None,
{
}

/// An auction as shown carries each of its row's fields under the same name: the highest bid
/// is the row's highest bid and the lowest bid the row's lowest, each rounded, whatever the
/// other amounts are; the USD amounts are the row's as they stand; a missing status is
/// active and missing texts are empty.
pub proof fn lemma_auction_shows_its_row(a: Auction, row: NftAuction)
    requires
        a.shows(row),
    ensures
        opt_view(a.max_bid) == opt_decimal_rounded(row.max_bid),
        opt_view(a.min_bid) == opt_decimal_rounded(row.min_bid),
        opt_view(a.start_bid) == opt_decimal_rounded(row.start_price),
        opt_view(a.max_usd_bid) == opt_decimal_text(row.max_usd_bid),
        opt_view(a.min_usd_bid) == opt_decimal_text(row.min_usd_bid),
        opt_view(a.start_usd_bid) == opt_decimal_text(row.start_usd_price),
        row.max_bid is None <==> a.max_bid is None,
        row.min_bid is None <==> a.min_bid is None,
        a.address@ == or_empty(row.address),
        a.nft@ == or_empty(row.nft),
        a.status == (match row.status { Some(s) => s, None => AuctionStatus::Active }),
        a.bid_token@ == or_empty(row.price_token),
        a.wallet_for_bids == row.wallet_for_bids,
        a.start_time == row.created_at,
        a.finish_time == row.finished_at,
        a.last_bid_from == row.last_bid_from,
        a.last_bid_ts == row.last_bid_ts,
        opt_view(a.last_bid_value) == opt_decimal_text(row.last_bid_value),
        opt_view(a.last_bid_usd_value) == opt_decimal_text(row.last_bid_usd_value),
{
}

/// A sale offer as shown carries each of its row's fields under the same name: above all, it
/// expires when the row expires and finishes when the row finishes, each left unset where the
/// row's is; its price is the row's rounded, in the row's token.
pub proof fn lemma_direct_sell_shows_its_row(d: DirectSell, row: NftDirectSell)
    requires
        d.shows(row),
    ensures
        d.expired == row.expired_at,
        d.finished == row.finished_at,
        d.created == row.created,
        row.finished_at is None ==> d.finished is None,
        row.expired_at matches Some(t) ==> d.expired == Some(t),
        d.address == row.address,
        d.nft == row.nft,
        d.status == row.state,
        d.seller == row.seller,
        d.price.token == row.price_token,
        d.price.price@ == row.price.rounded_text(),
        opt_view(d.price.usd_price) == opt_decimal_text(row.usd_price),
{
}

/// A purchase offer as shown carries each of its row's fields under the same name: it expires
/// when the row expires and finishes when the row finishes; its price is the row's rounded, in
/// the row's token.
pub proof fn lemma_direct_buy_shows_its_row(d: DirectBuy, row: NftDirectBuy)
    requires
        d.shows(row),
    ensures
        d.expired == row.expired_at,
        d.finished == row.finished_at,
        d.created == row.created,
        d.address == row.address,
        d.nft == row.nft,
        d.buyer == row.buyer,
        d.status == row.state,
        d.price.token == row.price_token,
        d.price.price@ == row.price.rounded_text(),
        opt_view(d.price.usd_price) == opt_decimal_text(row.usd_price),
{
}

impl SearchResult {
    /// The search hit as the API shows it; a row whose object type names no contract
    /// category gives no hit.
    pub fn from_db(val: &SearchRow) -> (res: Option<SearchResult>)
        ensures
            match res {
                Some(r) => {
                    &&& r.address == val.address
                    &&& r.image == val.image
                    &&& r.contract_type.name_of() == val.object_type@
                },
                None => forall|c: EventCategory| #[trigger] c.name_of() != val.object_type@,
            },
    {
        match EventCategory::from_name(&val.object_type) {
            Some(contract_type) => Some(SearchResult {
                address: val.address.clone(),
                image: copy_text(&val.image),
                contract_type,
            }),
            None => None,
        }
    }
}

// ---------------------------------------------------------------------------------------
// Attribute dictionaries.

/// The map that a list of entries gives, a later entry replacing an earlier one with the
/// same key.
pub open spec fn entries_map(s: Seq<(String, String)>) -> Map<Seq<char>, Seq<char>>
    decreases s.len(),
{
    if s.len() == 0 {
        Map::empty()
    } else {
        entries_map(s.drop_last()).insert(s.last().0@, s.last().1@)
    }
}

/// No two entries have the same key.
pub open spec fn distinct_keys(s: Seq<(String, String)>) -> bool {
    unique_keys(s)
}

/// The map of the entries is the keyed map of the list, each value read as its text.
proof fn lemma_entries_are_keyed(s: Seq<(String, String)>)
    ensures
        entries_map(s) == keyed_map(s).map_values(|v: String| v@),
    decreases s.len(),
{
    if s.len() > 0 {
        lemma_entries_are_keyed(s.drop_last());
    }
    assert(entries_map(s) =~= keyed_map(s).map_values(|v: String| v@));
}

/// Enters a key and its value: the value of an entry with that key is replaced, or an
/// entry is added at the end.
pub fn put_entry(entries: &mut Vec<(String, String)>, k: String, v: String)
    requires
        distinct_keys(old(entries)@),
    ensures
        distinct_keys(final(entries)@),
        entries_map(final(entries)@) == entries_map(old(entries)@).insert(k@, v@),
{
    let ghost (key, value) = (k@, v@);
    proof {
        lemma_entries_are_keyed(entries@);
    }
    put_keyed(entries, k, v);
    proof {
        lemma_entries_are_keyed(entries@);
        assert(entries_map(entries@) =~= entries_map(old(entries)@).insert(key, value));
    }
}

/// The traits of one collection and the values that each takes; `attributes` maps a trait
/// type to a JSON array of values. The map is held as a list of entries whose keys are
/// distinct (see `entries_map`), not as vstd's `StringHashMap`: that map can be searched by key
/// but offers no way to walk its entries, and the answer has to hand every entry out to be
/// serialized.
pub struct CollectionAttributes {
    pub collection: Address,
    pub attributes: Vec<(String, String)>,
}

/// The text of a trait's values (a JSON array), or the empty text where it is missing.
pub open spec fn values_text(d: TraitDef) -> Seq<char> {
    match d.values {
        Some(v) => v@,
        None => Seq::empty(),
    }
}

/// The state after reading a list of trait definitions in turn: the finished groups (a
/// collection and its map from trait type to values), the collection being read and its
/// map so far. The first definition only opens its collection: its own trait is not
/// entered. A definition of the collection being read enters its trait; one of another
/// collection finishes the group and opens a new one with its trait.
pub open spec fn attribute_fold(defs: Seq<TraitDef>) -> (Seq<(Seq<char>, Map<Seq<char>, Seq<char>>)>, Option<Seq<char>>, Map<Seq<char>, Seq<char>>)
    decreases defs.len(),
{
    if defs.len() == 0 {
        (Seq::empty(), None, Map::empty())
    } else {
        let prev = attribute_fold(defs.drop_last());
        let d = defs.last();
        match prev.1 {
            None => (prev.0, Some(d.collection@), prev.2),
            Some(c) => if c == d.collection@ {
                (prev.0, prev.1, prev.2.insert(d.trait_type@, values_text(d)))
            } else {
                (prev.0.push((c, prev.2)), Some(d.collection@), Map::empty().insert(d.trait_type@, values_text(d)))
            },
        }
    }
}

/// The groups that a list of trait definitions gives: the finished ones and the last one.
pub open spec fn attribute_groups(defs: Seq<TraitDef>) -> Seq<(Seq<char>, Map<Seq<char>, Seq<char>>)> {
    let f = attribute_fold(defs);
    f.0.push((f.1.unwrap(), f.2))
}

/// What a list of collection attribute dictionaries shows: each collection and its map.
pub open spec fn groups_view(v: Seq<CollectionAttributes>) -> Seq<(Seq<char>, Map<Seq<char>, Seq<char>>)> {
    v.map_values(|c: CollectionAttributes| (c.collection@, entries_map(c.attributes@)))
}

impl CollectionAttributes {
    /// Groups trait definitions, which come ordered by collection, into one dictionary per
    /// run of definitions of the same collection (see `attribute_fold`). The list must not
    /// be empty, and every definition after the first must have its values.
    pub fn from_db(defs: &[TraitDef]) -> (res: Vec<CollectionAttributes>)
        requires
            defs@.len() > 0,
            forall|i: int| 1 <= i < defs@.len() ==> (#[trigger] defs@[i]).values is Some,
        ensures
            groups_view(res@) == attribute_groups(defs@),
            forall|i: int| 0 <= i < res@.len() ==> distinct_keys((#[trigger] res@[i]).attributes@),
    {
        let mut res: Vec<CollectionAttributes> = Vec::new();
        let mut collection: Option<String> = None;
        let mut attributes: Vec<(String, String)> = Vec::new();
        let n = defs.len();
        let mut i: usize = 0;
        while i < n
            invariant
                n == defs@.len(),
                i <= n,
                forall|k: int| 1 <= k < defs@.len() ==> (#[trigger] defs@[k]).values is Some,
                groups_view(res@) == attribute_fold(defs@.take(i as int)).0,
                opt_view(collection) == attribute_fold(defs@.take(i as int)).1,
                entries_map(attributes@) == attribute_fold(defs@.take(i as int)).2,
                distinct_keys(attributes@),
                forall|k: int| 0 <= k < res@.len() ==> distinct_keys((#[trigger] res@[k]).attributes@),
                i == 0 ==> collection is None,
                i > 0 ==> collection is Some,
            decreases n - i,
        {
            let attr = &defs[i];
            proof {
                assert(defs@.take(i as int + 1).drop_last() =~= defs@.take(i as int));
                assert(defs@.take(i as int + 1).last() == defs@[i as int]);
            }
            let col = attr.collection.clone();
            let same = match &collection {
                None => None,
                Some(c) => Some(*c == col),
            };
            match same {
                None => {
                    collection = Some(col);
                },
                Some(true) => {
                    let v = text_or_empty(&attr.values);
                    put_entry(&mut attributes, attr.trait_type.clone(), v);
                },
                Some(false) => {
                    let finished = match collection {
                        Some(c) => c,
                        None => String::new(),
                    };
                    let ghost old_res = res@;
                    let mut fresh: Vec<(String, String)> = Vec::new();
                    let v = text_or_empty(&attr.values);
                    put_entry(&mut fresh, attr.trait_type.clone(), v);
                    proof {
                        assert(entries_map(Seq::<(String, String)>::empty()) == Map::<Seq<char>, Seq<char>>::empty());
                    }
                    let mut done = fresh;
                    std::mem::swap(&mut attributes, &mut done);
                    res.push(CollectionAttributes { collection: finished, attributes: done });
                    proof {
                        assert(groups_view(res@) =~= groups_view(old_res).push((res@.last().collection@, entries_map(res@.last().attributes@))));
                    }
                    collection = Some(col);
                },
            }
            i = i + 1;
        }
        proof {
            assert(defs@.take(n as int) =~= defs@);
        }
        let last = match collection {
            Some(c) => c,
            None => String::new(),
        };
        let ghost old_res = res@;
        res.push(CollectionAttributes { collection: last, attributes });
        proof {
            assert(groups_view(res@) =~= groups_view(old_res).push((res@.last().collection@, entries_map(res@.last().attributes@))));
        }
        res
    }
}

/// Each group of the dictionaries that `CollectionAttributes::from_db` builds is one run of
/// definitions of a single collection: no two neighbouring groups are of the same
/// collection.
pub proof fn lemma_attribute_groups_alternate(defs: Seq<TraitDef>)
    requires
        defs.len() > 0,
    ensures
        forall|i: int| 0 <= i < attribute_groups(defs).len() - 1 ==>
            (#[trigger] attribute_groups(defs)[i]).0 != attribute_groups(defs)[i + 1].0,
    decreases defs.len(),
{
    lemma_fold_alternate(defs);
}

/// In the state after reading definitions, no two neighbouring finished groups are of the
/// same collection, and the last finished one is not of the open collection.
proof fn lemma_fold_alternate(defs: Seq<TraitDef>)
    ensures
        ({
            let f = attribute_fold(defs);
            &&& forall|i: int| 0 <= i < f.0.len() - 1 ==> (#[trigger] f.0[i]).0 != f.0[i + 1].0
            &&& f.0.len() > 0 ==> f.1 is Some && f.0.last().0 != f.1.unwrap()
        }),
    decreases defs.len(),
{
    if defs.len() > 0 {
        lemma_fold_alternate(defs.drop_last());
        let prev = attribute_fold(defs.drop_last());
        let f = attribute_fold(defs);
        if prev.1 is Some && prev.1.unwrap() != defs.last().collection@ {
            assert forall|i: int| 0 <= i < f.0.len() - 1 implies (#[trigger] f.0[i]).0 != f.0[i + 1].0 by {
                if i < prev.0.len() - 1 {
                    assert(f.0[i] == prev.0[i] && f.0[i + 1] == prev.0[i + 1]);
                } else {
                    assert(f.0[i] == prev.0.last());
                }
            }
        }
    }
}

} // verus!
