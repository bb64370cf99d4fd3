//! Rows as the database returns them. Instants are held as whole seconds since the Unix
//! epoch (UTC), numbers as `Decimal`, and JSON documents as their JSON text.
use crate::db::decimal::Decimal;
use crate::db::enums::{AuctionStatus, DirectBuyState, DirectSellState, NftPriceSource};
use crate::db::{copy_text, Address};
use vstd::prelude::*;

verus! {

/// One hit of the full-text search over NFTs and collections.
pub struct SearchResult {
    pub address: Address,
    pub object_type: String,
    pub nft_name: Option<String>,
    pub collection_name: Option<String>,
    pub image: Option<String>,
}

/// The metadata document of an NFT, as far as it could be read.
pub enum MetaDocument {
    /// The document has the expected shape.
    Parsed(MetaJson),
    /// The document is there but does not have the expected shape.
    Malformed,
}

/// An NFT with its current offers and prices.
pub struct NftDetails {
    pub address: Option<String>,
    pub collection: Option<Address>,
    pub meta: Option<MetaDocument>,
    pub owner: Option<Address>,
    pub manager: Option<Address>,
    pub name: Option<String>,
    pub burned: Option<bool>,
    pub description: Option<String>,
    pub updated: Option<i64>,
    pub tx_lt: Option<i64>,
    pub auction: Option<String>,
    pub forsale: Option<String>,
    pub auction_status: Option<AuctionStatus>,
    pub forsale_status: Option<DirectSellState>,
    pub best_offer: Option<String>,
    pub floor_price_usd: Option<Decimal>,
    pub deal_price_usd: Option<Decimal>,
    pub total_count: i64,
    pub floor_price: Option<Decimal>,
    pub floor_price_token: Option<Address>,
    pub nft_id: Option<Address>,
}

/// A collection with its statistics.
pub struct NftCollection {
    pub address: Address,
    pub owner: Address,
    pub name: Option<String>,
    pub description: Option<String>,
    pub created: i64,
    pub updated: i64,
    pub verified: bool,
    pub wallpaper: Option<String>,
    pub logo: Option<String>,
    pub owners_count: Option<i32>,
    pub nft_count: i64,
    pub max_price: Option<Decimal>,
    pub total_price: Option<Decimal>,
    pub cnt: i64,
    pub first_mint: i64,
}

/// A collection in the short listing.
pub struct NftCollectionSimple {
    pub address: Address,
    pub name: Option<String>,
    pub description: Option<String>,
    pub verified: bool,
    pub logo: Option<String>,
    pub cnt: i64,
    pub nft_count: i64,
}

/// A root contract of the marketplace.
pub struct RootRecord {
    pub address: Address,
    pub code: String,
}

/// A collection with its details and market statistics.
pub struct NftCollectionDetails {
    pub address: Option<Address>,
    pub owner: Option<Address>,
    pub name: Option<String>,
    pub description: Option<String>,
    pub created: Option<i64>,
    pub updated: Option<i64>,
    pub verified: Option<bool>,
    pub wallpaper: Option<String>,
    pub logo: Option<String>,
    pub owners_count: Option<i64>,
    pub nft_count: Option<i64>,
    pub max_price: Option<Decimal>,
    pub total_price: Option<Decimal>,
    pub floor_price_usd: Option<Decimal>,
    pub total_volume_usd: Option<Decimal>,
    pub attributes: Option<String>,
    pub cnt: i64,
    pub previews: String,
    pub first_mint: Option<i64>,
}

/// An auction.
pub struct NftAuction {
    pub address: Option<Address>,
    pub nft: Option<Address>,
    pub wallet_for_bids: Option<Address>,
    pub price_token: Option<Address>,
    pub start_price: Option<Decimal>,
    pub max_bid: Option<Decimal>,
    pub min_bid: Option<Decimal>,
    pub start_usd_price: Option<Decimal>,
    pub max_usd_bid: Option<Decimal>,
    pub min_usd_bid: Option<Decimal>,
    pub status: Option<AuctionStatus>,
    pub created_at: Option<i64>,
    pub finished_at: Option<i64>,
    pub tx_lt: Option<i64>,
    pub bids_count: Option<i64>,
    pub last_bid_from: Option<Address>,
    pub last_bid_ts: Option<i64>,
    pub last_bid_value: Option<Decimal>,
    pub last_bid_usd_value: Option<Decimal>,
    pub cnt: i64,
    pub fee_numerator: Option<i32>,
    pub fee_denominator: Option<i32>,
}

/// A trait of an NFT with the number of NFTs of its collection that share it.
pub struct NftTraitRecord {
    pub trait_type: Option<String>,
    pub trait_value: Option<String>,
    pub cnt: i64,
}

/// A bid in an auction.
pub struct NftAuctionBid {
    pub auction: Address,
    pub buyer: Address,
    pub price: Decimal,
    pub usd_price: Option<Decimal>,
    pub next_bid_value: Decimal,
    pub next_bid_usd_value: Option<Decimal>,
    pub created_at: i64,
    pub tx_lt: i64,
    pub active: bool,
    pub cnt: i64,
}

/// A bid with the auction's token, NFT and collection beside it.
pub struct NftAuctionBidExt {
    pub auction: Address,
    pub buyer: Address,
    pub price_token: Option<Address>,
    pub price: Decimal,
    pub usd_price: Option<Decimal>,
    pub next_bid_value: Option<Decimal>,
    pub next_bid_usd_value: Option<Decimal>,
    pub created_at: i64,
    pub tx_lt: Option<i64>,
    pub active: Option<bool>,
    pub nft: Option<Address>,
    pub collection: Option<Address>,
    pub cnt: i64,
}

/// A fixed-price sale offer.
pub struct NftDirectSell {
    pub address: Address,
    pub nft: Address,
    pub collection: Option<Address>,
    pub seller: Option<Address>,
    pub price_token: Address,
    pub price: Decimal,
    pub usd_price: Option<Decimal>,
    pub state: DirectSellState,
    pub created: i64,
    pub updated: i64,
    pub finished_at: Option<i64>,
    pub expired_at: Option<i64>,
    pub tx_lt: i64,
    pub cnt: i64,
    pub fee_numerator: Option<i32>,
    pub fee_denominator: Option<i32>,
}

/// An offer to buy an NFT.
pub struct NftDirectBuy {
    pub address: Address,
    pub nft: Address,
    pub collection: Option<Address>,
    pub buyer: Option<Address>,
    pub price_token: Address,
    pub price: Decimal,
    pub usd_price: Option<Decimal>,
    pub state: DirectBuyState,
    pub created: i64,
    pub updated: i64,
    pub finished_at: Option<i64>,
    pub expired_at: Option<i64>,
    pub tx_lt: i64,
    pub cnt: i64,
    pub fee_numerator: Option<i32>,
    pub fee_denominator: Option<i32>,
}

/// A price that an NFT was offered or sold at.
pub struct NftPriceHistory {
    pub source: Address,
    pub source_type: NftPriceSource,
    pub ts: i64,
    pub price: Decimal,
    pub price_token: Option<Address>,
    pub nft: Option<Address>,
    pub collection: Option<Address>,
    pub is_deal: bool,
}

/// A point of the USD price history of an NFT.
pub struct NftPrice {
    pub ts: i64,
    pub usd_price: Decimal,
}

/// The values that one trait takes in one collection; `values` is a JSON array.
pub struct TraitDef {
    pub collection: Address,
    pub trait_type: String,
    pub values: Option<String>,
}

/// The USD price of a token at an instant.
pub struct TokenUsdPrice {
    pub token: Address,
    pub usd_price: Decimal,
    pub ts: i64,
}

/// What the API shows of an NFT's metadata document.
pub struct MetaParsed {
    pub image: Option<String>,
    pub mimetype: Option<String>,
    pub full_image: Option<String>,
    pub full_image_mimetype: Option<String>,
    pub attributes: Option<String>,
    pub typ: Option<String>,
    pub royalty: Option<MetaRoyalty>,
}

/// A file named in a metadata document.
pub struct MetaFile {
    pub source: Option<String>,
    pub mimetype: Option<String>,
}

/// The royalty terms named in a metadata document.
pub struct MetaRoyalty {
    pub description: Option<String>,
    pub royalty_type: Option<String>,
}

/// The part of an NFT's metadata document that the API reads; `attributes` is JSON text.
pub struct MetaJson {
    pub files: Vec<MetaFile>,
    pub preview: Option<MetaFile>,
    pub typ: Option<String>,
    pub attributes: Option<String>,
    pub royalty: Option<MetaRoyalty>,
}

impl MetaRoyalty {
    /// A copy of the royalty terms.
    pub fn copy(&self) -> (res: MetaRoyalty)
        ensures
            res == *self,
    {
        MetaRoyalty { description: copy_text(&self.description), royalty_type: copy_text(&self.royalty_type) }
    }
}

/// The source and the mimetype of a file named in a metadata document, where there is one.
pub open spec fn file_parts(f: Option<MetaFile>) -> (Option<String>, Option<String>) {
    match f {
        Some(f) => (f.source, f.mimetype),
        None => (None, None),
    }
}

/// What the API shows of a metadata document: the preview file as the image, the first of
/// the files as the full image, and the type, attributes and royalty as they stand. A
/// missing or malformed document shows nothing.
pub open spec fn meta_parsed_of(meta: Option<MetaDocument>) -> MetaParsed {
    match meta {
        Some(MetaDocument::Parsed(m)) => {
            let preview = file_parts(m.preview);
            let full = if m.files.len() > 0 { file_parts(Some(m.files@[0])) } else { (None, None) };
            MetaParsed {
                image: preview.0,
                mimetype: preview.1,
                full_image: full.0,
                full_image_mimetype: full.1,
                attributes: m.attributes,
                typ: m.typ,
                royalty: m.royalty,
            }
        },
        _ => MetaParsed {
            image: None,
            mimetype: None,
            full_image: None,
            full_image_mimetype: None,
            attributes: None,
            typ: None,
            royalty: None,
        },
    }
}

impl NftDetails {
    /// Reads the metadata document of the NFT (see `meta_parsed_of`).
    pub fn parse_meta(&self) -> (res: MetaParsed)
        ensures
            res == meta_parsed_of(self.meta),
    {
        match &self.meta {
            Some(MetaDocument::Parsed(m)) => {
                let (image, mimetype) = match &m.preview {
                    Some(p) => (copy_text(&p.source), copy_text(&p.mimetype)),
                    None => (None, None),
                };
                let (full_image, full_image_mimetype) = if m.files.len() > 0 {
                    (copy_text(&m.files[0].source), copy_text(&m.files[0].mimetype))
                } else {
                    (None, None)
                };
                let royalty = match &m.royalty {
                    Some(r) => Some(r.copy()),
                    None => None,
                };
                MetaParsed {
                    image,
                    mimetype,
                    full_image,
                    full_image_mimetype,
                    attributes: copy_text(&m.attributes),
                    typ: copy_text(&m.typ),
                    royalty,
                }
            },
            _ => MetaParsed {
                image: None,
                mimetype: None,
                full_image: None,
                full_image_mimetype: None,
                attributes: None,
                typ: None,
                royalty: None,
            },
        }
    }
}

/// The marketplace fee that applies to an owner.
pub struct OwnerFeeRecord {
    pub fee_numerator: i32,
    pub fee_denominator: i32,
    pub collection: Option<String>,
    pub nft: Option<String>,
}

/// A user profile.
pub struct UserRecord {
    pub address: String,
    pub logo_nft: Option<String>,
    pub username: Option<String>,
    pub bio: Option<String>,
    pub twitter: Option<String>,
    pub instagram: Option<String>,
    pub facebook: Option<String>,
    pub link: Option<String>,
    pub email: Option<String>,
    pub avatar_url: Option<String>,
}

impl Default for UserRecord {
    fn default() -> (res: UserRecord)
        ensures
            res.address@ == Seq::<char>::empty(),
            res.logo_nft is None,
            res.username is None,
            res.bio is None,
            res.twitter is None,
            res.instagram is None,
            res.facebook is None,
            res.link is None,
            res.email is None,
            res.avatar_url is None,
    {
        UserRecord {
            address: String::new(),
            logo_nft: None,
            username: None,
            bio: None,
            twitter: None,
            instagram: None,
            facebook: None,
            link: None,
            email: None,
            avatar_url: None,
        }
    }
}

} // verus!
