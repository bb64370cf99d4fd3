use crate::db::decimal::Decimal;
use crate::db::Address;
use crate::handlers::nft::{AttributeFilter, NFTListOrder};
use vstd::prelude::*;

verus! {

/// The filters, page and ordering of an NFT search.
pub struct NftSearchParams {
    pub owners: Vec<Address>,
    pub collections: Vec<Address>,
    pub forsale: bool,
    pub auction: bool,
    pub price_from: Option<Decimal>,
    pub price_to: Option<Decimal>,
    pub price_token: Option<Vec<String>>,
    pub verified: bool,
    pub limit: usize,
    pub offset: usize,
    pub attributes: Vec<AttributeFilter>,
    pub order: Option<NFTListOrder>,
    pub with_count: bool,
    pub nft_type: Option<Vec<String>>,
}

} // verus!
