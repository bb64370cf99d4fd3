use api::db::decimal::Decimal;
use api::db::enums::{AuctionStatus, DirectBuyState, DirectSellState, EventCategory, EventType, NftPriceSource};
use api::db::types::{NftAuction, NftAuctionBid, NftCollectionDetails, NftDirectSell, NftPrice, TraitDef};
use api::handlers::auction::auctions_by_address;
use api::keyed::index_by_key;
use api::model::{Auction, AuctionBid, CollectionAttributes, CollectionDetails, DirectSell, NFTPrice};
use api::token::{Token, TokenDict};
use api::usd_price::{main_token_price, prices_request, ten_to, usd_prices};
use std::str::FromStr;

fn dec(s: &str) -> Decimal {
    let (n, scale) = bigdecimal::BigDecimal::from_str(s).unwrap().into_bigint_and_exponent();
    Decimal { unscaled: n.to_signed_bytes_be(), scale }
}

fn text(d: &Decimal) -> String {
    bigdecimal::BigDecimal::new(bigdecimal::num_bigint::BigInt::from_signed_bytes_be(&d.unscaled), d.scale).to_string()
}

fn token(address: &str, symbol: &str, decimals: usize) -> Token {
    Token {
        chain_id: 1,
        address: address.to_string(),
        name: symbol.to_string(),
        symbol: symbol.to_string(),
        vendor: None,
        logo_uri: String::new(),
        decimals,
        verified: true,
    }
}

fn auction(address: &str) -> NftAuction {
    NftAuction {
        address: Some(address.to_string()),
        nft: Some("0:nft".to_string()),
        wallet_for_bids: None,
        price_token: Some("0:tok".to_string()),
        start_price: Some(dec("1234.56")),
        max_bid: None,
        min_bid: Some(dec("0.4")),
        start_usd_price: Some(dec("12.50")),
        max_usd_bid: None,
        min_usd_bid: None,
        status: None,
        created_at: Some(10),
        finished_at: None,
        tx_lt: None,
        bids_count: None,
        last_bid_from: None,
        last_bid_ts: None,
        last_bid_value: None,
        last_bid_usd_value: None,
        cnt: 1,
        fee_numerator: None,
        fee_denominator: None,
    }
}

#[test]
fn token_dictionary_keeps_the_last_token_of_an_address() {
    let dict = TokenDict::new(vec![token("0:a", "A", 9), token("0:b", "B", 6), token("0:a", "A2", 18)]);
    assert_eq!(dict.get(&"0:a".to_string()).unwrap().symbol, "A2");
    assert_eq!(dict.get(&"0:b".to_string()).unwrap().decimals, 6);
    assert!(dict.get(&"0:c".to_string()).is_none());
    let mut addresses = dict.addresses();
    addresses.sort();
    assert_eq!(addresses, vec!["0:a".to_string(), "0:b".to_string()]);
    let mut request = prices_request(&dict).currency_addresses;
    request.sort();
    assert_eq!(request, addresses);
}

#[test]
fn token_dictionary_lists_each_distinct_address_once() {
    let dict = TokenDict::new(vec![
        token("0:a", "A", 9),
        token("0:b", "B", 6),
        token("0:a", "A2", 18),
        token("0:c", "C", 0),
        token("0:b", "B2", 1),
    ]);
    assert_eq!(dict.addresses().len(), 3);
    assert_eq!(TokenDict::new(vec![]).addresses().len(), 0);
}

#[test]
fn token_amounts_are_rounded_usd_amounts_are_not() {
    let dict = TokenDict::new(vec![]);
    let a = Auction::from_db(&auction("0:auc"), &dict);
    assert_eq!(a.start_bid, Some("1235".to_string()));
    assert_eq!(a.min_bid, Some("0".to_string()));
    assert_eq!(a.start_usd_bid, Some("12.50".to_string()));
    assert_eq!(a.status, AuctionStatus::Active);
    assert_eq!(a.bid_token, "0:tok");
    assert_eq!(a.start_time, Some(10));
}

#[test]
fn bid_shows_its_auction_nft() {
    let bid = NftAuctionBid {
        auction: "0:auc".to_string(),
        buyer: "0:buyer".to_string(),
        price: dec("99.5"),
        usd_price: Some(dec("3.25")),
        next_bid_value: dec("100"),
        next_bid_usd_value: None,
        created_at: 5,
        tx_lt: 1,
        active: true,
        cnt: 1,
    };
    let b = AuctionBid::from_db(&bid, &auction("0:auc"), &TokenDict::new(vec![]));
    assert_eq!(b.nft, "0:nft");
    assert_eq!(b.price, "100");
    assert_eq!(b.usd_price, Some("3.25".to_string()));
    assert!(b.active);
}

#[test]
fn sale_offer_as_shown() {
    let row = NftDirectSell {
        address: "0:s".to_string(),
        nft: "0:n".to_string(),
        collection: None,
        seller: Some("0:seller".to_string()),
        price_token: "0:tok".to_string(),
        price: dec("7.5"),
        usd_price: None,
        state: DirectSellState::Active,
        created: 1,
        updated: 2,
        finished_at: None,
        expired_at: Some(3),
        tx_lt: 4,
        cnt: 1,
        fee_numerator: None,
        fee_denominator: None,
    };
    let s = DirectSell::from_db(&row, &TokenDict::new(vec![]));
    assert_eq!(s.price.price, "8");
    assert_eq!(s.status, DirectSellState::Active);
    assert_eq!(s.nft, "0:n");
}

#[test]
fn price_point_is_rounded() {
    let p = NFTPrice::from_db(&NftPrice { ts: 9, usd_price: dec("1.49") });
    assert_eq!((p.usd_price.as_str(), p.ts), ("1", 9));
}

#[test]
fn collection_details_fill_in_missing_texts() {
    let row = NftCollectionDetails {
        address: None,
        owner: None,
        name: None,
        description: Some("d".to_string()),
        created: None,
        updated: None,
        verified: Some(true),
        wallpaper: None,
        logo: None,
        owners_count: Some(3),
        nft_count: None,
        max_price: None,
        total_price: None,
        floor_price_usd: Some(dec("0.5")),
        total_volume_usd: None,
        attributes: None,
        cnt: 1,
        previews: "[]".to_string(),
        first_mint: None,
    };
    let c = CollectionDetails::from_db(&row, &TokenDict::new(vec![]));
    assert_eq!(c.collection.contract.address, "");
    assert_eq!(c.collection.contract.name, Some(String::new()));
    assert_eq!(c.collection.contract.description, Some("d".to_string()));
    assert_eq!(c.collection.created_at, 0);
    assert_eq!((c.collection.owners_count, c.collection.nft_count), (3, 0));
    assert_eq!(c.floor_price_usd, Some("0.5".to_string()));
}

#[test]
fn attributes_grouped_by_collection() {
    let def = |c: &str, t: &str, v: &str| TraitDef { collection: c.to_string(), trait_type: t.to_string(), values: Some(v.to_string()) };
    let defs = vec![
        def("0:a", "Skin", "[\"x\"]"),
        def("0:a", "Hat", "[\"cap\"]"),
        def("0:a", "Hat", "[\"bow\"]"),
        def("0:b", "Eyes", "[\"red\"]"),
    ];
    let groups = CollectionAttributes::from_db(&defs);
    assert_eq!(groups.len(), 2);
    assert_eq!(groups[0].collection, "0:a");
    assert_eq!(groups[0].attributes, vec![("Hat".to_string(), "[\"bow\"]".to_string())]);
    assert_eq!(groups[1].collection, "0:b");
    assert_eq!(groups[1].attributes, vec![("Eyes".to_string(), "[\"red\"]".to_string())]);
}

#[test]
fn enum_codes_and_names() {
    assert_eq!(EventType::from_code(0), EventType::AuctionDeployed);
    assert_eq!(EventType::from_code(20), EventType::NftCreated);
    assert_eq!(EventType::from_code(21), EventType::NftBurned);
    assert_eq!(EventType::NftCreated.name(), "nft_created");
    assert_eq!(AuctionStatus::from_code(0), AuctionStatus::Active);
    assert_eq!(AuctionStatus::from_code(1), AuctionStatus::Cancelled);
    assert_eq!(AuctionStatus::from_code(2), AuctionStatus::Completed);
    assert_eq!(DirectSellState::from_code(0), DirectSellState::Create);
    assert_eq!(DirectSellState::from_code(5), DirectSellState::Expired);
    assert_eq!(DirectBuyState::from_code(1), DirectBuyState::AwaitTokens);
    assert_eq!(DirectBuyState::from_code(2), DirectBuyState::Active);
    assert_eq!(DirectBuyState::from_code(1).name(), "await_tokens");
    assert_eq!(NftPriceSource::from_code(0), NftPriceSource::AuctionBid);
    assert_eq!(NftPriceSource::from_code(2), NftPriceSource::DirectSell);
    assert_eq!(EventCategory::from_name(&"auction".to_string()).map(|c| c.name()), Some("auction"));
    assert!(EventCategory::from_name(&"Auction".to_string()).is_none());
}

#[test]
fn index_keeps_the_last_item_of_a_key() {
    let idx = index_by_key(vec![("a".to_string(), 1), ("b".to_string(), 2), ("a".to_string(), 3)]);
    assert_eq!(idx, vec![("a".to_string(), 3), ("b".to_string(), 2)]);
    let dict = TokenDict::new(vec![]);
    let auctions = vec![Auction::from_db(&auction("0:x"), &dict), Auction::from_db(&auction("0:y"), &dict)];
    let by = auctions_by_address(auctions);
    assert_eq!(by.iter().map(|(k, _)| k.as_str()).collect::<Vec<_>>(), vec!["0:x", "0:y"]);
}

#[test]
fn usd_prices_are_scaled_by_token_decimals() {
    let dict = TokenDict::new(vec![token("0:a", "A", 6), token("0:b", "B", 0)]);
    let prices = vec![("0:a".to_string(), "1500000".to_string()), ("0:b".to_string(), "oops".to_string())];
    let stored = usd_prices(&prices, &dict, 77).unwrap();
    assert_eq!(stored.len(), 2);
    assert_eq!(stored[0].token, "0:a");
    assert_eq!(stored[0].ts, 77);
    assert_eq!(bigdecimal::BigDecimal::from_str(&text(&stored[0].usd_price)).unwrap(), bigdecimal::BigDecimal::from_str("1.5").unwrap());
    assert_eq!(bigdecimal::BigDecimal::from_str(&text(&stored[1].usd_price)).unwrap(), bigdecimal::BigDecimal::from(0));
    let main = main_token_price("0:main", &dec("2500000000"), 5).unwrap();
    assert_eq!(bigdecimal::BigDecimal::from_str(&text(&main.usd_price)).unwrap(), bigdecimal::BigDecimal::from_str("2.5").unwrap());
    assert_eq!(ten_to(0), 1);
    assert_eq!(ten_to(18), 1_000_000_000_000_000_000);
}

#[test]
fn usd_prices_refuse_only_an_amount_whose_division_overflows() {
    let dict = TokenDict::new(vec![token("0:a", "A", 6)]);
    let far = vec![("0:a".to_string(), "1e-4611686018427387904".to_string())];
    let stored = usd_prices(&far, &dict, 1).unwrap();
    assert_eq!(stored[0].usd_price.scale, 4611686018427387910);
    let zero = vec![("0:a".to_string(), "0e-9223372036854775807".to_string())];
    assert!(usd_prices(&zero, &dict, 1).is_some());
    let edge = vec![("0:a".to_string(), "1e-9223372036854775807".to_string())];
    assert!(usd_prices(&edge, &dict, 1).is_none());
    let mixed = vec![("0:a".to_string(), "2".to_string()), ("0:a".to_string(), "3e-9223372036854775800".to_string())];
    assert!(usd_prices(&mixed, &dict, 1).is_none());
    assert!(main_token_price("0:main", &Decimal { unscaled: vec![1], scale: i64::MAX }, 1).is_none());
    assert!(main_token_price("0:main", &Decimal { unscaled: vec![0], scale: i64::MAX }, 1).is_some());
}

#[test]
fn decimal_rounding_and_division_bounds() {
    assert!(dec("12.5").is_roundable());
    assert!(Decimal { unscaled: vec![1], scale: i64::MAX }.is_roundable());
    assert!(Decimal { unscaled: vec![1], scale: i64::MIN + 1 }.is_roundable());
    assert!(!Decimal { unscaled: vec![1], scale: i64::MIN }.is_roundable());
    assert!(Decimal { unscaled: vec![0, 0], scale: i64::MIN }.is_roundable());
    assert_eq!(Decimal { unscaled: vec![5], scale: 4611686018427387904 }.to_rounded_text(), "0");
    assert_eq!(Decimal { unscaled: vec![0x7f], scale: -2 }.to_rounded_text(), "12700");
    let ten = Decimal { unscaled: vec![10], scale: 0 };
    assert!(Decimal { unscaled: vec![1], scale: i64::MAX - 103 }.can_divide_by(&ten));
    assert!(!Decimal { unscaled: vec![1], scale: i64::MAX - 102 }.can_divide_by(&ten));
    assert!(Decimal { unscaled: vec![1], scale: i64::MIN }.can_divide_by(&Decimal { unscaled: vec![1], scale: 0 }));
    assert!(!Decimal { unscaled: vec![1], scale: i64::MIN }.can_divide_by(&Decimal { unscaled: vec![1], scale: 1 }));
}
