use api::db::decimal::Decimal;
use api::db::enums::DirectBuyState;
use api::db::types::{NftDetails, SearchResult as SearchRow, UserRecord};
use api::handlers::auction::{auctions_listing, AuctionsQuery, AuctionsSortOrder};
use api::handlers::collection::{collections_list_params, evaluation_request, simple_listing, ListCollectionsEvaluationParams, ListCollectionsSimpleParams};
use api::handlers::collection_custom::{customization_access, CustomizationAccess};
use api::handlers::events::{events_search, search_response, EventsQuery};
use api::handlers::metadata::{is_error_status, refresh_url};
use api::handlers::metrics::{metrics_range, metrics_window, round_to_five_minutes, MetricsSummaryQuery};
use api::handlers::nft::{
    nft_direct_buy_listing, nft_list_search_params, nft_list_sql, nft_page_plan, nfts_listing, price_history_range,
    price_range_query, random_buy_limit, sell_count_response, top_list_from, types_verified, AttributeFilter,
    NFTListQuery, NFTListRandomBuyQuery, NFTParam, NFTTopListQuery, NFTType, NftListError, NftPriceHistoryQuery,
    NftPriceRangeParams,
};
use api::handlers::owner::{owner_bids_in_listing, owner_direct_buy_listing, OwnerBidsInQuery, OwnerDirectBuyQuery};
use api::handlers::requests::collections::{CollectionOrderingFields as Requested, ListCollectionsParams};
use api::handlers::requests::{FromTo, ListOrdering, OrderDirection};
use api::handlers::user::profile_for;
use api::db::query_params::collection::CollectionOrderingFields;
use api::db::query_params::OrderDirection as DbDirection;
use api::db::queries::PriceRangeError;
use api::token::TokenDict;
use std::str::FromStr;

fn dec(s: &str) -> Decimal {
    let (n, scale) = bigdecimal::BigDecimal::from_str(s).unwrap().into_bigint_and_exponent();
    Decimal { unscaled: n.to_signed_bytes_be(), scale }
}

fn list_query() -> NFTListQuery {
    NFTListQuery {
        owners: None,
        collections: None,
        price_from: None,
        price_to: None,
        price_token: None,
        forsale: None,
        auction: None,
        verified: None,
        limit: None,
        offset: None,
        attributes: None,
        order: None,
        with_count: None,
        nft_type: None,
    }
}

fn details(address: &str) -> NftDetails {
    NftDetails {
        address: Some(address.to_string()),
        collection: None,
        meta: None,
        owner: None,
        manager: None,
        name: None,
        burned: None,
        description: None,
        updated: None,
        tx_lt: None,
        auction: None,
        forsale: None,
        auction_status: None,
        forsale_status: None,
        best_offer: None,
        floor_price_usd: None,
        deal_price_usd: None,
        total_count: 0,
        floor_price: None,
        floor_price_token: None,
        nft_id: None,
    }
}

#[test]
fn nft_list_defaults() {
    let p = nft_list_search_params(&list_query()).ok().unwrap();
    assert!(p.owners.is_empty() && p.collections.is_empty());
    assert!(!p.forsale && !p.auction && p.verified && !p.with_count);
    assert_eq!(p.limit, 101);
    assert_eq!(p.offset, 0);
    assert!(p.price_from.is_none() && p.price_token.is_none() && p.nft_type.is_none());
}

#[test]
fn nft_list_with_count_and_prices() {
    let mut q = list_query();
    q.with_count = Some(true);
    q.limit = Some(20);
    q.price_from = Some("1.5".to_string());
    q.price_token = Some("0:tok".to_string());
    q.verified = Some(false);
    q.attributes = Some(vec![AttributeFilter { trait_type: "A".to_string(), trait_values: vec!["b".to_string()] }]);
    let p = nft_list_search_params(&q).ok().unwrap();
    assert_eq!(p.limit, 20);
    assert!(!p.verified);
    let from = p.price_from.unwrap();
    assert_eq!((from.unscaled, from.scale), (dec("1.5").unscaled, dec("1.5").scale));
    assert_eq!(p.price_token, Some(vec!["0:tok".to_string()]));
    assert_eq!(p.attributes.len(), 1);
    assert_eq!(p.attributes[0].trait_values, vec!["b".to_string()]);
}

#[test]
fn nft_list_refuses_unreadable_price() {
    let mut q = list_query();
    q.price_to = Some("cheap".to_string());
    assert!(matches!(nft_list_search_params(&q), Err(NftListError::BadPrice)));
}

#[test]
fn nft_list_sql_picks_the_search() {
    let p = nft_list_search_params(&list_query()).ok().unwrap();
    let (text, _) = nft_list_sql(&p, "full #ORDER#", "verified #ORDER#");
    assert_eq!(text, "verified order by nve.name COLLATE numeric asc, nve.address asc");
    let mut q = list_query();
    q.verified = Some(false);
    let p = nft_list_search_params(&q).ok().unwrap();
    let (text, _) = nft_list_sql(&p, "full #ORDER#", "verified #ORDER#");
    assert_eq!(text, "full order by n.name COLLATE numeric asc, n.address asc");
}

#[test]
fn random_buy_is_at_most_thirty() {
    assert_eq!(random_buy_limit(&NFTListRandomBuyQuery { max_price: 1, limit: 31 }), 30);
    assert_eq!(random_buy_limit(&NFTListRandomBuyQuery { max_price: 1, limit: 30 }), 30);
    assert_eq!(random_buy_limit(&NFTListRandomBuyQuery { max_price: 1, limit: -5 }), -5);
}

#[test]
fn events_of_an_nft_look_among_all() {
    let q = EventsQuery {
        owner: None,
        collections: None,
        nft: Some("0:nft".to_string()),
        event_type: Some(vec!["nft_created".to_string()]),
        limit: Some(10),
        offset: Some(5),
        with_count: None,
        verified: Some(true),
    };
    let s = events_search(&q);
    assert_eq!(s.verified, Some(false));
    assert_eq!(s.limit, 11);
    assert_eq!(s.offset, 5);
    assert_eq!(s.event_types, vec!["nft_created".to_string()]);
    let q2 = EventsQuery { nft: None, with_count: Some(true), limit: None, ..q };
    let s2 = events_search(&q2);
    assert_eq!(s2.verified, Some(true));
    assert_eq!(s2.limit, 100);
}

#[test]
fn search_hits_need_known_types() {
    let row = |t: &str| SearchRow {
        address: "0:a".to_string(),
        object_type: t.to_string(),
        nft_name: None,
        collection_name: None,
        image: Some("img".to_string()),
    };
    let res = search_response(&vec![row("nft"), row("collection")]).unwrap();
    assert_eq!(res.count, 2);
    assert_eq!(res.items[1].contract_type.name(), "collection");
    assert_eq!(res.items[0].image, Some("img".to_string()));
    assert!(search_response(&vec![row("nft"), row("wallet")]).is_none());
}

#[test]
fn listing_collects_referenced_offers() {
    let mut a = details("0:1");
    a.auction = Some("0:auc".to_string());
    a.collection = Some("0:col".to_string());
    a.total_count = 7;
    let mut b = details("0:2");
    b.best_offer = Some("0:buy".to_string());
    b.forsale = Some("0:sell".to_string());
    let tokens = TokenDict::new(vec![]);
    let l = nfts_listing(&vec![a, b], &tokens);
    assert_eq!(l.count, 7);
    assert_eq!(l.items.len(), 2);
    assert_eq!(l.collection_ids, vec!["0:col".to_string(), String::new()]);
    assert_eq!(l.auction_ids, vec!["0:auc".to_string()]);
    assert_eq!(l.direct_sell_ids, vec!["0:sell".to_string()]);
    assert_eq!(l.direct_buy_ids, vec!["0:buy".to_string()]);
    assert_eq!(nfts_listing(&vec![], &tokens).count, 0);
}

#[test]
fn nft_page_plan_asks_active_offers() {
    let mut d = details("0:1");
    d.collection = Some("0:c".to_string());
    let p = nft_page_plan(&d);
    assert_eq!(p.collection_ids, vec!["0:c".to_string()]);
    assert_eq!(p.direct_buy_states, vec![DirectBuyState::Active]);
    assert_eq!((p.direct_buy_limit, p.direct_buy_offset), (100, 0));
    assert_eq!(p.nft_address, "0:1");
    let mut none = details("0:2");
    none.address = None;
    assert_eq!(nft_page_plan(&none).nft_address, "");
    assert!(nft_page_plan(&none).collection_ids.is_empty());
}

#[test]
fn nft_direct_buy_defaults() {
    let p = NFTParam { nft: "0:1".to_string(), status: None, limit: None, offset: None };
    let l = nft_direct_buy_listing(&p);
    assert!(l.states.is_empty());
    assert_eq!((l.limit, l.offset), (100, 0));
}

#[test]
fn instants_within_the_calendar() {
    assert_eq!(top_list_from(&NFTTopListQuery { from: 1700000000, limit: 1, offset: 0 }), Some(1700000000));
    assert_eq!(top_list_from(&NFTTopListQuery { from: i64::MAX, limit: 1, offset: 0 }), None);
    let q = NftPriceHistoryQuery { nft: "0:1".to_string(), scale: None, from: 0, to: 86400 };
    assert_eq!(price_history_range(&q), Some((0, 86400)));
    let bad = NftPriceHistoryQuery { to: i64::MIN, ..q };
    assert_eq!(price_history_range(&bad), None);
}

#[test]
fn small_defaults() {
    assert!(types_verified(&NFTType { verified: None }));
    assert!(!types_verified(&NFTType { verified: Some(false) }));
    let r = sell_count_response(None, 12);
    assert_eq!((r.count, r.timestamp), (0, 12));
    assert_eq!(sell_count_response(Some(4), 1).count, 4);
}

#[test]
fn price_range_defaults_to_verified() {
    let p = NftPriceRangeParams { owners: vec!["0:o".to_string()], collections: vec![], verified: None, attributes: vec![] };
    assert!(matches!(price_range_query(&p), Err(PriceRangeError::OwnersWithVerified)));
    let p2 = NftPriceRangeParams { verified: Some(false), ..p };
    assert!(price_range_query(&p2).is_ok());
}

#[test]
fn collection_listing_defaults() {
    let q = ListCollectionsParams {
        name: None,
        owners: None,
        verified: None,
        collections: None,
        limit: None,
        offset: None,
        order: Some(ListOrdering { direction: OrderDirection::Desc, field: Requested::Price }),
        nft_types: Some(vec!["image/png".to_string()]),
    };
    let p = collections_list_params(&q);
    assert_eq!(p.verified, Some(true));
    assert_eq!((p.limit, p.offset), (100, 0));
    let o = p.order.unwrap();
    assert_eq!(o.field, CollectionOrderingFields::FloorPriceUsd);
    assert_eq!(o.direction, DbDirection::Desc);
    assert_eq!(p.nft_type, Some(vec!["image/png".to_string()]));
    let s = simple_listing(&ListCollectionsSimpleParams { name: None, verified: Some(false), limit: Some(3), offset: None });
    assert_eq!((s.verified, s.limit, s.offset), (Some(false), 3, 0));
}

#[test]
fn evaluation_defaults_prices_to_zero() {
    let p = ListCollectionsEvaluationParams {
        addresses: vec!["0:c".to_string()],
        mint_prices: Some(vec![("0:c".to_string(), None), ("0:d".to_string(), Some(dec("2.5")))]),
        period: Some(FromTo { from: Some(100), to: Some(i64::MAX) }),
    };
    let r = evaluation_request(&p);
    assert_eq!(r.mint_prices.len(), 2);
    assert_eq!(r.mint_prices[0].1.scale, 0);
    assert!(r.mint_prices[0].1.unscaled.iter().all(|b| *b == 0));
    assert_eq!(r.mint_prices[1].1.scale, 1);
    assert_eq!((r.from, r.to), (Some(100), None));
}

#[test]
fn auction_listing_defaults() {
    let q = AuctionsQuery { owners: None, collections: Some(vec!["0:c".to_string()]), tokens: None, sort: None, limit: None, offset: Some(3) };
    let l = auctions_listing(&q);
    assert_eq!(l.sort, AuctionsSortOrder::StartDate);
    assert_eq!((l.limit, l.offset), (100, 3));
    assert_eq!(l.collections, vec!["0:c".to_string()]);
}

#[test]
fn owner_listing_defaults() {
    let q = OwnerDirectBuyQuery { owner: "0:o".to_string(), collections: None, status: Some(vec![DirectBuyState::Filled]), limit: Some(5), offset: None };
    let l = owner_direct_buy_listing(&q);
    assert_eq!(l.states, vec![DirectBuyState::Filled]);
    assert_eq!((l.limit, l.offset, l.flag), (5, 0, None));
    let b = owner_bids_in_listing(&OwnerBidsInQuery { owner: "0:o".to_string(), collections: None, active: Some(true), limit: None, offset: None });
    assert_eq!((b.flag, b.limit), (Some(true), 100));
}

#[test]
fn metrics_round_toward_zero_to_five_minutes() {
    assert_eq!(round_to_five_minutes(1000), 900);
    assert_eq!(round_to_five_minutes(-1000), -900);
    assert_eq!(round_to_five_minutes(299), 0);
    assert_eq!(round_to_five_minutes(600), 600);
    assert_eq!(round_to_five_minutes(i64::MIN), (i64::MIN / 300) * 300);
    let w = metrics_window(&MetricsSummaryQuery { from: 1001, to: 2000, limit: 10, offset: 0 });
    assert_eq!((w.from, w.to, w.limit), (900, 1800, 10));
    assert_eq!(metrics_window(&w).from, w.from);
    assert_eq!(metrics_range(&w), Some((900, 1800)));
}

#[test]
fn customization_needs_ownership() {
    assert_eq!(customization_access(None), CustomizationAccess::NotFound);
    assert_eq!(customization_access(Some(0)), CustomizationAccess::Forbidden);
    assert_eq!(customization_access(Some(2)), CustomizationAccess::Allowed);
}

#[test]
fn profile_of_unknown_user_is_empty() {
    let p = profile_for(None, "0:u".to_string());
    assert_eq!(p.address, "0:u");
    assert!(p.username.is_none());
    let mut stored = UserRecord::default();
    stored.username = Some("ann".to_string());
    stored.address = "0:other".to_string();
    let p = profile_for(Some(stored), "0:u".to_string());
    assert_eq!((p.address.as_str(), p.username.as_deref()), ("0:u", Some("ann")));
}

#[test]
fn metadata_refresh() {
    assert_eq!(refresh_url("http://idx"), "http://idx/metadata/refresh/");
    assert!(is_error_status(404) && is_error_status(503));
    assert!(!is_error_status(200) && !is_error_status(302) && !is_error_status(600));
}
