use api::db::queries::{
    auctions_list_sql, build_attributes_filter, list_collections_sql, nft_order_clause, nft_price_range_sql,
    nft_search_sql, nft_search_verified_sql, verified_order_clause, PriceRangeError, AUCTIONS_BY_BIDS_SQL,
    AUCTIONS_BY_DATE_SQL, COLLECTIONS_HEAD, COLLECTIONS_TAIL, UNVERIFIED_RANGE_HEAD, UNVERIFIED_RANGE_TAIL,
    VERIFIED_RANGE_HEAD, VERIFIED_RANGE_TAIL,
};
use api::db::query_params::collection::CollectionOrderingFields;
use api::db::query_params::nft::NftSearchParams;
use api::db::query_params::{ListOrdering, OrderDirection as DbDirection};
use api::handlers::auction::AuctionsSortOrder;
use api::handlers::nft::{AttributeFilter, NFTListOrder, NFTListOrderField};
use api::handlers::requests::OrderDirection;

fn filter(t: &str, values: &[&str]) -> AttributeFilter {
    AttributeFilter { trait_type: t.to_string(), trait_values: values.iter().map(|v| v.to_string()).collect() }
}

fn clause(alias: &str, a: usize, b: usize) -> String {
    format!(
        " AND EXISTS(\n            SELECT 1 FROM nft_attributes na\n            WHERE\n                na.nft = {alias}.address AND (LOWER(na.trait_type) = LOWER(${a}) AND LOWER(TRIM(na.value #>> '{{}}')::text ) = any(${b}::text[]))\n            )\n        "
    )
}

fn search(attributes: Vec<AttributeFilter>, order: Option<NFTListOrder>) -> NftSearchParams {
    NftSearchParams {
        owners: vec![],
        collections: vec![],
        forsale: false,
        auction: false,
        price_from: None,
        price_to: None,
        price_token: None,
        verified: true,
        limit: 11,
        offset: 0,
        attributes,
        order,
        with_count: false,
        nft_type: None,
    }
}

#[test]
fn attributes_filter_numbers_two_placeholders_per_filter() {
    let attrs = vec![filter("Color", &["Red", "BLUE"]), filter("Size", &["xl"])];
    let (text, binds) = build_attributes_filter(12, &attrs, "n");
    assert_eq!(text, format!("{}{}", clause("n", 12, 13), clause("n", 14, 15)));
    assert_eq!(binds, vec![
        ("Color".to_string(), "{red,blue}".to_string()),
        ("Size".to_string(), "{xl}".to_string()),
    ]);
}

#[test]
fn attributes_filter_of_no_filters_is_empty() {
    let (text, binds) = build_attributes_filter(2, &[], "nve");
    assert_eq!(text, "");
    assert!(binds.is_empty());
}

#[test]
fn attributes_filter_of_a_filter_without_values() {
    let (text, binds) = build_attributes_filter(2, &[filter("Eyes", &[])], "nve");
    assert_eq!(text, clause("nve", 2, 3));
    assert_eq!(binds, vec![("Eyes".to_string(), "{}".to_string())]);
}

#[test]
fn order_clauses_default_to_name_ascending() {
    assert_eq!(nft_order_clause(None), "order by n.name COLLATE numeric asc, n.address asc");
    assert_eq!(verified_order_clause(None), "order by nve.name COLLATE numeric asc, nve.address asc");
    let by_deal_desc = NFTListOrder { field: NFTListOrderField::DealPriceUsd, direction: OrderDirection::Desc };
    assert_eq!(
        nft_order_clause(Some(by_deal_desc)),
        "order by coalesce(floor_price_usd.val, 0) desc, n.name COLLATE numeric asc, n.address asc"
    );
    let by_floor_asc = NFTListOrder { field: NFTListOrderField::FloorPriceUsd, direction: OrderDirection::Asc };
    assert_eq!(
        verified_order_clause(Some(by_floor_asc)),
        "order by LEAST(nve.floor_price_auc_usd, nve.floor_price_sell_usd) asc, nve.name  COLLATE numeric asc, nve.address asc"
    );
    let by_name_desc = NFTListOrder { field: NFTListOrderField::Name, direction: OrderDirection::Desc };
    assert_eq!(nft_order_clause(Some(by_name_desc)), "order by n.name COLLATE numeric desc, n.address asc");
}

#[test]
fn search_template_gets_order_and_filters() {
    let params = search(vec![filter("Hat", &["Cap"])], None);
    let (text, binds) = nft_search_sql("select * from nft n where true #ATTRIBUTES# #ORDER# limit $5", &params);
    assert_eq!(
        text,
        format!("select * from nft n where true {} order by n.name COLLATE numeric asc, n.address asc limit $5", clause("n", 12, 13))
    );
    assert_eq!(binds, vec![("Hat".to_string(), "{cap}".to_string())]);
}

#[test]
fn verified_search_template_uses_its_table() {
    let order = NFTListOrder { field: NFTListOrderField::Name, direction: OrderDirection::Desc };
    let params = search(vec![filter("Hat", &["A", "b"])], Some(order));
    let (text, _) = nft_search_verified_sql("#ORDER#|#ATTRIBUTES#|#ORDER#", &params);
    let ord = "order by nve.name COLLATE numeric desc, nve.address asc";
    assert_eq!(text, format!("{ord}|{}|{ord}", clause("nve", 12, 13)));
}

#[test]
fn price_range_refuses_owners_among_verified() {
    let owners = vec!["0:1".to_string()];
    assert!(matches!(nft_price_range_sql(&[], &owners, true), Err(PriceRangeError::OwnersWithVerified)));
    assert_eq!(PriceRangeError::OwnersWithVerified.message(), "Filter by owners must use unverified instead verified");
}

#[test]
fn price_range_query_texts() {
    let attrs = vec![filter("Bg", &["Blue"])];
    let (verified, binds) = nft_price_range_sql(&attrs, &[], true).ok().unwrap();
    assert_eq!(verified, format!("{}{}{}", VERIFIED_RANGE_HEAD, clause("n", 2, 3), VERIFIED_RANGE_TAIL));
    assert_eq!(binds, vec![("Bg".to_string(), "{blue}".to_string())]);
    let owners = vec!["0:1".to_string()];
    let (all, _) = nft_price_range_sql(&attrs, &owners, false).ok().unwrap();
    assert_eq!(all, format!("{}{}{}", UNVERIFIED_RANGE_HEAD, clause("n", 2, 3), UNVERIFIED_RANGE_TAIL));
    assert!(VERIFIED_RANGE_HEAD.contains("(n.collection = ANY ($1) OR $1 = '{}')"));
}

#[test]
fn collection_listing_order() {
    assert_eq!(list_collections_sql(&None), format!("{}c.owners_count desc{}", COLLECTIONS_HEAD, COLLECTIONS_TAIL));
    let order = Some(ListOrdering { direction: DbDirection::Asc, field: CollectionOrderingFields::FloorPriceUsd });
    assert_eq!(list_collections_sql(&order), format!("{}c.floor_price_usd asc{}", COLLECTIONS_HEAD, COLLECTIONS_TAIL));
    assert!(COLLECTIONS_TAIL.starts_with(" nulls last"));
}

#[test]
fn auction_listing_order() {
    assert_eq!(auctions_list_sql(AuctionsSortOrder::BidsCount), AUCTIONS_BY_BIDS_SQL);
    assert_eq!(auctions_list_sql(AuctionsSortOrder::StartDate), AUCTIONS_BY_DATE_SQL);
    assert_eq!(auctions_list_sql(AuctionsSortOrder::AverageInDay), AUCTIONS_BY_DATE_SQL);
    assert!(AUCTIONS_BY_BIDS_SQL.contains("order by a.bids_count\n"));
    assert!(AUCTIONS_BY_DATE_SQL.contains("order by a.created_at desc\n"));
}

#[test]
fn search_text_is_the_same_whatever_the_values_asked_for() {
    let mut p1 = search(vec![filter("Hat", &["Cap"]), filter("Eyes", &["red", "blue"])], None);
    let mut p2 = search(vec![filter("x'); drop table nft; --", &[]), filter("Size", &["XL"])], None);
    p1.owners = vec!["0:owner".to_string()];
    p2.collections = vec!["0:col".to_string()];
    p2.price_token = Some(vec!["'".to_string()]);
    p2.nft_type = Some(vec!["image/png".to_string()]);
    let template = "select * from nft n, nft_verified_extended nve where $1 #ATTRIBUTES# #ORDER#";
    let (t1, b1) = nft_search_sql(template, &p1);
    let (t2, b2) = nft_search_sql(template, &p2);
    assert_eq!(t1, t2);
    assert_ne!(b1, b2);
    assert_eq!(b2[0], ("x'); drop table nft; --".to_string(), "{}".to_string()));
    let (v1, _) = nft_search_verified_sql(template, &p1);
    let (v2, _) = nft_search_verified_sql(template, &p2);
    assert_eq!(v1, v2);
}

#[test]
fn filter_text_depends_only_on_the_number_of_filters() {
    let (t1, b1) = build_attributes_filter(3, &[filter("A", &["1"]), filter("B", &["2", "3"])], "n");
    let (t2, b2) = build_attributes_filter(3, &[filter("C", &[]), filter("D", &["4"])], "n");
    assert_eq!(t1, t2);
    assert_eq!(t1, format!("{}{}", clause("n", 3, 4), clause("n", 5, 6)));
    assert_eq!(b1.len(), 2);
    assert_eq!(b2, vec![("C".to_string(), "{}".to_string()), ("D".to_string(), "{4}".to_string())]);
}

#[test]
fn filter_placeholders_go_past_the_machine_word() {
    let (text, binds) = build_attributes_filter(usize::MAX, &[filter("A", &["b"])], "n");
    let first = usize::MAX as u128;
    assert_eq!(text, clause_u128("n", first, first + 1));
    assert_eq!(binds, vec![("A".to_string(), "{b}".to_string())]);
}

fn clause_u128(alias: &str, a: u128, b: u128) -> String {
    format!(
        " AND EXISTS(\n            SELECT 1 FROM nft_attributes na\n            WHERE\n                na.nft = {alias}.address AND (LOWER(na.trait_type) = LOWER(${a}) AND LOWER(TRIM(na.value #>> '{{}}')::text ) = any(${b}::text[]))\n            )\n        "
    )
}
