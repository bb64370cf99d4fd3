//! The SQL text of the searches whose shape depends on the request: the trait filters with
//! their bound values, the ordering clauses, and the price range queries.
use crate::db::query_params::collection::CollectionOrderingFields;
use crate::db::query_params::nft::NftSearchParams;
use crate::db::query_params::ListOrdering;
use crate::handlers::auction::AuctionsSortOrder;
use crate::handlers::nft::{AttributeFilter, NFTListOrder, NFTListOrderField};
use crate::handlers::requests::OrderDirection;
use crate::strings::{decimal_digits, join, join_texts, lowercase, replace, replace_all, to_lowercase, number_text};
use vstd::prelude::*;

verus! {

/// The start of one trait filter, up to the alias of the NFT table.
pub const CLAUSE_HEAD: &'static str = " AND EXISTS(\n            SELECT 1 FROM nft_attributes na\n            WHERE\n                na.nft = ";

/// The part of a trait filter between the alias and the placeholder of the trait name.
pub const CLAUSE_TRAIT: &'static str = ".address AND (LOWER(na.trait_type) = LOWER($";

/// The part of a trait filter between the two placeholders.
pub const CLAUSE_VALUES: &'static str = ") AND LOWER(TRIM(na.value #>> '{}')::text ) = any($";

/// The end of one trait filter.
pub const CLAUSE_TAIL: &'static str = "::text[]))\n            )\n        ";

/// The mark in a search template where the ordering goes.
pub const ORDER_MARK: &'static str = "#ORDER#";

/// The mark in a search template where the trait filters go.
pub const ATTRIBUTES_MARK: &'static str = "#ATTRIBUTES#";

/// The price range query over all NFTs, up to its trait filters.
pub const UNVERIFIED_RANGE_HEAD: &'static str = "\n                select min(min_floor_price) as \"from\", max(min_floor_price) as \"to\"\n                    from (\n                             SELECT least(MIN(CASE WHEN ow.address IS NOT NULL THEN s.price * tup.usd_price END), MIN(\n                                            CASE WHEN ow2.address IS NOT NULL THEN a.min_bid * tup2.usd_price END)) min_floor_price\n\n\n                             FROM nft n\n                                      LEFT JOIN nft_auction a ON a.nft = n.address AND a.status = 'active' AND\n                                                                 (a.finished_at = to_timestamp(0) OR a.finished_at > NOW())\n                                      LEFT JOIN offers_whitelist ow2 ON ow2.address = a.address\n                                      LEFT JOIN token_usd_prices tup2 ON tup2.token = a.price_token\n                                      LEFT JOIN nft_direct_sell s ON s.nft = n.address AND s.state = 'active' AND\n                                                                     (s.expired_at = to_timestamp(0) OR s.expired_at > NOW())\n                                      LEFT JOIN offers_whitelist ow ON ow.address = s.address\n                                      LEFT JOIN token_usd_prices tup ON tup.token = s.price_token\n                             WHERE NOT n.burned\n                               and (n.owner = any($1::text[]) or $2 = '{}')\n                               and (n.collection = any($2::text[]) or $2 = '{}')\n                               ";

/// The price range query over all NFTs, after its trait filters.
pub const UNVERIFIED_RANGE_TAIL: &'static str = "\n                             group by n.address\n                         ) ag\n            ";

/// The price range query over the verified NFTs, up to its trait filters.
pub const VERIFIED_RANGE_HEAD: &'static str = "\n                SELECT\n                    MIN(LEAST(n.floor_price_auc_usd, n.floor_price_sell_usd)) as \"from\",\n                    MAX(LEAST(n.floor_price_auc_usd, n.floor_price_sell_usd)) as \"to\"\n                FROM\n                    nft_verified_extended n\n                WHERE\n                    (n.collection = ANY ($1) OR $1 = '{}')\n                    ";

/// The price range query over the verified NFTs, after its trait filters.
pub const VERIFIED_RANGE_TAIL: &'static str = "\n                HAVING\n                    COALESCE(MIN(LEAST(n.floor_price_auc_usd, n.floor_price_sell_usd)), MAX(LEAST(n.floor_price_auc_usd, n.floor_price_sell_usd))) IS NOT NULL\n            ";

/// The auction listing ordered by bids count.
pub const AUCTIONS_BY_BIDS_SQL: &'static str = "\n                    select a.address,\n                           a.nft,\n                           a.wallet_for_bids,\n                           a.price_token,\n                           a.start_price,\n                           a.max_bid,\n                           a.min_bid,\n                           a.start_usd_price,\n                           a.max_usd_bid,\n                           a.min_usd_bid,\n                           \"status: _\",\n                           a.created_at,\n                           a.finished_at,\n                           a.tx_lt,\n                           a.bids_count,\n                           a.last_bid_from,\n                           a.last_bid_ts,\n                           a.last_bid_value,\n                           a.last_bid_usd_value,\n                           a.fee_numerator,\n                           a.fee_denominator,\n                           count(1) over () as \"cnt!\"\n                    from nft_auction_search a\n                    where (a.nft_owner = any ($1) or array_length($1::varchar[], 1) is null)\n                      and (a.collection = any ($2) or array_length($2::varchar[], 1) is null)\n                      and (a.nft = any ($3) or array_length($3::varchar[], 1) is null)\n                    order by a.bids_count\n                    limit $4 offset $5\n                    ";

/// The auction listing ordered by start date, latest first.
pub const AUCTIONS_BY_DATE_SQL: &'static str = "\n                    select a.address,\n                           a.nft,\n                           a.wallet_for_bids,\n                           a.price_token,\n                           a.start_price,\n                           a.max_bid,\n                           a.min_bid,\n                           a.start_usd_price,\n                           a.max_usd_bid,\n                           a.min_usd_bid,\n                           \"status: _\",\n                           a.created_at,\n                           a.finished_at,\n                           a.tx_lt,\n                           a.bids_count,\n                           a.last_bid_from,\n                           a.last_bid_ts,\n                           a.last_bid_value,\n                           a.last_bid_usd_value,\n                           a.fee_numerator,\n                           a.fee_denominator,\n                           count(1) over () as \"cnt!\"\n                    from nft_auction_search a\n                    where (a.nft_owner = any ($1) or array_length($1::varchar[], 1) is null)\n                      and (a.collection = any ($2) or array_length($2::varchar[], 1) is null)\n                      and (a.nft = any ($3) or array_length($3::varchar[], 1) is null)\n                    order by a.created_at desc\n                    limit $4 offset $5\n                    ";

/// The collection listing up to its ordering.
pub const COLLECTIONS_HEAD: &'static str = "\n            select c.address,\n                   c.owner,\n                   c.name,\n                   c.description,\n                   c.created,\n                   c.updated,\n                   c.verified,\n                   c.wallpaper,\n                   c.logo,\n                   c.owners_count,\n                   c.nft_count,\n                   c.floor_price_usd,\n                   c.total_volume_usd,\n                   c.attributes,\n                   c.first_mint,\n                   case when $4::boolean is false then c.total_count else c.verified_count end as \"cnt\",\n                   coalesce(previews.previews, '[]'::json)                                     as \"previews\",\n                   null::numeric                                                               as max_price,\n                   null::numeric                                                               as total_price,\n                   c.social                                                                    as \"social\",\n                   c.royalty                                                                   as \"royalty\"\n            from nft_collection_details c\n                     left join lateral ( select json_agg(ag2.preview_url) as previews\n                                         from ( select ag.preview_url\n                                                from ( select nm.meta -> 'preview' as preview_url\n                                                       from nft n\n                                                                join nft_metadata nm on n.address = nm.nft\n                                                       where n.collection = c.address\n                                                         and not n.burned\n                                                       limit 8 ) ag\n                                                order by random()\n                                                limit 3 ) ag2 ) previews on true\n            where (c.owner = any ($3) or array_length($3::varchar[], 1) is null)\n              and ($4::boolean is false or c.verified is true)\n              and ($5::varchar is null or c.name ilike $5)\n              and (c.address = any ($6) or array_length($6::varchar[], 1) is null)\n              and ($7::varchar is null or c.address in (select distinct nсt.collection_address from collection_type_mv nсt\n                                where nсt.mimetype = $7 and ($4::boolean is false or nсt.verified is true))\n              )\n            order by ";

/// The collection listing after its ordering.
pub const COLLECTIONS_TAIL: &'static str = " nulls last\n            limit $1 offset $2\n            ";


/// One trait filter on the NFT table `alias`: the trait name is placeholder `first`, the
/// accepted values the text array at placeholder `first + 1`.
pub open spec fn attribute_clause(alias: Seq<char>, first: nat) -> Seq<char> {
    CLAUSE_HEAD@ + alias + CLAUSE_TRAIT@ + decimal_digits(first) + CLAUSE_VALUES@ + decimal_digits(first + 1)
        + CLAUSE_TAIL@
}

/// `n` trait filters, the k-th on the placeholders `from + 2k` and `from + 2k + 1`.
pub open spec fn filter_text(alias: Seq<char>, from: nat, n: nat) -> Seq<char>
    decreases n,
{
    if n == 0 {
        Seq::empty()
    } else {
        filter_text(alias, from, (n - 1) as nat) + attribute_clause(alias, from + 2 * (n - 1) as nat)
    }
}

/// The accepted values of a filter as a SQL text array literal: lowercased, comma-separated,
/// in braces.
pub open spec fn values_array(values: Seq<String>) -> Seq<char> {
    "{"@ + join_texts(values.map_values(|v: String| lowercase(v@)), ","@) + "}"@
}

/// The values bound for the filters, a pair per filter: its trait name and its values array.
pub open spec fn filter_binds(binds: Seq<(String, String)>, filters: Seq<AttributeFilter>) -> bool {
    &&& binds.len() == filters.len()
    &&& forall|i: int| 0 <= i < filters.len() ==> {
        &&& (#[trigger] binds[i]).0@ == filters[i].trait_type@
        &&& binds[i].1@ == values_array(filters[i].trait_values@)
    }
}

/// The values array of one filter.
fn values_array_text(values: &Vec<String>) -> (res: String)
    ensures
        res@ == values_array(values@),
{
    let mut lowered: Vec<String> = Vec::new();
    let ghost target = values@.map_values(|v: String| lowercase(v@));
    for i in 0..values.len()
        invariant
            target == values@.map_values(|v: String| lowercase(v@)),
            lowered@.len() == i,
            forall|j: int| 0 <= j < i ==> (#[trigger] lowered@[j])@ == target[j],
    {
        lowered.push(to_lowercase(values[i].as_str()));
    }
    proof {
        assert(lowered@.map_values(|p: String| p@) =~= target);
    }
    let joined = join(&lowered, ",");
    let mut res = String::new();
    res.append("{");
    res.append(joined.as_str());
    res.append("}");
    res
}

/// The trait filters of a search and the values bound to their placeholders: for each filter a
/// clause that asks the NFT `nft_table_alias` to have the trait (compared without case) with one
/// of the values, on two placeholders numbered on from `index_from`.
pub fn build_attributes_filter(index_from: usize, attributes: &[AttributeFilter], nft_table_alias: &str) -> (res: (String, Vec<(String, String)>))
    ensures
        res.0@ == filter_text(nft_table_alias@, index_from as nat, attributes@.len()),
        filter_binds(res.1@, attributes@),
{
    let mut text = String::new();
    let mut binds: Vec<(String, String)> = Vec::new();
    let mut next: u128 = index_from as u128;
    for k in 0..attributes.len()
        invariant
            next == index_from + 2 * k,
            text@ == filter_text(nft_table_alias@, index_from as nat, k as nat),
            binds@.len() == k,
            forall|j: int| 0 <= j < k ==> {
                &&& (#[trigger] binds@[j]).0@ == attributes@[j].trait_type@
                &&& binds@[j].1@ == values_array(attributes@[j].trait_values@)
            },
    {
        let first = next;
        let second = next + 1;
        next = next + 2;
        text.append(CLAUSE_HEAD);
        text.append(nft_table_alias);
        text.append(CLAUSE_TRAIT);
        text.append(number_text(first).as_str());
        text.append(CLAUSE_VALUES);
        text.append(number_text(second).as_str());
        text.append(CLAUSE_TAIL);
        let attribute = &attributes[k];
        binds.push((attribute.trait_type.clone(), values_array_text(&attribute.trait_values)));
    }
    (text, binds)
}


/// An ordering of the full NFT search.
pub const ORDER_FLOOR_ASC: &'static str = "order by floor_price_usd.val asc, n.name COLLATE numeric asc, n.address asc";

/// An ordering of the full NFT search.
pub const ORDER_FLOOR_DESC: &'static str = "order by coalesce(floor_price_usd.val, 0) desc, n.name COLLATE numeric asc, n.address asc";

/// An ordering of the full NFT search.
pub const ORDER_DEAL_ASC: &'static str = "order by floor_price_usd.val asc, n.name COLLATE numeric asc, n.address asc";

/// An ordering of the full NFT search.
pub const ORDER_DEAL_DESC: &'static str = "order by coalesce(floor_price_usd.val, 0) desc, n.name COLLATE numeric asc, n.address asc";

/// An ordering of the full NFT search.
pub const ORDER_NAME_ASC: &'static str = "order by n.name COLLATE numeric asc, n.address asc";

/// An ordering of the full NFT search.
pub const ORDER_NAME_DESC: &'static str = "order by n.name COLLATE numeric desc, n.address asc";

/// An ordering of the verified NFT search.
pub const VERIFIED_ORDER_FLOOR_ASC: &'static str = "order by LEAST(nve.floor_price_auc_usd, nve.floor_price_sell_usd) asc, nve.name  COLLATE numeric asc, nve.address asc";

/// An ordering of the verified NFT search.
pub const VERIFIED_ORDER_FLOOR_DESC: &'static str = "order by coalesce(LEAST(nve.floor_price_auc_usd, nve.floor_price_sell_usd), 0) desc, nve.name COLLATE numeric asc, nve.address asc";

/// An ordering of the verified NFT search.
pub const VERIFIED_ORDER_DEAL_ASC: &'static str = "order by LEAST(nve.floor_price_auc_usd, nve.floor_price_sell_usd) asc, nve.name COLLATE numeric asc, nve.address asc";

/// An ordering of the verified NFT search.
pub const VERIFIED_ORDER_DEAL_DESC: &'static str = "order by coalesce(LEAST(nve.floor_price_auc_usd, nve.floor_price_sell_usd) desc, nve.name COLLATE numeric asc, nve.address asc";

/// An ordering of the verified NFT search.
pub const VERIFIED_ORDER_NAME_ASC: &'static str = "order by nve.name COLLATE numeric asc, nve.address asc";

/// An ordering of the verified NFT search.
pub const VERIFIED_ORDER_NAME_DESC: &'static str = "order by nve.name COLLATE numeric desc, nve.address asc";


/// The ordering clause of the full NFT search: by name ascending where none is asked for;
/// ordering by deal price orders by floor price.
pub open spec fn nft_order_text(order: Option<NFTListOrder>) -> Seq<char> {
    match order {
        None => ORDER_NAME_ASC@,
        Some(o) => match (o.field, o.direction) {
            (NFTListOrderField::FloorPriceUsd, OrderDirection::Asc) => ORDER_FLOOR_ASC@,
            (NFTListOrderField::FloorPriceUsd, OrderDirection::Desc) => ORDER_FLOOR_DESC@,
            (NFTListOrderField::DealPriceUsd, OrderDirection::Asc) => ORDER_DEAL_ASC@,
            (NFTListOrderField::DealPriceUsd, OrderDirection::Desc) => ORDER_DEAL_DESC@,
            (NFTListOrderField::Name, OrderDirection::Asc) => ORDER_NAME_ASC@,
            (NFTListOrderField::Name, OrderDirection::Desc) => ORDER_NAME_DESC@,
        },
    }
}

/// The ordering clause of the verified NFT search: by name ascending where none is asked for.
pub open spec fn verified_order_text(order: Option<NFTListOrder>) -> Seq<char> {
    match order {
        None => VERIFIED_ORDER_NAME_ASC@,
        Some(o) => match (o.field, o.direction) {
            (NFTListOrderField::FloorPriceUsd, OrderDirection::Asc) => VERIFIED_ORDER_FLOOR_ASC@,
            (NFTListOrderField::FloorPriceUsd, OrderDirection::Desc) => VERIFIED_ORDER_FLOOR_DESC@,
            (NFTListOrderField::DealPriceUsd, OrderDirection::Asc) => VERIFIED_ORDER_DEAL_ASC@,
            (NFTListOrderField::DealPriceUsd, OrderDirection::Desc) => VERIFIED_ORDER_DEAL_DESC@,
            (NFTListOrderField::Name, OrderDirection::Asc) => VERIFIED_ORDER_NAME_ASC@,
            (NFTListOrderField::Name, OrderDirection::Desc) => VERIFIED_ORDER_NAME_DESC@,
        },
    }
}

/// The text `piece` stands in `text` from position `at` on.
pub open spec fn stands_at(text: Seq<char>, piece: Seq<char>, at: int) -> bool {
    0 <= at && at + piece.len() <= text.len() && text.subrange(at, at + piece.len()) == piece
}

/// The text holds `piece` somewhere.
pub open spec fn holds_text(text: Seq<char>, piece: Seq<char>) -> bool {
    exists|at: int| #[trigger] stands_at(text, piece, at)
}

/// The ordering clause of the full NFT search honours the request, whatever the field: a
/// descending request sorts a key descending ahead of a further key, an ascending one sorts a
/// key ascending ahead of a further key, and the two directions give different clauses; an
/// ordering by a price sorts by the floor price, one by name starts with the name; no
/// ordering is the name ascending.
pub proof fn lemma_nft_order_honours_request(field: NFTListOrderField)
    ensures
        holds_text(nft_order_text(Some(NFTListOrder { field, direction: OrderDirection::Desc })), " desc, "@),
        holds_text(nft_order_text(Some(NFTListOrder { field, direction: OrderDirection::Asc })), " asc, "@),
        nft_order_text(Some(NFTListOrder { field, direction: OrderDirection::Asc }))
            != nft_order_text(Some(NFTListOrder { field, direction: OrderDirection::Desc })),
        forall|d: OrderDirection| field != NFTListOrderField::Name
            ==> holds_text(#[trigger] nft_order_text(Some(NFTListOrder { field, direction: d })), "floor_price_usd.val"@),
        forall|d: OrderDirection| field == NFTListOrderField::Name
            ==> stands_at(#[trigger] nft_order_text(Some(NFTListOrder { field, direction: d })), "order by n.name "@, 0),
        nft_order_text(None) == nft_order_text(Some(NFTListOrder { field: NFTListOrderField::Name, direction: OrderDirection::Asc })),
{
    reveal_strlit(" desc, ");
    reveal_strlit(" asc, ");
    reveal_strlit("floor_price_usd.val");
    reveal_strlit("order by n.name ");
    match field {
        NFTListOrderField::FloorPriceUsd => {
            reveal_strlit("order by floor_price_usd.val asc, n.name COLLATE numeric asc, n.address asc");
            reveal_strlit("order by coalesce(floor_price_usd.val, 0) desc, n.name COLLATE numeric asc, n.address asc");
            assert(ORDER_FLOOR_DESC@.subrange(41, 48) =~= " desc, "@);
            assert(stands_at(ORDER_FLOOR_DESC@, " desc, "@, 41));
            assert(ORDER_FLOOR_ASC@.subrange(28, 34) =~= " asc, "@);
            assert(stands_at(ORDER_FLOOR_ASC@, " asc, "@, 28));
            assert(ORDER_FLOOR_ASC@.subrange(9, 28) =~= "floor_price_usd.val"@);
            assert(stands_at(ORDER_FLOOR_ASC@, "floor_price_usd.val"@, 9));
            assert(ORDER_FLOOR_DESC@.subrange(18, 37) =~= "floor_price_usd.val"@);
            assert(stands_at(ORDER_FLOOR_DESC@, "floor_price_usd.val"@, 18));
        },
        NFTListOrderField::DealPriceUsd => {
            reveal_strlit("order by floor_price_usd.val asc, n.name COLLATE numeric asc, n.address asc");
            reveal_strlit("order by coalesce(floor_price_usd.val, 0) desc, n.name COLLATE numeric asc, n.address asc");
            assert(ORDER_DEAL_DESC@.subrange(41, 48) =~= " desc, "@);
            assert(stands_at(ORDER_DEAL_DESC@, " desc, "@, 41));
            assert(ORDER_DEAL_ASC@.subrange(28, 34) =~= " asc, "@);
            assert(stands_at(ORDER_DEAL_ASC@, " asc, "@, 28));
            assert(ORDER_DEAL_ASC@.subrange(9, 28) =~= "floor_price_usd.val"@);
            assert(stands_at(ORDER_DEAL_ASC@, "floor_price_usd.val"@, 9));
            assert(ORDER_DEAL_DESC@.subrange(18, 37) =~= "floor_price_usd.val"@);
            assert(stands_at(ORDER_DEAL_DESC@, "floor_price_usd.val"@, 18));
        },
        NFTListOrderField::Name => {
            reveal_strlit("order by n.name COLLATE numeric asc, n.address asc");
            reveal_strlit("order by n.name COLLATE numeric desc, n.address asc");
            assert(ORDER_NAME_DESC@.subrange(31, 38) =~= " desc, "@);
            assert(stands_at(ORDER_NAME_DESC@, " desc, "@, 31));
            assert(ORDER_NAME_ASC@.subrange(31, 37) =~= " asc, "@);
            assert(stands_at(ORDER_NAME_ASC@, " asc, "@, 31));
            assert(ORDER_NAME_ASC@.subrange(0, 16) =~= "order by n.name "@);
            assert(stands_at(ORDER_NAME_ASC@, "order by n.name "@, 0));
            assert(ORDER_NAME_DESC@.subrange(0, 16) =~= "order by n.name "@);
            assert(stands_at(ORDER_NAME_DESC@, "order by n.name "@, 0));
        },
    }
    assert forall|d: OrderDirection| field != NFTListOrderField::Name
        implies holds_text(#[trigger] nft_order_text(Some(NFTListOrder { field, direction: d })), "floor_price_usd.val"@) by {
        match d {
            OrderDirection::Asc => {},
            OrderDirection::Desc => {},
        }
    }
}

/// The ordering clause of the verified NFT search honours the request, whatever the field: a
/// descending request sorts a key descending ahead of a further key, an ascending one sorts a
/// key ascending ahead of a further key, and the two directions give different clauses; an
/// ordering by a price sorts by the floor price, one by name starts with the name; no
/// ordering is the name ascending.
pub proof fn lemma_verified_order_honours_request(field: NFTListOrderField)
    ensures
        holds_text(verified_order_text(Some(NFTListOrder { field, direction: OrderDirection::Desc })), " desc, "@),
        holds_text(verified_order_text(Some(NFTListOrder { field, direction: OrderDirection::Asc })), " asc, "@),
        verified_order_text(Some(NFTListOrder { field, direction: OrderDirection::Asc }))
            != verified_order_text(Some(NFTListOrder { field, direction: OrderDirection::Desc })),
        forall|d: OrderDirection| field != NFTListOrderField::Name
            ==> holds_text(#[trigger] verified_order_text(Some(NFTListOrder { field, direction: d })), "LEAST(nve.floor_price_auc_usd, nve.floor_price_sell_usd)"@),
        forall|d: OrderDirection| field == NFTListOrderField::Name
            ==> stands_at(#[trigger] verified_order_text(Some(NFTListOrder { field, direction: d })), "order by nve.name "@, 0),
        verified_order_text(None) == verified_order_text(Some(NFTListOrder { field: NFTListOrderField::Name, direction: OrderDirection::Asc })),
{
    reveal_strlit(" desc, ");
    reveal_strlit(" asc, ");
    reveal_strlit("LEAST(nve.floor_price_auc_usd, nve.floor_price_sell_usd)");
    reveal_strlit("order by nve.name ");
    match field {
        NFTListOrderField::FloorPriceUsd => {
            reveal_strlit("order by LEAST(nve.floor_price_auc_usd, nve.floor_price_sell_usd) asc, nve.name  COLLATE numeric asc, nve.address asc");
            reveal_strlit("order by coalesce(LEAST(nve.floor_price_auc_usd, nve.floor_price_sell_usd), 0) desc, nve.name COLLATE numeric asc, nve.address asc");
            assert(VERIFIED_ORDER_FLOOR_DESC@.subrange(78, 85) =~= " desc, "@);
            assert(stands_at(VERIFIED_ORDER_FLOOR_DESC@, " desc, "@, 78));
            assert(VERIFIED_ORDER_FLOOR_ASC@.subrange(65, 71) =~= " asc, "@);
            assert(stands_at(VERIFIED_ORDER_FLOOR_ASC@, " asc, "@, 65));
            assert(VERIFIED_ORDER_FLOOR_ASC@.subrange(9, 65) =~= "LEAST(nve.floor_price_auc_usd, nve.floor_price_sell_usd)"@);
            assert(stands_at(VERIFIED_ORDER_FLOOR_ASC@, "LEAST(nve.floor_price_auc_usd, nve.floor_price_sell_usd)"@, 9));
            assert(VERIFIED_ORDER_FLOOR_DESC@.subrange(18, 74) =~= "LEAST(nve.floor_price_auc_usd, nve.floor_price_sell_usd)"@);
            assert(stands_at(VERIFIED_ORDER_FLOOR_DESC@, "LEAST(nve.floor_price_auc_usd, nve.floor_price_sell_usd)"@, 18));
        },
        NFTListOrderField::DealPriceUsd => {
            reveal_strlit("order by LEAST(nve.floor_price_auc_usd, nve.floor_price_sell_usd) asc, nve.name COLLATE numeric asc, nve.address asc");
            reveal_strlit("order by coalesce(LEAST(nve.floor_price_auc_usd, nve.floor_price_sell_usd) desc, nve.name COLLATE numeric asc, nve.address asc");
            assert(VERIFIED_ORDER_DEAL_DESC@.subrange(74, 81) =~= " desc, "@);
            assert(stands_at(VERIFIED_ORDER_DEAL_DESC@, " desc, "@, 74));
            assert(VERIFIED_ORDER_DEAL_ASC@.subrange(65, 71) =~= " asc, "@);
            assert(stands_at(VERIFIED_ORDER_DEAL_ASC@, " asc, "@, 65));
            assert(VERIFIED_ORDER_DEAL_ASC@.subrange(9, 65) =~= "LEAST(nve.floor_price_auc_usd, nve.floor_price_sell_usd)"@);
            assert(stands_at(VERIFIED_ORDER_DEAL_ASC@, "LEAST(nve.floor_price_auc_usd, nve.floor_price_sell_usd)"@, 9));
            assert(VERIFIED_ORDER_DEAL_DESC@.subrange(18, 74) =~= "LEAST(nve.floor_price_auc_usd, nve.floor_price_sell_usd)"@);
            assert(stands_at(VERIFIED_ORDER_DEAL_DESC@, "LEAST(nve.floor_price_auc_usd, nve.floor_price_sell_usd)"@, 18));
        },
        NFTListOrderField::Name => {
            reveal_strlit("order by nve.name COLLATE numeric asc, nve.address asc");
            reveal_strlit("order by nve.name COLLATE numeric desc, nve.address asc");
            assert(VERIFIED_ORDER_NAME_DESC@.subrange(33, 40) =~= " desc, "@);
            assert(stands_at(VERIFIED_ORDER_NAME_DESC@, " desc, "@, 33));
            assert(VERIFIED_ORDER_NAME_ASC@.subrange(33, 39) =~= " asc, "@);
            assert(stands_at(VERIFIED_ORDER_NAME_ASC@, " asc, "@, 33));
            assert(VERIFIED_ORDER_NAME_ASC@.subrange(0, 18) =~= "order by nve.name "@);
            assert(stands_at(VERIFIED_ORDER_NAME_ASC@, "order by nve.name "@, 0));
            assert(VERIFIED_ORDER_NAME_DESC@.subrange(0, 18) =~= "order by nve.name "@);
            assert(stands_at(VERIFIED_ORDER_NAME_DESC@, "order by nve.name "@, 0));
        },
    }
    assert forall|d: OrderDirection| field != NFTListOrderField::Name
        implies holds_text(#[trigger] verified_order_text(Some(NFTListOrder { field, direction: d })), "LEAST(nve.floor_price_auc_usd, nve.floor_price_sell_usd)"@) by {
        match d {
            OrderDirection::Asc => {},
            OrderDirection::Desc => {},
        }
    }
}

/// The ordering clause of the full NFT search.
pub fn nft_order_clause(order: Option<NFTListOrder>) -> (res: &'static str)
    ensures
        res@ == nft_order_text(order),
{
    let order = match order {
        Some(o) => o,
        None => NFTListOrder { field: NFTListOrderField::Name, direction: OrderDirection::Asc },
    };
    match order.field {
        NFTListOrderField::FloorPriceUsd => match order.direction {
            OrderDirection::Asc => ORDER_FLOOR_ASC,
            OrderDirection::Desc => ORDER_FLOOR_DESC,
        },
        NFTListOrderField::DealPriceUsd => match order.direction {
            OrderDirection::Asc => ORDER_DEAL_ASC,
            OrderDirection::Desc => ORDER_DEAL_DESC,
        },
        NFTListOrderField::Name => match order.direction {
            OrderDirection::Asc => ORDER_NAME_ASC,
            OrderDirection::Desc => ORDER_NAME_DESC,
        },
    }
}

/// The ordering clause of the verified NFT search.
pub fn verified_order_clause(order: Option<NFTListOrder>) -> (res: &'static str)
    ensures
        res@ == verified_order_text(order),
{
    let order = match order {
        Some(o) => o,
        None => NFTListOrder { field: NFTListOrderField::Name, direction: OrderDirection::Asc },
    };
    match order.field {
        NFTListOrderField::FloorPriceUsd => match order.direction {
            OrderDirection::Asc => VERIFIED_ORDER_FLOOR_ASC,
            OrderDirection::Desc => VERIFIED_ORDER_FLOOR_DESC,
        },
        NFTListOrderField::DealPriceUsd => match order.direction {
            OrderDirection::Asc => VERIFIED_ORDER_DEAL_ASC,
            OrderDirection::Desc => VERIFIED_ORDER_DEAL_DESC,
        },
        NFTListOrderField::Name => match order.direction {
            OrderDirection::Asc => VERIFIED_ORDER_NAME_ASC,
            OrderDirection::Desc => VERIFIED_ORDER_NAME_DESC,
        },
    }
}

/// A search template with its ordering and its trait filters put in place of the marks.
pub open spec fn filled_template(template: Seq<char>, order: Seq<char>, filters: Seq<char>) -> Seq<char> {
    replace_all(replace_all(template, ORDER_MARK@, order), ATTRIBUTES_MARK@, filters)
}

/// Puts the ordering and the filters into a search template.
fn fill_template(template: &str, order: &str, filters: &str) -> (res: String)
    ensures
        res@ == filled_template(template@, order@, filters@),
{
    proof {
        reveal_strlit("#ORDER#");
        reveal_strlit("#ATTRIBUTES#");
    }
    let ordered = replace(template, ORDER_MARK, order);
    replace(ordered.as_str(), ATTRIBUTES_MARK, filters)
}

/// The first placeholder of the trait filters in the NFT searches: eleven values are bound
/// before them.
pub const SEARCH_FILTERS_FROM: usize = 12;

/// The text of the full NFT search: its template with the ordering and the filters on the
/// table `n`, from placeholder 12 on.
pub open spec fn search_text(template: Seq<char>, params: NftSearchParams) -> Seq<char> {
    filled_template(template, nft_order_text(params.order),
        filter_text("n"@, SEARCH_FILTERS_FROM as nat, params.attributes@.len()))
}

/// The text of the verified NFT search: its template with the ordering and the filters on the
/// table `nve`, from placeholder 12 on.
pub open spec fn verified_search_text(template: Seq<char>, params: NftSearchParams) -> Seq<char> {
    filled_template(template, verified_order_text(params.order),
        filter_text("nve"@, SEARCH_FILTERS_FROM as nat, params.attributes@.len()))
}

/// The text of the full NFT search from its template (`#ORDER#` and `#ATTRIBUTES#` filled in,
/// the filters on the table `n` from placeholder 12 on), and the values of the filters.
pub fn nft_search_sql(template: &str, params: &NftSearchParams) -> (res: (String, Vec<(String, String)>))
    ensures
        res.0@ == search_text(template@, *params),
        filter_binds(res.1@, params.attributes@),
{
    let (filters, binds) = build_attributes_filter(SEARCH_FILTERS_FROM, params.attributes.as_slice(), "n");
    let order = nft_order_clause(params.order);
    (fill_template(template, order, filters.as_str()), binds)
}

/// The text of the verified NFT search from its template (the filters on the table `nve` from
/// placeholder 12 on), and the values of the filters.
pub fn nft_search_verified_sql(template: &str, params: &NftSearchParams) -> (res: (String, Vec<(String, String)>))
    ensures
        res.0@ == verified_search_text(template@, *params),
        filter_binds(res.1@, params.attributes@),
{
    let (filters, binds) = build_attributes_filter(SEARCH_FILTERS_FROM, params.attributes.as_slice(), "nve");
    let order = verified_order_clause(params.order);
    (fill_template(template, order, filters.as_str()), binds)
}

/// What a search request holds (owners, collections, tokens, types, prices, trait names and
/// values) never enters the text of the search: two requests with the same ordering and as
/// many trait filters give the same text, full or verified; the values reach the database
/// only as bound parameters.
pub proof fn lemma_search_text_ignores_values(template: Seq<char>, p1: NftSearchParams, p2: NftSearchParams)
    requires
        p1.order == p2.order,
        p1.attributes@.len() == p2.attributes@.len(),
    ensures
        search_text(template, p1) == search_text(template, p2),
        verified_search_text(template, p1) == verified_search_text(template, p2),
{
}

/// The text of the trait filters depends only on the alias, the first placeholder and the
/// number of filters; the values bound are a pair per filter, and no filter gives no text and
/// nothing to bind.
pub proof fn lemma_filters_bind_values_only(
    alias: Seq<char>,
    from: nat,
    a1: Seq<AttributeFilter>,
    a2: Seq<AttributeFilter>,
    b1: Seq<(String, String)>,
    b2: Seq<(String, String)>,
)
    requires
        a1.len() == a2.len(),
        filter_binds(b1, a1),
        filter_binds(b2, a2),
    ensures
        filter_text(alias, from, a1.len()) == filter_text(alias, from, a2.len()),
        b1.len() == a1.len(),
        b2.len() == a2.len(),
        a1.len() == 0 ==> filter_text(alias, from, a1.len()) == Seq::<char>::empty() && b1.len() == 0,
{
}

/// Why a price range cannot be asked for.
#[derive(Clone, Copy, Debug, PartialEq, Eq, Structural)]
pub enum PriceRangeError {
    /// Owners can only be filtered on among all NFTs, not among the verified ones.
    OwnersWithVerified,
}

impl PriceRangeError {
    /// The message of the error.
    pub fn message(&self) -> (res: &'static str)
        ensures
            res@ == "Filter by owners must use unverified instead verified"@,
    {
        "Filter by owners must use unverified instead verified"
    }
}

/// The first placeholder of the trait filters in the price range queries.
pub const RANGE_FILTERS_FROM: usize = 2;

/// The text of the price range query over all NFTs (`verified` false) or over the verified
/// ones, with the trait filters on the table `n` from placeholder 2 on, and the values of the
/// filters. Filtering by owners among the verified NFTs is refused.
pub fn nft_price_range_sql(attributes: &[AttributeFilter], owners: &[String], verified: bool) -> (res: Result<(String, Vec<(String, String)>), PriceRangeError>)
    ensures
        res is Err <==> verified && owners@.len() > 0,
        res matches Ok(r) ==> {
            let filters = filter_text("n"@, RANGE_FILTERS_FROM as nat, attributes@.len());
            &&& r.0@ == if verified {
                VERIFIED_RANGE_HEAD@ + filters + VERIFIED_RANGE_TAIL@
            } else {
                UNVERIFIED_RANGE_HEAD@ + filters + UNVERIFIED_RANGE_TAIL@
            }
            &&& filter_binds(r.1@, attributes@)
        },
{
    let (filters, binds) = build_attributes_filter(RANGE_FILTERS_FROM, attributes, "n");
    if verified && owners.len() > 0 {
        return Err(PriceRangeError::OwnersWithVerified);
    }
    let mut text = String::new();
    if verified {
        text.append(VERIFIED_RANGE_HEAD);
        text.append(filters.as_str());
        text.append(VERIFIED_RANGE_TAIL);
    } else {
        text.append(UNVERIFIED_RANGE_HEAD);
        text.append(filters.as_str());
        text.append(UNVERIFIED_RANGE_TAIL);
    }
    Ok((text, binds))
}

/// The ordering of a collection listing: by owners count, most first, where none is asked for.
pub open spec fn collection_order_text(order: Option<ListOrdering<CollectionOrderingFields>>) -> Seq<char> {
    match order {
        None => "c.owners_count desc"@,
        Some(o) => "c."@ + o.field.name_of() + " "@ + o.direction.name_of(),
    }
}

/// A collection listing is ordered by the requested field in the requested direction: its
/// ordering ends with the keyword of the direction the request names.
pub proof fn lemma_collection_order_as_requested(
    field: CollectionOrderingFields,
    d: crate::handlers::requests::OrderDirection,
)
    ensures
        collection_order_text(Some(ListOrdering { field, direction: crate::db::query_params::OrderDirection::of_request(d) }))
            == "c."@ + field.name_of() + " "@ + d.name_of(),
{
}

/// The text of a collection listing with its ordering.
pub fn list_collections_sql(order: &Option<ListOrdering<CollectionOrderingFields>>) -> (res: String)
    ensures
        res@ == COLLECTIONS_HEAD@ + collection_order_text(*order) + COLLECTIONS_TAIL@,
{
    let mut text = String::new();
    text.append(COLLECTIONS_HEAD);
    match order {
        None => text.append("c.owners_count desc"),
        Some(o) => {
            text.append("c.");
            text.append(o.field.name());
            text.append(" ");
            text.append(o.direction.name());
        },
    }
    text.append(COLLECTIONS_TAIL);
    text
}

/// The text of an auction listing: by bids count when asked for, else by start date, latest
/// first.
pub fn auctions_list_sql(sort: AuctionsSortOrder) -> (res: &'static str)
    ensures
        res@ == if sort == AuctionsSortOrder::BidsCount { AUCTIONS_BY_BIDS_SQL@ } else { AUCTIONS_BY_DATE_SQL@ },
{
    match sort {
        AuctionsSortOrder::BidsCount => AUCTIONS_BY_BIDS_SQL,
        _ => AUCTIONS_BY_DATE_SQL,
    }
}

} // verus!
