//! Pages of listings. A listing that does not count its total asks the database for one row
//! more than the page holds: when that row comes, another page follows, and the total reported
//! is one more than what the pages so far hold.
use vstd::prelude::*;

verus! {

/// The number of rows asked of the database for a page of `limit` items.
pub open spec fn fetch_limit_of(limit: usize, with_count: bool) -> int {
    if with_count { limit as int } else { limit + 1 }
}

/// The number of rows asked of the database for a page of `limit` items: one more where the
/// total is not counted.
pub fn fetch_limit(limit: usize, with_count: bool) -> (res: usize)
    requires
        with_count || limit < usize::MAX,
    ensures
        res == fetch_limit_of(limit, with_count),
{
    if with_count { limit } else { limit + 1 }
}

/// How many of the `fetched` rows the page keeps: all of them, unless the total is not counted
/// and the database gave as many rows as were asked for, when the last one is dropped.
pub open spec fn kept_len(fetched: nat, fetch_limit: nat, with_count: bool) -> nat {
    if with_count || fetched < fetch_limit {
        fetched
    } else if fetched == 0 {
        0
    } else {
        (fetched - 1) as nat
    }
}

/// The total a page reports: the counted one, else what the pages up to this one hold, plus one
/// where a row was dropped (another page follows).
pub open spec fn page_total(fetched: nat, fetch_limit: nat, offset: nat, with_count: bool, counted: int) -> int {
    if with_count {
        counted
    } else if fetched < fetch_limit {
        (fetched + offset) as int
    } else {
        (kept_len(fetched, fetch_limit, with_count) + offset + 1) as int
    }
}

/// Makes a page of the fetched rows and gives its total (see `kept_len` and `page_total`);
/// `counted` is the total the database counted, used where the listing counts it.
pub fn finish_page<T>(items: &mut Vec<T>, fetch_limit: usize, offset: usize, with_count: bool, counted: i64) -> (total: i64)
    requires
        with_count || (old(items)@.len() + offset + 1 <= i64::MAX && old(items)@.len() + offset + 1 <= usize::MAX),
    ensures
        final(items)@ == old(items)@.take(kept_len(old(items)@.len(), fetch_limit as nat, with_count) as int),
        total == page_total(old(items)@.len(), fetch_limit as nat, offset as nat, with_count, counted as int),
{
    if with_count {
        return counted;
    }
    if items.len() < fetch_limit {
        proof {
            assert(old(items)@.take(old(items)@.len() as int) =~= old(items)@);
        }
        let n = items.len() + offset;
        n as i64
    } else {
        if items.len() == 0 {
            proof {
                assert(old(items)@.take(0) =~= old(items)@);
            }
            (offset + 1) as i64
        } else {
            items.pop();
            proof {
                assert(final(items)@ =~= old(items)@.take(old(items)@.len() - 1));
            }
            let n = items.len() + offset + 1;
            n as i64
        }
    }
}

/// A listing that does not count its total, read with the limit it was asked with, never holds
/// more than `limit` items; its total exceeds what the pages up to it hold exactly when the
/// database had more rows than the page, that is when another page follows.
pub proof fn lemma_page_within_limit(limit: usize, offset: usize, fetched: nat)
    requires
        fetched <= fetch_limit_of(limit, false),
    ensures
        kept_len(fetched, fetch_limit_of(limit, false) as nat, false) <= limit,
        page_total(fetched, fetch_limit_of(limit, false) as nat, offset as nat, false, 0)
            > offset + kept_len(fetched, fetch_limit_of(limit, false) as nat, false) <==> fetched > limit,
        page_total(fetched, fetch_limit_of(limit, false) as nat, offset as nat, false, 0) == offset + fetched,
{
}

/// A listing that counts its total keeps every fetched row and reports the counted total.
pub proof fn lemma_counted_page(limit: usize, offset: usize, fetched: nat, counted: int)
    ensures
        kept_len(fetched, fetch_limit_of(limit, true) as nat, true) == fetched,
        page_total(fetched, fetch_limit_of(limit, true) as nat, offset as nat, true, counted) == counted,
{
}

} // verus!
