//! Requests for the market metrics.
use crate::instants::{chrono_instant_in_range, checked_instant};
use vstd::prelude::*;

verus! {

/// A request for the metrics summary between two instants (seconds since the epoch), a page
/// of it.
pub struct MetricsSummaryQuery {
    pub from: i64,
    pub to: i64,
    pub limit: i64,
    pub offset: i64,
}

/// An instant rounded toward zero to a multiple of five minutes (how integer division
/// truncates).
pub open spec fn five_minutes(t: i64) -> int {
    if t >= 0 { (t / 300) * 300 } else { -(((-t) / 300) * 300) }
}

/// Rounds an instant toward zero to a multiple of five minutes.
pub fn round_to_five_minutes(t: i64) -> (res: i64)
    ensures
        res == five_minutes(t),
{
    let wide: i128 = t as i128;
    let rounded: i128 = if wide >= 0 { (wide / 300) * 300 } else { -(((-wide) / 300) * 300) };
    proof {
        assert(0 <= (if t >= 0 { t as int } else { -(t as int) }) / 300 * 300 <= (if t >= 0 { t as int } else { -(t as int) })) by (nonlinear_arith);
    }
    rounded as i64
}

/// The metrics request as it is cached and queried: both ends rounded toward zero to five
/// minutes, the page as given.
pub fn metrics_window(query: &MetricsSummaryQuery) -> (res: MetricsSummaryQuery)
    ensures
        res.from == five_minutes(query.from),
        res.to == five_minutes(query.to),
        res.limit == query.limit,
        res.offset == query.offset,
{
    MetricsSummaryQuery {
        from: round_to_five_minutes(query.from),
        to: round_to_five_minutes(query.to),
        limit: query.limit,
        offset: query.offset,
    }
}

/// The instants that a rounded metrics request covers, where `chrono` represents both.
pub fn metrics_range(window: &MetricsSummaryQuery) -> (res: Option<(i64, i64)>)
    ensures
        res == (if chrono_instant_in_range(window.from) && chrono_instant_in_range(window.to) {
            Some((window.from, window.to))
        } else {
            None::<(i64, i64)>
        }),
{
    match (checked_instant(window.from), checked_instant(window.to)) {
        (Some(from), Some(to)) => Some((from, to)),
        _ => None,
    }
}


/// Rounding to five minutes is stable and moves an instant by less than five minutes: two
/// requests that round alike ask for the same window, and rounding a rounded request changes
/// nothing.
pub proof fn lemma_five_minutes_stable(t: i64)
    ensures
        five_minutes(t) == five_minutes(five_minutes(t) as i64),
        five_minutes(t) % 300 == 0,
        t >= 0 ==> 0 <= t - five_minutes(t) < 300,
        t < 0 ==> 0 <= five_minutes(t) - t < 300,
{
    let a: int = if t >= 0 { t as int } else { -(t as int) };
    assert(0 <= a / 300 * 300 <= a) by (nonlinear_arith)
        requires a >= 0;
    assert(a - a / 300 * 300 < 300) by (nonlinear_arith)
        requires a >= 0;
    assert((a / 300 * 300) / 300 * 300 == a / 300 * 300) by (nonlinear_arith)
        requires a >= 0;
    assert((a / 300 * 300) % 300 == 0) by (nonlinear_arith)
        requires a >= 0;
    assert((-(a / 300 * 300)) % 300 == 0) by (nonlinear_arith)
        requires (a / 300 * 300) % 300 == 0;
}

} // verus!
