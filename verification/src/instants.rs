//! Instants as seconds since the Unix epoch, checked against the calendar range of `chrono`.
use vstd::prelude::*;

verus! {

/// The first instant that `chrono` represents: January 1 of the year -262143, 00:00:00 UTC.
pub const MIN_INSTANT: i64 = -8_334_601_228_800;

/// The last instant that `chrono` represents: December 31 of the year 262142, 23:59:59 UTC.
pub const MAX_INSTANT: i64 = 8_210_266_876_799;

/// Whether an instant, in seconds since the epoch, falls within the dates that `chrono`
/// represents.
pub open spec fn chrono_instant_in_range(secs: i64) -> bool {
    MIN_INSTANT <= secs <= MAX_INSTANT
}

/// `chrono::DateTime::from_timestamp(secs, 0)`, read back with `timestamp()`: the instant where
/// `chrono` represents it (its documentation says the two round-trip), nothing otherwise. The
/// source takes the day `secs.div_euclid(86_400) + 719_163` from the start of the era and
/// accepts it exactly when its year lies in `MIN_YEAR..=MAX_YEAR`, that is
/// `(i32::MIN >> 13) + 1 ..= (i32::MAX >> 13) - 1`; the first and last seconds of those days
/// are `MIN_INSTANT` and `MAX_INSTANT`.
#[verifier::external_body]
pub(crate) fn checked_instant(secs: i64) -> (res: Option<i64>)
    ensures
        res == (if chrono_instant_in_range(secs) { Some(secs) } else { None::<i64> }),
{
    match chrono::DateTime::from_timestamp(secs, 0) {
        Some(t) => Some(t.timestamp()),
        None => None,
    }
}

/// An optional instant where `chrono` represents it; nothing where none is given or it is
/// out of range.
pub fn optional_instant(secs: Option<i64>) -> (res: Option<i64>)
    ensures
        res == (match secs {
            Some(t) => if chrono_instant_in_range(t) { Some(t) } else { None::<i64> },
            None => None::<i64>,
        }),
{
    match secs {
        Some(t) => checked_instant(t),
        None => None,
    }
}

} // verus!
