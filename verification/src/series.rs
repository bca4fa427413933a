//! Spec-level view of a record sequence: range sums and counts over the
//! price column, and neighbor scans used by the gap interpolator.

use vstd::prelude::*;
use crate::models::HousingData;

verus! {

/// The price column of a record sequence.
pub open spec fn prices_of(s: Seq<HousingData>) -> Seq<Option<u32>> {
    s.map_values(|d: HousingData| d.avg_price_per_sqft)
}

/// Sum of the known prices at indices `[lo, hi)`.
pub open spec fn price_sum(p: Seq<Option<u32>>, lo: int, hi: int) -> int
    decreases hi - lo,
{
    if lo >= hi {
        0
    } else {
        price_sum(p, lo, hi - 1) + match p[hi - 1] {
            Option::Some(v) => v as int,
            Option::None => 0,
        }
    }
}

/// Number of known prices at indices `[lo, hi)`.
pub open spec fn price_count(p: Seq<Option<u32>>, lo: int, hi: int) -> int
    decreases hi - lo,
{
    if lo >= hi {
        0
    } else {
        price_count(p, lo, hi - 1) + if p[hi - 1] is Some {
            1int
        } else {
            0int
        }
    }
}

/// Sum of the squares of the known prices at indices `[lo, hi)`.
pub open spec fn price_sum_sq(p: Seq<Option<u32>>, lo: int, hi: int) -> int
    decreases hi - lo,
{
    if lo >= hi {
        0
    } else {
        price_sum_sq(p, lo, hi - 1) + match p[hi - 1] {
            Option::Some(v) => v * v,
            Option::None => 0,
        }
    }
}

/// Sum of the listing counts at indices `[lo, hi)`; listings are never
/// missing, so every index contributes.
pub open spec fn listings_sum(s: Seq<HousingData>, lo: int, hi: int) -> int
    decreases hi - lo,
{
    if lo >= hi {
        0
    } else {
        listings_sum(s, lo, hi - 1) + s[hi - 1].active_listings as int
    }
}

/// Every price at indices `[lo, hi)` is unknown.
pub open spec fn all_missing(p: Seq<Option<u32>>, lo: int, hi: int) -> bool {
    forall|j: int| lo <= j < hi ==> (#[trigger] p[j]) is None
}

/// The earliest known price at an index at or after `i`, or `None` if the
/// rest of the column is all unknown.
pub open spec fn known_from(p: Seq<Option<u32>>, i: int) -> Option<u32>
    decreases p.len() - i,
{
    if i < 0 || i >= p.len() {
        Option::None
    } else if p[i] is Some {
        p[i]
    } else {
        known_from(p, i + 1)
    }
}

/// The latest known price at an index strictly before `i`, or `None` if
/// everything before `i` is unknown.
pub open spec fn known_before(p: Seq<Option<u32>>, i: int) -> Option<u32>
    decreases i,
{
    if i <= 0 || i > p.len() {
        Option::None
    } else if p[i - 1] is Some {
        p[i - 1]
    } else {
        known_before(p, i - 1)
    }
}

/// First known price of the column, in sequence order.
pub open spec fn first_known(p: Seq<Option<u32>>) -> Option<u32> {
    known_from(p, 0)
}

/// Last known price of the column, in sequence order.
pub open spec fn last_known(p: Seq<Option<u32>>) -> Option<u32> {
    known_before(p, p.len() as int)
}

/// Two record sequences that agree on everything except possibly the
/// price column.
pub open spec fn same_shape(a: Seq<HousingData>, b: Seq<HousingData>) -> bool {
    &&& a.len() == b.len()
    &&& forall|i: int| 0 <= i < a.len() ==> {
        &&& (#[trigger] a[i]).date == b[i].date
        &&& a[i].active_listings == b[i].active_listings
        &&& a[i].data_source == b[i].data_source
        &&& a[i].last_updated == b[i].last_updated
    }
}

/// A forward scan may start anywhere inside a stretch of unknown prices
/// without changing its result.
pub proof fn lemma_known_from_skips(p: Seq<Option<u32>>, lo: int, i: int)
    requires
        0 <= lo <= i <= p.len(),
        all_missing(p, lo, i),
    ensures
        known_from(p, lo) == known_from(p, i),
    decreases i - lo,
{
    if lo < i {
        lemma_known_from_skips(p, lo + 1, i);
    }
}

/// The count of known prices over a range depends only on that range.
pub proof fn lemma_price_count_congruence(p: Seq<Option<u32>>, q: Seq<Option<u32>>, lo: int, hi: int)
    requires
        0 <= lo,
        hi <= p.len(),
        hi <= q.len(),
        forall|j: int| lo <= j < hi ==> p[j] == q[j],
    ensures
        price_count(p, lo, hi) == price_count(q, lo, hi),
    decreases hi - lo,
{
    if lo < hi {
        lemma_price_count_congruence(p, q, lo, hi - 1);
    }
}

/// A forward scan finds a price exactly when not everything from its
/// start is unknown.
pub proof fn lemma_known_from_found(p: Seq<Option<u32>>, i: int)
    requires
        0 <= i <= p.len(),
    ensures
        known_from(p, i) is Some <==> !all_missing(p, i, p.len() as int),
    decreases p.len() - i,
{
    if i < p.len() {
        lemma_known_from_found(p, i + 1);
    }
}

/// A backward scan finds a price exactly when not everything before its
/// start is unknown.
pub proof fn lemma_known_before_found(p: Seq<Option<u32>>, i: int)
    requires
        0 <= i <= p.len(),
    ensures
        known_before(p, i) is Some <==> !all_missing(p, 0, i),
    decreases i,
{
    if i > 0 {
        lemma_known_before_found(p, i - 1);
    }
}

} // verus!
