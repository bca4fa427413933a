//! Midpoint interpolation of missing prices.
//!
//! Indices are processed in ascending order. For each unknown price the
//! nearest known price before it and the nearest known price after it
//! are looked up in the column *as it stands at that moment*: the
//! backward search therefore sees values filled at earlier indices,
//! while the forward search always sees original data. Both neighbors
//! must exist for a fill to happen; the fill value is the midpoint of
//! the two, rounded down.

use vstd::prelude::*;
use crate::models::HousingData;
use crate::series::{known_before, known_from, prices_of, same_shape};

verus! {

/// Whether the interpolator fills index `i` of a column in state `p`:
/// the price is unknown and a known neighbor exists on each side.
pub open spec fn fillable(p: Seq<Option<u32>>, i: int) -> bool {
    &&& p[i] is None
    &&& known_before(p, i) is Some
    &&& known_from(p, i + 1) is Some
}

/// One interpolator step: the state of the column after index `i` has
/// been processed in state `p`.
pub open spec fn fill_at(p: Seq<Option<u32>>, i: int) -> Seq<Option<u32>> {
    if fillable(p, i) {
        p.update(
            i,
            Option::Some(
                (((known_before(p, i)->0 as int) + (known_from(p, i + 1)->0 as int)) / 2) as u32,
            ),
        )
    } else {
        p
    }
}

/// The state of the column after the interpolator has processed indices
/// `[0, k)` in ascending order.
pub open spec fn interp_upto(p: Seq<Option<u32>>, k: int) -> Seq<Option<u32>>
    decreases k,
{
    if k <= 0 {
        p
    } else {
        fill_at(interp_upto(p, k - 1), k - 1)
    }
}

/// The column after a full interpolator run.
pub open spec fn interpolated(p: Seq<Option<u32>>) -> Seq<Option<u32>> {
    interp_upto(p, p.len() as int)
}

/// How many indices the interpolator fills over `[0, k)`.
pub open spec fn fill_count_upto(p: Seq<Option<u32>>, k: int) -> int
    decreases k,
{
    if k <= 0 {
        0
    } else {
        fill_count_upto(p, k - 1) + if fillable(interp_upto(p, k - 1), k - 1) {
            1int
        } else {
            0int
        }
    }
}

/// How many indices a full interpolator run fills.
pub open spec fn fill_count(p: Seq<Option<u32>>) -> int {
    fill_count_upto(p, p.len() as int)
}

/// An interpolator step never changes the column's length.
pub proof fn lemma_interp_len(p: Seq<Option<u32>>, k: int)
    ensures
        interp_upto(p, k).len() == p.len(),
    decreases k,
{
    if k > 0 {
        lemma_interp_len(p, k - 1);
    }
}

/// Indices not yet processed still hold their original value.
pub proof fn lemma_interp_suffix(p: Seq<Option<u32>>, k: int, j: int)
    requires
        k <= j < p.len(),
    ensures
        interp_upto(p, k)[j] == p[j],
    decreases k,
{
    if k > 0 {
        lemma_interp_len(p, k - 1);
        lemma_interp_suffix(p, k - 1, j);
    }
}

/// Once an index has been processed, later steps leave it unchanged.
pub proof fn lemma_interp_prefix(p: Seq<Option<u32>>, m: int, k: int, j: int)
    requires
        0 <= j < m <= k,
        k <= p.len(),
    ensures
        interp_upto(p, k)[j] == interp_upto(p, m)[j],
    decreases k - m,
{
    if m < k {
        lemma_interp_len(p, k - 1);
        lemma_interp_prefix(p, m, k - 1, j);
    }
}

/// Interpolation never touches the first index of the column: a missing
/// value there has no preceding neighbor.
pub proof fn lemma_interp_first(p: Seq<Option<u32>>, k: int)
    requires
        p.len() > 0,
        k <= p.len(),
    ensures
        interp_upto(p, k)[0] == p[0],
    decreases k,
{
    if k > 0 {
        lemma_interp_first(p, k - 1);
        lemma_interp_len(p, k - 1);
    }
}

/// Interpolation never touches the last index of the column: a missing
/// value there has no following neighbor.
pub proof fn lemma_interp_last(p: Seq<Option<u32>>, k: int)
    requires
        p.len() > 0,
        k <= p.len(),
    ensures
        interp_upto(p, k)[p.len() - 1] == p[p.len() - 1],
    decreases k,
{
    if k > 0 {
        lemma_interp_last(p, k - 1);
        lemma_interp_len(p, k - 1);
    }
}

/// The boundary law: a full interpolator run leaves the first and the
/// last value of the column exactly as they were; in particular a
/// missing value at either boundary is never filled.
pub proof fn lemma_interpolate_boundary(p: Seq<Option<u32>>)
    requires
        p.len() > 0,
    ensures
        interpolated(p)[0] == p[0],
        interpolated(p)[p.len() - 1] == p[p.len() - 1],
{
    lemma_interp_first(p, p.len() as int);
    lemma_interp_last(p, p.len() as int);
}

/// On a column where no index is fillable, the interpolator is the
/// identity and fills nothing.
pub proof fn lemma_interp_stable_upto(q: Seq<Option<u32>>, k: int)
    requires
        forall|i: int| 0 <= i < q.len() ==> !fillable(q, i),
        k <= q.len(),
    ensures
        interp_upto(q, k) == q,
        fill_count_upto(q, k) == 0,
    decreases k,
{
    if k > 0 {
        lemma_interp_stable_upto(q, k - 1);
    }
}

/// After a full interpolator run no index is fillable any more: every
/// still-missing value lacks a known neighbor on at least one side.
pub proof fn lemma_interpolated_stable(p: Seq<Option<u32>>)
    ensures
        forall|i: int| 0 <= i < p.len() ==> !fillable(#[trigger] interpolated(p), i),
{
    let n = p.len() as int;
    let f = interpolated(p);
    lemma_interp_len(p, n);
    assert forall|i: int| 0 <= i < n implies !fillable(f, i) by {
        if f[i] is None {
            let t = interp_upto(p, i);
            lemma_interp_len(p, i);
            lemma_interp_len(p, i + 1);
            lemma_interp_prefix(p, i + 1, n, i);
            if fillable(t, i) {
                assert(interp_upto(p, i + 1)[i] is Some);
                assert(false);
            }
            assert(t[i] is None);
            if known_before(t, i) is None {
                crate::series::lemma_known_before_found(t, i);
                assert forall|j: int| 0 <= j < i implies (#[trigger] f[j]) is None by {
                    lemma_interp_prefix(p, i, n, j);
                };
                crate::series::lemma_known_before_found(f, i);
            } else {
                assert(known_from(t, i + 1) is None);
                crate::series::lemma_known_from_found(t, i + 1);
                assert forall|j: int| i + 1 <= j < n implies (#[trigger] f[j]) is None by {
                    let tj = interp_upto(p, j);
                    lemma_interp_len(p, j);
                    lemma_interp_suffix(p, i, j);
                    lemma_interp_suffix(p, j, j);
                    assert forall|l: int| j + 1 <= l < n implies (#[trigger] tj[l]) is None by {
                        lemma_interp_suffix(p, i, l);
                        lemma_interp_suffix(p, j, l);
                    };
                    crate::series::lemma_known_from_found(tj, j + 1);
                    assert(!fillable(tj, j));
                    lemma_interp_prefix(p, j + 1, n, j);
                };
                crate::series::lemma_known_from_found(f, i + 1);
            }
        }
    };
}

/// The idempotence law: running the interpolator on a column that has
/// already been interpolated changes nothing and fills zero values.
pub proof fn lemma_interpolate_idempotent(p: Seq<Option<u32>>)
    ensures
        interpolated(interpolated(p)) == interpolated(p),
        fill_count(interpolated(p)) == 0,
{
    let f = interpolated(p);
    lemma_interp_len(p, p.len() as int);
    lemma_interpolated_stable(p);
    lemma_interp_stable_upto(f, f.len() as int);
}

/// The nearest known price strictly before index `i` of the current
/// column, scanning backward.
fn find_prev(data: &Vec<HousingData>, i: usize) -> (r: Option<u32>)
    requires
        i <= data@.len(),
    ensures
        r == known_before(prices_of(data@), i as int),
{
    let ghost p = prices_of(data@);
    let mut j = i;
    while j > 0
        invariant
            j <= i <= data@.len(),
            p == prices_of(data@),
            known_before(p, i as int) == known_before(p, j as int),
        decreases j,
    {
        j = j - 1;
        let rec = data[j];
        assert(p[j as int] == rec.avg_price_per_sqft);
        match rec.avg_price_per_sqft {
            Option::Some(v) => {
                return Option::Some(v);
            },
            Option::None => {},
        }
    }
    Option::None
}

/// The nearest known price strictly after index `i` of the current
/// column, scanning forward.
fn find_next(data: &Vec<HousingData>, i: usize) -> (r: Option<u32>)
    requires
        i < data@.len(),
    ensures
        r == known_from(prices_of(data@), i as int + 1),
{
    let ghost p = prices_of(data@);
    let n = data.len();
    let mut j = i + 1;
    while j < n
        invariant
            i as int + 1 <= j as int <= n == data@.len(),
            p == prices_of(data@),
            known_from(p, i as int + 1) == known_from(p, j as int),
        decreases n - j,
    {
        let rec = data[j];
        assert(p[j as int] == rec.avg_price_per_sqft);
        match rec.avg_price_per_sqft {
            Option::Some(v) => {
                return Option::Some(v);
            },
            Option::None => {},
        }
        j = j + 1;
    }
    Option::None
}

/// Fill unknown prices in place and report how many were filled.
///
/// Every index is processed in ascending order against the live column,
/// so a backward search may see a value filled at an earlier index; a
/// missing value at either boundary is never filled. Records' other
/// fields are never touched. Running the interpolator again on its own
/// output fills nothing further (see `lemma_interpolate_idempotent`).
pub fn interpolate_missing_data(data: &mut Vec<HousingData>) -> (filled: usize)
    ensures
        same_shape(final(data)@, old(data)@),
        prices_of(final(data)@) == interpolated(prices_of(old(data)@)),
        filled as int == fill_count(prices_of(old(data)@)),
{
    let ghost p0 = prices_of(data@);
    let n = data.len();
    let mut filled: usize = 0;
    let mut i: usize = 0;
    while i < n
        invariant
            n == data@.len(),
            p0.len() == n,
            same_shape(data@, old(data)@),
            p0 == prices_of(old(data)@),
            0 <= i <= n,
            prices_of(data@) == interp_upto(p0, i as int),
            filled as int == fill_count_upto(p0, i as int),
            filled <= i,
        decreases n - i,
    {
        let ghost cur = prices_of(data@);
        proof {
            lemma_interp_len(p0, i as int);
        }
        let rec = data[i];
        assert(cur[i as int] == rec.avg_price_per_sqft);
        if rec.avg_price_per_sqft.is_none() {
            let prev = find_prev(data, i);
            let next = find_next(data, i);
            match (prev, next) {
                (Option::Some(a), Option::Some(b)) => {
                    let m = ((a as u64 + b as u64) / 2) as u32;
                    let mut changed = rec;
                    changed.avg_price_per_sqft = Option::Some(m);
                    data.set(i, changed);
                    filled = filled + 1;
                    proof {
                        assert(fillable(cur, i as int));
                        assert(prices_of(data@) =~= fill_at(cur, i as int));
                    }
                },
                _ => {
                    proof {
                        assert(!fillable(cur, i as int));
                    }
                },
            }
        } else {
            proof {
                assert(!fillable(cur, i as int));
            }
        }
        i = i + 1;
    }
    filled
}

} // verus!
