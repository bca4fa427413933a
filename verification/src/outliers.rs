//! Detection and removal of statistically anomalous prices.
//!
//! A price is an outlier when it deviates from the mean of all known
//! prices by strictly more than three population standard deviations.
//! With integer prices the test can be carried out exactly: for mean
//! `μ = S / n` and population variance `σ² = Q / n − (S / n)²` over the
//! known prices (sum `S`, sum of squares `Q`, count `n`), the condition
//! `|v − μ| > 3σ` is equivalent to `(n·v − S)² > 9·(n·Q − S²)`, which
//! needs no division and no square root.

use vstd::prelude::*;
use crate::models::HousingData;
use crate::series::{
    lemma_price_count_congruence, price_count, price_sum, price_sum_sq, prices_of, same_shape,
};

verus! {

/// The exact three-sigma test: whether a known price `v` deviates from
/// the mean by strictly more than three population standard deviations,
/// given the count `n`, sum `s` and sum of squares `q` of all known
/// prices.
pub open spec fn is_outlier(v: int, n: int, s: int, q: int) -> bool {
    (n * v - s) * (n * v - s) > 9 * (n * q - s * s)
}

/// The price column after outlier removal: every known price that fails
/// the three-sigma test against the column's own statistics becomes
/// unknown. A column with fewer than 3 known prices is left as it is.
pub open spec fn filter_outliers(p: Seq<Option<u32>>) -> Seq<Option<u32>> {
    let n = price_count(p, 0, p.len() as int);
    let s = price_sum(p, 0, p.len() as int);
    let q = price_sum_sq(p, 0, p.len() as int);
    if n < 3 {
        p
    } else {
        p.map_values(
            |o: Option<u32>| match o {
                Option::Some(v) => if is_outlier(v as int, n, s, q) {
                    Option::None
                } else {
                    Option::Some(v)
                },
                Option::None => Option::None,
            },
        )
    }
}

/// Null every outlier price in place and report how many were nulled.
///
/// The statistics are taken over the input once; a record's other fields
/// are never touched. With fewer than 3 known prices nothing happens.
/// The length bound keeps every intermediate product of the exact test
/// inside 128-bit arithmetic.
pub fn remove_outliers(data: &mut Vec<HousingData>) -> (removed: usize)
    requires
        old(data)@.len() <= 0x0800_0000,
    ensures
        same_shape(final(data)@, old(data)@),
        prices_of(final(data)@) == filter_outliers(prices_of(old(data)@)),
        removed as int == price_count(prices_of(old(data)@), 0, old(data)@.len() as int)
            - price_count(prices_of(final(data)@), 0, final(data)@.len() as int),
        price_count(prices_of(old(data)@), 0, old(data)@.len() as int) < 3 ==> final(data)@
            == old(data)@ && removed == 0,
{
    let ghost orig = data@;
    let ghost p0 = prices_of(orig);
    let n0 = data.len();

    let mut pcount: usize = 0;
    let mut psum: u128 = 0;
    let mut psumsq: u128 = 0;
    let mut i: usize = 0;
    while i < n0
        invariant
            n0 == data@.len(),
            data@ == orig,
            p0 == prices_of(orig),
            n0 <= 0x0800_0000,
            0 <= i <= n0,
            pcount as int == price_count(p0, 0, i as int),
            pcount <= i,
            psum == price_sum(p0, 0, i as int),
            psum <= i as int * 0xffff_ffff,
            psumsq == price_sum_sq(p0, 0, i as int),
            psumsq <= i as int * 0xffff_fffe_0000_0001,
        decreases n0 - i,
    {
        let rec = data[i];
        assert(p0[i as int] == rec.avg_price_per_sqft);
        match rec.avg_price_per_sqft {
            Option::Some(v) => {
                assert(v as u128 * v as u128 <= 0xffff_fffe_0000_0001) by (nonlinear_arith)
                    requires
                        v <= 0xffff_ffffu32,
                ;
                psum = psum + v as u128;
                psumsq = psumsq + v as u128 * v as u128;
                pcount = pcount + 1;
            },
            Option::None => {},
        }
        i = i + 1;
    }

    if pcount < 3 {
        return 0;
    }

    let nn: i128 = pcount as i128;
    let ss: i128 = psum as i128;
    let qq: i128 = psumsq as i128;

    let mut removed: usize = 0;
    let mut i: usize = 0;
    while i < n0
        invariant
            n0 == data@.len(),
            orig.len() == n0,
            p0 == prices_of(orig),
            same_shape(data@, orig),
            n0 <= 0x0800_0000,
            0 <= i <= n0,
            forall|j: int| i <= j < n0 ==> data@[j] == orig[j],
            forall|j: int| 0 <= j < i ==> prices_of(data@)[j] == filter_outliers(p0)[j],
            3 <= pcount <= n0,
            nn == price_count(p0, 0, n0 as int),
            3 <= nn <= 0x0800_0000,
            ss == price_sum(p0, 0, n0 as int),
            0 <= ss <= n0 as int * 0xffff_ffff,
            qq == price_sum_sq(p0, 0, n0 as int),
            0 <= qq <= n0 as int * 0xffff_fffe_0000_0001,
            removed as int == price_count(p0, 0, i as int) - price_count(
                prices_of(data@),
                0,
                i as int,
            ),
            removed <= i,
        decreases n0 - i,
    {
        let ghost before = prices_of(data@);
        let rec = data[i];
        assert(prices_of(data@)[i as int] == rec.avg_price_per_sqft);
        assert(p0[i as int] == rec.avg_price_per_sqft);
        match rec.avg_price_per_sqft {
            Option::Some(v) => {
                let vv: i128 = v as i128;
                proof {
                    assert(0 <= nn * vv <= 0x0800_0000 * 0xffff_ffff && -(0x0800_0000
                        * 0xffff_ffff) <= nn * vv - ss <= 0x0800_0000 * 0xffff_ffff && (nn * vv
                        - ss) * (nn * vv - ss) <= (0x0800_0000 * 0xffff_ffff) * (0x0800_0000
                        * 0xffff_ffff) && 0 <= nn * qq <= 0x0800_0000 * (0x0800_0000
                        * 0xffff_fffe_0000_0001) && 0 <= ss * ss <= (0x0800_0000 * 0xffff_ffff) * (
                    0x0800_0000 * 0xffff_ffff)) by (nonlinear_arith)
                        requires
                            0 <= nn <= 0x0800_0000,
                            0 <= vv <= 0xffff_ffff,
                            0 <= ss <= 0x0800_0000 * 0xffff_ffff,
                            0 <= qq <= 0x0800_0000 * 0xffff_fffe_0000_0001,
                    ;
                }
                let d: i128 = nn * vv - ss;
                proof {
                    assert(0 <= d * d <= (0x0800_0000 * 0xffff_ffff) * (0x0800_0000 * 0xffff_ffff))
                        by (nonlinear_arith)
                        requires
                            -(0x0800_0000 * 0xffff_ffff) <= d <= 0x0800_0000 * 0xffff_ffff,
                    ;
                }
                let lhs: i128 = d * d;
                let rhs: i128 = 9 * (nn * qq - ss * ss);
                if lhs > rhs {
                    let mut changed = rec;
                    changed.avg_price_per_sqft = Option::None;
                    data.set(i, changed);
                    removed = removed + 1;
                }
            },
            Option::None => {},
        }
        proof {
            lemma_price_count_congruence(before, prices_of(data@), 0, i as int);
            assert(prices_of(data@)[i as int] == filter_outliers(p0)[i as int]);
        }
        i = i + 1;
    }

    proof {
        assert(prices_of(data@) =~= filter_outliers(p0));
    }
    removed
}

/// After outlier removal over a column with at least 3 known prices,
/// every price still known deviates from the mean of the original
/// statistics by at most three population standard deviations; in the
/// exact integer form, `(n·v − S)² ≤ 9·(n·Q − S²)`. With fewer than 3
/// known prices the column is returned unchanged.
pub proof fn lemma_outlier_threshold(p: Seq<Option<u32>>)
    ensures
        ({
            let n = price_count(p, 0, p.len() as int);
            let s = price_sum(p, 0, p.len() as int);
            let q = price_sum_sq(p, 0, p.len() as int);
            let f = filter_outliers(p);
            &&& n >= 3 ==> forall|i: int|
                0 <= i < f.len() && (#[trigger] f[i]) is Some ==> (n * (f[i]->0 as int) - s) * (n
                    * (f[i]->0 as int) - s) <= 9 * (n * q - s * s)
            &&& n < 3 ==> f == p
        }),
{
}

} // verus!
