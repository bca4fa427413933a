//! Simple moving averages over a record sequence.

use vstd::prelude::*;
use crate::models::{HousingData, SmaConfig};
use crate::series::{listings_sum, price_count, price_sum, prices_of};

verus! {

/// One point of a moving-average series. The exact window average at
/// input index `index` is the quotient `sum / count`; it is left as a
/// sum and a positive count so that nothing is rounded.
#[derive(Clone, Copy, PartialEq, Eq, Structural, Debug)]
pub struct SmaPoint {
    /// Position in the input sequence this average belongs to.
    pub index: usize,
    /// Sum of the metric values that entered the window.
    pub sum: u128,
    /// How many values entered the window.
    pub count: usize,
}

/// The part of the price moving-average series whose point indices lie
/// below `k`, as (index, window sum, window count) triples.
pub open spec fn price_sma_upto(s: Seq<HousingData>, period: int, k: int) -> Seq<(int, int, int)>
    decreases k,
{
    if k < period || period <= 0 {
        Seq::empty()
    } else {
        let p = prices_of(s);
        let c = price_count(p, k - period, k);
        price_sma_upto(s, period, k - 1) + if c > 0 {
            seq![(k - 1, price_sum(p, k - period, k), c)]
        } else {
            Seq::empty()
        }
    }
}

/// The price moving-average series over windows of length `period`: one
/// triple (index, window sum, window count) for every index `i` in
/// `[period − 1, N)` whose window `[i − period + 1, i]` holds at least
/// one known price; windows with no known price are skipped silently.
pub open spec fn price_sma(s: Seq<HousingData>, period: int) -> Seq<(int, int, int)> {
    price_sma_upto(s, period, s.len() as int)
}

/// Helper induction for the length law, over the point-index bound `k`.
pub proof fn lemma_sma_upto_len(s: Seq<HousingData>, period: int, k: int)
    requires
        period >= 1,
    ensures
        k < period ==> price_sma_upto(s, period, k).len() == 0,
        k >= period ==> price_sma_upto(s, period, k).len() <= k - period + 1,
    decreases k,
{
    if k >= period {
        lemma_sma_upto_len(s, period, k - 1);
    }
}

/// The length law: over `N` records with window length `period`, the
/// price series holds at most `N − period + 1` points, and exactly none
/// when `N < period`.
pub proof fn lemma_sma_length(s: Seq<HousingData>, period: int)
    requires
        period >= 1,
    ensures
        s.len() < period ==> price_sma(s, period).len() == 0,
        s.len() >= period ==> price_sma(s, period).len() <= s.len() - period + 1,
{
    lemma_sma_upto_len(s, period, s.len() as int);
}

/// The price moving average: for every input index with a full window
/// behind it, the sum and count of the known prices in that window,
/// skipping windows in which every price is unknown. The divisor of the
/// average is the count of known prices in the window, not `period`.
pub fn calculate_sma(data: &Vec<HousingData>, config: &SmaConfig) -> (r: Vec<SmaPoint>)
    requires
        config.period_days >= 1,
    ensures
        ({
            let m = price_sma(data@, config.period_days as int);
            &&& r@.len() == m.len()
            &&& forall|j: int| 0 <= j < m.len() ==> {
                &&& (#[trigger] r@[j]).index as int == m[j].0
                &&& r@[j].sum as int == m[j].1
                &&& r@[j].count as int == m[j].2
            }
        }),
{
    let ghost p = prices_of(data@);
    let period = config.period_days as usize;
    let n = data.len();
    let mut r: Vec<SmaPoint> = Vec::new();
    if n < period {
        return r;
    }

    let mut i: usize = period - 1;
    while i < n
        invariant
            n == data@.len(),
            p == prices_of(data@),
            period == config.period_days as usize,
            1 <= period <= n,
            period - 1 <= i <= n,
            ({
                let m = price_sma_upto(data@, period as int, i as int);
                &&& r@.len() == m.len()
                &&& forall|j: int| 0 <= j < m.len() ==> {
                    &&& (#[trigger] r@[j]).index as int == m[j].0
                    &&& r@[j].sum as int == m[j].1
                    &&& r@[j].count as int == m[j].2
                }
            }),
        decreases n - i,
    {
        let lo = i + 1 - period;
        let mut sum: u128 = 0;
        let mut count: usize = 0;
        let mut j = lo;
        while j <= i
            invariant
                n == data@.len(),
                p == prices_of(data@),
                lo == i as int + 1 - period,
                0 <= lo <= j <= i + 1 <= n,
                sum == price_sum(p, lo as int, j as int),
                count as int == price_count(p, lo as int, j as int),
                count <= j - lo,
                sum <= (j - lo) as int * 0xffff_ffff,
            decreases i + 1 - j,
        {
            let rec = data[j];
            assert(p[j as int] == rec.avg_price_per_sqft);
            match rec.avg_price_per_sqft {
                Option::Some(v) => {
                    sum = sum + v as u128;
                    count = count + 1;
                },
                Option::None => {},
            }
            j = j + 1;
        }
        if count > 0 {
            r.push(SmaPoint { index: i, sum, count });
        }
        assert(price_sma_upto(data@, period as int, i as int + 1) == price_sma_upto(
            data@,
            period as int,
            i as int,
        ) + if price_count(p, i as int + 1 - period, i as int + 1) > 0 {
            seq![
                (
                    i as int,
                    price_sum(p, i as int + 1 - period, i as int + 1),
                    price_count(p, i as int + 1 - period, i as int + 1),
                ),
            ]
        } else {
            Seq::empty()
        });
        i = i + 1;
    }
    r
}

/// The listings moving average: one point for every input index with a
/// full window behind it. Listing counts are never missing, so every
/// such window is emitted and the divisor is always `period` exactly.
pub fn calculate_listings_sma(data: &Vec<HousingData>, config: &SmaConfig) -> (r: Vec<SmaPoint>)
    requires
        config.period_days >= 1,
    ensures
        data@.len() < config.period_days ==> r@.len() == 0,
        data@.len() >= config.period_days ==> r@.len() == data@.len() - config.period_days + 1,
        forall|j: int| 0 <= j < r@.len() ==> {
            &&& (#[trigger] r@[j]).index as int == config.period_days - 1 + j
            &&& r@[j].sum as int == listings_sum(data@, j, j + config.period_days)
            &&& r@[j].count as int == config.period_days
        },
{
    let period = config.period_days as usize;
    let n = data.len();
    let mut r: Vec<SmaPoint> = Vec::new();
    if n < period {
        return r;
    }

    let mut i: usize = period - 1;
    while i < n
        invariant
            n == data@.len(),
            period == config.period_days as usize,
            1 <= period <= n,
            period - 1 <= i <= n,
            r@.len() == i - (period - 1),
            forall|j: int| 0 <= j < r@.len() ==> {
                &&& (#[trigger] r@[j]).index as int == period - 1 + j
                &&& r@[j].sum as int == listings_sum(data@, j, j + period)
                &&& r@[j].count as int == period
            },
        decreases n - i,
    {
        let lo = i + 1 - period;
        let mut sum: u128 = 0;
        let mut j = lo;
        while j <= i
            invariant
                n == data@.len(),
                lo == i as int + 1 - period,
                0 <= lo <= j <= i + 1 <= n,
                sum == listings_sum(data@, lo as int, j as int),
                sum <= (j - lo) as int * 0xffff_ffff,
            decreases i + 1 - j,
        {
            let rec = data[j];
            sum = sum + rec.active_listings as u128;
            j = j + 1;
        }
        r.push(SmaPoint { index: i, sum, count: period });
        i = i + 1;
    }
    r
}

} // verus!
