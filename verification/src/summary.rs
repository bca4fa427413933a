//! Aggregate summary statistics over a record sequence.

use vstd::prelude::*;
use crate::models::{HousingData, MarketSummary, Ratio, SummaryError};
use crate::series::{
    all_missing, first_known, known_before, known_from, last_known, lemma_known_from_skips,
    listings_sum, price_count, price_sum, prices_of,
};

verus! {

/// Percent change from the first known price to the last, as an exact
/// quotient. A zero or absent baseline yields zero rather than an error.
pub open spec fn percent_change(first: Option<u32>, last: Option<u32>) -> Ratio {
    match (first, last) {
        (Option::Some(f), Option::Some(l)) => if f > 0 {
            Ratio { num: ((l - f) * 100) as i128, den: f as u128 }
        } else {
            Ratio { num: 0, den: 1 }
        },
        _ => Ratio { num: 0, den: 1 },
    }
}

/// Reduce a record sequence to its descriptive statistics.
///
/// Fails on an empty sequence, and on one whose prices are all unknown;
/// otherwise every field of the summary is pinned down exactly: the two
/// averages as exact quotients, the extremes of the known prices, the
/// percent change between the first and last known price, and the total
/// record count.
pub fn generate_market_summary(data: &Vec<HousingData>) -> (r: Result<
    MarketSummary,
    SummaryError,
>)
    ensures
        ({
            let p = prices_of(data@);
            let n = data@.len() as int;
            let k = price_count(p, 0, n);
            &&& (r is Err <==> n == 0 || k == 0)
            &&& (n == 0 ==> r == Result::<MarketSummary, SummaryError>::Err(
                SummaryError::EmptyDataset,
            ))
            &&& (n > 0 && k == 0 ==> r == Result::<MarketSummary, SummaryError>::Err(
                SummaryError::NoValidPriceData,
            ))
            &&& (r matches Ok(s) ==> {
                &&& s.data_points == n
                &&& s.avg_listings == (Ratio {
                    num: listings_sum(data@, 0, n) as i128,
                    den: n as u128,
                })
                &&& s.avg_price_per_sqft == (Ratio {
                    num: price_sum(p, 0, n) as i128,
                    den: k as u128,
                })
                &&& exists|i: int| 0 <= i < n && (#[trigger] p[i]) == Option::Some(s.min_price_per_sqft)
                &&& forall|i: int| 0 <= i < n && (#[trigger] p[i]) is Some ==> s.min_price_per_sqft <= p[i]->0
                &&& exists|i: int| 0 <= i < n && (#[trigger] p[i]) == Option::Some(s.max_price_per_sqft)
                &&& forall|i: int| 0 <= i < n && (#[trigger] p[i]) is Some ==> p[i]->0 <= s.max_price_per_sqft
                &&& s.price_change_percent == percent_change(first_known(p), last_known(p))
            })
        }),
{
    let ghost p = prices_of(data@);
    let n = data.len();
    if n == 0 {
        return Result::Err(SummaryError::EmptyDataset);
    }

    let mut listings_total: u128 = 0;
    let mut psum: u128 = 0;
    let mut pcount: usize = 0;
    let mut pmin: u32 = 0;
    let mut pmax: u32 = 0;
    let mut first: Option<u32> = Option::None;
    let mut last: Option<u32> = Option::None;

    let mut i: usize = 0;
    while i < n
        invariant
            n == data@.len(),
            p == prices_of(data@),
            0 <= i <= n,
            listings_total == listings_sum(data@, 0, i as int),
            listings_total <= i as int * 0xffff_ffff,
            psum == price_sum(p, 0, i as int),
            psum <= i as int * 0xffff_ffff,
            pcount as int == price_count(p, 0, i as int),
            pcount <= i,
            pcount == 0 <==> all_missing(p, 0, i as int),
            pcount > 0 ==> exists|j: int|
                0 <= j < i && (#[trigger] p[j]) == Option::Some(pmin),
            forall|j: int| 0 <= j < i && (#[trigger] p[j]) is Some ==> pmin <= p[j]->0,
            pcount > 0 ==> exists|j: int|
                0 <= j < i && (#[trigger] p[j]) == Option::Some(pmax),
            forall|j: int| 0 <= j < i && (#[trigger] p[j]) is Some ==> p[j]->0 <= pmax,
            pcount > 0 ==> first == known_from(p, 0),
            pcount == 0 ==> first is None,
            last == known_before(p, i as int),
        decreases n - i,
    {
        let rec = data[i];
        assert(p[i as int] == rec.avg_price_per_sqft);
        listings_total = listings_total + rec.active_listings as u128;
        match rec.avg_price_per_sqft {
            Option::Some(v) => {
                psum = psum + v as u128;
                if pcount == 0 {
                    proof {
                        lemma_known_from_skips(p, 0, i as int);
                    }
                    first = Option::Some(v);
                    pmin = v;
                    pmax = v;
                } else {
                    if v < pmin {
                        pmin = v;
                    }
                    if v > pmax {
                        pmax = v;
                    }
                }
                last = Option::Some(v);
                pcount = pcount + 1;
            },
            Option::None => {},
        }
        i = i + 1;
    }

    if pcount == 0 {
        return Result::Err(SummaryError::NoValidPriceData);
    }

    let change: Ratio = match (first, last) {
        (Option::Some(f), Option::Some(l)) => if f > 0 {
            Ratio { num: (l as i128 - f as i128) * 100, den: f as u128 }
        } else {
            Ratio { num: 0, den: 1 }
        },
        _ => Ratio { num: 0, den: 1 },
    };

    Result::Ok(
        MarketSummary {
            avg_listings: Ratio { num: listings_total as i128, den: n as u128 },
            avg_price_per_sqft: Ratio { num: psum as i128, den: pcount as u128 },
            min_price_per_sqft: pmin,
            max_price_per_sqft: pmax,
            price_change_percent: change,
            data_points: n,
        },
    )
}

} // verus!
